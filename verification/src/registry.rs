//! The operation registry: the closed, ordinally stable enumeration of host
//! operations, and the numeric-offset convention that distinguishes a live
//! request from the terminal status of an execution.
//!
//! Both sides of the boundary must agree on these numbers bit for bit: a
//! request travels as `ordinal + EVM_API_METHOD_REQ_OFFSET`, while a terminal
//! message reuses the same 32-bit channel with an identifier below the offset
//! and a single outcome byte as payload. Magnitude, not a discriminant field,
//! selects the meaning.

use vstd::prelude::*;

verus! {

/// The closed set of operations the engine can ask the host to perform.
/// The declaration order fixes the wire ordinals and must never change.
#[derive(Clone, Copy, Debug, PartialEq, Eq, Structural)]
pub enum EvmApiMethod {
    GetBytes32,
    SetTrieSlots,
    GetTransientBytes32,
    SetTransientBytes32,
    ContractCall,
    DelegateCall,
    StaticCall,
    Create1,
    Create2,
    EmitLog,
    AccountBalance,
    AccountCode,
    AccountCodeHash,
    AddPages,
    CaptureHostIO,
}

/// This offset is added to an operation's ordinal when sending a request;
/// a finished execution is also signalled by a "request", with an identifier
/// below this offset indicating the final status.
pub const EVM_API_METHOD_REQ_OFFSET: u32 = 0x10000000;

/// The fixed wire ordinal of each operation, `GetBytes32` = 0 through
/// `CaptureHostIO` = 14.
pub open spec fn ordinal_of(m: EvmApiMethod) -> u32 {
    match m {
        EvmApiMethod::GetBytes32 => 0,
        EvmApiMethod::SetTrieSlots => 1,
        EvmApiMethod::GetTransientBytes32 => 2,
        EvmApiMethod::SetTransientBytes32 => 3,
        EvmApiMethod::ContractCall => 4,
        EvmApiMethod::DelegateCall => 5,
        EvmApiMethod::StaticCall => 6,
        EvmApiMethod::Create1 => 7,
        EvmApiMethod::Create2 => 8,
        EvmApiMethod::EmitLog => 9,
        EvmApiMethod::AccountBalance => 10,
        EvmApiMethod::AccountCode => 11,
        EvmApiMethod::AccountCodeHash => 12,
        EvmApiMethod::AddPages => 13,
        EvmApiMethod::CaptureHostIO => 14,
    }
}

/// Law: the ordinal assignment is stable — `GetBytes32` is 0 through
/// `CaptureHostIO` 14 — and every ordinal lies below the request offset,
/// so the two interpretations of the shared channel can never collide.
pub proof fn lemma_ordinals_stable(m: EvmApiMethod)
    ensures
        ordinal_of(EvmApiMethod::GetBytes32) == 0,
        ordinal_of(EvmApiMethod::SetTrieSlots) == 1,
        ordinal_of(EvmApiMethod::GetTransientBytes32) == 2,
        ordinal_of(EvmApiMethod::SetTransientBytes32) == 3,
        ordinal_of(EvmApiMethod::ContractCall) == 4,
        ordinal_of(EvmApiMethod::DelegateCall) == 5,
        ordinal_of(EvmApiMethod::StaticCall) == 6,
        ordinal_of(EvmApiMethod::Create1) == 7,
        ordinal_of(EvmApiMethod::Create2) == 8,
        ordinal_of(EvmApiMethod::EmitLog) == 9,
        ordinal_of(EvmApiMethod::AccountBalance) == 10,
        ordinal_of(EvmApiMethod::AccountCode) == 11,
        ordinal_of(EvmApiMethod::AccountCodeHash) == 12,
        ordinal_of(EvmApiMethod::AddPages) == 13,
        ordinal_of(EvmApiMethod::CaptureHostIO) == 14,
        ordinal_of(m) <= 14,
{
}

impl EvmApiMethod {
    /// The fixed wire ordinal of this operation.
    pub fn ordinal(self) -> (r: u32)
        ensures
            r == ordinal_of(self),
    {
        match self {
            EvmApiMethod::GetBytes32 => 0,
            EvmApiMethod::SetTrieSlots => 1,
            EvmApiMethod::GetTransientBytes32 => 2,
            EvmApiMethod::SetTransientBytes32 => 3,
            EvmApiMethod::ContractCall => 4,
            EvmApiMethod::DelegateCall => 5,
            EvmApiMethod::StaticCall => 6,
            EvmApiMethod::Create1 => 7,
            EvmApiMethod::Create2 => 8,
            EvmApiMethod::EmitLog => 9,
            EvmApiMethod::AccountBalance => 10,
            EvmApiMethod::AccountCode => 11,
            EvmApiMethod::AccountCodeHash => 12,
            EvmApiMethod::AddPages => 13,
            EvmApiMethod::CaptureHostIO => 14,
        }
    }

    /// The identifier of a live request for this operation: the ordinal plus
    /// the request offset, hence always at or above the offset and never
    /// mistakable for a terminal status message.
    pub fn request_id(self) -> (r: u32)
        ensures
            r == ordinal_of(self) + EVM_API_METHOD_REQ_OFFSET,
            r >= EVM_API_METHOD_REQ_OFFSET,
    {
        self.ordinal() + EVM_API_METHOD_REQ_OFFSET
    }
}

/// Whether a 32-bit identifier on the shared channel is a live request (at or
/// above the request offset) rather than a terminal status message (below it).
pub fn is_request_id(id: u32) -> (r: bool)
    ensures
        r == (id >= EVM_API_METHOD_REQ_OFFSET),
{
    id >= EVM_API_METHOD_REQ_OFFSET
}

} // verus!
