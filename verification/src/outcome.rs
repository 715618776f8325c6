//! The outcome codifier: classification of the single status byte that ends
//! an invocation or answers a host call.
//!
//! Decoding is total over all byte values. Recognized bytes map to their
//! outcome; every unrecognized byte decodes defensively to `Failure`, so peer
//! implementations whose outcome enumeration has drifted still degrade safely
//! instead of raising a decode error.

use vstd::prelude::*;

verus! {

/// The closed set of outcomes an execution or host call can be classified
/// into.
#[derive(Clone, Copy, Debug, PartialEq, Eq, Structural)]
pub enum EvmApiStatus {
    Success,
    Failure,
    OutOfGas,
    WriteProtection,
}

/// The outcome a status byte stands for: 0 is `Success`, 2 `OutOfGas`,
/// 3 `WriteProtection`, and every other byte `Failure`.
pub open spec fn status_of_byte(value: u8) -> EvmApiStatus {
    if value == 0 {
        EvmApiStatus::Success
    } else if value == 2 {
        EvmApiStatus::OutOfGas
    } else if value == 3 {
        EvmApiStatus::WriteProtection
    } else {
        EvmApiStatus::Failure
    }
}

/// The byte an outcome puts on the wire, in the fixed variant order.
pub open spec fn byte_of_status(s: EvmApiStatus) -> u8 {
    match s {
        EvmApiStatus::Success => 0,
        EvmApiStatus::Failure => 1,
        EvmApiStatus::OutOfGas => 2,
        EvmApiStatus::WriteProtection => 3,
    }
}

/// Law: outcome decoding is total and exact — byte 0 decodes to `Success`,
/// byte 2 to `OutOfGas`, byte 3 to `WriteProtection`, and every remaining
/// byte value (1 and 4 through 255) to `Failure`.
pub proof fn lemma_status_decoding_total(value: u8)
    ensures
        value == 0 ==> status_of_byte(value) == EvmApiStatus::Success,
        value == 2 ==> status_of_byte(value) == EvmApiStatus::OutOfGas,
        value == 3 ==> status_of_byte(value) == EvmApiStatus::WriteProtection,
        value != 0 && value != 2 && value != 3 ==> status_of_byte(value)
            == EvmApiStatus::Failure,
{
}

impl EvmApiStatus {
    /// The single status byte this outcome stands for on the wire.
    pub fn as_byte(self) -> (r: u8)
        ensures
            r == byte_of_status(self),
    {
        match self {
            EvmApiStatus::Success => 0,
            EvmApiStatus::Failure => 1,
            EvmApiStatus::OutOfGas => 2,
            EvmApiStatus::WriteProtection => 3,
        }
    }
}

impl From<u8> for EvmApiStatus {
    /// Total decoding of a status byte, per [`status_of_byte`].
    fn from(value: u8) -> (r: Self) {
        match value {
            0 => Self::Success,
            2 => Self::OutOfGas,
            3 => Self::WriteProtection,
            _ => Self::Failure,
        }
    }
}

impl vstd::std_specs::convert::FromSpecImpl<u8> for EvmApiStatus {
    open spec fn obeys_from_spec() -> bool {
        true
    }

    open spec fn from_spec(value: u8) -> Self {
        status_of_byte(value)
    }
}

} // verus!
