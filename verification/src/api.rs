//! The host-call contract: the aggregate interface through which the
//! execution engine asks the host for every operation it cannot perform
//! itself.
//!
//! Exactly one implementation is bound per contract invocation, and calls
//! through it are strictly sequential: the engine issues one operation and
//! blocks until the result arrives. The contracts below are stated over the
//! mathematical model of the invocation's execution context — the committed
//! storage, the pending write overlay, the transient store, the most recent
//! call or creation result, the read-only flag, the emitted logs and the
//! page accounting — which [`EvmContext`] exposes as specification state.

use crate::bytes::Bytes20;
use crate::bytes::Bytes32;
use crate::bytes::zero32;
use crate::counter::Gas;
use crate::counter::Ink;
use crate::outcome::EvmApiStatus;
use crate::reader::DataReader;
use vstd::prelude::*;

verus! {

/// What a read of key `k` yields in word map `m`: the stored 256-bit word,
/// or the all-zero word when the key is absent.
pub open spec fn lookup32(m: Map<Seq<u8>, Seq<u8>>, k: Seq<u8>) -> Seq<u8> {
    if m.contains_key(k) {
        m[k]
    } else {
        zero32()
    }
}

/// What a read of key `k` yields in byte-string map `m`: the stored bytes,
/// or the empty string when the key is absent.
pub open spec fn lookup_bytes(m: Map<Seq<u8>, Seq<u8>>, k: Seq<u8>) -> Seq<u8> {
    if m.contains_key(k) {
        m[k]
    } else {
        Seq::<u8>::empty()
    }
}

/// How a host call failed. Resource exhaustion is always kept distinct from
/// every other failure, so callers can apply exhaustion-specific unwinding.
#[derive(Debug)]
pub enum HostError {
    /// The operation's cost exceeded the budget handed to it.
    OutOfGas,
    /// An attempt to mutate state inside a read-only context.
    WriteProtection,
    /// Any other logic or protocol failure, with a human-readable reason.
    Failure(String),
}

/// The outcome classification an error maps to.
pub open spec fn status_of_error(e: HostError) -> EvmApiStatus {
    match e {
        HostError::OutOfGas => EvmApiStatus::OutOfGas,
        HostError::WriteProtection => EvmApiStatus::WriteProtection,
        HostError::Failure(_) => EvmApiStatus::Failure,
    }
}

impl HostError {
    /// The outcome classification of this error.
    pub fn status(&self) -> (r: EvmApiStatus)
        ensures
            r == status_of_error(*self),
    {
        match self {
            HostError::OutOfGas => EvmApiStatus::OutOfGas,
            HostError::WriteProtection => EvmApiStatus::WriteProtection,
            HostError::Failure(_) => EvmApiStatus::Failure,
        }
    }
}

/// How a nested call or creation concluded: clean success, a clean revert
/// that surfaces its data, or a fatal failure.
#[derive(Clone, Copy, Debug, PartialEq, Eq, Structural)]
pub enum UserOutcomeKind {
    Success,
    Revert,
    Failure,
}

/// The mathematical model of an invocation's execution context: the state a
/// host-call implementation operates against. Every component is
/// specification-level; implementations decide how it is represented.
pub trait EvmContext {
    /// The committed persistent storage: 256-bit words by 256-bit keys.
    spec fn storage(&self) -> Map<Seq<u8>, Seq<u8>>;

    /// The pending write overlay: staged by `cache_bytes32`, durable only
    /// after `flush_storage_cache`.
    spec fn overlay(&self) -> Map<Seq<u8>, Seq<u8>>;

    /// The transaction-scoped transient store, discarded at transaction end.
    spec fn transient(&self) -> Map<Seq<u8>, Seq<u8>>;

    /// The result buffer of the most recent call or creation.
    spec fn return_data(&self) -> Seq<u8>;

    /// Whether the context is read-only: state-mutating operations must then
    /// fail with write protection.
    spec fn is_static(&self) -> bool;

    /// The logs emitted so far: topic count and payload of each.
    spec fn logs(&self) -> Seq<(u32, Seq<u8>)>;

    /// The host-side memory accounting: pages allocated so far.
    spec fn pages(&self) -> nat;

    /// Account balances by address.
    spec fn balances(&self) -> Map<Seq<u8>, Seq<u8>>;

    /// Account code by address.
    spec fn code(&self) -> Map<Seq<u8>, Seq<u8>>;

    /// Account code hashes by address.
    spec fn codehashes(&self) -> Map<Seq<u8>, Seq<u8>>;

    /// The gas committing the current overlay would cost.
    spec fn flush_cost(&self) -> nat;
}

/// The two states agree on every account table.
pub open spec fn same_accounts<A: EvmContext + ?Sized>(a: &A, b: &A) -> bool {
    &&& b.balances() == a.balances()
    &&& b.code() == a.code()
    &&& b.codehashes() == a.codehashes()
}

/// The two states agree on every component of the execution context: the
/// operation between them was a pure read or a trace.
pub open spec fn same_context<A: EvmContext + ?Sized>(a: &A, b: &A) -> bool {
    &&& b.storage() == a.storage()
    &&& b.overlay() == a.overlay()
    &&& b.transient() == a.transient()
    &&& b.return_data() == a.return_data()
    &&& b.is_static() == a.is_static()
    &&& b.logs() == a.logs()
    &&& b.pages() == a.pages()
    &&& b.flush_cost() == a.flush_cost()
    &&& same_accounts(a, b)
}

/// The host-call contract. Each operation crosses the boundary synchronously:
/// budget flows in, cost flows out, and the contract pins how the execution
/// context evolves.
pub trait EvmApi<D: DataReader>: EvmContext + Send + 'static {
    /// Reads the 32-byte value in the committed state trie at offset `key`.
    /// Returns the value and the access cost in gas.
    fn get_bytes32(&mut self, key: Bytes32, evm_api_gas_to_use: Gas) -> (r: (Bytes32, Gas))
        ensures
            same_context(old(self), final(self)),
            r.0@ == lookup32(old(self).storage(), key@),
            r.1.0 <= evm_api_gas_to_use.0,
    ;

    /// Stages the given value at the given key in the write overlay. The
    /// write is not durable until `flush_storage_cache` commits it.
    fn cache_bytes32(&mut self, key: Bytes32, value: Bytes32) -> (r: Gas)
        ensures
            final(self).overlay() == old(self).overlay().insert(key@, value@),
            final(self).storage() == old(self).storage(),
            final(self).transient() == old(self).transient(),
            final(self).return_data() == old(self).return_data(),
            final(self).is_static() == old(self).is_static(),
            final(self).logs() == old(self).logs(),
            final(self).pages() == old(self).pages(),
            same_accounts(old(self), final(self)),
    ;

    /// Commits every staged write to the committed state trie, discarding the
    /// overlay entirely if `clear` is set. Fails with the distinct
    /// out-of-gas classification — never a generic failure — exactly when the
    /// budget is below the committing cost, and then changes nothing.
    fn flush_storage_cache(&mut self, clear: bool, gas_left: Gas) -> (r: Result<Gas, HostError>)
        ensures
            r is Ok <==> gas_left.0 >= old(self).flush_cost(),
            r matches Ok(g) ==> g.0 == old(self).flush_cost(),
            r is Ok ==> final(self).storage() == old(self).storage().union_prefer_right(
                old(self).overlay(),
            ),
            r is Ok ==> final(self).overlay() == if clear {
                Map::<Seq<u8>, Seq<u8>>::empty()
            } else {
                old(self).overlay()
            },
            r matches Err(e) ==> e is OutOfGas,
            r is Err ==> final(self).storage() == old(self).storage() && final(self).overlay()
                == old(self).overlay(),
            final(self).transient() == old(self).transient(),
            final(self).return_data() == old(self).return_data(),
            final(self).is_static() == old(self).is_static(),
            final(self).logs() == old(self).logs(),
            final(self).pages() == old(self).pages(),
            same_accounts(old(self), final(self)),
    ;

    /// Reads the 32-byte value in the transient store at offset `key`.
    fn get_transient_bytes32(&mut self, key: Bytes32) -> (r: Bytes32)
        ensures
            same_context(old(self), final(self)),
            r@ == lookup32(old(self).transient(), key@),
    ;

    /// Writes the 32-byte value in the transient store at offset `key`.
    /// Fails with write protection — and writes nothing — exactly when the
    /// context is read-only.
    fn set_transient_bytes32(&mut self, key: Bytes32, value: Bytes32) -> (r: Result<
        (),
        HostError,
    >)
        ensures
            r is Ok <==> !old(self).is_static(),
            r is Ok ==> final(self).transient() == old(self).transient().insert(key@, value@),
            r matches Err(e) ==> e is WriteProtection,
            r is Err ==> final(self).transient() == old(self).transient(),
            final(self).storage() == old(self).storage(),
            final(self).overlay() == old(self).overlay(),
            final(self).return_data() == old(self).return_data(),
            final(self).is_static() == old(self).is_static(),
            final(self).logs() == old(self).logs(),
            final(self).pages() == old(self).pages(),
            final(self).flush_cost() == old(self).flush_cost(),
            same_accounts(old(self), final(self)),
    ;

    /// Calls the contract at the given address. Returns the return data's
    /// length, the gas cost, and how the call concluded. The callee may
    /// consume less than requested, and may itself mutate persistent state,
    /// but this invocation's overlay, read-only flag and page accounting are
    /// untouched.
    fn contract_call(
        &mut self,
        contract: Bytes20,
        calldata: &[u8],
        gas_left: Gas,
        gas_req: Gas,
        value: Bytes32,
    ) -> (r: (u32, Gas, UserOutcomeKind))
        ensures
            r.0 as nat == final(self).return_data().len(),
            r.1.0 <= gas_left.0,
            final(self).overlay() == old(self).overlay(),
            final(self).is_static() == old(self).is_static(),
            final(self).pages() == old(self).pages(),
    ;

    /// Delegate-calls the contract at the given address: its code runs
    /// against this invocation's state.
    fn delegate_call(
        &mut self,
        contract: Bytes20,
        calldata: &[u8],
        gas_left: Gas,
        gas_req: Gas,
    ) -> (r: (u32, Gas, UserOutcomeKind))
        ensures
            r.0 as nat == final(self).return_data().len(),
            r.1.0 <= gas_left.0,
            final(self).overlay() == old(self).overlay(),
            final(self).is_static() == old(self).is_static(),
            final(self).pages() == old(self).pages(),
    ;

    /// Static-calls the contract at the given address: the callee runs in a
    /// read-only context, so no persistent state, transient state, log or
    /// account can change — only the return data does.
    fn static_call(
        &mut self,
        contract: Bytes20,
        calldata: &[u8],
        gas_left: Gas,
        gas_req: Gas,
    ) -> (r: (u32, Gas, UserOutcomeKind))
        ensures
            r.0 as nat == final(self).return_data().len(),
            r.1.0 <= gas_left.0,
            final(self).storage() == old(self).storage(),
            final(self).overlay() == old(self).overlay(),
            final(self).transient() == old(self).transient(),
            final(self).is_static() == old(self).is_static(),
            final(self).logs() == old(self).logs(),
            final(self).pages() == old(self).pages(),
            same_accounts(old(self), final(self)),
    ;

    /// Deploys a new contract from the given init code. Returns the new
    /// address on success or the failure reason, along with the return
    /// data's length and the overall gas cost.
    fn create1(&mut self, code: Vec<u8>, endowment: Bytes32, gas: Gas) -> (r: (
        Result<Bytes20, HostError>,
        u32,
        Gas,
    ))
        ensures
            r.1 as nat == final(self).return_data().len(),
            r.2.0 <= gas.0,
            final(self).overlay() == old(self).overlay(),
            final(self).is_static() == old(self).is_static(),
            final(self).pages() == old(self).pages(),
    ;

    /// Deploys a new contract from the given init code, at an address
    /// determined in part by `salt`.
    fn create2(&mut self, code: Vec<u8>, endowment: Bytes32, salt: Bytes32, gas: Gas) -> (r: (
        Result<Bytes20, HostError>,
        u32,
        Gas,
    ))
        ensures
            r.1 as nat == final(self).return_data().len(),
            r.2.0 <= gas.0,
            final(self).overlay() == old(self).overlay(),
            final(self).is_static() == old(self).is_static(),
            final(self).pages() == old(self).pages(),
    ;

    /// Returns the result buffer of the most recent call or creation. Reading
    /// does not change the context, so repeated reads with no intervening
    /// call or creation yield byte-identical content.
    fn get_return_data(&self) -> (r: D)
        ensures
            r.bytes() == self.return_data(),
    ;

    /// Emits a log whose first `topics` times 32 bytes of data are the
    /// indexed topics. Accepts topic counts 0 through 4 and rejects every
    /// larger count; fails with write protection in a read-only context.
    fn emit_log(&mut self, data: Vec<u8>, topics: u32) -> (r: Result<(), HostError>)
        ensures
            r is Ok <==> (topics <= 4 && !old(self).is_static()),
            r is Ok ==> final(self).logs() == old(self).logs().push((topics, data@)),
            r is Err ==> final(self).logs() == old(self).logs(),
            topics > 4 ==> (r matches Err(e) && e is Failure),
            topics <= 4 && old(self).is_static() ==> (r matches Err(e) && e is WriteProtection),
            final(self).storage() == old(self).storage(),
            final(self).overlay() == old(self).overlay(),
            final(self).transient() == old(self).transient(),
            final(self).return_data() == old(self).return_data(),
            final(self).is_static() == old(self).is_static(),
            final(self).pages() == old(self).pages(),
            final(self).flush_cost() == old(self).flush_cost(),
            same_accounts(old(self), final(self)),
    ;

    /// Gets the balance of the given account, and the access cost in gas.
    fn account_balance(&mut self, address: Bytes20) -> (r: (Bytes32, Gas))
        ensures
            same_context(old(self), final(self)),
            r.0@ == lookup32(old(self).balances(), address@),
    ;

    /// Gets the code of the given account, and the access cost in gas.
    fn account_code(&mut self, arbos_version: u64, address: Bytes20, gas_left: Gas) -> (r: (
        D,
        Gas,
    ))
        ensures
            same_context(old(self), final(self)),
            r.0.bytes() == lookup_bytes(old(self).code(), address@),
            r.1.0 <= gas_left.0,
    ;

    /// Gets the hash of the given account's code, and the access cost in gas.
    fn account_codehash(&mut self, address: Bytes20) -> (r: (Bytes32, Gas))
        ensures
            same_context(old(self), final(self)),
            r.0@ == lookup32(old(self).codehashes(), address@),
    ;

    /// Charges for allocating additional pages of memory. Side effect: the
    /// host-side memory accounting grows by the page count, outside the
    /// returned cost.
    fn add_pages(&mut self, pages: u16) -> (r: Gas)
        ensures
            final(self).pages() == old(self).pages() + pages,
            final(self).storage() == old(self).storage(),
            final(self).overlay() == old(self).overlay(),
            final(self).transient() == old(self).transient(),
            final(self).return_data() == old(self).return_data(),
            final(self).is_static() == old(self).is_static(),
            final(self).logs() == old(self).logs(),
            final(self).flush_cost() == old(self).flush_cost(),
            same_accounts(old(self), final(self)),
    ;

    /// Captures tracing information for a host call during execution.
    /// Tracing must never perturb execution: it cannot fail, and the
    /// execution context is exactly as it was.
    fn capture_hostio(&mut self, name: &str, args: &[u8], outs: &[u8], start_ink: Ink, end_ink: Ink)
        ensures
            same_context(old(self), final(self)),
    ;
}

/// Law: with no intervening call or creation, two reads of the return data
/// yield byte-identical content.
pub fn read_return_data_twice<D: DataReader, A: EvmApi<D>>(api: &A) -> (r: (D, D))
    ensures
        r.0.bytes() == r.1.bytes(),
        r.0.bytes() == api.return_data(),
{
    let first = api.get_return_data();
    let second = api.get_return_data();
    (first, second)
}

/// Law: a write staged for `key` and then committed by a successful flush is
/// visible to a committed read of `key`; with `clear` set the overlay is
/// empty afterwards, so the next staged write starts from an empty overlay.
/// A failed flush reports resource exhaustion and commits nothing.
pub fn staged_write_survives_flush<D: DataReader, A: EvmApi<D>>(
    api: &mut A,
    key: Bytes32,
    value: Bytes32,
    clear: bool,
    gas_left: Gas,
) -> (r: Option<Bytes32>)
    ensures
        r matches Some(v) ==> v@ == value@,
        r is Some ==> final(api).storage().contains_key(key@) && final(api).storage()[key@]
            == value@,
        r is Some && clear ==> final(api).overlay() == Map::<Seq<u8>, Seq<u8>>::empty(),
        r is None ==> final(api).storage() == old(api).storage(),
{
    api.cache_bytes32(key, value);
    match api.flush_storage_cache(clear, gas_left) {
        Ok(_) => {
            let (v, _cost) = api.get_bytes32(key, Gas(0));
            Some(v)
        },
        Err(_) => None,
    }
}

} // verus!
