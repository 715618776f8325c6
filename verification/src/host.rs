//! A reference host: an in-memory, single-invocation implementation of the
//! host-call contract.
//!
//! It keeps the whole execution context in ordinary memory — committed
//! storage, write overlay, transient store, return-data buffer, read-only
//! flag, logs and page accounting — and proves every contract of
//! [`EvmApi`]. It has no accounts and cannot run nested contracts: calls
//! echo their calldata back as return data, creations fail with a reason,
//! and account queries answer as for absent accounts. Costs are simple and
//! deterministic: every operation is free except committing the overlay,
//! which costs one gas per staged write.

use crate::api::EvmApi;
use crate::api::EvmContext;
use crate::api::HostError;
use crate::api::UserOutcomeKind;
use crate::bytes::Bytes20;
use crate::bytes::Bytes32;
use crate::counter::Gas;
use crate::counter::Ink;
use crate::reader::VecReader;
use crate::slot_map::SlotMap;
use vstd::prelude::*;

verus! {

/// An in-memory execution context implementing the host-call contract.
pub struct MemoryHost {
    storage: SlotMap,
    overlay: SlotMap,
    transient: SlotMap,
    return_data: Vec<u8>,
    static_mode: bool,
    emitted: Vec<(u32, Vec<u8>)>,
    page_count: Ghost<nat>,
}

impl MemoryHost {
    /// A fresh invocation context: empty state everywhere, read-only when
    /// `static_mode` is set.
    pub fn new(static_mode: bool) -> (r: MemoryHost)
        ensures
            r.storage() == Map::<Seq<u8>, Seq<u8>>::empty(),
            r.overlay() == Map::<Seq<u8>, Seq<u8>>::empty(),
            r.transient() == Map::<Seq<u8>, Seq<u8>>::empty(),
            r.return_data() == Seq::<u8>::empty(),
            r.is_static() == static_mode,
            r.logs() == Seq::<(u32, Seq<u8>)>::empty(),
            r.pages() == 0,
            r.flush_cost() == 0,
    {
        let r = MemoryHost {
            storage: SlotMap::new(),
            overlay: SlotMap::new(),
            transient: SlotMap::new(),
            return_data: Vec::new(),
            static_mode,
            emitted: Vec::new(),
            page_count: Ghost(0nat),
        };
        proof {
            assert(r.logs() =~= Seq::<(u32, Seq<u8>)>::empty());
        }
        r
    }
}

impl EvmContext for MemoryHost {
    closed spec fn storage(&self) -> Map<Seq<u8>, Seq<u8>> {
        self.storage@
    }

    closed spec fn overlay(&self) -> Map<Seq<u8>, Seq<u8>> {
        self.overlay@
    }

    closed spec fn transient(&self) -> Map<Seq<u8>, Seq<u8>> {
        self.transient@
    }

    closed spec fn return_data(&self) -> Seq<u8> {
        self.return_data@
    }

    closed spec fn is_static(&self) -> bool {
        self.static_mode
    }

    closed spec fn logs(&self) -> Seq<(u32, Seq<u8>)> {
        self.emitted@.map_values(|l: (u32, Vec<u8>)| (l.0, l.1@))
    }

    closed spec fn pages(&self) -> nat {
        self.page_count@
    }

    closed spec fn balances(&self) -> Map<Seq<u8>, Seq<u8>> {
        Map::<Seq<u8>, Seq<u8>>::empty()
    }

    closed spec fn code(&self) -> Map<Seq<u8>, Seq<u8>> {
        Map::<Seq<u8>, Seq<u8>>::empty()
    }

    closed spec fn codehashes(&self) -> Map<Seq<u8>, Seq<u8>> {
        Map::<Seq<u8>, Seq<u8>>::empty()
    }

    closed spec fn flush_cost(&self) -> nat {
        self.overlay.write_count()
    }
}

impl MemoryHost {
    /// Replaces the return-data buffer with a copy of the given bytes.
    fn set_return_data(&mut self, data: &[u8])
        ensures
            final(self).return_data() == data@,
            final(self).storage() == old(self).storage(),
            final(self).overlay() == old(self).overlay(),
            final(self).transient() == old(self).transient(),
            final(self).is_static() == old(self).is_static(),
            final(self).logs() == old(self).logs(),
            final(self).pages() == old(self).pages(),
            final(self).flush_cost() == old(self).flush_cost(),
    {
        self.return_data = vstd::slice::slice_to_vec(data);
    }

    /// Echoes calldata back as the new return data, the common behaviour of
    /// the reference host's call operations.
    fn echo_call(&mut self, calldata: &[u8]) -> (r: (u32, Gas, UserOutcomeKind))
        ensures
            r.0 as nat == final(self).return_data().len(),
            r.1.0 == 0,
            r.2 == UserOutcomeKind::Success,
            final(self).storage() == old(self).storage(),
            final(self).overlay() == old(self).overlay(),
            final(self).transient() == old(self).transient(),
            final(self).is_static() == old(self).is_static(),
            final(self).logs() == old(self).logs(),
            final(self).pages() == old(self).pages(),
            final(self).flush_cost() == old(self).flush_cost(),
    {
        if calldata.len() <= u32::MAX as usize {
            self.set_return_data(calldata);
            (calldata.len() as u32, Gas(0), UserOutcomeKind::Success)
        } else {
            let empty: [u8; 0] = [];
            self.set_return_data(empty.as_slice());
            proof {
                assert(final(self).return_data() =~= Seq::<u8>::empty());
            }
            (0, Gas(0), UserOutcomeKind::Success)
        }
    }
}

impl EvmApi<VecReader> for MemoryHost {
    fn get_bytes32(&mut self, key: Bytes32, evm_api_gas_to_use: Gas) -> (r: (Bytes32, Gas)) {
        let value = match self.storage.get(&key) {
            Some(v) => v,
            None => Bytes32::zero(),
        };
        (value, Gas(0))
    }

    fn cache_bytes32(&mut self, key: Bytes32, value: Bytes32) -> (r: Gas) {
        self.overlay.insert(key, value);
        Gas(0)
    }

    fn flush_storage_cache(&mut self, clear: bool, gas_left: Gas) -> (r: Result<Gas, HostError>) {
        let cost = self.overlay.len() as u64;
        if gas_left.0 < cost {
            return Err(HostError::OutOfGas);
        }
        self.storage.merge_from(&self.overlay);
        if clear {
            self.overlay.clear();
        }
        Ok(Gas(cost))
    }

    fn get_transient_bytes32(&mut self, key: Bytes32) -> (r: Bytes32) {
        match self.transient.get(&key) {
            Some(v) => v,
            None => Bytes32::zero(),
        }
    }

    fn set_transient_bytes32(&mut self, key: Bytes32, value: Bytes32) -> (r: Result<
        (),
        HostError,
    >) {
        if self.static_mode {
            return Err(HostError::WriteProtection);
        }
        self.transient.insert(key, value);
        Ok(())
    }

    fn contract_call(
        &mut self,
        contract: Bytes20,
        calldata: &[u8],
        gas_left: Gas,
        gas_req: Gas,
        value: Bytes32,
    ) -> (r: (u32, Gas, UserOutcomeKind)) {
        self.echo_call(calldata)
    }

    fn delegate_call(
        &mut self,
        contract: Bytes20,
        calldata: &[u8],
        gas_left: Gas,
        gas_req: Gas,
    ) -> (r: (u32, Gas, UserOutcomeKind)) {
        self.echo_call(calldata)
    }

    fn static_call(
        &mut self,
        contract: Bytes20,
        calldata: &[u8],
        gas_left: Gas,
        gas_req: Gas,
    ) -> (r: (u32, Gas, UserOutcomeKind)) {
        self.echo_call(calldata)
    }

    fn create1(&mut self, code: Vec<u8>, endowment: Bytes32, gas: Gas) -> (r: (
        Result<Bytes20, HostError>,
        u32,
        Gas,
    )) {
        let empty: [u8; 0] = [];
        self.set_return_data(empty.as_slice());
        proof {
            assert(final(self).return_data() =~= Seq::<u8>::empty());
        }
        let reason = "the in-memory host cannot deploy contracts".to_owned();
        (Err(HostError::Failure(reason)), 0, Gas(0))
    }

    fn create2(&mut self, code: Vec<u8>, endowment: Bytes32, salt: Bytes32, gas: Gas) -> (r: (
        Result<Bytes20, HostError>,
        u32,
        Gas,
    )) {
        let empty: [u8; 0] = [];
        self.set_return_data(empty.as_slice());
        proof {
            assert(final(self).return_data() =~= Seq::<u8>::empty());
        }
        let reason = "the in-memory host cannot deploy contracts".to_owned();
        (Err(HostError::Failure(reason)), 0, Gas(0))
    }

    fn get_return_data(&self) -> (r: VecReader) {
        VecReader::new(vstd::slice::slice_to_vec(self.return_data.as_slice()))
    }

    fn emit_log(&mut self, data: Vec<u8>, topics: u32) -> (r: Result<(), HostError>) {
        if topics > 4 {
            let reason = "a log can carry at most 4 topics".to_owned();
            return Err(HostError::Failure(reason));
        }
        if self.static_mode {
            return Err(HostError::WriteProtection);
        }
        let ghost before = self.emitted@;
        let ghost entry = (topics, data@);
        self.emitted.push((topics, data));
        proof {
            assert(self.emitted@.map_values(|l: (u32, Vec<u8>)| (l.0, l.1@)) =~= before.map_values(
                |l: (u32, Vec<u8>)| (l.0, l.1@),
            ).push(entry));
        }
        Ok(())
    }

    fn account_balance(&mut self, address: Bytes20) -> (r: (Bytes32, Gas)) {
        (Bytes32::zero(), Gas(0))
    }

    fn account_code(&mut self, arbos_version: u64, address: Bytes20, gas_left: Gas) -> (r: (
        VecReader,
        Gas,
    )) {
        (VecReader::new(Vec::new()), Gas(0))
    }

    fn account_codehash(&mut self, address: Bytes20) -> (r: (Bytes32, Gas)) {
        (Bytes32::zero(), Gas(0))
    }

    fn add_pages(&mut self, pages: u16) -> (r: Gas) {
        self.page_count = Ghost(self.page_count@ + pages as nat);
        Gas(0)
    }

    fn capture_hostio(
        &mut self,
        name: &str,
        args: &[u8],
        outs: &[u8],
        start_ink: Ink,
        end_ink: Ink,
    ) {
    }
}

} // verus!
