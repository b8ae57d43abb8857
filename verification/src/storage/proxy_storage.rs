//! The durable cell that holds the identity of the proxy canister.

use crate::storage::cell_api::CellStorage;
use crate::storage::stable::{
    cell_region,
    cell_content, cell_get, cell_set, open_cell, region_of, BlobCell, StableMemory,
};
use crate::storage::state::PROXY_CANISTER_MEMORY_ID;
use crate::types::principal::{Principal, MAX_PRINCIPAL_LENGTH};
use vstd::prelude::*;
use vstd::slice::slice_to_vec;

verus! {

/// The canister to which notifications are relayed, once it is set.
pub struct ProxyCanisterStorage {
    cell: BlobCell,
}

impl ProxyCanisterStorage {
    /// Opens the cell in stable memory. `None` where the region holds a cell
    /// that cannot be read.
    pub(crate) fn init(memory: &StableMemory) -> (r: Option<ProxyCanisterStorage>)
        ensures
            r is Some ==> r->0.region() == Self::memory_number(),
    {
        match open_cell(region_of(memory, Self::memory_id())) {
            Some(cell) => Some(ProxyCanisterStorage { cell }),
            None => None,
        }
    }
}

impl CellStorage<Principal> for ProxyCanisterStorage {
    closed spec fn content(&self) -> Option<Seq<u8>> {
        match cell_content(self.cell) {
            Some(bytes) => if bytes.len() <= MAX_PRINCIPAL_LENGTH {
                Some(bytes)
            } else {
                None
            },
            None => None,
        }
    }

    open spec fn name_text() -> Seq<char> {
        "proxy"@
    }

    fn name() -> (r: &'static str) {
        "proxy"
    }

    fn memory_id() -> (r: u8) {
        assert(Self::memory_number() == PROXY_CANISTER_MEMORY_ID);
        PROXY_CANISTER_MEMORY_ID
    }

    fn load(&self) -> (r: Option<Principal>) {
        match cell_get(&self.cell) {
            Some(bytes) => {
                assert(bytes.deep_view() =~= bytes@);
                Principal::try_from_slice(bytes.as_slice())
            },
            None => None,
        }
    }

    fn save(&mut self, value: &Principal) -> (r: bool) {
        proof {
            use_type_invariant(value);
        }
        cell_set(&mut self.cell, slice_to_vec(value.as_slice()))
    }

    open spec fn memory_number() -> u8 {
        PROXY_CANISTER_MEMORY_ID
    }

    closed spec fn region(&self) -> u8 {
        cell_region(self.cell)
    }
}

} // verus!
