//! The durable cell that holds the code installed into every new wallet.

use crate::storage::cell_api::CellStorage;
use crate::storage::stable::{
    cell_region,
    cell_content, cell_get, cell_set, open_cell, region_of, BlobCell, StableMemory,
};
use crate::storage::state::MULTISIG_WASM_MEMORY_ID;
use vstd::prelude::*;
use vstd::slice::slice_to_vec;

verus! {

/// The code of the wallet, once it is uploaded.
pub struct MultisigWasmStorage {
    cell: BlobCell,
}

impl MultisigWasmStorage {
    /// Opens the cell in stable memory. `None` where the region holds a cell
    /// that cannot be read.
    pub(crate) fn init(memory: &StableMemory) -> (r: Option<MultisigWasmStorage>)
        ensures
            r is Some ==> r->0.region() == Self::memory_number(),
    {
        match open_cell(region_of(memory, Self::memory_id())) {
            Some(cell) => Some(MultisigWasmStorage { cell }),
            None => None,
        }
    }
}

impl CellStorage<Vec<u8>> for MultisigWasmStorage {
    closed spec fn content(&self) -> Option<Seq<u8>> {
        cell_content(self.cell)
    }

    open spec fn name_text() -> Seq<char> {
        "multisig_wasm"@
    }

    fn name() -> (r: &'static str) {
        "multisig_wasm"
    }

    fn memory_id() -> (r: u8) {
        assert(Self::memory_number() == MULTISIG_WASM_MEMORY_ID);
        MULTISIG_WASM_MEMORY_ID
    }

    fn load(&self) -> (r: Option<Vec<u8>>) {
        let r = cell_get(&self.cell);
        proof {
            if r is Some {
                assert(r->0.deep_view() =~= r->0@);
            }
        }
        r
    }

    fn save(&mut self, value: &Vec<u8>) -> (r: bool) {
        cell_set(&mut self.cell, slice_to_vec(value.as_slice()))
    }

    open spec fn memory_number() -> u8 {
        MULTISIG_WASM_MEMORY_ID
    }

    closed spec fn region(&self) -> u8 {
        cell_region(self.cell)
    }
}

} // verus!
