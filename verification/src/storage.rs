//! The durable maps and cells of the wallet index.

pub mod cell_api;
pub mod multisig_storage;
pub mod multisig_wasm_storage;
pub mod proxy_storage;
pub mod spawn_status_storage;
pub mod stable;
pub mod state;
pub mod storage_api;
