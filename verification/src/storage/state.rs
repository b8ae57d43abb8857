//! The fixed numbers of the wallet index.

use vstd::prelude::*;

verus! {

/// The memo of a ledger transfer that tops up a canister: "TPUP".
pub const MEMO_TOP_UP_CANISTER: u64 = 1347768404;

/// The memo of a ledger transfer that creates a canister: "CREA".
pub const MEMO_CREATE_CANISTER: u64 = 1095062083;

/// The fee of one ledger transfer, in e8s.
pub const ICP_TRANSACTION_FEE: u64 = 10000;

/// The cycles that a new wallet needs.
pub const MIN_CYCLES_FOR_SPINUP: u64 = 5_000_000_000_000;

/// The share of every payment that is kept for the service, in e8s.
pub const CATALYZE_E8S_FEE: u64 = 10000000;

/// The region of stable memory that holds the wallet records.
pub const MULTISIGS_MEMORY_ID: u8 = 0;

/// The region of stable memory that holds the status records.
pub const SPAWN_STATUS_MEMORY_ID: u8 = 1;

/// The region of stable memory that holds the identity of the proxy canister.
pub const PROXY_CANISTER_MEMORY_ID: u8 = 2;

/// The region of stable memory that holds the code of the wallet.
pub const MULTISIG_WASM_MEMORY_ID: u8 = 3;

/// The canister that receives the share kept for the service.
pub fn catalyze_multi_sig() -> (r: &'static str)
    ensures
        r@ == "fcygz-gqaaa-aaaap-abpaa-cai"@,
{
    "fcygz-gqaaa-aaaap-abpaa-cai"
}

} // verus!
