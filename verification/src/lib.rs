//! Index of multisig wallet canisters: spawning and topping up wallets from
//! a ledger payment, with a durable record of every step.
//!
//! The library holds the decisions and the stored data. Everything that
//! talks to the host (the caller's identity, the clock, calls to other
//! canisters) is handed in as plain values by the embedding canister.
//!
//! - [`types`]: identities, errors, and the two stored records with their
//!   byte layout.
//! - [`storage`]: the durable maps and cells, and what is assumed of the
//!   stable structures that hold them.
//! - [`logic`]: the rules of the store, the ledger, the cycles minting
//!   canister, the guards and the notices.
//! - [`methods`]: the runs that spawn and top up a wallet, step by step.
//! - [`laws`]: what holds of all of this whatever it is given.

pub mod laws;
pub mod logic;
pub mod methods;
pub mod storage;
pub mod types;
