//! The rules of the wallet index: what is stored, forwarded and refused.

pub mod cmc;
pub mod guards;
pub mod ledger;
pub mod proxy_notifications;
pub mod store;
