//! Plain data of the wallet index: identities, errors and stored records.

pub mod codec;
pub mod error;
pub mod principal;
pub mod spawn_status;
pub mod text;
pub mod wallet_data;
