//! The notices that wallets hand to the index for the proxy canister.
//!
//! A notice is relayed where a proxy canister is set, and dropped where none
//! is. Whether the proxy takes it is not reported back to the wallet.

use crate::logic::store::{principals_view, Store};
use crate::storage::cell_api::CellStorage;
use crate::storage::storage_api::Storage;
use crate::types::principal::Principal;
use vstd::prelude::*;
use vstd::string::*;

verus! {

/// A call to make on the proxy canister.
#[derive(Debug)]
pub struct Notification {
    /// The proxy canister.
    pub proxy: Principal,
    /// The method to call.
    pub method: String,
    /// For whom the notice is.
    pub receivers: Vec<Principal>,
    /// The wallet that gave the notice.
    pub caller: Principal,
    /// The proposal that the notice is about, if it is about one.
    pub proposal_id: Option<u64>,
    /// The group of the wallet.
    pub group_id: u64,
}

/// `notice` is the call of `method` with these arguments on the proxy canister of `store`.
pub open spec fn relays(
    notice: Option<Notification>,
    store: &Store,
    method: Seq<char>,
    receivers: Seq<Principal>,
    caller: Seq<u8>,
    proposal_id: Option<u64>,
    group_id: u64,
) -> bool {
    match notice {
        Some(n) => {
            &&& store.proxy.content() == Some(n.proxy@)
            &&& n.method@ == method
            &&& principals_view(n.receivers@) == principals_view(receivers)
            &&& n.caller@ == caller
            &&& n.proposal_id == proposal_id
            &&& n.group_id == group_id
        },
        None => store.proxy.content() is None,
    }
}

fn relay(
    store: &Store,
    method: &str,
    receivers: Vec<Principal>,
    caller: Principal,
    proposal_id: Option<u64>,
    group_id: u64,
) -> (r: Option<Notification>)
    ensures
        relays(r, store, method@, receivers@, caller@, proposal_id, group_id),
{
    match store.proxy.load() {
        Some(proxy) => Some(
            Notification {
                proxy,
                method: String::from_str(method),
                receivers,
                caller,
                proposal_id,
                group_id,
            },
        ),
        None => None,
    }
}

/// The notice that `caller` has put `receivers` on its whitelist.
pub fn multisig_whitelist_notice_notification(
    store: &Store,
    caller: Principal,
    receivers: Vec<Principal>,
    group_id: u64,
) -> (r: Option<Notification>)
    ensures
        relays(
            r,
            store,
            "multisig_whitelist_notice_notification"@,
            receivers@,
            caller@,
            None,
            group_id,
        ),
{
    relay(store, "multisig_whitelist_notice_notification", receivers, caller, None, group_id)
}

/// The notice that a proposal of `caller` was accepted.
pub fn multisig_proposal_accept_notification(
    store: &Store,
    caller: Principal,
    receivers: Vec<Principal>,
    proposal_id: u64,
    group_id: u64,
) -> (r: Option<Notification>)
    ensures
        relays(
            r,
            store,
            "multisig_proposal_accept_notification"@,
            receivers@,
            caller@,
            Some(proposal_id),
            group_id,
        ),
{
    relay(
        store,
        "multisig_proposal_accept_notification",
        receivers,
        caller,
        Some(proposal_id),
        group_id,
    )
}

/// The notice that a proposal of `caller` was declined.
pub fn multisig_proposal_decline_notification(
    store: &Store,
    caller: Principal,
    receivers: Vec<Principal>,
    proposal_id: u64,
    group_id: u64,
) -> (r: Option<Notification>)
    ensures
        relays(
            r,
            store,
            "multisig_proposal_decline_notification"@,
            receivers@,
            caller@,
            Some(proposal_id),
            group_id,
        ),
{
    relay(
        store,
        "multisig_proposal_decline_notification",
        receivers,
        caller,
        Some(proposal_id),
        group_id,
    )
}

/// The notice that the status of a proposal of `caller` has changed.
pub fn multisig_proposal_status_update_notification(
    store: &Store,
    caller: Principal,
    receivers: Vec<Principal>,
    proposal_id: u64,
    group_id: u64,
) -> (r: Option<Notification>)
    ensures
        relays(
            r,
            store,
            "multisig_proposal_status_update_notification"@,
            receivers@,
            caller@,
            Some(proposal_id),
            group_id,
        ),
{
    relay(
        store,
        "multisig_proposal_status_update_notification",
        receivers,
        caller,
        Some(proposal_id),
        group_id,
    )
}

/// The notice that `caller` has a new proposal.
pub fn multisig_new_proposal_notification(
    store: &Store,
    caller: Principal,
    receivers: Vec<Principal>,
    proposal_id: u64,
    group_id: u64,
) -> (r: Option<Notification>)
    ensures
        relays(
            r,
            store,
            "multisig_new_proposal_notification"@,
            receivers@,
            caller@,
            Some(proposal_id),
            group_id,
        ),
{
    relay(
        store,
        "multisig_new_proposal_notification",
        receivers,
        caller,
        Some(proposal_id),
        group_id,
    )
}

/// Lets a caller give notice that is a wallet with a record.
pub fn is_known_wallet(store: &Store, caller: Principal, now: u64) -> (r: Result<(), String>)
    ensures
        r is Ok <==> store.multisigs.entries().contains_key(caller@),
        r matches Err(report) ==> report@ == "unauthorized"@,
{
    if store.get_wallet(caller, now).is_err() {
        Err(String::from_str("unauthorized"))
    } else {
        Ok(())
    }
}

} // verus!
