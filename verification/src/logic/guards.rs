//! Who may call what.

use crate::logic::store::Store;
use crate::storage::storage_api::Storage;
use crate::types::error::{error_text, Error, ErrorKind, ErrorView};
use crate::types::principal::{principal_of_text, Principal, ANONYMOUS_TAG};
use vstd::prelude::*;

verus! {

/// The report that refuses a caller, in one line.
pub open spec fn refusal(message: Seq<char>, now: u64) -> Seq<char> {
    error_text(ErrorView::bare(ErrorKind::Unauthorized, now).with_message(message))
}

/// The text of the identity of the maintainer.
pub open spec fn maintainer_text() -> Seq<char> {
    "ledm3-52ncq-rffuv-6ed44-hg5uo-iicyu-pwkzj-syfva-heo4k-p7itq-aqe"@
}

/// A result with its report by its characters.
pub open spec fn guard_view(r: Result<(), String>) -> Result<(), Seq<char>> {
    match r {
        Ok(_) => Ok(()),
        Err(report) => Err(report@),
    }
}

fn refuse(message: &str, now: u64) -> (r: Result<(), String>)
    ensures
        guard_view(r) == Err::<(), Seq<char>>(refusal(message@, now)),
{
    Err(Error::unauthorized(now).add_message(message).to_string())
}

/// Lets every caller pass but the anonymous one.
pub fn is_not_anonymous(caller: &Principal, now: u64) -> (r: Result<(), String>)
    ensures
        guard_view(r) == if caller@ == seq![ANONYMOUS_TAG] {
            Err::<(), Seq<char>>(refusal("Anonymous caller not allowed."@, now))
        } else {
            Ok(())
        },
{
    if caller.is_anonymous() {
        refuse("Anonymous caller not allowed.", now)
    } else {
        Ok(())
    }
}

/// Lets the maintainer pass, and nobody else.
pub fn is_dev(caller: &Principal, now: u64) -> (r: Result<(), String>)
    ensures
        guard_view(r) == if principal_of_text(maintainer_text()) == Some(caller@) {
            Ok::<(), Seq<char>>(())
        } else {
            Err(refusal("unknown caller"@, now))
        },
{
    match Principal::from_text("ledm3-52ncq-rffuv-6ed44-hg5uo-iicyu-pwkzj-syfva-heo4k-p7itq-aqe") {
        Some(dev) => {
            if caller.same(&dev) {
                Ok(())
            } else {
                refuse("unknown caller", now)
            }
        },
        None => refuse("unknown caller", now),
    }
}

/// Lets a caller pass that is a wallet with a record.
pub fn is_known_wallet(store: &Store, caller: Principal, now: u64) -> (r: Result<(), String>)
    ensures
        guard_view(r) == if store.multisigs.entries().contains_key(caller@) {
            Ok::<(), Seq<char>>(())
        } else {
            Err(refusal("Unknown wallet"@, now))
        },
{
    if store.get_wallet(caller, now).is_err() {
        refuse("Unknown wallet", now)
    } else {
        Ok(())
    }
}

} // verus!
