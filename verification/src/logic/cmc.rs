//! What the wallet index makes of the answers of the cycles minting canister.

use crate::logic::ledger::result_view;
use crate::storage::state::CATALYZE_E8S_FEE;
use crate::types::error::{Error, ErrorKind, ErrorView};
use vstd::prelude::*;
use vstd::string::*;

verus! {

/// What the cycles minting canister answers to the notice of a payment.
#[derive(Debug)]
pub enum NotifyTopUpResult {
    /// The cycles that it granted.
    Granted(u128),
    /// Its refusal, in the words in which it is printed.
    Refused(String),
}

/// The outcome of a top-up as the wallet index reports it.
pub open spec fn top_up_outcome(outcome: Result<NotifyTopUpResult, String>, now: u64) -> Result<
    u128,
    ErrorView,
> {
    match outcome {
        Ok(NotifyTopUpResult::Granted(cycles)) => Ok(cycles),
        Ok(NotifyTopUpResult::Refused(refusal)) => Err(
            ErrorView::bare(ErrorKind::BadRequest, now).with_message("Error: "@ + refusal@),
        ),
        Err(reason) => Err(ErrorView::bare(ErrorKind::Internal, now).with_message(reason@)),
    }
}

/// The cycles that one token buys, at a rate in ten-thousandths of an XDR
/// per token: an XDR buys a million million cycles.
pub open spec fn cycles_per_icp(xdr_permyriad_per_icp: u64) -> int {
    xdr_permyriad_per_icp * 1_000_000_000_000 / 10_000
}

/// The dealings of the wallet index with the cycles minting canister.
pub struct CyclesManagement;

impl CyclesManagement {
    /// What a top-up came to: the cycles granted; `BadRequest` with the
    /// refusal where the cycles minting canister refused; `Internal` with
    /// the reason where the call failed.
    pub fn top_up(outcome: Result<NotifyTopUpResult, String>, now: u64) -> (r: Result<u128, Error>)
        ensures
            result_view(r) == top_up_outcome(outcome, now),
    {
        match outcome {
            Ok(NotifyTopUpResult::Granted(cycles)) => Ok(cycles),
            Ok(NotifyTopUpResult::Refused(refusal)) => {
                let mut message = String::from_str("Error: ");
                message.append(refusal.as_str());
                Err(Error::bad_request(now).add_message(message.as_str()))
            },
            Err(reason) => Err(Error::internal(now).add_message(reason.as_str())),
        }
    }

    /// The cycles that one token buys, from the rate that the cycles
    /// minting canister gave; `Internal` where the call for the rate failed.
    pub fn get_cycles_per_icp(outcome: Result<u64, String>, now: u64) -> (r: Result<u64, Error>)
        requires
            outcome matches Ok(rate) ==> rate * 1_000_000_000_000 <= u64::MAX,
        ensures
            outcome matches Ok(rate) ==> r == Ok::<u64, Error>(cycles_per_icp(rate) as u64)
                && cycles_per_icp(rate) == rate * 100_000_000,
            outcome is Err ==> (r matches Err(e) && e@ == ErrorView::bare(
                ErrorKind::Internal,
                now,
            ).with_message("Error getting XDR conversion rate"@)),
    {
        match outcome {
            Ok(rate) => {
                assert(rate * 1_000_000_000_000 / 10_000 == rate * 100_000_000) by {
                    assert(rate * 1_000_000_000_000 == (rate * 100_000_000) * 10_000);
                }
                Ok(rate * 1_000_000_000_000 / 10_000)
            },
            Err(_) => Err(Error::internal(now).add_message("Error getting XDR conversion rate")),
        }
    }

    /// The least payment that spawns a wallet: the price of the cycles that
    /// a wallet needs, in e8s, and the share of the service on top.
    pub fn get_minimum_spawn_icp_amount(spin_up_e8s: u64) -> (r: u64)
        requires
            spin_up_e8s + CATALYZE_E8S_FEE <= u64::MAX,
        ensures
            r == spin_up_e8s + CATALYZE_E8S_FEE,
    {
        spin_up_e8s + CATALYZE_E8S_FEE
    }
}

} // verus!
