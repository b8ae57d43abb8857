//! What holds of the wallet index whatever it is given.

use crate::logic::ledger::{forward_of, refund_of};
use crate::logic::store::{
    all_distinct, wallets_after_transfer, whitelist_validation, SetOwnerAnswer, StoreView,
};
use crate::methods::{
    duplicate_blockheight, event_error, spawn_start, spawn_step, spawn_step_defined, top_up_start, top_up_step, RunEventView,
    SpawnActionView, SpawnRunView, SpawnStage, TopUpActionView, TopUpRunView,
};
use crate::storage::state::CATALYZE_E8S_FEE;
use crate::types::error::ErrorKind;
use crate::types::spawn_status::SpawnStatusView;
use crate::types::wallet_data::WalletDataView;
use vstd::prelude::*;

verus! {

/// A whitelist passes the check if and only if it names two or more
/// identities that are all different; a whitelist that does not pass is
/// refused with `BadRequest`.
pub proof fn law_whitelist(list: Seq<Seq<u8>>, now: u64)
    ensures
        whitelist_validation(list, now) is Ok <==> list.len() >= 2 && all_distinct(list),
        whitelist_validation(list, now) matches Err(e) ==> e.error_type == ErrorKind::BadRequest,
{
}

/// A run that spawns a wallet begins if and only if its whitelist passes
/// the check and its payment has started no run before. A run that begins
/// stores its status under the block height of its payment and asks for
/// the validation of the payment; one that does not begin stores nothing.
pub proof fn law_spawn_begins(
    store: StoreView,
    caller: Seq<u8>,
    canister_id: Seq<u8>,
    blockheight: u64,
    whitelist: Seq<Seq<u8>>,
    group_id: u64,
    now: u64,
)
    ensures
        ({
            let begun = spawn_start(
                store,
                caller,
                canister_id,
                blockheight,
                whitelist,
                group_id,
                now,
            );
            if whitelist.len() >= 2 && all_distinct(whitelist) && !store.statuses.contains_key(
                blockheight,
            ) {
                &&& begun.action == (SpawnActionView::ValidateTransaction {
                    principal: caller,
                    block_index: blockheight,
                })
                &&& begun.run.stage == SpawnStage::ValidatingTransaction
                &&& begun.store.statuses.contains_key(blockheight)
                &&& begun.store.statuses[blockheight] == SpawnStatusView::started(
                    Some("Wallet spawn"@),
                )
            } else {
                &&& begun.action is Return
                &&& begun.action->Return_0 is Err
                &&& begun.run.stage == SpawnStage::Finished
                &&& begun.store == store
            }
        }),
{
}

/// A payment that has started a run starts no run that spawns a wallet:
/// the call is refused and nothing is stored.
pub proof fn law_spawn_refuses_reused_payment(
    store: StoreView,
    caller: Seq<u8>,
    canister_id: Seq<u8>,
    blockheight: u64,
    whitelist: Seq<Seq<u8>>,
    group_id: u64,
    now: u64,
)
    requires
        store.statuses.contains_key(blockheight),
        whitelist.len() >= 2,
        all_distinct(whitelist),
    ensures
        spawn_start(store, caller, canister_id, blockheight, whitelist, group_id, now).store
            == store,
        spawn_start(store, caller, canister_id, blockheight, whitelist, group_id, now).action
            == SpawnActionView::Return(Err(duplicate_blockheight(blockheight, now))),
{
}

/// A payment that has started a run starts no run that tops up a wallet:
/// the call is refused and nothing is stored.
pub proof fn law_top_up_refuses_reused_payment(
    store: StoreView,
    caller: Seq<u8>,
    wallet_principal: Seq<u8>,
    blockheight: u64,
    now: u64,
)
    requires
        store.statuses.contains_key(blockheight),
    ensures
        top_up_start(store, caller, wallet_principal, blockheight, now).store == store,
        top_up_start(store, caller, wallet_principal, blockheight, now).action
            == TopUpActionView::Return(Err(duplicate_blockheight(blockheight, now))),
{
}

/// A run that tops up a wallet and begins has stored its status under the
/// block height of its payment.
pub proof fn law_top_up_begins(
    store: StoreView,
    caller: Seq<u8>,
    wallet_principal: Seq<u8>,
    blockheight: u64,
    now: u64,
)
    requires
        !store.statuses.contains_key(blockheight),
    ensures
        top_up_start(store, caller, wallet_principal, blockheight, now).store.statuses.contains_key(
            blockheight,
        ),
        top_up_start(store, caller, wallet_principal, blockheight, now).action
            == (TopUpActionView::ValidateTransaction {
            principal: caller,
            block_index: blockheight,
        }),
{
}

/// No step of a run removes a status record or a wallet record, none
/// touches the status record of another payment, and none moves a map or a
/// cell to another region.
pub proof fn law_steps_keep_records(
    store: StoreView,
    spawn: SpawnRunView,
    top_up: TopUpRunView,
    event: RunEventView,
    now: u64,
)
    ensures
        forall|k: u64| #[trigger]
            store.statuses.contains_key(k) ==> spawn_step(
                store,
                spawn,
                event,
                now,
            ).store.statuses.contains_key(k) && top_up_step(
                store,
                top_up,
                event,
                now,
            ).store.statuses.contains_key(k),
        forall|k: u64| #[trigger]
            store.statuses.contains_key(k) && k != spawn.blockheight ==> spawn_step(
                store,
                spawn,
                event,
                now,
            ).store.statuses[k] == store.statuses[k],
        forall|k: u64| #[trigger]
            store.statuses.contains_key(k) && k != top_up.blockheight ==> top_up_step(
                store,
                top_up,
                event,
                now,
            ).store.statuses[k] == store.statuses[k],
        forall|w: Seq<u8>| #[trigger]
            store.wallets.contains_key(w) ==> spawn_step(
                store,
                spawn,
                event,
                now,
            ).store.wallets.contains_key(w) && spawn_step(store, spawn, event, now).store.wallets[w]
                == store.wallets[w],
        top_up_step(store, top_up, event, now).store.wallets == store.wallets,
        spawn_step(store, spawn, event, now).store.regions == store.regions,
        top_up_step(store, top_up, event, now).store.regions == store.regions,
{
}

/// The least payment decides. A payment below the minimum is sent
/// back: the run asks for the refund and for nothing else, and stores
/// nothing. A payment of the minimum or more, whatever its amount, goes on:
/// the run asks for no refund, records none, and asks for the transfer of
/// the payment less the share of the service to the cycles minting
/// canister, for the benefit of this canister.
pub proof fn law_minimum_decides(store: StoreView, run: SpawnRunView, minimum: u64, now: u64)
    requires
        run.wf(),
        run.stage == SpawnStage::FetchingMinimum,
        minimum >= CATALYZE_E8S_FEE,
    ensures
        ({
            let amount = run.status.transaction_valid->0;
            let event = RunEventView::MinimumFetched(Ok(minimum));
            let after = spawn_step(store, run, event, now);
            &&& after.store == store
            &&& after.run.status == run.status
            &&& after.run.status.min_amount_error is None
            &&& amount < minimum ==> after.action == SpawnActionView::Refund(
                refund_of(amount, run.caller),
            ) && after.run.stage == (SpawnStage::Refunding { minimum })
            &&& amount >= minimum ==> {
                &&& spawn_step_defined(run, event)
                &&& after.action == SpawnActionView::TransferToCmc(
                    forward_of(amount, run.canister_id),
                )
                &&& forward_of(amount, run.canister_id).amount == amount - CATALYZE_E8S_FEE
                &&& after.run.stage == SpawnStage::TransferringToCmc
            }
        }),
{
}

/// A run reports `InsufficientBalance` after a refund and nowhere else,
/// unless an answer that it was given carries that error itself. So a run
/// whose payment passed the minimum never ends with it of its own.
pub proof fn law_insufficient_balance_only_after_refund(
    store: StoreView,
    run: SpawnRunView,
    event: RunEventView,
    now: u64,
)
    requires
        run.wf(),
        !(event_error(event) matches Some(e) && e.error_type == ErrorKind::InsufficientBalance),
        spawn_step(store, run, event, now).action matches SpawnActionView::Return(Err(e))
            && e.error_type == ErrorKind::InsufficientBalance,
    ensures
        run.stage is Refunding,
        event is Refunded,
        run.status.transferred_to_cmc is None,
{
}

/// After the refund of a payment that was too small the run is over: the
/// block of the refund stands in the status of the run, the caller is
/// answered with `InsufficientBalance`, and no wallet was recorded.
pub proof fn law_refund_ends_run(
    store: StoreView,
    run: SpawnRunView,
    minimum: u64,
    refund_block: u64,
    now: u64,
)
    requires
        run.wf(),
        run.stage == (SpawnStage::Refunding { minimum }),
        store.statuses.contains_key(run.blockheight),
    ensures
        ({
            let after = spawn_step(store, run, RunEventView::Refunded(Ok(refund_block)), now);
            &&& after.run.stage == SpawnStage::Finished
            &&& after.store.statuses[run.blockheight].min_amount_error == Some(refund_block)
            &&& after.store.statuses[run.blockheight].canister_spawned
                == run.status.canister_spawned
            &&& after.store.wallets == store.wallets
            &&& after.action is Return
            &&& after.action->Return_0 matches Err(e) && e.error_type
                == ErrorKind::InsufficientBalance
        }),
{
}

/// All that a run that spawns a wallet must have completed before it is done.
pub open spec fn spawn_complete(status: SpawnStatusView) -> bool {
    status.done ==> {
        &&& status.transaction_valid is Some
        &&& status.transferred_to_cmc is Some
        &&& status.topped_up_self is Some
        &&& status.canister_spawned is Some
        &&& status.canister_installed is Some
    }
}

/// All that a run that tops up a wallet must have completed before it is done.
pub open spec fn top_up_complete(status: SpawnStatusView) -> bool {
    status.done ==> {
        &&& status.transaction_valid is Some
        &&& status.transferred_to_cmc is Some
        &&& status.topped_up_self is Some
    }
}

/// Recording a step changes nothing that a status holds: whatever is
/// asked of a record, in whatever order, every field that was set keeps
/// its value, and a record that was done stays done.
pub proof fn law_recording_keeps(
    status: SpawnStatusView,
    amount: u64,
    block_index: u64,
    cycles: u128,
    canister_id: Seq<u8>,
)
    ensures
        status.recorded_transaction_valid(amount).keeps(status),
        status.recorded_min_amount_error(block_index).keeps(status),
        status.recorded_transferred_to_cmc(block_index).keeps(status),
        status.recorded_topped_up_self(cycles).keeps(status),
        status.recorded_canister_spawned(canister_id).keeps(status),
        status.recorded_canister_installed(canister_id).keeps(status),
        status.recorded_done().keeps(status),
{
}

/// A record becomes done only once every step of its run is complete: the
/// payment validated and forwarded and the cycles granted, and for a run
/// that spawns a wallet the canister created and the wallet installed. No
/// other recording sets a record done.
pub proof fn law_done_comes_last(
    status: SpawnStatusView,
    amount: u64,
    block_index: u64,
    cycles: u128,
    canister_id: Seq<u8>,
)
    requires
        !status.done,
    ensures
        status.recorded_done().done ==> {
            &&& status.transaction_valid is Some
            &&& status.transferred_to_cmc is Some
            &&& status.topped_up_self is Some
            &&& status.is_spawn_run() ==> status.canister_spawned is Some
                && status.canister_installed is Some
        },
        !status.recorded_transaction_valid(amount).done,
        !status.recorded_min_amount_error(block_index).done,
        !status.recorded_transferred_to_cmc(block_index).done,
        !status.recorded_topped_up_self(cycles).done,
        !status.recorded_canister_spawned(canister_id).done,
        !status.recorded_canister_installed(canister_id).done,
{
}

/// A run that spawns a wallet goes forward only. No step empties a field
/// of its status; the status that a step stores keeps what the status of
/// the run held; and the run is done only once the payment was validated
/// and forwarded, the cycles were granted, and the canister was created and
/// the wallet installed.
pub proof fn law_spawn_forward_only(
    store: StoreView,
    run: SpawnRunView,
    event: RunEventView,
    now: u64,
)
    requires
        run.wf(),
        spawn_complete(run.status),
    ensures
        ({
            let after = spawn_step(store, run, event, now);
            &&& after.run.wf()
            &&& after.run.status.keeps(run.status)
            &&& spawn_complete(after.run.status)
            &&& after.run.blockheight == run.blockheight
            &&& after.store.statuses.contains_key(run.blockheight) ==> {
                ||| after.store.statuses[run.blockheight] == after.run.status
                ||| store.statuses.contains_key(run.blockheight)
                    && after.store.statuses[run.blockheight] == store.statuses[run.blockheight]
            }
        }),
{
}

/// A run that tops up a wallet goes forward only. No step empties a field
/// of its status; the status that a step stores keeps what the status of
/// the run held; and the run is done only once the payment was validated
/// and forwarded and the cycles were granted.
pub proof fn law_top_up_forward_only(
    store: StoreView,
    run: TopUpRunView,
    event: RunEventView,
    now: u64,
)
    requires
        run.wf(),
        top_up_complete(run.status),
    ensures
        ({
            let after = top_up_step(store, run, event, now);
            &&& after.run.wf()
            &&& after.run.status.keeps(run.status)
            &&& top_up_complete(after.run.status)
            &&& after.run.blockheight == run.blockheight
            &&& after.store.statuses.contains_key(run.blockheight) ==> {
                ||| after.store.statuses[run.blockheight] == after.run.status
                ||| store.statuses.contains_key(run.blockheight)
                    && after.store.statuses[run.blockheight] == store.statuses[run.blockheight]
            }
        }),
{
}

/// A run that spawns a wallet and reaches its end with a wallet has
/// recorded the wallet: created and owned by the caller, in the group that
/// was asked for, with the blocks of the payment and of its forwarding; and
/// the status of the run is stored as done.
pub proof fn law_spawn_records_wallet(
    store: StoreView,
    run: SpawnRunView,
    event: RunEventView,
    now: u64,
)
    requires
        run.wf(),
        spawn_step(store, run, event, now).action is Return,
        spawn_step(store, run, event, now).action->Return_0 is Ok,
    ensures
        ({
            let after = spawn_step(store, run, event, now);
            let wallet = after.action->Return_0->Ok_0;
            &&& event == RunEventView::CanisterInstalled(Ok(wallet))
            &&& after.store.wallets.contains_key(wallet)
            &&& after.store.wallets[wallet] == WalletDataView::created(
                run.caller,
                now,
                run.blockheight,
                run.status.transferred_to_cmc->0,
                run.group_id,
            )
            &&& after.store.statuses.contains_key(run.blockheight)
            &&& after.store.statuses[run.blockheight].done
            &&& after.store.statuses[run.blockheight].canister_installed == Some(wallet)
        }),
{
}

/// The owner of a wallet changes in the records only after the wallet has
/// confirmed. Where the call failed or the wallet refused, no record
/// changes. Where the wallet confirmed, no record changes but that of the
/// wallet, and that one becomes the record that was read before the call
/// with exactly the confirmed identity as its owner and nothing else changed.
pub proof fn law_ownership_follows_confirmation(
    wallets: Map<Seq<u8>, WalletDataView>,
    canister_id: Seq<u8>,
    wallet: WalletDataView,
    answer: SetOwnerAnswer,
)
    ensures
        !(answer is Confirmed) ==> wallets_after_transfer(wallets, canister_id, wallet, answer)
            == wallets,
        forall|k: Seq<u8>| #[trigger]
            wallets.contains_key(k) && k != canister_id ==> wallets_after_transfer(
                wallets,
                canister_id,
                wallet,
                answer,
            ).contains_key(k) && wallets_after_transfer(wallets, canister_id, wallet, answer)[k]
                == wallets[k],
        forall|k: Seq<u8>| #[trigger]
            wallets_after_transfer(wallets, canister_id, wallet, answer).contains_key(k) && k
                != canister_id ==> wallets.contains_key(k),
        answer is Confirmed ==> {
            let after = wallets_after_transfer(wallets, canister_id, wallet, answer);
            &&& after.contains_key(canister_id)
            &&& after[canister_id].owner == answer->Confirmed_0
            &&& after[canister_id].created_by == wallet.created_by
            &&& after[canister_id].created_at == wallet.created_at
            &&& after[canister_id].updated_at == wallet.updated_at
            &&& after[canister_id].icp_blockheight == wallet.icp_blockheight
            &&& after[canister_id].cmc_blockheight == wallet.cmc_blockheight
            &&& after[canister_id].group_id == wallet.group_id
        },
{
}

/// What was stored under a key is what is read under that key, equal in
/// all fields, until something else is stored under it or it is removed.
pub proof fn law_wallet_stored_is_loaded(
    wallets: Map<Seq<u8>, WalletDataView>,
    key: Seq<u8>,
    wallet: WalletDataView,
)
    ensures
        wallets.insert(key, wallet).contains_key(key),
        wallets.insert(key, wallet)[key] == wallet,
{
}

/// What was stored under a key is what is read under that key, equal in
/// all fields, until something else is stored under it or it is removed.
pub proof fn law_status_stored_is_loaded(
    statuses: Map<u64, SpawnStatusView>,
    key: u64,
    status: SpawnStatusView,
)
    ensures
        statuses.insert(key, status).contains_key(key),
        statuses.insert(key, status)[key] == status,
{
}

} // verus!
