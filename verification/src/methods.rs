//! The two runs of the wallet index: spawning a wallet, and topping one up.
//!
//! A run is a chain of calls to other canisters. The calls are made by the
//! canister that embeds the library; what to call next, and what to store
//! after each answer, is decided here. A run begins with `spawn_wallet` or
//! `top_up_wallet`, which give the first call to make. Each answer is handed
//! to `spawn_wallet_step` or `top_up_wallet_step`, which store how far the
//! run has come and give the next call, until they give the result of the run.

use crate::logic::ledger::{forward_of, refund_of, Ledger, TransferArgs, TransferArgsView};
use crate::logic::store::{
    install_plan, principals_view, status_updated, wallet_saved, whitelist_validation,
    CreateCanisterPlan, CreateCanisterPlanView, InstallPlan, InstallPlanView, Store, StoreView,
};
use crate::storage::state::{CATALYZE_E8S_FEE, ICP_TRANSACTION_FEE};
use crate::types::error::{Error, ErrorKind, ErrorView};
use crate::types::principal::Principal;
use crate::types::spawn_status::{SpawnStatus, SpawnStatusView};
use crate::types::text::{decimal_text, push_decimal, push_tokens, tokens_text};
use crate::types::wallet_data::WalletDataView;
use vstd::prelude::*;
use vstd::string::*;

verus! {

/// Where a run that spawns a wallet stands: which answer it waits for.
#[derive(Clone, Copy, Debug, PartialEq, Eq, Structural)]
pub enum SpawnStage {
    ValidatingTransaction,
    FetchingMinimum,
    Refunding { minimum: u64 },
    TransferringToCmc,
    ToppingUp,
    SpawningCanister,
    InstallingCanister,
    Finished,
}

/// An answer to a call that a run asked for.
#[derive(Debug)]
pub enum RunEvent {
    /// The amount of the payment, once the ledger's block was looked into.
    TransactionValidated(Result<u64, Error>),
    /// The least payment that spawns a wallet, at the rate of the moment.
    MinimumFetched(Result<u64, Error>),
    /// The ledger block of the refund.
    Refunded(Result<u64, Error>),
    /// The ledger block of the transfer to the cycles minting canister.
    TransferredToCmc(Result<u64, Error>),
    /// The cycles that the cycles minting canister granted.
    ToppedUp(Result<u128, Error>),
    /// The canister that was created.
    CanisterSpawned(Result<Principal, Error>),
    /// The canister into which the wallet was installed.
    CanisterInstalled(Result<Principal, Error>),
}

/// The content of a [`RunEvent`].
pub enum RunEventView {
    TransactionValidated(Result<u64, ErrorView>),
    MinimumFetched(Result<u64, ErrorView>),
    Refunded(Result<u64, ErrorView>),
    TransferredToCmc(Result<u64, ErrorView>),
    ToppedUp(Result<u128, ErrorView>),
    CanisterSpawned(Result<Seq<u8>, ErrorView>),
    CanisterInstalled(Result<Seq<u8>, ErrorView>),
}

/// A result with its error by its content.
pub open spec fn plain_view<T>(r: Result<T, Error>) -> Result<T, ErrorView> {
    match r {
        Ok(v) => Ok(v),
        Err(e) => Err(e@),
    }
}

/// A result with its identity and its error by their content.
pub open spec fn principal_result_view(r: Result<Principal, Error>) -> Result<Seq<u8>, ErrorView> {
    match r {
        Ok(p) => Ok(p@),
        Err(e) => Err(e@),
    }
}

impl View for RunEvent {
    type V = RunEventView;

    open spec fn view(&self) -> RunEventView {
        match *self {
            RunEvent::TransactionValidated(r) => RunEventView::TransactionValidated(
                plain_view(r),
            ),
            RunEvent::MinimumFetched(r) => RunEventView::MinimumFetched(plain_view(r)),
            RunEvent::Refunded(r) => RunEventView::Refunded(plain_view(r)),
            RunEvent::TransferredToCmc(r) => RunEventView::TransferredToCmc(plain_view(r)),
            RunEvent::ToppedUp(r) => RunEventView::ToppedUp(plain_view(r)),
            RunEvent::CanisterSpawned(r) => RunEventView::CanisterSpawned(
                principal_result_view(r),
            ),
            RunEvent::CanisterInstalled(r) => RunEventView::CanisterInstalled(
                principal_result_view(r),
            ),
        }
    }
}

/// What a run asks for next, or its result.
#[derive(Debug)]
pub enum SpawnAction {
    /// Look up the block on the ledger and validate the payment of `principal`.
    ValidateTransaction { principal: Principal, block_index: u64 },
    /// Ask for the least payment that spawns a wallet.
    FetchMinimum,
    /// Send the payment back.
    Refund(TransferArgs),
    /// Forward the payment to the cycles minting canister.
    TransferToCmc(TransferArgs),
    /// Tell the cycles minting canister of the transfer in `block_index`,
    /// for the benefit of `canister_id`.
    TopUp { block_index: u64, canister_id: Principal },
    /// Create a canister.
    SpawnCanister(CreateCanisterPlan),
    /// Install the wallet.
    InstallCanister(InstallPlan),
    /// The run is over: answer the caller with this.
    Return(Result<Principal, Error>),
}

/// The content of a [`SpawnAction`].
pub enum SpawnActionView {
    ValidateTransaction { principal: Seq<u8>, block_index: u64 },
    FetchMinimum,
    Refund(TransferArgsView),
    TransferToCmc(TransferArgsView),
    TopUp { block_index: u64, canister_id: Seq<u8> },
    SpawnCanister(CreateCanisterPlanView),
    InstallCanister(InstallPlanView),
    Return(Result<Seq<u8>, ErrorView>),
}

impl View for SpawnAction {
    type V = SpawnActionView;

    open spec fn view(&self) -> SpawnActionView {
        match *self {
            SpawnAction::ValidateTransaction { principal, block_index } =>
                SpawnActionView::ValidateTransaction { principal: principal@, block_index },
            SpawnAction::FetchMinimum => SpawnActionView::FetchMinimum,
            SpawnAction::Refund(args) => SpawnActionView::Refund(args@),
            SpawnAction::TransferToCmc(args) => SpawnActionView::TransferToCmc(args@),
            SpawnAction::TopUp { block_index, canister_id } => SpawnActionView::TopUp {
                block_index,
                canister_id: canister_id@,
            },
            SpawnAction::SpawnCanister(plan) => SpawnActionView::SpawnCanister(plan@),
            SpawnAction::InstallCanister(plan) => SpawnActionView::InstallCanister(plan@),
            SpawnAction::Return(r) => SpawnActionView::Return(principal_result_view(r)),
        }
    }
}

/// A run that spawns a wallet.
#[derive(Debug)]
pub struct SpawnRun {
    blockheight: u64,
    caller: Principal,
    canister_id: Principal,
    whitelist: Vec<Principal>,
    group_id: u64,
    status: SpawnStatus,
    stage: SpawnStage,
}

/// The content of a [`SpawnRun`].
pub struct SpawnRunView {
    /// The ledger block of the payment; the key of the status record.
    pub blockheight: u64,
    /// Who asked for the wallet.
    pub caller: Seq<u8>,
    /// This canister.
    pub canister_id: Seq<u8>,
    /// Who may use the wallet.
    pub whitelist: Seq<Seq<u8>>,
    /// The group of the wallet.
    pub group_id: u64,
    /// What is complete.
    pub status: SpawnStatusView,
    /// Which answer the run waits for.
    pub stage: SpawnStage,
}

impl SpawnRunView {
    /// A run that waits for an answer has completed exactly what comes
    /// before that answer, and its record is that of a run that spawns a wallet.
    pub open spec fn wf(self) -> bool {
        match self.stage {
            SpawnStage::ValidatingTransaction => self.status.is_spawn_run()
                && self.status.may_validate(),
            SpawnStage::FetchingMinimum | SpawnStage::Refunding { .. } | SpawnStage::TransferringToCmc =>
                self.status.is_spawn_run() && self.status.may_transfer(),
            SpawnStage::ToppingUp => self.status.is_spawn_run() && self.status.may_top_up(),
            SpawnStage::SpawningCanister => self.status.is_spawn_run() && self.status.may_spawn(),
            SpawnStage::InstallingCanister => self.status.is_spawn_run()
                && self.status.may_install(),
            SpawnStage::Finished => true,
        }
    }
}

impl View for SpawnRun {
    type V = SpawnRunView;

    closed spec fn view(&self) -> SpawnRunView {
        SpawnRunView {
            blockheight: self.blockheight,
            caller: self.caller@,
            canister_id: self.canister_id@,
            whitelist: principals_view(self.whitelist@),
            group_id: self.group_id,
            status: self.status@,
            stage: self.stage,
        }
    }
}

/// A store, a run and what the run asks for: where a step leaves them.
pub struct SpawnStepView {
    pub store: StoreView,
    pub run: SpawnRunView,
    pub action: SpawnActionView,
}

/// The error that refuses a payment that started a run before.
pub open spec fn duplicate_blockheight(blockheight: u64, now: u64) -> ErrorView {
    ErrorView::bare(ErrorKind::BadRequest, now).with_message(
        "Duplicate blockheight: "@ + decimal_text(blockheight as nat),
    )
}

/// The error that reports a payment that was too small and was sent back.
pub open spec fn payment_too_small(amount: u64, minimum: u64, refund_block: u64, now: u64) -> ErrorView {
    ErrorView::bare(ErrorKind::InsufficientBalance, now).with_message(
        "Amount ("@ + tokens_text(amount) + ") is less than "@ + decimal_text(minimum as nat)
            + ", ICP transferred back: blockheight: "@ + decimal_text(refund_block as nat),
    )
}

/// The error that refuses an answer for which the run does not wait.
pub open spec fn out_of_turn(now: u64) -> ErrorView {
    ErrorView::bare(ErrorKind::BadRequest, now).with_message(
        "The run does not wait for this answer"@,
    )
}

/// The run waits for this kind of answer.
pub open spec fn fits(stage: SpawnStage, event: RunEventView) -> bool {
    match (stage, event) {
        (SpawnStage::ValidatingTransaction, RunEventView::TransactionValidated(_)) => true,
        (SpawnStage::FetchingMinimum, RunEventView::MinimumFetched(_)) => true,
        (SpawnStage::Refunding { .. }, RunEventView::Refunded(_)) => true,
        (SpawnStage::TransferringToCmc, RunEventView::TransferredToCmc(_)) => true,
        (SpawnStage::ToppingUp, RunEventView::ToppedUp(_)) => true,
        (SpawnStage::SpawningCanister, RunEventView::CanisterSpawned(_)) => true,
        (SpawnStage::InstallingCanister, RunEventView::CanisterInstalled(_)) => true,
        _ => false,
    }
}

/// The run ends with `error`; nothing is stored.
pub open spec fn spawn_failed(store: StoreView, run: SpawnRunView, error: ErrorView) -> SpawnStepView {
    SpawnStepView {
        store,
        run: SpawnRunView { stage: SpawnStage::Finished, ..run },
        action: SpawnActionView::Return(Err(error)),
    }
}

/// The run stores `status` and goes on with `action`; it ends with
/// `NotFound` where its status record is gone.
pub open spec fn spawn_advanced(
    store: StoreView,
    run: SpawnRunView,
    status: SpawnStatusView,
    stage: SpawnStage,
    action: SpawnActionView,
    now: u64,
) -> SpawnStepView {
    match status_updated(store, run.blockheight, status, now) {
        Ok(stored) => SpawnStepView {
            store: stored,
            run: SpawnRunView { status, stage, ..run },
            action,
        },
        Err(error) => spawn_failed(store, SpawnRunView { status, ..run }, error),
    }
}

/// The beginning of a run that spawns a wallet.
///
/// The whitelist is checked first, then that the payment has started no
/// run before. Then the status record of the run is stored under the block
/// height of the payment, and the payment is to be validated.
pub open spec fn spawn_start(
    store: StoreView,
    caller: Seq<u8>,
    canister_id: Seq<u8>,
    blockheight: u64,
    whitelist: Seq<Seq<u8>>,
    group_id: u64,
    now: u64,
) -> SpawnStepView {
    let status = SpawnStatusView::started(Some("Wallet spawn"@));
    let run = SpawnRunView {
        blockheight,
        caller,
        canister_id,
        whitelist,
        group_id,
        status,
        stage: SpawnStage::ValidatingTransaction,
    };
    match whitelist_validation(whitelist, now) {
        Err(error) => spawn_failed(store, run, error),
        Ok(_) => if store.statuses.contains_key(blockheight) {
            spawn_failed(store, run, duplicate_blockheight(blockheight, now))
        } else {
            SpawnStepView {
                store: StoreView { statuses: store.statuses.insert(blockheight, status), ..store },
                run,
                action: SpawnActionView::ValidateTransaction {
                    principal: caller,
                    block_index: blockheight,
                },
            }
        },
    }
}

/// One step of a run that spawns a wallet: what is stored, where the run
/// stands and what it asks for, after it was given `event`.
///
/// An answer for which the run does not wait ends the run, and so does an
/// answer that is an error. After every other answer the run records in its
/// status what the answer completed, stores the status, and goes on:
/// from the valid payment to the minimum; from the minimum to the refund
/// where the payment is below it, and else to the transfer to the cycles
/// minting canister; from the refund to the end, with `InsufficientBalance`;
/// from the transfer to the top-up, to the creation of the canister, to the
/// installation of the wallet; and from there to the record of the wallet
/// and the end, with the identity of the wallet.
pub open spec fn spawn_step(
    store: StoreView,
    run: SpawnRunView,
    event: RunEventView,
    now: u64,
) -> SpawnStepView {
    if !fits(run.stage, event) {
        spawn_failed(store, run, out_of_turn(now))
    } else {
        match event {
            RunEventView::TransactionValidated(Ok(amount)) => spawn_advanced(
                store,
                run,
                run.status.with_transaction_valid(amount),
                SpawnStage::FetchingMinimum,
                SpawnActionView::FetchMinimum,
                now,
            ),
            RunEventView::MinimumFetched(Ok(minimum)) => {
                let amount = run.status.transaction_valid->0;
                if amount < minimum {
                    SpawnStepView {
                        store,
                        run: SpawnRunView { stage: SpawnStage::Refunding { minimum }, ..run },
                        action: SpawnActionView::Refund(refund_of(amount, run.caller)),
                    }
                } else {
                    SpawnStepView {
                        store,
                        run: SpawnRunView { stage: SpawnStage::TransferringToCmc, ..run },
                        action: SpawnActionView::TransferToCmc(forward_of(amount, run.canister_id)),
                    }
                }
            },
            RunEventView::Refunded(Ok(refund_block)) => spawn_advanced(
                store,
                run,
                run.status.with_min_amount_error(refund_block),
                SpawnStage::Finished,
                SpawnActionView::Return(
                    Err(
                        payment_too_small(
                            run.status.transaction_valid->0,
                            run.stage->minimum,
                            refund_block,
                            now,
                        ),
                    ),
                ),
                now,
            ),
            RunEventView::TransferredToCmc(Ok(block_index)) => spawn_advanced(
                store,
                run,
                run.status.with_transferred_to_cmc(block_index),
                SpawnStage::ToppingUp,
                SpawnActionView::TopUp { block_index, canister_id: run.canister_id },
                now,
            ),
            RunEventView::ToppedUp(Ok(cycles)) => spawn_advanced(
                store,
                run,
                run.status.with_topped_up_self(cycles),
                SpawnStage::SpawningCanister,
                SpawnActionView::SpawnCanister(
                    CreateCanisterPlanView { controllers: seq![run.canister_id], cycles },
                ),
                now,
            ),
            RunEventView::CanisterSpawned(Ok(canister_id)) => {
                let status = run.status.with_canister_spawned(canister_id);
                let run = SpawnRunView { status, ..run };
                match status_updated(store, run.blockheight, status, now) {
                    Err(error) => spawn_failed(store, run, error),
                    Ok(store) => match install_plan(
                        store,
                        canister_id,
                        run.caller,
                        run.whitelist,
                        run.group_id,
                        now,
                    ) {
                        Err(error) => spawn_failed(store, run, error),
                        Ok(plan) => SpawnStepView {
                            store,
                            run: SpawnRunView { stage: SpawnStage::InstallingCanister, ..run },
                            action: SpawnActionView::InstallCanister(plan),
                        },
                    },
                }
            },
            RunEventView::CanisterInstalled(Ok(installed)) => {
                let status = run.status.with_canister_installed(installed);
                let run = SpawnRunView { status, ..run };
                match status_updated(store, run.blockheight, status, now) {
                    Err(error) => spawn_failed(store, run, error),
                    Ok(store) => match wallet_saved(
                        store,
                        installed,
                        WalletDataView::created(
                            run.caller,
                            now,
                            run.blockheight,
                            run.status.transferred_to_cmc->0,
                            run.group_id,
                        ),
                        now,
                    ) {
                        Err(error) => spawn_failed(store, run, error),
                        Ok(store) => spawn_advanced(
                            store,
                            run,
                            status.with_done(),
                            SpawnStage::Finished,
                            SpawnActionView::Return(Ok(installed)),
                            now,
                        ),
                    },
                }
            },
            RunEventView::TransactionValidated(Err(error)) => spawn_failed(store, run, error),
            RunEventView::MinimumFetched(Err(error)) => spawn_failed(store, run, error),
            RunEventView::Refunded(Err(error)) => spawn_failed(store, run, error),
            RunEventView::TransferredToCmc(Err(error)) => spawn_failed(store, run, error),
            RunEventView::ToppedUp(Err(error)) => spawn_failed(store, run, error),
            RunEventView::CanisterSpawned(Err(error)) => spawn_failed(store, run, error),
            RunEventView::CanisterInstalled(Err(error)) => spawn_failed(store, run, error),
        }
    }
}

/// What a step asks of a minimum and a payment: the minimum holds the
/// share of the service, as every minimum does that is made of the price of
/// the cycles and that share; and a payment below the minimum covers the
/// fee of the transfer that sends it back.
pub open spec fn spawn_step_defined(run: SpawnRunView, event: RunEventView) -> bool {
    run.stage == SpawnStage::FetchingMinimum ==> match event {
        RunEventView::MinimumFetched(Ok(minimum)) => {
            &&& minimum >= CATALYZE_E8S_FEE
            &&& run.status.transaction_valid->0 < minimum ==> run.status.transaction_valid->0
                >= ICP_TRANSACTION_FEE
        },
        _ => true,
    }
}

/// The error that an answer carries, if it carries one.
pub open spec fn event_error(event: RunEventView) -> Option<ErrorView> {
    match event {
        RunEventView::TransactionValidated(Err(e)) => Some(e),
        RunEventView::MinimumFetched(Err(e)) => Some(e),
        RunEventView::Refunded(Err(e)) => Some(e),
        RunEventView::TransferredToCmc(Err(e)) => Some(e),
        RunEventView::ToppedUp(Err(e)) => Some(e),
        RunEventView::CanisterSpawned(Err(e)) => Some(e),
        RunEventView::CanisterInstalled(Err(e)) => Some(e),
        _ => None,
    }
}

impl SpawnRun {
    /// A run that waits for an answer has completed what comes before it.
    #[verifier::type_invariant]
    pub open spec fn well_formed(&self) -> bool {
        self@.wf()
    }

    /// The ledger block of the payment that started the run.
    pub fn blockheight(&self) -> (r: u64)
        ensures
            r == self@.blockheight,
    {
        self.blockheight
    }

    /// Which answer the run waits for.
    pub fn stage(&self) -> (r: SpawnStage)
        ensures
            r == self@.stage,
    {
        self.stage
    }

    /// What is complete.
    pub fn status(&self) -> (r: SpawnStatus)
        ensures
            r@ == self@.status,
    {
        self.status.clone()
    }

    /// Whether the minimum and the payment are what a step with `event` asks for.
    pub fn accepts(&self, event: &RunEvent) -> (r: bool)
        ensures
            r == spawn_step_defined(self@, event@),
    {
        match (self.stage, event) {
            (SpawnStage::FetchingMinimum, RunEvent::MinimumFetched(Ok(minimum))) => {
                match self.status.get_transaction_valid() {
                    Some(amount) => {
                        *minimum >= CATALYZE_E8S_FEE && (amount >= *minimum || amount
                            >= ICP_TRANSACTION_FEE)
                    },
                    None => {
                        proof {
                            use_type_invariant(self);
                        }
                        true
                    },
                }
            },
            _ => true,
        }
    }
}

fn spawn_fail(
    blockheight: u64,
    caller: Principal,
    canister_id: Principal,
    whitelist: Vec<Principal>,
    group_id: u64,
    status: SpawnStatus,
    error: Error,
) -> (r: (SpawnRun, SpawnAction))
    ensures
        r.0@ == (SpawnRunView {
            blockheight,
            caller: caller@,
            canister_id: canister_id@,
            whitelist: principals_view(whitelist@),
            group_id,
            status: status@,
            stage: SpawnStage::Finished,
        }),
        r.1@ == SpawnActionView::Return(Err(error@)),
{
    (
        SpawnRun {
            blockheight,
            caller,
            canister_id,
            whitelist,
            group_id,
            status,
            stage: SpawnStage::Finished,
        },
        SpawnAction::Return(Err(error)),
    )
}

fn spawn_advance(
    store: &mut Store,
    blockheight: u64,
    caller: Principal,
    canister_id: Principal,
    whitelist: Vec<Principal>,
    group_id: u64,
    status: SpawnStatus,
    stage: SpawnStage,
    action: SpawnAction,
    now: u64,
) -> (r: (SpawnRun, SpawnAction))
    requires
        (SpawnRunView {
            blockheight,
            caller: caller@,
            canister_id: canister_id@,
            whitelist: principals_view(whitelist@),
            group_id,
            status: status@,
            stage,
        }).wf(),
    ensures
        (SpawnStepView { store: final(store)@, run: r.0@, action: r.1@ }) == spawn_advanced(
            old(store)@,
            SpawnRunView {
                blockheight,
                caller: caller@,
                canister_id: canister_id@,
                whitelist: principals_view(whitelist@),
                group_id,
                status: status@,
                stage,
            },
            status@,
            stage,
            action@,
            now,
        ),
{
    match store.update_status(blockheight, status.clone(), now) {
        Ok(_) => {
            assert(store@ =~= (StoreView {
                statuses: old(store)@.statuses.insert(blockheight, status@),
                ..old(store)@
            }));
            (
                SpawnRun { blockheight, caller, canister_id, whitelist, group_id, status, stage },
                action,
            )
        },
        Err(error) => {
            assert(store@ =~= old(store)@);
            spawn_fail(blockheight, caller, canister_id, whitelist, group_id, status, error)
        },
    }
}

fn whitelist_copy(list: &Vec<Principal>) -> (r: Vec<Principal>)
    ensures
        principals_view(r@) == principals_view(list@),
{
    let mut copy: Vec<Principal> = Vec::new();
    let mut i: usize = 0;
    while i < list.len()
        invariant
            i <= list@.len(),
            copy@.len() == i,
            forall|j: int| 0 <= j < i ==> copy@[j]@ == list@[j]@,
        decreases list@.len() - i,
    {
        copy.push(list[i].clone());
        i += 1;
    }
    assert(principals_view(copy@) =~= principals_view(list@));
    copy
}

/// Begins a run that spawns a wallet for `caller`, paid for by the
/// transfer in the ledger block `icp_transfer_blockheight`.
pub fn spawn_wallet(
    store: &mut Store,
    caller: Principal,
    canister_id: Principal,
    icp_transfer_blockheight: u64,
    whitelist: Vec<Principal>,
    group_id: u64,
    now: u64,
) -> (r: (SpawnRun, SpawnAction))
    ensures
        (SpawnStepView { store: final(store)@, run: r.0@, action: r.1@ }) == spawn_start(
            old(store)@,
            caller@,
            canister_id@,
            icp_transfer_blockheight,
            principals_view(whitelist@),
            group_id,
            now,
        ),
{
    let status = SpawnStatus::new(Some(String::from_str("Wallet spawn")));
    match Store::validate_whitelist(whitelist.as_slice(), now) {
        Ok(_) => {},
        Err(error) => {
            return spawn_fail(
                icp_transfer_blockheight,
                caller,
                canister_id,
                whitelist,
                group_id,
                status,
                error,
            );
        },
    }
    if store.get_spawn(icp_transfer_blockheight, now).is_ok() {
        let mut message = String::from_str("Duplicate blockheight: ");
        push_decimal(&mut message, icp_transfer_blockheight);
        return spawn_fail(
            icp_transfer_blockheight,
            caller,
            canister_id,
            whitelist,
            group_id,
            status,
            Error::bad_request(now).add_message(message.as_str()),
        );
    }
    match store.save_status(icp_transfer_blockheight, status.clone(), now) {
        Ok(_) => {},
        Err(error) => {
            return spawn_fail(
                icp_transfer_blockheight,
                caller,
                canister_id,
                whitelist,
                group_id,
                status,
                error,
            );
        },
    }
    assert(store@ =~= (StoreView {
        statuses: old(store)@.statuses.insert(icp_transfer_blockheight, status@),
        ..old(store)@
    }));
    let principal = caller.clone();
    (
        SpawnRun {
            blockheight: icp_transfer_blockheight,
            caller,
            canister_id,
            whitelist,
            group_id,
            status,
            stage: SpawnStage::ValidatingTransaction,
        },
        SpawnAction::ValidateTransaction { principal, block_index: icp_transfer_blockheight },
    )
}

/// Takes a run that spawns a wallet one step further, with the answer to
/// what it asked for.
pub fn spawn_wallet_step(store: &mut Store, run: SpawnRun, event: RunEvent, now: u64) -> (r: (
    SpawnRun,
    SpawnAction,
))
    requires
        spawn_step_defined(run@, event@),
    ensures
        (SpawnStepView { store: final(store)@, run: r.0@, action: r.1@ }) == spawn_step(
            old(store)@,
            run@,
            event@,
            now,
        ),
{
    proof {
        use_type_invariant(&run);
    }
    let SpawnRun { blockheight, caller, canister_id, whitelist, group_id, status, stage } = run;
    let mut status = status;
    match (stage, event) {
        (SpawnStage::ValidatingTransaction, RunEvent::TransactionValidated(answer)) => {
            match answer {
                Ok(amount) => {
                    let _ = status.transaction_valid(amount);
                    spawn_advance(
                        store,
                        blockheight,
                        caller,
                        canister_id,
                        whitelist,
                        group_id,
                        status,
                        SpawnStage::FetchingMinimum,
                        SpawnAction::FetchMinimum,
                        now,
                    )
                },
                Err(error) => spawn_fail(
                    blockheight,
                    caller,
                    canister_id,
                    whitelist,
                    group_id,
                    status,
                    error,
                ),
            }
        },
        (SpawnStage::FetchingMinimum, RunEvent::MinimumFetched(answer)) => {
            match answer {
                Ok(minimum) => {
                    let amount = match status.get_transaction_valid() {
                        Some(amount) => amount,
                        None => 0,
                    };
                    if amount < minimum {
                        let args = Ledger::transfer_icp_back_to_caller(amount, &caller);
                        (
                            SpawnRun {
                                blockheight,
                                caller,
                                canister_id,
                                whitelist,
                                group_id,
                                status,
                                stage: SpawnStage::Refunding { minimum },
                            },
                            SpawnAction::Refund(args),
                        )
                    } else {
                        let args = Ledger::transfer_icp_to_cmc(amount, &canister_id);
                        (
                            SpawnRun {
                                blockheight,
                                caller,
                                canister_id,
                                whitelist,
                                group_id,
                                status,
                                stage: SpawnStage::TransferringToCmc,
                            },
                            SpawnAction::TransferToCmc(args),
                        )
                    }
                },
                Err(error) => spawn_fail(
                    blockheight,
                    caller,
                    canister_id,
                    whitelist,
                    group_id,
                    status,
                    error,
                ),
            }
        },
        (SpawnStage::Refunding { minimum }, RunEvent::Refunded(answer)) => {
            match answer {
                Ok(refund_block) => {
                    let amount = match status.get_transaction_valid() {
                        Some(amount) => amount,
                        None => 0,
                    };
                    let _ = status.min_amount_error(refund_block);
                    let mut message = String::from_str("Amount (");
                    push_tokens(&mut message, amount);
                    message.append(") is less than ");
                    push_decimal(&mut message, minimum);
                    message.append(", ICP transferred back: blockheight: ");
                    push_decimal(&mut message, refund_block);
                    let error = Error::insufficient_balance(now).add_message(message.as_str());
                    spawn_advance(
                        store,
                        blockheight,
                        caller,
                        canister_id,
                        whitelist,
                        group_id,
                        status,
                        SpawnStage::Finished,
                        SpawnAction::Return(Err(error)),
                        now,
                    )
                },
                Err(error) => spawn_fail(
                    blockheight,
                    caller,
                    canister_id,
                    whitelist,
                    group_id,
                    status,
                    error,
                ),
            }
        },
        (SpawnStage::TransferringToCmc, RunEvent::TransferredToCmc(answer)) => {
            match answer {
                Ok(block_index) => {
                    let _ = status.transferred_to_cmc(block_index);
                    let target = canister_id.clone();
                    spawn_advance(
                        store,
                        blockheight,
                        caller,
                        canister_id,
                        whitelist,
                        group_id,
                        status,
                        SpawnStage::ToppingUp,
                        SpawnAction::TopUp { block_index, canister_id: target },
                        now,
                    )
                },
                Err(error) => spawn_fail(
                    blockheight,
                    caller,
                    canister_id,
                    whitelist,
                    group_id,
                    status,
                    error,
                ),
            }
        },
        (SpawnStage::ToppingUp, RunEvent::ToppedUp(answer)) => {
            match answer {
                Ok(cycles) => {
                    let _ = status.topped_up_self(cycles);
                    let plan = Store::spawn_canister(canister_id.clone(), cycles);
                    spawn_advance(
                        store,
                        blockheight,
                        caller,
                        canister_id,
                        whitelist,
                        group_id,
                        status,
                        SpawnStage::SpawningCanister,
                        SpawnAction::SpawnCanister(plan),
                        now,
                    )
                },
                Err(error) => spawn_fail(
                    blockheight,
                    caller,
                    canister_id,
                    whitelist,
                    group_id,
                    status,
                    error,
                ),
            }
        },
        (SpawnStage::SpawningCanister, RunEvent::CanisterSpawned(answer)) => {
            match answer {
                Ok(spawned) => {
                    let stored = status.canister_spawned(spawned.clone());
                    match store.update_status(blockheight, stored, now) {
                        Ok(_) => {},
                        Err(error) => {
                            assert(store@ =~= old(store)@);
                            return spawn_fail(
                                blockheight,
                                caller,
                                canister_id,
                                whitelist,
                                group_id,
                                status,
                                error,
                            );
                        },
                    }
                    assert(store@ =~= (StoreView {
                        statuses: old(store)@.statuses.insert(blockheight, status@),
                        ..old(store)@
                    }));
                    match store.install_canister(
                        spawned,
                        caller.clone(),
                        whitelist_copy(&whitelist),
                        group_id,
                        now,
                    ) {
                        Ok(plan) => (
                            SpawnRun {
                                blockheight,
                                caller,
                                canister_id,
                                whitelist,
                                group_id,
                                status,
                                stage: SpawnStage::InstallingCanister,
                            },
                            SpawnAction::InstallCanister(plan),
                        ),
                        Err(error) => spawn_fail(
                            blockheight,
                            caller,
                            canister_id,
                            whitelist,
                            group_id,
                            status,
                            error,
                        ),
                    }
                },
                Err(error) => spawn_fail(
                    blockheight,
                    caller,
                    canister_id,
                    whitelist,
                    group_id,
                    status,
                    error,
                ),
            }
        },
        (SpawnStage::InstallingCanister, RunEvent::CanisterInstalled(answer)) => {
            match answer {
                Ok(installed) => {
                    let cmc_block = match status.get_transferred_to_cmc() {
                        Some(block) => block,
                        None => 0,
                    };
                    let stored = status.canister_installed(installed.clone());
                    match store.update_status(blockheight, stored, now) {
                        Ok(_) => {},
                        Err(error) => {
                            assert(store@ =~= old(store)@);
                            return spawn_fail(
                                blockheight,
                                caller,
                                canister_id,
                                whitelist,
                                group_id,
                                status,
                                error,
                            );
                        },
                    }
                    let ghost first = store@;
                    assert(first =~= (StoreView {
                        statuses: old(store)@.statuses.insert(blockheight, status@),
                        ..old(store)@
                    }));
                    match store.save_wallet(
                        installed.clone(),
                        caller.clone(),
                        now,
                        blockheight,
                        cmc_block,
                        group_id,
                    ) {
                        Ok(_) => {},
                        Err(error) => {
                            assert(store@ =~= first);
                            return spawn_fail(
                                blockheight,
                                caller,
                                canister_id,
                                whitelist,
                                group_id,
                                status,
                                error,
                            );
                        },
                    }
                    assert(store@ =~= (StoreView {
                        wallets: first.wallets.insert(
                            installed@,
                            WalletDataView::created(
                                caller@,
                                now,
                                blockheight,
                                cmc_block,
                                group_id,
                            ),
                        ),
                        ..first
                    }));
                    let _ = status.done();
                    spawn_advance(
                        store,
                        blockheight,
                        caller,
                        canister_id,
                        whitelist,
                        group_id,
                        status,
                        SpawnStage::Finished,
                        SpawnAction::Return(Ok(installed)),
                        now,
                    )
                },
                Err(error) => spawn_fail(
                    blockheight,
                    caller,
                    canister_id,
                    whitelist,
                    group_id,
                    status,
                    error,
                ),
            }
        },
        _ => spawn_fail(
            blockheight,
            caller,
            canister_id,
            whitelist,
            group_id,
            status,
            Error::bad_request(now).add_message("The run does not wait for this answer"),
        ),
    }
}

/// Where a run that tops up a wallet stands: which answer it waits for.
#[derive(Clone, Copy, Debug, PartialEq, Eq, Structural)]
pub enum TopUpStage {
    ValidatingTransaction,
    TransferringToCmc,
    ToppingUp,
    Finished,
}

/// What a run that tops up a wallet asks for next, or its result.
#[derive(Debug)]
pub enum TopUpAction {
    /// Look up the block on the ledger and validate the payment of `principal`.
    ValidateTransaction { principal: Principal, block_index: u64 },
    /// Forward the payment to the cycles minting canister.
    TransferToCmc(TransferArgs),
    /// Tell the cycles minting canister of the transfer in `block_index`,
    /// for the benefit of `canister_id`.
    TopUp { block_index: u64, canister_id: Principal },
    /// The run is over: answer the caller with this.
    Return(Result<(), Error>),
}

/// The content of a [`TopUpAction`].
pub enum TopUpActionView {
    ValidateTransaction { principal: Seq<u8>, block_index: u64 },
    TransferToCmc(TransferArgsView),
    TopUp { block_index: u64, canister_id: Seq<u8> },
    Return(Result<(), ErrorView>),
}

impl View for TopUpAction {
    type V = TopUpActionView;

    open spec fn view(&self) -> TopUpActionView {
        match *self {
            TopUpAction::ValidateTransaction { principal, block_index } =>
                TopUpActionView::ValidateTransaction { principal: principal@, block_index },
            TopUpAction::TransferToCmc(args) => TopUpActionView::TransferToCmc(args@),
            TopUpAction::TopUp { block_index, canister_id } => TopUpActionView::TopUp {
                block_index,
                canister_id: canister_id@,
            },
            TopUpAction::Return(r) => TopUpActionView::Return(plain_view(r)),
        }
    }
}

/// A run that tops up a wallet.
#[derive(Debug)]
pub struct TopUpRun {
    blockheight: u64,
    caller: Principal,
    wallet_principal: Principal,
    status: SpawnStatus,
    stage: TopUpStage,
}

/// The content of a [`TopUpRun`].
pub struct TopUpRunView {
    /// The ledger block of the payment; the key of the status record.
    pub blockheight: u64,
    /// Who pays.
    pub caller: Seq<u8>,
    /// The wallet that is topped up.
    pub wallet_principal: Seq<u8>,
    /// What is complete.
    pub status: SpawnStatusView,
    /// Which answer the run waits for.
    pub stage: TopUpStage,
}

impl TopUpRunView {
    /// A run that waits for an answer has completed exactly what comes
    /// before that answer, and its record is that of a run that tops up a wallet.
    pub open spec fn wf(self) -> bool {
        match self.stage {
            TopUpStage::ValidatingTransaction => is_top_up_run(self.status)
                && self.status.may_validate(),
            TopUpStage::TransferringToCmc => is_top_up_run(self.status)
                && self.status.may_transfer(),
            TopUpStage::ToppingUp => is_top_up_run(self.status) && self.status.may_top_up(),
            TopUpStage::Finished => true,
        }
    }
}

/// The run tops up a wallet: its record is labelled so.
pub open spec fn is_top_up_run(status: SpawnStatusView) -> bool {
    status.status_type == Some("Top up wallet"@)
}

/// A record is not labelled as both kinds of run.
pub proof fn lemma_one_kind_of_run(status: SpawnStatusView)
    ensures
        !(is_top_up_run(status) && status.is_spawn_run()),
{
    reveal_strlit("Top up wallet");
    reveal_strlit("Wallet spawn");
    assert("Top up wallet"@.len() != "Wallet spawn"@.len());
}

impl View for TopUpRun {
    type V = TopUpRunView;

    closed spec fn view(&self) -> TopUpRunView {
        TopUpRunView {
            blockheight: self.blockheight,
            caller: self.caller@,
            wallet_principal: self.wallet_principal@,
            status: self.status@,
            stage: self.stage,
        }
    }
}

/// A store, a run and what the run asks for: where a step leaves them.
pub struct TopUpStepView {
    pub store: StoreView,
    pub run: TopUpRunView,
    pub action: TopUpActionView,
}

/// The run waits for this kind of answer.
pub open spec fn top_up_fits(stage: TopUpStage, event: RunEventView) -> bool {
    match (stage, event) {
        (TopUpStage::ValidatingTransaction, RunEventView::TransactionValidated(_)) => true,
        (TopUpStage::TransferringToCmc, RunEventView::TransferredToCmc(_)) => true,
        (TopUpStage::ToppingUp, RunEventView::ToppedUp(_)) => true,
        _ => false,
    }
}

/// The run ends with `error`; nothing is stored.
pub open spec fn top_up_failed(store: StoreView, run: TopUpRunView, error: ErrorView) -> TopUpStepView {
    TopUpStepView {
        store,
        run: TopUpRunView { stage: TopUpStage::Finished, ..run },
        action: TopUpActionView::Return(Err(error)),
    }
}

/// The run stores `status` and goes on with `action`; it ends with
/// `NotFound` where its status record is gone.
pub open spec fn top_up_advanced(
    store: StoreView,
    run: TopUpRunView,
    status: SpawnStatusView,
    stage: TopUpStage,
    action: TopUpActionView,
    now: u64,
) -> TopUpStepView {
    match status_updated(store, run.blockheight, status, now) {
        Ok(stored) => TopUpStepView {
            store: stored,
            run: TopUpRunView { status, stage, ..run },
            action,
        },
        Err(error) => top_up_failed(store, TopUpRunView { status, ..run }, error),
    }
}

/// The beginning of a run that tops up a wallet.
///
/// A payment that has started a run before is refused. Else the status
/// record of the run is stored under the block height of the payment, and
/// the payment is to be validated.
pub open spec fn top_up_start(
    store: StoreView,
    caller: Seq<u8>,
    wallet_principal: Seq<u8>,
    blockheight: u64,
    now: u64,
) -> TopUpStepView {
    let status = SpawnStatusView::started(Some("Top up wallet"@));
    let run = TopUpRunView {
        blockheight,
        caller,
        wallet_principal,
        status,
        stage: TopUpStage::ValidatingTransaction,
    };
    if store.statuses.contains_key(blockheight) {
        top_up_failed(store, run, duplicate_blockheight(blockheight, now))
    } else {
        TopUpStepView {
            store: StoreView { statuses: store.statuses.insert(blockheight, status), ..store },
            run,
            action: TopUpActionView::ValidateTransaction {
                principal: caller,
                block_index: blockheight,
            },
        }
    }
}

/// One step of a run that tops up a wallet: what is stored, where the run
/// stands and what it asks for, after it was given `event`.
///
/// An answer for which the run does not wait ends the run, and so does an
/// answer that is an error. After every other answer the run records in its
/// status what the answer completed, stores the status, and goes on: from
/// the valid payment, whatever its amount, to the transfer to the cycles
/// minting canister, from there to the top-up of the wallet, and from
/// there to the end.
pub open spec fn top_up_step(
    store: StoreView,
    run: TopUpRunView,
    event: RunEventView,
    now: u64,
) -> TopUpStepView {
    if !top_up_fits(run.stage, event) {
        top_up_failed(store, run, out_of_turn(now))
    } else {
        match event {
            RunEventView::TransactionValidated(Ok(amount)) => top_up_advanced(
                store,
                run,
                run.status.with_transaction_valid(amount),
                TopUpStage::TransferringToCmc,
                TopUpActionView::TransferToCmc(forward_of(amount, run.wallet_principal)),
                now,
            ),
            RunEventView::TransferredToCmc(Ok(block_index)) => top_up_advanced(
                store,
                run,
                run.status.with_transferred_to_cmc(block_index),
                TopUpStage::ToppingUp,
                TopUpActionView::TopUp { block_index, canister_id: run.wallet_principal },
                now,
            ),
            RunEventView::ToppedUp(Ok(cycles)) => {
                let status = run.status.with_topped_up_self(cycles);
                let run = TopUpRunView { status, ..run };
                match status_updated(store, run.blockheight, status, now) {
                    Err(error) => top_up_failed(store, run, error),
                    Ok(store) => top_up_advanced(
                        store,
                        run,
                        status.with_done(),
                        TopUpStage::Finished,
                        TopUpActionView::Return(Ok(())),
                        now,
                    ),
                }
            },
            RunEventView::TransactionValidated(Err(error)) => top_up_failed(store, run, error),
            RunEventView::TransferredToCmc(Err(error)) => top_up_failed(store, run, error),
            RunEventView::ToppedUp(Err(error)) => top_up_failed(store, run, error),
            _ => top_up_failed(store, run, out_of_turn(now)),
        }
    }
}

/// The payment covers the share of the service, which the transfer to the
/// cycles minting canister takes off.
pub open spec fn top_up_step_defined(run: TopUpRunView, event: RunEventView) -> bool {
    run.stage == TopUpStage::ValidatingTransaction ==> match event {
        RunEventView::TransactionValidated(Ok(amount)) => amount >= CATALYZE_E8S_FEE,
        _ => true,
    }
}

impl TopUpRun {
    /// A run that waits for an answer has completed what comes before it.
    #[verifier::type_invariant]
    pub open spec fn well_formed(&self) -> bool {
        self@.wf()
    }

    /// The ledger block of the payment that started the run.
    pub fn blockheight(&self) -> (r: u64)
        ensures
            r == self@.blockheight,
    {
        self.blockheight
    }

    /// Which answer the run waits for.
    pub fn stage(&self) -> (r: TopUpStage)
        ensures
            r == self@.stage,
    {
        self.stage
    }

    /// What is complete.
    pub fn status(&self) -> (r: SpawnStatus)
        ensures
            r@ == self@.status,
    {
        self.status.clone()
    }

    /// Whether the payment covers what a step with `event` takes off it.
    pub fn accepts(&self, event: &RunEvent) -> (r: bool)
        ensures
            r == top_up_step_defined(self@, event@),
    {
        match (self.stage, event) {
            (TopUpStage::ValidatingTransaction, RunEvent::TransactionValidated(Ok(amount))) => {
                *amount >= CATALYZE_E8S_FEE
            },
            _ => true,
        }
    }
}

fn top_up_fail(
    blockheight: u64,
    caller: Principal,
    wallet_principal: Principal,
    status: SpawnStatus,
    error: Error,
) -> (r: (TopUpRun, TopUpAction))
    ensures
        r.0@ == (TopUpRunView {
            blockheight,
            caller: caller@,
            wallet_principal: wallet_principal@,
            status: status@,
            stage: TopUpStage::Finished,
        }),
        r.1@ == TopUpActionView::Return(Err(error@)),
{
    (
        TopUpRun { blockheight, caller, wallet_principal, status, stage: TopUpStage::Finished },
        TopUpAction::Return(Err(error)),
    )
}

fn top_up_advance(
    store: &mut Store,
    blockheight: u64,
    caller: Principal,
    wallet_principal: Principal,
    status: SpawnStatus,
    stage: TopUpStage,
    action: TopUpAction,
    now: u64,
) -> (r: (TopUpRun, TopUpAction))
    requires
        (TopUpRunView {
            blockheight,
            caller: caller@,
            wallet_principal: wallet_principal@,
            status: status@,
            stage,
        }).wf(),
    ensures
        (TopUpStepView { store: final(store)@, run: r.0@, action: r.1@ }) == top_up_advanced(
            old(store)@,
            TopUpRunView {
                blockheight,
                caller: caller@,
                wallet_principal: wallet_principal@,
                status: status@,
                stage,
            },
            status@,
            stage,
            action@,
            now,
        ),
{
    match store.update_status(blockheight, status.clone(), now) {
        Ok(_) => {
            assert(store@ =~= (StoreView {
                statuses: old(store)@.statuses.insert(blockheight, status@),
                ..old(store)@
            }));
            (TopUpRun { blockheight, caller, wallet_principal, status, stage }, action)
        },
        Err(error) => {
            assert(store@ =~= old(store)@);
            top_up_fail(blockheight, caller, wallet_principal, status, error)
        },
    }
}

/// Begins a run that tops up the wallet `wallet_principal`, paid for by
/// `caller` with the transfer in the ledger block `icp_transfer_blockheight`.
pub fn top_up_wallet(
    store: &mut Store,
    caller: Principal,
    icp_transfer_blockheight: u64,
    wallet_principal: Principal,
    now: u64,
) -> (r: (TopUpRun, TopUpAction))
    ensures
        (TopUpStepView { store: final(store)@, run: r.0@, action: r.1@ }) == top_up_start(
            old(store)@,
            caller@,
            wallet_principal@,
            icp_transfer_blockheight,
            now,
        ),
{
    let status = SpawnStatus::new(Some(String::from_str("Top up wallet")));
    if store.get_spawn(icp_transfer_blockheight, now).is_ok() {
        let mut message = String::from_str("Duplicate blockheight: ");
        push_decimal(&mut message, icp_transfer_blockheight);
        return top_up_fail(
            icp_transfer_blockheight,
            caller,
            wallet_principal,
            status,
            Error::bad_request(now).add_message(message.as_str()),
        );
    }
    match store.save_status(icp_transfer_blockheight, status.clone(), now) {
        Ok(_) => {},
        Err(error) => {
            return top_up_fail(icp_transfer_blockheight, caller, wallet_principal, status, error);
        },
    }
    assert(store@ =~= (StoreView {
        statuses: old(store)@.statuses.insert(icp_transfer_blockheight, status@),
        ..old(store)@
    }));
    let principal = caller.clone();
    (
        TopUpRun {
            blockheight: icp_transfer_blockheight,
            caller,
            wallet_principal,
            status,
            stage: TopUpStage::ValidatingTransaction,
        },
        TopUpAction::ValidateTransaction { principal, block_index: icp_transfer_blockheight },
    )
}

/// Takes a run that tops up a wallet one step further, with the answer to
/// what it asked for.
pub fn top_up_wallet_step(store: &mut Store, run: TopUpRun, event: RunEvent, now: u64) -> (r: (
    TopUpRun,
    TopUpAction,
))
    requires
        top_up_step_defined(run@, event@),
    ensures
        (TopUpStepView { store: final(store)@, run: r.0@, action: r.1@ }) == top_up_step(
            old(store)@,
            run@,
            event@,
            now,
        ),
{
    proof {
        use_type_invariant(&run);
    }
    let TopUpRun { blockheight, caller, wallet_principal, status, stage } = run;
    let mut status = status;
    match (stage, event) {
        (TopUpStage::ValidatingTransaction, RunEvent::TransactionValidated(answer)) => {
            match answer {
                Ok(amount) => {
                    let _ = status.transaction_valid(amount);
                    let args = Ledger::transfer_icp_to_cmc(amount, &wallet_principal);
                    top_up_advance(
                        store,
                        blockheight,
                        caller,
                        wallet_principal,
                        status,
                        TopUpStage::TransferringToCmc,
                        TopUpAction::TransferToCmc(args),
                        now,
                    )
                },
                Err(error) => top_up_fail(blockheight, caller, wallet_principal, status, error),
            }
        },
        (TopUpStage::TransferringToCmc, RunEvent::TransferredToCmc(answer)) => {
            match answer {
                Ok(block_index) => {
                    let _ = status.transferred_to_cmc(block_index);
                    let target = wallet_principal.clone();
                    top_up_advance(
                        store,
                        blockheight,
                        caller,
                        wallet_principal,
                        status,
                        TopUpStage::ToppingUp,
                        TopUpAction::TopUp { block_index, canister_id: target },
                        now,
                    )
                },
                Err(error) => top_up_fail(blockheight, caller, wallet_principal, status, error),
            }
        },
        (TopUpStage::ToppingUp, RunEvent::ToppedUp(answer)) => {
            match answer {
                Ok(cycles) => {
                    let stored = status.topped_up_self(cycles);
                    match store.update_status(blockheight, stored, now) {
                        Ok(_) => {},
                        Err(error) => {
                            assert(store@ =~= old(store)@);
                            return top_up_fail(
                                blockheight,
                                caller,
                                wallet_principal,
                                status,
                                error,
                            );
                        },
                    }
                    assert(store@ =~= (StoreView {
                        statuses: old(store)@.statuses.insert(blockheight, status@),
                        ..old(store)@
                    }));
                    proof {
                        lemma_one_kind_of_run(status@);
                    }
                    let _ = status.done();
                    top_up_advance(
                        store,
                        blockheight,
                        caller,
                        wallet_principal,
                        status,
                        TopUpStage::Finished,
                        TopUpAction::Return(Ok(())),
                        now,
                    )
                },
                Err(error) => top_up_fail(blockheight, caller, wallet_principal, status, error),
            }
        },
        _ => top_up_fail(
            blockheight,
            caller,
            wallet_principal,
            status,
            Error::bad_request(now).add_message("The run does not wait for this answer"),
        ),
    }
}

} // verus!
