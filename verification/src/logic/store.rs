//! The wallets and the runs that spawn them, as they are stored.

use crate::storage::cell_api::{not_initialized_text, CellStorage};
use crate::storage::multisig_storage::MultisigStorage;
use crate::storage::multisig_wasm_storage::MultisigWasmStorage;
use crate::storage::proxy_storage::ProxyCanisterStorage;
use crate::storage::spawn_status_storage::SpawnStatusStorage;
use crate::storage::stable::{open_memory, principal_lt};
use crate::storage::state::{
    MULTISIGS_MEMORY_ID, MULTISIG_WASM_MEMORY_ID, PROXY_CANISTER_MEMORY_ID,
    SPAWN_STATUS_MEMORY_ID,
};
use crate::storage::storage_api::{
    is_listing, pairs_view, storage_error, Storage, StorageInsertableByKey, StorageQueryable, StorageUpdateable,
};
use crate::types::error::{Error, ErrorKind, ErrorView};
use crate::types::principal::{principal_text, Principal};
use crate::types::spawn_status::{SpawnStatus, SpawnStatusView};
use crate::types::wallet_data::{WalletData, WalletDataView};
use vstd::prelude::*;
use vstd::string::*;

verus! {

/// Everything that the wallet index keeps in stable memory.
pub struct Store {
    /// The record of every wallet, under the identity of its canister.
    pub multisigs: MultisigStorage,
    /// The status of every run, under the block height of its payment.
    pub spawn_status: SpawnStatusStorage,
    /// The canister to which notifications are relayed.
    pub proxy: ProxyCanisterStorage,
    /// The code that is installed into a new wallet.
    pub wasm: MultisigWasmStorage,
}

/// The bytes of each identity of a list.
pub open spec fn principals_view(list: Seq<Principal>) -> Seq<Seq<u8>> {
    Seq::new(list.len(), |i: int| list[i]@)
}

/// No identity occurs twice in `list`.
pub open spec fn all_distinct(list: Seq<Seq<u8>>) -> bool {
    forall|i: int, j: int| 0 <= i < j < list.len() ==> list[i] != list[j]
}

/// The identity at `at` occurs earlier in `list`.
pub open spec fn repeats(list: Seq<Seq<u8>>, at: int) -> bool {
    exists|i: int| 0 <= i < at && list[i] == list[at]
}

/// `at` is the first place of `list` that holds an identity for the second time.
pub open spec fn first_repeat(list: Seq<Seq<u8>>, at: int) -> bool {
    &&& 0 <= at < list.len()
    &&& repeats(list, at)
    &&& forall|k: int| 0 <= k < at ==> !repeats(list, k)
}

/// The error that refuses a whitelist of fewer than two identities.
pub open spec fn whitelist_too_short(now: u64) -> ErrorView {
    ErrorView::bare(ErrorKind::BadRequest, now).with_message(
        "Whitelist must have at least 2 principals"@,
    )
}

/// The error that refuses a whitelist in which `principal` occurs twice.
pub open spec fn whitelist_repeats(principal: Seq<u8>, now: u64) -> ErrorView {
    ErrorView::bare(ErrorKind::BadRequest, now).with_message(
        "Duplicate principal: "@ + principal_text(principal),
    )
}

/// The error that reports the failure of a call to another canister.
pub open spec fn call_failed(message: Seq<char>, now: u64) -> ErrorView {
    ErrorView::bare(ErrorKind::Internal, now).with_message(message)
}

/// The error that refuses a transfer of ownership asked by another than the owner.
pub open spec fn not_the_owner(now: u64) -> ErrorView {
    ErrorView::bare(ErrorKind::Unauthorized, now).with_message("Caller is not the owner"@)
}

/// What to ask of the management canister to create a wallet canister.
#[derive(Debug)]
pub struct CreateCanisterPlan {
    /// The controllers of the new canister.
    pub controllers: Vec<Principal>,
    /// The cycles that the new canister receives.
    pub cycles: u128,
}

/// What to ask of the management canister to install a wallet.
#[derive(Debug)]
pub struct InstallPlan {
    /// The canister into which the wallet is installed.
    pub canister_id: Principal,
    /// The code of the wallet.
    pub wasm_module: Vec<u8>,
    /// The first argument of the wallet: who asked for it.
    pub caller: Principal,
    /// The second argument of the wallet: who may use it.
    pub whitelist: Vec<Principal>,
    /// The third argument of the wallet: where it sends notifications.
    pub proxy: Principal,
    /// The fourth argument of the wallet: its group.
    pub group_id: u64,
}

/// The content of a [`CreateCanisterPlan`].
pub struct CreateCanisterPlanView {
    pub controllers: Seq<Seq<u8>>,
    pub cycles: u128,
}

impl View for CreateCanisterPlan {
    type V = CreateCanisterPlanView;

    open spec fn view(&self) -> CreateCanisterPlanView {
        CreateCanisterPlanView {
            controllers: principals_view(self.controllers@),
            cycles: self.cycles,
        }
    }
}

/// The content of an [`InstallPlan`].
pub struct InstallPlanView {
    pub canister_id: Seq<u8>,
    pub wasm_module: Seq<u8>,
    pub caller: Seq<u8>,
    pub whitelist: Seq<Seq<u8>>,
    pub proxy: Seq<u8>,
    pub group_id: u64,
}

impl View for InstallPlan {
    type V = InstallPlanView;

    open spec fn view(&self) -> InstallPlanView {
        InstallPlanView {
            canister_id: self.canister_id@,
            wasm_module: self.wasm_module@,
            caller: self.caller@,
            whitelist: principals_view(self.whitelist@),
            proxy: self.proxy@,
            group_id: self.group_id,
        }
    }
}

/// The regions of stable memory in which the maps and cells of a store stand.
pub struct StoreRegions {
    pub wallets: u8,
    pub statuses: u8,
    pub proxy: u8,
    pub wasm: u8,
}

/// The regions that are set apart for the maps and cells: one for each,
/// and no two the same.
pub open spec fn own_regions() -> StoreRegions {
    StoreRegions {
        wallets: MULTISIGS_MEMORY_ID,
        statuses: SPAWN_STATUS_MEMORY_ID,
        proxy: PROXY_CANISTER_MEMORY_ID,
        wasm: MULTISIG_WASM_MEMORY_ID,
    }
}

/// What the wallet index keeps in stable memory, and where.
pub struct StoreView {
    pub wallets: Map<Seq<u8>, WalletDataView>,
    pub statuses: Map<u64, SpawnStatusView>,
    pub proxy: Option<Seq<u8>>,
    pub wasm: Option<Seq<u8>>,
    pub regions: StoreRegions,
}

impl View for Store {
    type V = StoreView;

    open spec fn view(&self) -> StoreView {
        StoreView {
            wallets: self.multisigs.entries(),
            statuses: self.spawn_status.entries(),
            proxy: self.proxy.content(),
            wasm: self.wasm.content(),
            regions: StoreRegions {
                wallets: self.multisigs.region(),
                statuses: self.spawn_status.region(),
                proxy: self.proxy.region(),
                wasm: self.wasm.region(),
            },
        }
    }
}

/// The outcome of the check of a whitelist.
pub open spec fn whitelist_validation(list: Seq<Seq<u8>>, now: u64) -> Result<(), ErrorView> {
    if list.len() < 2 {
        Err(whitelist_too_short(now))
    } else if all_distinct(list) {
        Ok(())
    } else {
        Err(whitelist_repeats(list[choose|at: int| first_repeat(list, at)], now))
    }
}

/// What to ask to install the wallet, or the error that says what is not set.
pub open spec fn install_plan(
    store: StoreView,
    canister_id: Seq<u8>,
    caller: Seq<u8>,
    whitelist: Seq<Seq<u8>>,
    group_id: u64,
    now: u64,
) -> Result<InstallPlanView, ErrorView> {
    match store.wasm {
        None => Err(
            ErrorView::bare(ErrorKind::Internal, now).with_message(
                not_initialized_text("multisig_wasm"@),
            ),
        ),
        Some(wasm_module) => match store.proxy {
            None => Err(
                ErrorView::bare(ErrorKind::Internal, now).with_message(
                    not_initialized_text("proxy"@),
                ),
            ),
            Some(proxy) => Ok(
                InstallPlanView { canister_id, wasm_module, caller, whitelist, proxy, group_id },
            ),
        },
    }
}

/// The store after the status under `blockheight` was replaced, or the
/// error that says that there is none.
pub open spec fn status_updated(
    store: StoreView,
    blockheight: u64,
    status: SpawnStatusView,
    now: u64,
) -> Result<StoreView, ErrorView> {
    if store.statuses.contains_key(blockheight) {
        Ok(StoreView { statuses: store.statuses.insert(blockheight, status), ..store })
    } else {
        Err(
            storage_error(
                ErrorKind::NotFound,
                now,
                "update"@,
                "spawn_status"@,
                "Key does not exist"@,
            ),
        )
    }
}

/// The store after the record of a new wallet was stored, or the error
/// that says that the wallet has one.
pub open spec fn wallet_saved(
    store: StoreView,
    canister_id: Seq<u8>,
    wallet: WalletDataView,
    now: u64,
) -> Result<StoreView, ErrorView> {
    if store.wallets.contains_key(canister_id) {
        Err(
            storage_error(
                ErrorKind::Duplicate,
                now,
                "insert_by_key"@,
                "multisigs"@,
                "Key already exists"@,
            ),
        )
    } else {
        Ok(StoreView { wallets: store.wallets.insert(canister_id, wallet), ..store })
    }
}

/// What a wallet answered when it was asked to set its owner.
pub enum SetOwnerAnswer {
    /// The call did not reach the wallet, or the wallet did not answer.
    CallFailed(Seq<char>),
    /// The wallet refused.
    Refused(Seq<char>),
    /// The wallet has set its owner, and confirms who that is.
    Confirmed(Seq<u8>),
}

/// The answer of a wallet, by its content.
pub open spec fn set_owner_answer(
    outcome: Result<Result<Principal, String>, String>,
) -> SetOwnerAnswer {
    match outcome {
        Ok(Ok(id)) => SetOwnerAnswer::Confirmed(id@),
        Ok(Err(reason)) => SetOwnerAnswer::Refused(reason@),
        Err(reason) => SetOwnerAnswer::CallFailed(reason@),
    }
}

/// The wallet records after the wallet `canister_id` has answered:
/// changed only where the wallet confirmed, and then only in the record of
/// that wallet, which becomes `wallet` with the identity that the wallet
/// confirmed as its owner.
pub open spec fn wallets_after_transfer(
    wallets: Map<Seq<u8>, WalletDataView>,
    canister_id: Seq<u8>,
    wallet: WalletDataView,
    answer: SetOwnerAnswer,
) -> Map<Seq<u8>, WalletDataView> {
    match answer {
        SetOwnerAnswer::Confirmed(owner) => wallets.insert(canister_id, wallet.owned_by(owner)),
        _ => wallets,
    }
}

/// What the caller of a transfer of ownership is told after the wallet has answered.
pub open spec fn transfer_reported(
    canister_id: Seq<u8>,
    wallet: WalletDataView,
    answer: SetOwnerAnswer,
    now: u64,
) -> Result<(Seq<u8>, WalletDataView), ErrorView> {
    match answer {
        SetOwnerAnswer::CallFailed(reason) => Err(call_failed(reason, now)),
        SetOwnerAnswer::Refused(reason) => Err(call_failed(reason, now)),
        SetOwnerAnswer::Confirmed(owner) => Ok((canister_id, wallet.owned_by(owner))),
    }
}

/// A wallet record with its key, and an error, by their content.
pub open spec fn wallet_result_view(r: Result<(Principal, WalletData), Error>) -> Result<
    (Seq<u8>, WalletDataView),
    ErrorView,
> {
    match r {
        Ok(pair) => Ok((pair.0@, pair.1@)),
        Err(e) => Err(e@),
    }
}

/// At most one place of a list is the first that repeats.
pub proof fn lemma_first_repeat_unique(list: Seq<Seq<u8>>, a: int, b: int)
    requires
        first_repeat(list, a),
        first_repeat(list, b),
    ensures
        a == b,
{
}

impl Store {
    /// Opens the maps and cells in stable memory, each in its own region.
    /// `None` where a region holds a cell that cannot be read.
    ///
    /// A canister opens its store once and keeps it: a second store of the
    /// same canister would write to the same memory as the first.
    pub fn init() -> (r: Option<Store>)
        ensures
            r matches Some(store) ==> store@.regions == own_regions(),
    {
        let memory = open_memory();
        let multisigs = MultisigStorage::init(&memory);
        let spawn_status = SpawnStatusStorage::init(&memory);
        let proxy = match ProxyCanisterStorage::init(&memory) {
            Some(proxy) => proxy,
            None => { return None; },
        };
        let wasm = match MultisigWasmStorage::init(&memory) {
            Some(wasm) => wasm,
            None => { return None; },
        };
        Some(Store { multisigs, spawn_status, proxy, wasm })
    }

    /// The record of every wallet, by rising identity.
    pub fn get_wallets(&self) -> (r: Vec<(Principal, WalletData)>)
        ensures
            is_listing(pairs_view(r@), self.multisigs.entries(), |a: Seq<u8>, b: Seq<u8>| principal_lt(a, b)),
    {
        self.multisigs.get_all()
    }

    /// The record of the wallet `principal`; `NotFound` where there is none.
    pub fn get_wallet(&self, principal: Principal, now: u64) -> (r: Result<
        (Principal, WalletData),
        Error,
    >)
        ensures
            r is Ok <==> self.multisigs.entries().contains_key(principal@),
            r matches Ok(pair) ==> pair.0@ == principal@ && pair.1@
                == self.multisigs.entries()[principal@],
            r matches Err(e) ==> e@ == ErrorView::bare(ErrorKind::NotFound, now).with_method_name(
                "get"@,
            ).with_info("multisigs"@),
    {
        self.multisigs.get(principal, now)
    }

    /// Stores an empty record for the wallet `principal`, created by
    /// `caller`; `Duplicate` where the wallet has a record.
    pub fn _test_add_wallet(&mut self, principal: Principal, caller: Principal, now: u64) -> (r:
        Result<(Principal, WalletData), Error>)
        ensures
            final(self).spawn_status == old(self).spawn_status,
            final(self).proxy == old(self).proxy,
            final(self).wasm == old(self).wasm,
            final(self)@.regions == old(self)@.regions,
            r is Ok <==> !old(self).multisigs.entries().contains_key(principal@),
            r matches Ok(pair) ==> pair.0@ == principal@ && pair.1@ == WalletDataView::created(
                caller@,
                now,
                0,
                0,
                0,
            ) && final(self).multisigs.entries() == old(self).multisigs.entries().insert(
                principal@,
                pair.1@,
            ),
            r matches Err(e) ==> final(self).multisigs.entries() == old(self).multisigs.entries()
                && e@ == storage_error(
                ErrorKind::Duplicate,
                now,
                "insert_by_key"@,
                "multisigs"@,
                "Key already exists"@,
            ),
    {
        self.multisigs.insert_by_key(principal, WalletData::new(caller, now, 0, 0, 0), now)
    }

    /// What to ask of the management canister for a new wallet canister:
    /// this canister as its only controller, and `cycles` to start with.
    pub fn spawn_canister(canister_id: Principal, cycles: u128) -> (r: CreateCanisterPlan)
        ensures
            principals_view(r.controllers@) == seq![canister_id@],
            r.cycles == cycles,
    {
        let mut controllers: Vec<Principal> = Vec::new();
        controllers.push(canister_id);
        assert(principals_view(controllers@) =~= seq![canister_id@]);
        CreateCanisterPlan { controllers, cycles }
    }

    /// What the creation of a canister came to: the new canister, or
    /// `Internal` with the reason for which the call failed.
    pub fn canister_spawned(outcome: Result<Principal, String>, now: u64) -> (r: Result<
        Principal,
        Error,
    >)
        ensures
            outcome matches Ok(id) ==> (r matches Ok(p) && p@ == id@),
            outcome matches Err(reason) ==> (r matches Err(e) && e@ == call_failed(reason@, now)),
    {
        match outcome {
            Ok(id) => Ok(id),
            Err(reason) => Err(Error::internal(now).add_message(reason.as_str())),
        }
    }

    /// What to ask of the management canister to install the wallet into
    /// `canister_id`; `Internal` where the code of the wallet or the proxy
    /// canister is not set, the code first.
    pub fn install_canister(
        &self,
        canister_id: Principal,
        caller: Principal,
        whitelist: Vec<Principal>,
        group_id: u64,
        now: u64,
    ) -> (r: Result<InstallPlan, Error>)
        ensures
            match install_plan(self@, canister_id@, caller@, principals_view(whitelist@), group_id, now) {
                Ok(plan) => r matches Ok(p) && p@ == plan,
                Err(error) => r matches Err(e) && e@ == error,
            },
    {
        let wasm_module = match self.wasm.get(now) {
            Ok(wasm) => wasm,
            Err(e) => { return Err(e); },
        };
        let proxy = match self.proxy.get(now) {
            Ok(proxy) => proxy,
            Err(e) => { return Err(e); },
        };
        Ok(InstallPlan { canister_id, wasm_module, caller, whitelist, proxy, group_id })
    }

    /// What the installation came to: the canister that now runs the
    /// wallet, or `Internal` with the reason for which the call failed.
    pub fn canister_installed(
        canister_id: Principal,
        outcome: Result<(), String>,
        now: u64,
    ) -> (r: Result<Principal, Error>)
        ensures
            outcome is Ok ==> (r matches Ok(p) && p@ == canister_id@),
            outcome matches Err(reason) ==> (r matches Err(e) && e@ == call_failed(reason@, now)),
    {
        match outcome {
            Ok(_) => Ok(canister_id),
            Err(reason) => Err(Error::internal(now).add_message(reason.as_str())),
        }
    }

    /// Stores the record of a new wallet: `caller` created it at `now` and
    /// owns it. `Duplicate` where the wallet has a record.
    pub fn save_wallet(
        &mut self,
        canister_id: Principal,
        caller: Principal,
        now: u64,
        icp_transfer_blockheight: u64,
        cmc_transfer_block_height: u64,
        group_id: u64,
    ) -> (r: Result<(Principal, WalletData), Error>)
        ensures
            final(self).spawn_status == old(self).spawn_status,
            final(self).proxy == old(self).proxy,
            final(self).wasm == old(self).wasm,
            final(self)@.regions == old(self)@.regions,
            r is Ok <==> !old(self).multisigs.entries().contains_key(canister_id@),
            r matches Ok(pair) ==> pair.0@ == canister_id@ && pair.1@ == WalletDataView::created(
                caller@,
                now,
                icp_transfer_blockheight,
                cmc_transfer_block_height,
                group_id,
            ) && final(self).multisigs.entries() == old(self).multisigs.entries().insert(
                canister_id@,
                pair.1@,
            ),
            r matches Err(e) ==> final(self).multisigs.entries() == old(self).multisigs.entries()
                && e@ == storage_error(
                ErrorKind::Duplicate,
                now,
                "insert_by_key"@,
                "multisigs"@,
                "Key already exists"@,
            ),
    {
        let wallet = WalletData::new(
            caller,
            now,
            icp_transfer_blockheight,
            cmc_transfer_block_height,
            group_id,
        );
        self.multisigs.insert_by_key(canister_id, wallet, now)
    }

    /// The status of the run that the payment in block `blockheight`
    /// started; `NotFound` where there is none.
    pub fn get_spawn(&self, blockheight: u64, now: u64) -> (r: Result<(u64, SpawnStatus), Error>)
        ensures
            r is Ok <==> self.spawn_status.entries().contains_key(blockheight),
            r matches Ok(pair) ==> pair.0 == blockheight && pair.1@
                == self.spawn_status.entries()[blockheight],
            r matches Err(e) ==> e@ == ErrorView::bare(ErrorKind::NotFound, now).with_method_name(
                "get"@,
            ).with_info("spawn_status"@),
    {
        self.spawn_status.get(blockheight, now)
    }

    /// The status of every run, by rising block height.
    pub fn get_spawns(&self) -> (r: Vec<(u64, SpawnStatus)>)
        ensures
            is_listing(pairs_view(r@), self.spawn_status.entries(), |a: u64, b: u64| a < b),
    {
        self.spawn_status.get_all()
    }

    /// Stores the status of a new run; `Duplicate` where a run was started
    /// by the same payment before.
    pub fn save_status(&mut self, blockheight: u64, status: SpawnStatus, now: u64) -> (r: Result<
        (u64, SpawnStatus),
        Error,
    >)
        ensures
            final(self).multisigs == old(self).multisigs,
            final(self).proxy == old(self).proxy,
            final(self).wasm == old(self).wasm,
            final(self)@.regions == old(self)@.regions,
            r is Ok <==> !old(self).spawn_status.entries().contains_key(blockheight),
            r matches Ok(pair) ==> pair.0 == blockheight && pair.1@ == status@
                && final(self).spawn_status.entries() == old(self).spawn_status.entries().insert(
                blockheight,
                status@,
            ),
            r matches Err(e) ==> final(self).spawn_status.entries() == old(
                self,
            ).spawn_status.entries() && e@ == storage_error(
                ErrorKind::Duplicate,
                now,
                "insert_by_key"@,
                "spawn_status"@,
                "Key already exists"@,
            ),
    {
        self.spawn_status.insert_by_key(blockheight, status, now)
    }

    /// Replaces the status of a run; `NotFound` where no run was started by
    /// the payment in block `blockheight`.
    pub fn update_status(&mut self, blockheight: u64, status: SpawnStatus, now: u64) -> (r: Result<
        (u64, SpawnStatus),
        Error,
    >)
        ensures
            final(self).multisigs == old(self).multisigs,
            final(self).proxy == old(self).proxy,
            final(self).wasm == old(self).wasm,
            final(self)@.regions == old(self)@.regions,
            r is Ok <==> old(self).spawn_status.entries().contains_key(blockheight),
            r matches Ok(pair) ==> pair.0 == blockheight && pair.1@ == status@
                && final(self).spawn_status.entries() == old(self).spawn_status.entries().insert(
                blockheight,
                status@,
            ),
            r matches Err(e) ==> final(self).spawn_status.entries() == old(
                self,
            ).spawn_status.entries() && e@ == storage_error(
                ErrorKind::NotFound,
                now,
                "update"@,
                "spawn_status"@,
                "Key does not exist"@,
            ),
    {
        self.spawn_status.update(blockheight, status, now)
    }

    /// The first half of a transfer of ownership: the record of the
    /// wallet `canister_id`, which `caller` must own. The wallet itself is
    /// asked next to set its owner; nothing is stored before it has answered.
    /// `NotFound` where the wallet has no record, `Unauthorized` where
    /// `caller` does not own it.
    pub fn transfer_ownership(&self, canister_id: Principal, caller: Principal, now: u64) -> (r:
        Result<WalletData, Error>)
        ensures
            r is Ok <==> self.multisigs.entries().contains_key(canister_id@)
                && self.multisigs.entries()[canister_id@].owner == caller@,
            r matches Ok(wallet) ==> wallet@ == self.multisigs.entries()[canister_id@],
            !self.multisigs.entries().contains_key(canister_id@) ==> (r matches Err(e) && e@
                == ErrorView::bare(ErrorKind::NotFound, now).with_method_name("get"@).with_info(
                "multisigs"@,
            )),
            self.multisigs.entries().contains_key(canister_id@)
                && self.multisigs.entries()[canister_id@].owner != caller@ ==> (r matches Err(e)
                && e@ == not_the_owner(now)),
    {
        let wallet = match self.multisigs.get(canister_id, now) {
            Ok(pair) => pair.1,
            Err(e) => { return Err(e); },
        };
        if !wallet.is_owner(caller) {
            return Err(Error::unauthorized(now).add_message("Caller is not the owner"));
        }
        Ok(wallet)
    }

    /// The second half of a transfer of ownership, once the wallet
    /// `canister_id` has answered. Where the call failed, or the wallet
    /// refused, nothing is stored and the reason is reported as `Internal`.
    /// Where the wallet confirmed, its record becomes `wallet`, as it was
    /// read in the first half, with the identity that the wallet confirmed
    /// as its owner; no other record changes.
    pub fn ownership_transferred(
        &mut self,
        canister_id: Principal,
        wallet: WalletData,
        outcome: Result<Result<Principal, String>, String>,
        now: u64,
    ) -> (r: Result<(Principal, WalletData), Error>)
        ensures
            final(self).spawn_status == old(self).spawn_status,
            final(self).proxy == old(self).proxy,
            final(self).wasm == old(self).wasm,
            final(self)@.regions == old(self)@.regions,
            final(self).multisigs.entries() == wallets_after_transfer(
                old(self).multisigs.entries(),
                canister_id@,
                wallet@,
                set_owner_answer(outcome),
            ),
            wallet_result_view(r) == transfer_reported(
                canister_id@,
                wallet@,
                set_owner_answer(outcome),
                now,
            ),
    {
        let confirmed = match outcome {
            Ok(answer) => answer,
            Err(reason) => { return Err(Error::internal(now).add_message(reason.as_str())); },
        };
        let owner = match confirmed {
            Ok(owner) => owner,
            Err(reason) => { return Err(Error::internal(now).add_message(reason.as_str())); },
        };
        let mut wallet = wallet;
        let changed = wallet.set_owner(owner);
        self.multisigs.upsert(canister_id, changed)
    }

    /// Accepts a whitelist of two or more identities that are all
    /// different. Refuses any other with `BadRequest`: one that is too
    /// short for that, and one that is long enough with the first identity
    /// that it holds for the second time.
    pub fn validate_whitelist(whitelist: &[Principal], now: u64) -> (r: Result<(), Error>)
        ensures
            r is Ok <==> whitelist@.len() >= 2 && all_distinct(principals_view(whitelist@)),
            r matches Err(e) ==> Err::<(), ErrorView>(e@) == whitelist_validation(
                principals_view(whitelist@),
                now,
            ),
    {
        let ghost list = principals_view(whitelist@);
        if whitelist.len() < 2 {
            return Err(
                Error::bad_request(now).add_message("Whitelist must have at least 2 principals"),
            );
        }
        let mut at: usize = 0;
        while at < whitelist.len()
            invariant
                at <= whitelist@.len(),
                list == principals_view(whitelist@),
                forall|k: int| 0 <= k < at ==> !repeats(list, k),
            decreases whitelist@.len() - at,
        {
            let mut i: usize = 0;
            while i < at
                invariant
                    i <= at < whitelist@.len(),
                    list == principals_view(whitelist@),
                    forall|k: int| 0 <= k < at ==> !repeats(list, k),
                    forall|k: int| 0 <= k < i ==> list[k] != list[at as int],
                decreases at - i,
            {
                if whitelist[i].same(&whitelist[at]) {
                    let mut message = String::from_str("Duplicate principal: ");
                    let text = whitelist[at].to_text();
                    message.append(text.as_str());
                    proof {
                        assert(list[i as int] == list[at as int]);
                        assert(repeats(list, at as int));
                        assert(first_repeat(list, at as int));
                        assert(!all_distinct(list));
                        lemma_first_repeat_unique(
                            list,
                            at as int,
                            choose|k: int| first_repeat(list, k),
                        );
                    }
                    return Err(Error::bad_request(now).add_message(message.as_str()));
                }
                i += 1;
            }
            assert(!repeats(list, at as int));
            at += 1;
        }
        proof {
            assert forall|i: int, j: int| 0 <= i < j < list.len() implies list[i] != list[j] by {
                assert(!repeats(list, j));
            }
        }
        Ok(())
    }
}

} // verus!
