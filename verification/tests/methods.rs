use wallet_index::logic::ledger::Ledger;
use wallet_index::logic::store::Store;
use wallet_index::methods::{
    spawn_wallet, spawn_wallet_step, top_up_wallet, top_up_wallet_step, RunEvent, SpawnAction,
    SpawnRun, SpawnStage, TopUpAction, TopUpStage,
};
use wallet_index::storage::cell_api::CellStorage;
use wallet_index::types::error::{Error, ErrorKind};
use wallet_index::types::principal::Principal;

fn principal(bytes: &[u8]) -> Principal {
    Principal::try_from_slice(bytes).unwrap()
}

fn caller() -> Principal {
    principal(&[1, 2, 3])
}

fn me() -> Principal {
    principal(&[0, 0, 0, 0, 1, 0x70, 0xe3, 0x87, 1, 1])
}

fn whitelist() -> Vec<Principal> {
    vec![principal(&[1, 2, 3]), principal(&[4, 5, 6])]
}

fn ready_store() -> Store {
    let mut store = Store::init().unwrap();
    store.wasm.set(vec![0, 97, 115, 109, 1, 0, 0, 0], 0).unwrap();
    store.proxy.set(principal(&[9, 9]), 0).unwrap();
    store
}

fn step(store: &mut Store, run: SpawnRun, event: RunEvent, now: u64) -> (SpawnRun, SpawnAction) {
    assert!(run.accepts(&event));
    spawn_wallet_step(store, run, event, now)
}

fn begin(store: &mut Store, blockheight: u64) -> SpawnRun {
    let (run, action) = spawn_wallet(store, caller(), me(), blockheight, whitelist(), 5, 100);
    match action {
        SpawnAction::ValidateTransaction { principal, block_index } => {
            assert!(principal.same(&caller()));
            assert_eq!(block_index, blockheight);
        }
        other => panic!("unexpected action {:?}", other),
    }
    assert_eq!(run.stage(), SpawnStage::ValidatingTransaction);
    assert_eq!(run.blockheight(), blockheight);
    run
}

#[test]
fn spawn_runs_through_to_the_wallet() {
    let mut store = ready_store();
    let u1 = principal(&[0, 0, 0, 0, 0, 0, 0, 0x55, 1, 1]);
    let run = begin(&mut store, 42);
    let stored = store.get_spawn(42, 0).unwrap().1;
    assert_eq!(stored.status_type(), Some("Wallet spawn".to_string()));
    assert_eq!(stored.get_transaction_valid(), None);

    let (run, action) = step(&mut store, run, RunEvent::TransactionValidated(Ok(200_000_000)), 101);
    assert!(matches!(action, SpawnAction::FetchMinimum));
    assert_eq!(run.stage(), SpawnStage::FetchingMinimum);
    assert_eq!(store.get_spawn(42, 0).unwrap().1.get_transaction_valid(), Some(200_000_000));

    let (run, action) = step(&mut store, run, RunEvent::MinimumFetched(Ok(150_000_000)), 102);
    match action {
        SpawnAction::TransferToCmc(args) => {
            assert_eq!(args.memo, 1347768404);
            assert_eq!(args.amount, 190_000_000);
            assert_eq!(args.fee, 10_000);
            assert!(args.to.same(&Ledger::transfer_icp_to_cmc(200_000_000, &me()).to));
        }
        other => panic!("unexpected action {:?}", other),
    }
    assert_eq!(run.stage(), SpawnStage::TransferringToCmc);
    assert_eq!(store.get_spawn(42, 0).unwrap().1.get_min_amount_error(), None);

    let (run, action) = step(&mut store, run, RunEvent::TransferredToCmc(Ok(43)), 103);
    match action {
        SpawnAction::TopUp { block_index, canister_id } => {
            assert_eq!(block_index, 43);
            assert!(canister_id.same(&me()));
        }
        other => panic!("unexpected action {:?}", other),
    }
    assert_eq!(run.stage(), SpawnStage::ToppingUp);
    assert_eq!(store.get_spawn(42, 0).unwrap().1.get_transferred_to_cmc(), Some(43));

    let (run, action) = step(&mut store, run, RunEvent::ToppedUp(Ok(5_000_000_000_000)), 104);
    match action {
        SpawnAction::SpawnCanister(plan) => {
            assert_eq!(plan.cycles, 5_000_000_000_000);
            assert_eq!(plan.controllers.len(), 1);
            assert!(plan.controllers[0].same(&me()));
        }
        other => panic!("unexpected action {:?}", other),
    }
    assert_eq!(run.stage(), SpawnStage::SpawningCanister);
    assert_eq!(
        store.get_spawn(42, 0).unwrap().1.get_topped_up_self(),
        Some(5_000_000_000_000)
    );

    let (run, action) = step(&mut store, run, RunEvent::CanisterSpawned(Ok(u1.clone())), 105);
    match action {
        SpawnAction::InstallCanister(plan) => {
            assert!(plan.canister_id.same(&u1));
            assert_eq!(plan.wasm_module, vec![0, 97, 115, 109, 1, 0, 0, 0]);
            assert!(plan.caller.same(&caller()));
            assert_eq!(plan.whitelist.len(), 2);
            assert!(plan.whitelist[0].same(&principal(&[1, 2, 3])));
            assert!(plan.whitelist[1].same(&principal(&[4, 5, 6])));
            assert!(plan.proxy.same(&principal(&[9, 9])));
            assert_eq!(plan.group_id, 5);
        }
        other => panic!("unexpected action {:?}", other),
    }
    assert_eq!(run.stage(), SpawnStage::InstallingCanister);
    assert!(store.get_spawn(42, 0).unwrap().1.get_canister_spawned().unwrap().same(&u1));
    assert!(store.get_wallets().is_empty());

    let (run, action) = step(&mut store, run, RunEvent::CanisterInstalled(Ok(u1.clone())), 106);
    match action {
        SpawnAction::Return(Ok(wallet)) => assert!(wallet.same(&u1)),
        other => panic!("unexpected action {:?}", other),
    }
    assert_eq!(run.stage(), SpawnStage::Finished);
    let status = store.get_spawn(42, 0).unwrap().1;
    assert!(status.is_done());
    assert_eq!(status.get_transaction_valid(), Some(200_000_000));
    assert_eq!(status.get_min_amount_error(), None);
    assert_eq!(status.get_transferred_to_cmc(), Some(43));
    assert_eq!(status.get_topped_up_self(), Some(5_000_000_000_000));
    assert!(status.get_canister_spawned().unwrap().same(&u1));
    assert!(status.get_canister_installed().unwrap().same(&u1));
    assert!(run.status().is_done());
    let wallet = store.get_wallet(u1.clone(), 0).unwrap().1;
    assert!(wallet.created_by().same(&caller()));
    assert!(wallet.owner().same(&caller()));
    assert_eq!(wallet.created_at(), 106);
    assert_eq!(wallet.updated_at(), 106);
    assert_eq!(wallet.icp_blockheight(), 42);
    assert_eq!(wallet.cmc_blockheight(), 43);
    assert_eq!(wallet.group_id(), 5);
    assert_eq!(store.get_wallets().len(), 1);
}

#[test]
fn spawn_sends_a_small_payment_back() {
    let mut store = ready_store();
    let run = begin(&mut store, 7);
    let (run, _) = step(&mut store, run, RunEvent::TransactionValidated(Ok(50_000_000)), 101);
    let (run, action) = step(&mut store, run, RunEvent::MinimumFetched(Ok(150_000_000)), 102);
    match action {
        SpawnAction::Refund(args) => {
            assert_eq!(args.memo, 0);
            assert_eq!(args.amount, 49_990_000);
            assert_eq!(args.fee, 10_000);
            assert!(args.to.same(&Ledger::principal_to_account_identifier(&caller())));
        }
        other => panic!("unexpected action {:?}", other),
    }
    assert_eq!(run.stage(), SpawnStage::Refunding { minimum: 150_000_000 });
    assert_eq!(store.get_spawn(7, 0).unwrap().1.get_min_amount_error(), None);
    let (run, action) = step(&mut store, run, RunEvent::Refunded(Ok(8)), 103);
    match action {
        SpawnAction::Return(Err(e)) => {
            assert_eq!(e.error_type(), ErrorKind::InsufficientBalance);
            assert_eq!(e.timestamp(), 103);
            assert_eq!(
                e.message(),
                Some(
                    "Amount (0.50000000) is less than 150000000, ICP transferred back: blockheight: 8"
                        .to_string()
                )
            );
        }
        other => panic!("unexpected action {:?}", other),
    }
    assert_eq!(run.stage(), SpawnStage::Finished);
    let status = store.get_spawn(7, 0).unwrap().1;
    assert_eq!(status.get_min_amount_error(), Some(8));
    assert_eq!(status.get_transaction_valid(), Some(50_000_000));
    assert_eq!(status.get_transferred_to_cmc(), None);
    assert!(status.get_canister_spawned().is_none());
    assert!(!status.is_done());
    assert!(store.get_wallets().is_empty());
}

#[test]
fn spawn_passes_at_exactly_the_minimum() {
    let mut store = ready_store();
    let run = begin(&mut store, 7);
    let (run, _) = step(&mut store, run, RunEvent::TransactionValidated(Ok(150_000_000)), 101);
    let (run, action) = step(&mut store, run, RunEvent::MinimumFetched(Ok(150_000_000)), 102);
    assert!(matches!(action, SpawnAction::TransferToCmc(_)));
    assert_eq!(run.stage(), SpawnStage::TransferringToCmc);
    let mut store = ready_store();
    let run = begin(&mut store, 7);
    let (run, _) = step(&mut store, run, RunEvent::TransactionValidated(Ok(149_999_999)), 101);
    let (_, action) = step(&mut store, run, RunEvent::MinimumFetched(Ok(150_000_000)), 102);
    assert!(matches!(action, SpawnAction::Refund(_)));
}

#[test]
fn spawn_step_is_not_defined_for_payments_below_the_fees() {
    let mut store = ready_store();
    let run = begin(&mut store, 7);
    let (run, _) = step(&mut store, run, RunEvent::TransactionValidated(Ok(9_999)), 101);
    assert!(!run.accepts(&RunEvent::MinimumFetched(Ok(150_000_000))));
    assert!(!run.accepts(&RunEvent::MinimumFetched(Ok(5_000))));
    assert!(run.accepts(&RunEvent::MinimumFetched(Err(Error::internal(0)))));
    assert!(run.accepts(&RunEvent::Refunded(Ok(1))));
    let mut store = ready_store();
    let run = begin(&mut store, 7);
    let (run, _) = step(&mut store, run, RunEvent::TransactionValidated(Ok(9_999_999)), 101);
    assert!(run.accepts(&RunEvent::MinimumFetched(Ok(150_000_000))));
    assert!(!run.accepts(&RunEvent::MinimumFetched(Ok(5_000))));
}

#[test]
fn spawn_checks_the_whitelist_first() {
    let mut store = ready_store();
    let (run, action) = spawn_wallet(&mut store, caller(), me(), 42, vec![caller()], 5, 100);
    match action {
        SpawnAction::Return(Err(e)) => {
            assert_eq!(e.error_type(), ErrorKind::BadRequest);
            assert_eq!(
                e.message(),
                Some("Whitelist must have at least 2 principals".to_string())
            );
        }
        other => panic!("unexpected action {:?}", other),
    }
    assert_eq!(run.stage(), SpawnStage::Finished);
    assert!(store.get_spawn(42, 0).is_err());
    let (_, action) =
        spawn_wallet(&mut store, caller(), me(), 42, vec![caller(), me(), caller()], 5, 100);
    match action {
        SpawnAction::Return(Err(e)) => {
            assert_eq!(e.error_type(), ErrorKind::BadRequest);
            assert_eq!(e.message(), Some(format!("Duplicate principal: {}", caller().to_text())));
        }
        other => panic!("unexpected action {:?}", other),
    }
    assert!(store.get_spawns().is_empty());
}

#[test]
fn a_payment_starts_one_run_only() {
    let mut store = ready_store();
    let run = begin(&mut store, 42);
    let (_, action) = spawn_wallet(&mut store, caller(), me(), 42, whitelist(), 5, 200);
    match action {
        SpawnAction::Return(Err(e)) => {
            assert_eq!(e.error_type(), ErrorKind::BadRequest);
            assert_eq!(e.message(), Some("Duplicate blockheight: 42".to_string()));
            assert_eq!(e.timestamp(), 200);
        }
        other => panic!("unexpected action {:?}", other),
    }
    let (other_run, action) = top_up_wallet(&mut store, caller(), 42, principal(&[8]), 201);
    match action {
        TopUpAction::Return(Err(e)) => {
            assert_eq!(e.error_type(), ErrorKind::BadRequest);
            assert_eq!(e.message(), Some("Duplicate blockheight: 42".to_string()));
        }
        other => panic!("unexpected action {:?}", other),
    }
    assert_eq!(other_run.stage(), TopUpStage::Finished);
    let (run, _) = step(&mut store, run, RunEvent::TransactionValidated(Ok(200_000_000)), 101);
    let (_, action) = spawn_wallet(&mut store, principal(&[7]), me(), 42, whitelist(), 5, 200);
    assert!(matches!(action, SpawnAction::Return(Err(_))));
    assert_eq!(store.get_spawn(42, 0).unwrap().1.get_transaction_valid(), Some(200_000_000));
    assert_eq!(run.stage(), SpawnStage::FetchingMinimum);
    assert_eq!(store.get_spawns().len(), 1);
    let err = store
        .save_status(42, wallet_index::types::spawn_status::SpawnStatus::new(None), 5)
        .unwrap_err();
    assert_eq!(err.error_type(), ErrorKind::Duplicate);
}

#[test]
fn an_error_ends_the_run_where_it_stands() {
    let mut store = ready_store();
    let run = begin(&mut store, 42);
    let (run, _) = step(&mut store, run, RunEvent::TransactionValidated(Ok(200_000_000)), 101);
    let (run, _) = step(&mut store, run, RunEvent::MinimumFetched(Ok(150_000_000)), 102);
    let failure = Error::internal(103).add_message("ledger unreachable");
    let (run, action) = step(&mut store, run, RunEvent::TransferredToCmc(Err(failure)), 104);
    match action {
        SpawnAction::Return(Err(e)) => {
            assert_eq!(e.error_type(), ErrorKind::Internal);
            assert_eq!(e.message(), Some("ledger unreachable".to_string()));
            assert_eq!(e.timestamp(), 103);
        }
        other => panic!("unexpected action {:?}", other),
    }
    assert_eq!(run.stage(), SpawnStage::Finished);
    let status = store.get_spawn(42, 0).unwrap().1;
    assert_eq!(status.get_transaction_valid(), Some(200_000_000));
    assert_eq!(status.get_transferred_to_cmc(), None);
    assert!(!status.is_done());
    let (run, action) = step(&mut store, run, RunEvent::TransferredToCmc(Ok(43)), 105);
    match action {
        SpawnAction::Return(Err(e)) => {
            assert_eq!(e.error_type(), ErrorKind::BadRequest);
            assert_eq!(e.message(), Some("The run does not wait for this answer".to_string()));
        }
        other => panic!("unexpected action {:?}", other),
    }
    assert_eq!(run.stage(), SpawnStage::Finished);
    assert_eq!(store.get_spawn(42, 0).unwrap().1.get_transferred_to_cmc(), None);
}

#[test]
fn an_answer_out_of_turn_ends_the_run() {
    let mut store = ready_store();
    let run = begin(&mut store, 42);
    let (run, action) = step(&mut store, run, RunEvent::ToppedUp(Ok(1)), 101);
    match action {
        SpawnAction::Return(Err(e)) => {
            assert_eq!(e.error_type(), ErrorKind::BadRequest);
            assert_eq!(e.timestamp(), 101);
        }
        other => panic!("unexpected action {:?}", other),
    }
    assert_eq!(run.stage(), SpawnStage::Finished);
    assert_eq!(store.get_spawn(42, 0).unwrap().1.get_topped_up_self(), None);
}

#[test]
fn spawn_stops_where_the_code_is_missing() {
    let mut store = Store::init().unwrap();
    let run = begin(&mut store, 42);
    let (run, _) = step(&mut store, run, RunEvent::TransactionValidated(Ok(200_000_000)), 101);
    let (run, _) = step(&mut store, run, RunEvent::MinimumFetched(Ok(150_000_000)), 102);
    let (run, _) = step(&mut store, run, RunEvent::TransferredToCmc(Ok(43)), 103);
    let (run, _) = step(&mut store, run, RunEvent::ToppedUp(Ok(5)), 104);
    let (run, action) = step(&mut store, run, RunEvent::CanisterSpawned(Ok(principal(&[8]))), 105);
    match action {
        SpawnAction::Return(Err(e)) => {
            assert_eq!(e.error_type(), ErrorKind::Internal);
            assert_eq!(
                e.message(),
                Some("Failed to get multisig_wasm, not initialized".to_string())
            );
        }
        other => panic!("unexpected action {:?}", other),
    }
    assert_eq!(run.stage(), SpawnStage::Finished);
    let status = store.get_spawn(42, 0).unwrap().1;
    assert!(status.get_canister_spawned().unwrap().same(&principal(&[8])));
    assert!(status.get_canister_installed().is_none());
    assert!(!status.is_done());
}

#[test]
fn spawn_does_not_overwrite_a_wallet() {
    let mut store = ready_store();
    let u1 = principal(&[8]);
    store.save_wallet(u1.clone(), principal(&[6]), 1, 2, 3, 4).unwrap();
    let run = begin(&mut store, 42);
    let (run, _) = step(&mut store, run, RunEvent::TransactionValidated(Ok(200_000_000)), 101);
    let (run, _) = step(&mut store, run, RunEvent::MinimumFetched(Ok(150_000_000)), 102);
    let (run, _) = step(&mut store, run, RunEvent::TransferredToCmc(Ok(43)), 103);
    let (run, _) = step(&mut store, run, RunEvent::ToppedUp(Ok(5)), 104);
    let (run, _) = step(&mut store, run, RunEvent::CanisterSpawned(Ok(u1.clone())), 105);
    let (run, action) = step(&mut store, run, RunEvent::CanisterInstalled(Ok(u1.clone())), 106);
    match action {
        SpawnAction::Return(Err(e)) => assert_eq!(e.error_type(), ErrorKind::Duplicate),
        other => panic!("unexpected action {:?}", other),
    }
    assert_eq!(run.stage(), SpawnStage::Finished);
    let status = store.get_spawn(42, 0).unwrap().1;
    assert!(status.get_canister_installed().unwrap().same(&u1));
    assert!(!status.is_done());
    assert!(store.get_wallet(u1, 0).unwrap().1.is_owner(principal(&[6])));
}

#[test]
fn a_run_whose_record_is_gone_ends_with_not_found() {
    let mut store = ready_store();
    let run = begin(&mut store, 42);
    wallet_index::storage::storage_api::StorageUpdateable::clear(&mut store.spawn_status);
    let (run, action) = step(&mut store, run, RunEvent::TransactionValidated(Ok(200_000_000)), 101);
    match action {
        SpawnAction::Return(Err(e)) => {
            assert_eq!(e.error_type(), ErrorKind::NotFound);
            assert_eq!(e.method_name(), Some("update".to_string()));
            assert_eq!(e.info(), Some(vec!["spawn_status".to_string()]));
        }
        other => panic!("unexpected action {:?}", other),
    }
    assert_eq!(run.stage(), SpawnStage::Finished);
    assert!(store.get_spawns().is_empty());
}

#[test]
fn top_up_runs_through() {
    let mut store = ready_store();
    let wallet = principal(&[8, 8]);
    let (run, action) = top_up_wallet(&mut store, caller(), 77, wallet.clone(), 100);
    match action {
        TopUpAction::ValidateTransaction { principal, block_index } => {
            assert!(principal.same(&caller()));
            assert_eq!(block_index, 77);
        }
        other => panic!("unexpected action {:?}", other),
    }
    assert_eq!(run.stage(), TopUpStage::ValidatingTransaction);
    assert_eq!(run.blockheight(), 77);
    assert_eq!(
        store.get_spawn(77, 0).unwrap().1.status_type(),
        Some("Top up wallet".to_string())
    );
    let event = RunEvent::TransactionValidated(Ok(20_000_000));
    assert!(run.accepts(&event));
    let (run, action) = top_up_wallet_step(&mut store, run, event, 101);
    match action {
        TopUpAction::TransferToCmc(args) => {
            assert_eq!(args.amount, 10_000_000);
            assert_eq!(args.fee, 10_000);
            assert_eq!(args.memo, 1347768404);
            assert!(args.to.same(&Ledger::transfer_icp_to_cmc(20_000_000, &wallet).to));
        }
        other => panic!("unexpected action {:?}", other),
    }
    assert_eq!(run.stage(), TopUpStage::TransferringToCmc);
    let (run, action) = top_up_wallet_step(&mut store, run, RunEvent::TransferredToCmc(Ok(78)), 102);
    match action {
        TopUpAction::TopUp { block_index, canister_id } => {
            assert_eq!(block_index, 78);
            assert!(canister_id.same(&wallet));
        }
        other => panic!("unexpected action {:?}", other),
    }
    assert_eq!(run.stage(), TopUpStage::ToppingUp);
    let (run, action) = top_up_wallet_step(&mut store, run, RunEvent::ToppedUp(Ok(123)), 103);
    assert!(matches!(action, TopUpAction::Return(Ok(()))));
    assert_eq!(run.stage(), TopUpStage::Finished);
    let status = store.get_spawn(77, 0).unwrap().1;
    assert!(status.is_done());
    assert_eq!(status.get_transaction_valid(), Some(20_000_000));
    assert_eq!(status.get_transferred_to_cmc(), Some(78));
    assert_eq!(status.get_topped_up_self(), Some(123));
    assert!(status.get_canister_spawned().is_none());
    assert!(status.get_canister_installed().is_none());
    assert_eq!(status.get_min_amount_error(), None);
    assert!(run.status().is_done());
    assert!(store.get_wallets().is_empty());
}

#[test]
fn top_up_has_no_minimum_but_needs_the_share_of_the_service() {
    let mut store = ready_store();
    let (run, _) = top_up_wallet(&mut store, caller(), 77, principal(&[8]), 100);
    assert!(!run.accepts(&RunEvent::TransactionValidated(Ok(9_999_999))));
    assert!(run.accepts(&RunEvent::TransactionValidated(Ok(10_000_000))));
    assert!(run.accepts(&RunEvent::TransactionValidated(Err(Error::not_found(0)))));
    let (run, action) =
        top_up_wallet_step(&mut store, run, RunEvent::TransactionValidated(Ok(10_000_000)), 101);
    match action {
        TopUpAction::TransferToCmc(args) => assert_eq!(args.amount, 0),
        other => panic!("unexpected action {:?}", other),
    }
    let (run, action) =
        top_up_wallet_step(&mut store, run, RunEvent::CanisterSpawned(Ok(principal(&[1]))), 102);
    match action {
        TopUpAction::Return(Err(e)) => {
            assert_eq!(e.error_type(), ErrorKind::BadRequest);
            assert_eq!(e.message(), Some("The run does not wait for this answer".to_string()));
        }
        other => panic!("unexpected action {:?}", other),
    }
    assert_eq!(run.stage(), TopUpStage::Finished);
    assert!(!store.get_spawn(77, 0).unwrap().1.is_done());
}

#[test]
fn top_up_error_is_handed_on() {
    let mut store = ready_store();
    let (run, _) = top_up_wallet(&mut store, caller(), 77, principal(&[8]), 100);
    let failure = Error::not_found(5).add_message("Block not found");
    let (run, action) =
        top_up_wallet_step(&mut store, run, RunEvent::TransactionValidated(Err(failure)), 101);
    match action {
        TopUpAction::Return(Err(e)) => {
            assert_eq!(e.error_type(), ErrorKind::NotFound);
            assert_eq!(e.message(), Some("Block not found".to_string()));
            assert_eq!(e.timestamp(), 5);
        }
        other => panic!("unexpected action {:?}", other),
    }
    assert_eq!(run.stage(), TopUpStage::Finished);
    assert_eq!(store.get_spawn(77, 0).unwrap().1.get_transaction_valid(), None);
}
