use wallet_index::storage::cell_api::CellStorage;
use wallet_index::storage::multisig_storage::MultisigStorage;
use wallet_index::storage::multisig_wasm_storage::MultisigWasmStorage;
use wallet_index::storage::proxy_storage::ProxyCanisterStorage;
use wallet_index::storage::spawn_status_storage::SpawnStatusStorage;
use wallet_index::storage::state::{
    catalyze_multi_sig, CATALYZE_E8S_FEE, ICP_TRANSACTION_FEE, MEMO_CREATE_CANISTER,
    MEMO_TOP_UP_CANISTER, MIN_CYCLES_FOR_SPINUP, MULTISIGS_MEMORY_ID, MULTISIG_WASM_MEMORY_ID,
    PROXY_CANISTER_MEMORY_ID, SPAWN_STATUS_MEMORY_ID,
};
use wallet_index::storage::storage_api::{
    Storage, StorageInsertable, StorageInsertableByKey, StorageQueryable, StorageUpdateable,
};
use wallet_index::logic::store::Store;
use wallet_index::types::error::ErrorKind;
use wallet_index::types::principal::Principal;
use wallet_index::types::spawn_status::SpawnStatus;
use wallet_index::types::wallet_data::WalletData;

fn principal(bytes: &[u8]) -> Principal {
    Principal::try_from_slice(bytes).unwrap()
}

fn status(amount: u64) -> SpawnStatus {
    let mut s = SpawnStatus::new(Some("Wallet spawn".to_string()));
    s.transaction_valid(amount);
    s
}

#[test]
fn constants_have_their_values() {
    assert_eq!(MEMO_TOP_UP_CANISTER, 1347768404);
    assert_eq!(MEMO_TOP_UP_CANISTER, u32::from_le_bytes(*b"TPUP") as u64);
    assert_eq!(MEMO_CREATE_CANISTER, 1095062083);
    assert_eq!(ICP_TRANSACTION_FEE, 10_000);
    assert_eq!(MIN_CYCLES_FOR_SPINUP, 5_000_000_000_000);
    assert_eq!(CATALYZE_E8S_FEE, 10_000_000);
    assert_eq!(catalyze_multi_sig(), "fcygz-gqaaa-aaaap-abpaa-cai");
    assert_eq!(MULTISIGS_MEMORY_ID, 0);
    assert_eq!(SPAWN_STATUS_MEMORY_ID, 1);
    assert_eq!(PROXY_CANISTER_MEMORY_ID, 2);
    assert_eq!(MULTISIG_WASM_MEMORY_ID, 3);
    assert_eq!(MultisigStorage::memory_id(), 0);
    assert_eq!(SpawnStatusStorage::memory_id(), 1);
    assert_eq!(ProxyCanisterStorage::memory_id(), 2);
    assert_eq!(MultisigWasmStorage::memory_id(), 3);
    assert_eq!(MultisigStorage::name(), "multisigs");
    assert_eq!(SpawnStatusStorage::name(), "spawn_status");
    assert_eq!(ProxyCanisterStorage::name(), "proxy");
    assert_eq!(MultisigWasmStorage::name(), "multisig_wasm");
}

#[test]
fn status_insert_by_key_then_get() {
    let mut store = Store::init().unwrap();
    let storage = &mut store.spawn_status;
    let (key, stored) = storage.insert_by_key(42, status(200_000_000), 5).unwrap();
    assert_eq!(key, 42);
    assert_eq!(stored.get_transaction_valid(), Some(200_000_000));
    let (key, loaded) = storage.get(42, 6).unwrap();
    assert_eq!(key, 42);
    assert_eq!(loaded.status_type(), Some("Wallet spawn".to_string()));
    assert_eq!(loaded.get_transaction_valid(), Some(200_000_000));
    assert!(!loaded.is_done());
    assert!(storage.contains_key(42));
    assert!(!storage.contains_key(41));
    let (key, loaded) = storage.get_opt(42).unwrap();
    assert_eq!(key, 42);
    assert_eq!(loaded.get_transaction_valid(), Some(200_000_000));
    assert!(storage.get_opt(41).is_none());
}

#[test]
fn insert_by_key_refuses_a_taken_key() {
    let mut store = Store::init().unwrap();
    let storage = &mut store.spawn_status;
    storage.insert_by_key(42, status(1), 5).unwrap();
    let err = storage.insert_by_key(42, status(2), 7).unwrap_err();
    assert_eq!(err.error_type(), ErrorKind::Duplicate);
    assert_eq!(err.timestamp(), 7);
    assert_eq!(err.method_name(), Some("insert_by_key".to_string()));
    assert_eq!(err.info(), Some(vec!["spawn_status".to_string()]));
    assert_eq!(err.message(), Some("Key already exists".to_string()));
    assert_eq!(err.tag(), None);
    assert_eq!(storage.get(42, 8).unwrap().1.get_transaction_valid(), Some(1));
}

#[test]
fn get_reports_not_found() {
    let store = Store::init().unwrap();
    let storage = &store.spawn_status;
    let err = storage.get(1, 9).unwrap_err();
    assert_eq!(err.error_type(), ErrorKind::NotFound);
    assert_eq!(err.timestamp(), 9);
    assert_eq!(err.method_name(), Some("get".to_string()));
    assert_eq!(err.info(), Some(vec!["spawn_status".to_string()]));
    assert_eq!(err.message(), None);
}

#[test]
fn update_upsert_and_remove() {
    let mut store = Store::init().unwrap();
    let storage = &mut store.spawn_status;
    let err = storage.update(3, status(1), 9).unwrap_err();
    assert_eq!(err.error_type(), ErrorKind::NotFound);
    assert_eq!(err.method_name(), Some("update".to_string()));
    assert_eq!(err.message(), Some("Key does not exist".to_string()));
    assert_eq!(err.info(), Some(vec!["spawn_status".to_string()]));
    assert!(!storage.contains_key(3));
    let (k, v) = storage.upsert(3, status(1)).unwrap();
    assert_eq!(k, 3);
    assert_eq!(v.get_transaction_valid(), Some(1));
    let (k, v) = storage.upsert(3, status(2)).unwrap();
    assert_eq!(k, 3);
    assert_eq!(v.get_transaction_valid(), Some(2));
    assert_eq!(storage.get(3, 0).unwrap().1.get_transaction_valid(), Some(2));
    let (k, v) = storage.update(3, status(5), 9).unwrap();
    assert_eq!(k, 3);
    assert_eq!(v.get_transaction_valid(), Some(5));
    assert_eq!(storage.get(3, 0).unwrap().1.get_transaction_valid(), Some(5));
    storage.remove(3, 1).unwrap();
    assert!(!storage.contains_key(3));
    let err = storage.remove(3, 2).unwrap_err();
    assert_eq!(err.error_type(), ErrorKind::NotFound);
    assert_eq!(err.method_name(), Some("remove".to_string()));
    assert_eq!(err.message(), Some("Key does not exist".to_string()));
    assert_eq!(err.timestamp(), 2);
}

#[test]
fn get_all_lists_by_rising_key() {
    let mut store = Store::init().unwrap();
    let storage = &mut store.spawn_status;
    assert!(storage.get_all().is_empty());
    for key in [30u64, 10, 20, u64::MAX, 0] {
        storage.insert_by_key(key, status(key), 0).unwrap();
    }
    let all = storage.get_all();
    let keys: Vec<u64> = all.iter().map(|p| p.0).collect();
    assert_eq!(keys, vec![0, 10, 20, 30, u64::MAX]);
    for (k, v) in all.iter() {
        assert_eq!(v.get_transaction_valid(), Some(*k));
    }
}

#[test]
fn get_many_keeps_the_order_of_the_keys() {
    let mut store = Store::init().unwrap();
    let storage = &mut store.spawn_status;
    for key in [1u64, 2, 3] {
        storage.insert_by_key(key, status(key * 10), 0).unwrap();
    }
    let found = storage.get_many(vec![3, 9, 1, 3]);
    let keys: Vec<u64> = found.iter().map(|p| p.0).collect();
    assert_eq!(keys, vec![3, 1, 3]);
    assert_eq!(found[0].1.get_transaction_valid(), Some(30));
    assert_eq!(found[1].1.get_transaction_valid(), Some(10));
    assert!(storage.get_many(vec![]).is_empty());
    assert!(storage.get_many(vec![7, 8]).is_empty());
}

#[test]
fn find_and_filter_scan_by_rising_key() {
    let mut store = Store::init().unwrap();
    let storage = &mut store.spawn_status;
    for key in [5u64, 1, 4, 2, 3] {
        storage.insert_by_key(key, status(key * 10), 0).unwrap();
    }
    let found = storage.find(|k: &u64, _v: &SpawnStatus| *k >= 3).unwrap();
    assert_eq!(found.0, 3);
    let found = storage
        .find(|_k: &u64, v: &SpawnStatus| v.get_transaction_valid() == Some(20))
        .unwrap();
    assert_eq!(found.0, 2);
    assert!(storage.find(|k: &u64, _v: &SpawnStatus| *k > 5).is_none());
    let even = storage.filter(|k: &u64, _v: &SpawnStatus| *k % 2 == 0);
    let keys: Vec<u64> = even.iter().map(|p| p.0).collect();
    assert_eq!(keys, vec![2, 4]);
    assert!(storage.filter(|_k: &u64, _v: &SpawnStatus| false).is_empty());
    assert_eq!(storage.filter(|_k: &u64, _v: &SpawnStatus| true).len(), 5);
}

#[test]
fn insert_takes_the_next_key() {
    let mut store = Store::init().unwrap();
    let storage = &mut store.spawn_status;
    assert_eq!(storage.last_key(), None);
    let (k, v) = storage.insert(status(7), 1).unwrap();
    assert_eq!(k, 1);
    assert_eq!(v.get_transaction_valid(), Some(7));
    let (k, _) = storage.insert(status(8), 1).unwrap();
    assert_eq!(k, 2);
    storage.insert_by_key(10, status(9), 1).unwrap();
    assert_eq!(storage.last_key(), Some(10));
    let (k, _) = storage.insert(status(9), 1).unwrap();
    assert_eq!(k, 11);
    assert_eq!(storage.get(11, 0).unwrap().1.get_transaction_valid(), Some(9));
}

#[test]
fn insert_after_the_greatest_number() {
    let mut store = Store::init().unwrap();
    let storage = &mut store.spawn_status;
    storage.insert_by_key(u64::MAX, status(1), 1).unwrap();
    let (k, _) = storage.insert(status(2), 1).unwrap();
    assert_eq!(k, 0);
    let err = storage.insert(status(3), 4).unwrap_err();
    assert_eq!(err.error_type(), ErrorKind::Duplicate);
    assert_eq!(err.method_name(), Some("insert".to_string()));
    assert_eq!(err.message(), Some("Key already exists".to_string()));
    assert_eq!(err.info(), Some(vec!["spawn_status".to_string()]));
    assert_eq!(err.timestamp(), 4);
    assert_eq!(storage.get_all().len(), 2);
}

#[test]
fn remove_many_and_clear() {
    let mut store = Store::init().unwrap();
    let storage = &mut store.spawn_status;
    for key in [1u64, 2, 3, 4] {
        storage.insert_by_key(key, status(key), 0).unwrap();
    }
    storage.remove_many(vec![2, 9, 4, 2]);
    let keys: Vec<u64> = storage.get_all().iter().map(|p| p.0).collect();
    assert_eq!(keys, vec![1, 3]);
    storage.clear();
    assert!(storage.get_all().is_empty());
    assert!(!storage.contains_key(1));
    storage.insert_by_key(1, status(1), 0).unwrap();
    assert!(storage.contains_key(1));
}

#[test]
fn wallets_are_stored_under_their_identity() {
    let mut store = Store::init().unwrap();
    let storage = &mut store.multisigs;
    let wallet = WalletData::new(principal(&[9, 9]), 100, 42, 43, 7);
    let (key, stored) =
        storage.insert_by_key(principal(&[1, 2, 3]), wallet.clone(), 1).unwrap();
    assert!(key.same(&principal(&[1, 2, 3])));
    assert!(stored.is_owner(principal(&[9, 9])));
    let (key, loaded) = storage.get(principal(&[1, 2, 3]), 2).unwrap();
    assert!(key.same(&principal(&[1, 2, 3])));
    assert!(loaded.created_by().same(&principal(&[9, 9])));
    assert!(loaded.owner().same(&principal(&[9, 9])));
    assert_eq!(loaded.created_at(), 100);
    assert_eq!(loaded.updated_at(), 100);
    assert_eq!(loaded.icp_blockheight(), 42);
    assert_eq!(loaded.cmc_blockheight(), 43);
    assert_eq!(loaded.group_id(), 7);
    let err = storage.get(principal(&[1, 2]), 3).unwrap_err();
    assert_eq!(err.error_type(), ErrorKind::NotFound);
    assert_eq!(err.info(), Some(vec!["multisigs".to_string()]));
    let err = storage.insert_by_key(principal(&[1, 2, 3]), wallet, 4).unwrap_err();
    assert_eq!(err.error_type(), ErrorKind::Duplicate);
    assert_eq!(err.info(), Some(vec!["multisigs".to_string()]));
}

#[test]
fn wallets_are_listed_by_length_then_bytes() {
    let mut store = Store::init().unwrap();
    let storage = &mut store.multisigs;
    let keys: Vec<Vec<u8>> = vec![vec![2, 0], vec![1], vec![1, 5], vec![3], vec![], vec![1, 4, 0]];
    let mut expected: Vec<candid::Principal> =
        keys.iter().map(|k| candid::Principal::from_slice(k)).collect();
    expected.sort();
    for k in keys.iter() {
        let wallet = WalletData::new(principal(k), 0, 0, 0, k.len() as u64);
        storage.insert_by_key(principal(k), wallet, 0).unwrap();
    }
    let listed: Vec<Vec<u8>> =
        storage.get_all().iter().map(|p| p.0.as_slice().to_vec()).collect();
    let expected: Vec<Vec<u8>> = expected.iter().map(|p| p.as_slice().to_vec()).collect();
    assert_eq!(listed, expected);
    assert_eq!(
        listed,
        vec![vec![], vec![1], vec![3], vec![1, 5], vec![2, 0], vec![1, 4, 0]]
    );
    storage.remove(principal(&[3]), 0).unwrap();
    storage.remove_many(vec![principal(&[]), principal(&[8])]);
    assert_eq!(storage.get_all().len(), 4);
    let found = storage.find(|_k: &Principal, v: &WalletData| v.group_id() == 2).unwrap();
    assert_eq!(found.0.as_slice(), &[1, 5]);
    storage.clear();
    assert!(storage.get_all().is_empty());
}

#[test]
fn maps_and_cells_do_not_mix() {
    let mut store = Store::init().unwrap();
    store
        .multisigs
        .insert_by_key(principal(&[1]), WalletData::new(principal(&[2]), 0, 0, 0, 0), 0)
        .unwrap();
    store.spawn_status.insert_by_key(1, status(1), 0).unwrap();
    store.proxy.set(principal(&[3]), 0).unwrap();
    store.wasm.set(vec![1, 2, 3], 0).unwrap();
    assert_eq!(store.multisigs.get_all().len(), 1);
    assert_eq!(store.spawn_status.get_all().len(), 1);
    store.spawn_status.clear();
    assert_eq!(store.multisigs.get_all().len(), 1);
    assert!(store.multisigs.get(principal(&[1]), 0).unwrap().1.is_owner(principal(&[2])));
    store.multisigs.clear();
    assert!(store.proxy.get(0).unwrap().same(&principal(&[3])));
    assert_eq!(store.wasm.get(0).unwrap(), vec![1, 2, 3]);
    let other = Store::init().unwrap();
    assert!(other.proxy.get(0).is_err());
    assert!(other.spawn_status.get_all().is_empty());
}

#[test]
fn proxy_cell_holds_one_identity() {
    let mut store = Store::init().unwrap();
    let cell = &mut store.proxy;
    let err = cell.get(11).unwrap_err();
    assert_eq!(err.error_type(), ErrorKind::Internal);
    assert_eq!(err.message(), Some("Failed to get proxy, not initialized".to_string()));
    assert_eq!(err.timestamp(), 11);
    assert_eq!(err.method_name(), None);
    assert_eq!(err.info(), None);
    let set = cell.set(principal(&[1, 2, 3]), 12).unwrap();
    assert!(set.same(&principal(&[1, 2, 3])));
    assert!(cell.get(13).unwrap().same(&principal(&[1, 2, 3])));
    cell.set(principal(&[]), 12).unwrap();
    assert!(cell.get(13).unwrap().same(&Principal::management_canister()));
}

#[test]
fn wasm_cell_holds_the_code() {
    let mut store = Store::init().unwrap();
    let cell = &mut store.wasm;
    let err = cell.get(11).unwrap_err();
    assert_eq!(err.error_type(), ErrorKind::Internal);
    assert_eq!(
        err.message(),
        Some("Failed to get multisig_wasm, not initialized".to_string())
    );
    let code: Vec<u8> = (0..100_000u32).map(|i| (i % 251) as u8).collect();
    assert_eq!(cell.set(code.clone(), 12).unwrap(), code);
    assert_eq!(cell.get(13).unwrap(), code);
    assert_eq!(cell.set(vec![], 12).unwrap(), Vec::<u8>::new());
    assert_eq!(cell.get(13).unwrap(), Vec::<u8>::new());
    assert!(store.proxy.get(0).is_err());
}
