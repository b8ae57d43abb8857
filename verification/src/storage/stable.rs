//! The stable structures that hold the index, and what is assumed of them.
//!
//! The maps and the cell of `ic_stable_structures` keep their content in
//! stable memory. Their code is not verified here: each function below calls
//! one of their operations and states what that operation's documentation
//! and source say of it. The rest of the library is proved from these
//! statements.

use crate::types::principal::{Principal, MAX_PRINCIPAL_LENGTH};
use ic_stable_structures::memory_manager::{MemoryId, MemoryManager, VirtualMemory};
use ic_stable_structures::{Cell, DefaultMemoryImpl, StableBTreeMap};
use vstd::prelude::*;

verus! {

/// The stable memory of the canister, divided into regions by a `MemoryManager`.
#[verifier::external_body]
pub struct StableMemory {
    manager: MemoryManager<DefaultMemoryImpl>,
}

/// One region of stable memory: a `VirtualMemory`.
#[verifier::external_body]
pub struct Region {
    memory: VirtualMemory<DefaultMemoryImpl>,
}

/// A `StableBTreeMap` from block heights to stored bytes.
#[verifier::external_body]
pub struct StatusTree {
    tree: StableBTreeMap<u64, Vec<u8>, VirtualMemory<DefaultMemoryImpl>>,
}

/// A `StableBTreeMap` from identities to stored bytes.
#[verifier::external_body]
pub struct WalletTree {
    tree: StableBTreeMap<candid::Principal, Vec<u8>, VirtualMemory<DefaultMemoryImpl>>,
}

/// A stable `Cell` that holds bytes, or nothing.
#[verifier::external_body]
pub struct BlobCell {
    cell: Cell<Option<Vec<u8>>, VirtualMemory<DefaultMemoryImpl>>,
}

/// The number of a region of stable memory.
pub uninterp spec fn region_number(region: Region) -> u8;

/// The number of the region in which a [`StatusTree`] was opened.
pub uninterp spec fn status_tree_region(tree: StatusTree) -> u8;

/// The number of the region in which a [`WalletTree`] was opened.
pub uninterp spec fn wallet_tree_region(tree: WalletTree) -> u8;

/// The number of the region in which a [`BlobCell`] was opened.
pub uninterp spec fn cell_region(cell: BlobCell) -> u8;

/// What a [`StatusTree`] holds.
pub uninterp spec fn status_tree_entries(tree: StatusTree) -> Map<u64, Seq<u8>>;

/// What a [`WalletTree`] holds, each key by its bytes.
pub uninterp spec fn wallet_tree_entries(tree: WalletTree) -> Map<Seq<u8>, Seq<u8>>;

/// What a [`BlobCell`] holds.
pub uninterp spec fn cell_content(cell: BlobCell) -> Option<Seq<u8>>;

/// The order of identities: by length first, then byte by byte.
pub open spec fn principal_lt(a: Seq<u8>, b: Seq<u8>) -> bool {
    ||| a.len() < b.len()
    ||| a.len() == b.len() && exists|i: int|
        0 <= i < a.len() && a[i] < b[i] && a.subrange(0, i) == b.subrange(0, i)
}

/// `pairs` lists `entries` completely, each key once, by rising key.
pub open spec fn lists_statuses(pairs: Seq<(u64, Seq<u8>)>, entries: Map<u64, Seq<u8>>) -> bool {
    &&& forall|i: int, j: int| 0 <= i < j < pairs.len() ==> pairs[i].0 < pairs[j].0
    &&& forall|i: int|
        0 <= i < pairs.len() ==> entries.contains_key(#[trigger] pairs[i].0) && entries[pairs[i].0]
            == pairs[i].1
    &&& forall|k: u64| #[trigger]
        entries.contains_key(k) ==> exists|i: int| 0 <= i < pairs.len() && pairs[i].0 == k
}

/// `pairs` lists `entries` completely, each key once, by rising key.
pub open spec fn lists_wallets(
    pairs: Seq<(Seq<u8>, Seq<u8>)>,
    entries: Map<Seq<u8>, Seq<u8>>,
) -> bool {
    &&& forall|i: int, j: int| 0 <= i < j < pairs.len() ==> principal_lt(pairs[i].0, pairs[j].0)
    &&& forall|i: int|
        0 <= i < pairs.len() ==> entries.contains_key(#[trigger] pairs[i].0) && entries[pairs[i].0]
            == pairs[i].1
    &&& forall|k: Seq<u8>| #[trigger]
        entries.contains_key(k) ==> exists|i: int| 0 <= i < pairs.len() && pairs[i].0 == k
}

/// The keys and values of a listing of wallets, each by its bytes.
pub open spec fn wallet_pairs(pairs: Seq<(Principal, Vec<u8>)>) -> Seq<(Seq<u8>, Seq<u8>)> {
    Seq::new(pairs.len(), |i: int| (pairs[i].0@, pairs[i].1@))
}

/// `MemoryManager::init` on the default memory: on a canister its stable
/// memory, elsewhere a vector. Nothing is claimed of what the memory
/// holds. Memory that holds the layout of another version is not read:
/// the stable structures then stop the canister.
#[verifier::external_body]
pub(crate) fn open_memory() -> (r: StableMemory) {
    StableMemory { manager: MemoryManager::init(DefaultMemoryImpl::default()) }
}

/// `MemoryManager::get`: the region with the given number. The number 255
/// is reserved by the manager and left out.
#[verifier::external_body]
pub(crate) fn region_of(memory: &StableMemory, id: u8) -> (r: Region)
    requires
        id < 255,
    ensures
        region_number(r) == id,
{
    Region { memory: memory.manager.get(MemoryId::new(id)) }
}

/// `StableBTreeMap::init`: the map that the region holds, or an empty map
/// where it holds none. The map stands in that region from then on.
/// Nothing is claimed of what a map found there holds. A region that holds
/// a map of a layout that this version does not read stops the canister.
#[verifier::external_body]
pub(crate) fn open_status_tree(region: Region) -> (r: StatusTree)
    ensures
        status_tree_region(r) == region_number(region),
{
    StatusTree { tree: StableBTreeMap::init(region.memory) }
}

/// `StableBTreeMap::get`: the value stored under `key`, if there is one.
#[verifier::external_body]
pub(crate) fn status_tree_get(tree: &StatusTree, key: u64) -> (r: Option<Vec<u8>>)
    ensures
        r is Some <==> status_tree_entries(*tree).contains_key(key),
        r is Some ==> r->0@ == status_tree_entries(*tree)[key],
{
    tree.tree.get(&key)
}

/// `StableBTreeMap::insert`: stores `value` under `key`, in place of what was
/// there, and returns what was there.
#[verifier::external_body]
pub(crate) fn status_tree_insert(tree: &mut StatusTree, key: u64, value: Vec<u8>) -> (r: Option<
    Vec<u8>,
>)
    ensures
        status_tree_entries(*final(tree)) == status_tree_entries(*old(tree)).insert(key, value@),
        status_tree_region(*final(tree)) == status_tree_region(*old(tree)),
        r is Some <==> status_tree_entries(*old(tree)).contains_key(key),
        r is Some ==> r->0@ == status_tree_entries(*old(tree))[key],
{
    tree.tree.insert(key, value)
}

/// `StableBTreeMap::remove`: removes `key`, and returns what was stored under it.
#[verifier::external_body]
pub(crate) fn status_tree_remove(tree: &mut StatusTree, key: u64) -> (r: Option<Vec<u8>>)
    ensures
        status_tree_entries(*final(tree)) == status_tree_entries(*old(tree)).remove(key),
        status_tree_region(*final(tree)) == status_tree_region(*old(tree)),
        r is Some <==> status_tree_entries(*old(tree)).contains_key(key),
        r is Some ==> r->0@ == status_tree_entries(*old(tree))[key],
{
    tree.tree.remove(&key)
}

/// `StableBTreeMap::last_key_value`: the greatest key, or `None` for an empty map.
#[verifier::external_body]
pub(crate) fn status_tree_last_key(tree: &StatusTree) -> (r: Option<u64>)
    ensures
        r is None <==> (status_tree_entries(*tree) == Map::<u64, Seq<u8>>::empty()),
        r matches Some(last) ==> status_tree_entries(*tree).contains_key(last) && forall|k: u64|
            status_tree_entries(*tree).contains_key(k) ==> k <= last,
{
    tree.tree.last_key_value().map(|(k, _)| k)
}

/// `StableBTreeMap::iter`: all entries, sorted by key.
#[verifier::external_body]
pub(crate) fn status_tree_list(tree: &StatusTree) -> (r: Vec<(u64, Vec<u8>)>)
    ensures
        lists_statuses(r.deep_view(), status_tree_entries(*tree)),
{
    tree.tree.iter().collect()
}

/// `StableBTreeMap::clear_new`: removes all entries; the map stays where it is.
#[verifier::external_body]
pub(crate) fn status_tree_clear(tree: &mut StatusTree)
    ensures
        (status_tree_entries(*final(tree)) == Map::<u64, Seq<u8>>::empty()),
        status_tree_region(*final(tree)) == status_tree_region(*old(tree)),
{
    tree.tree.clear_new()
}

/// `StableBTreeMap::init`: the map that the region holds, or an empty map
/// where it holds none. The map stands in that region from then on.
/// Nothing is claimed of what a map found there holds. A region that holds
/// a map of a layout that this version does not read stops the canister.
#[verifier::external_body]
pub(crate) fn open_wallet_tree(region: Region) -> (r: WalletTree)
    ensures
        wallet_tree_region(r) == region_number(region),
{
    WalletTree { tree: StableBTreeMap::init(region.memory) }
}

/// `StableBTreeMap::get`: the value stored under `key`, if there is one.
#[verifier::external_body]
pub(crate) fn wallet_tree_get(tree: &WalletTree, key: &Principal) -> (r: Option<Vec<u8>>)
    requires
        key@.len() <= MAX_PRINCIPAL_LENGTH,
    ensures
        r is Some <==> wallet_tree_entries(*tree).contains_key(key@),
        r is Some ==> r->0@ == wallet_tree_entries(*tree)[key@],
{
    tree.tree.get(&candid::Principal::from_slice(&key.bytes))
}

/// `StableBTreeMap::insert`: stores `value` under `key`, in place of what was
/// there, and returns what was there.
#[verifier::external_body]
pub(crate) fn wallet_tree_insert(tree: &mut WalletTree, key: &Principal, value: Vec<u8>) -> (r:
    Option<Vec<u8>>)
    requires
        key@.len() <= MAX_PRINCIPAL_LENGTH,
    ensures
        wallet_tree_entries(*final(tree)) == wallet_tree_entries(*old(tree)).insert(key@, value@),
        wallet_tree_region(*final(tree)) == wallet_tree_region(*old(tree)),
        r is Some <==> wallet_tree_entries(*old(tree)).contains_key(key@),
        r is Some ==> r->0@ == wallet_tree_entries(*old(tree))[key@],
{
    tree.tree.insert(candid::Principal::from_slice(&key.bytes), value)
}

/// `StableBTreeMap::remove`: removes `key`, and returns what was stored under it.
#[verifier::external_body]
pub(crate) fn wallet_tree_remove(tree: &mut WalletTree, key: &Principal) -> (r: Option<Vec<u8>>)
    requires
        key@.len() <= MAX_PRINCIPAL_LENGTH,
    ensures
        wallet_tree_entries(*final(tree)) == wallet_tree_entries(*old(tree)).remove(key@),
        wallet_tree_region(*final(tree)) == wallet_tree_region(*old(tree)),
        r is Some <==> wallet_tree_entries(*old(tree)).contains_key(key@),
        r is Some ==> r->0@ == wallet_tree_entries(*old(tree))[key@],
{
    tree.tree.remove(&candid::Principal::from_slice(&key.bytes))
}

/// `StableBTreeMap::iter`: all entries, sorted by key. Identities are
/// ordered by length, then by their bytes.
#[verifier::external_body]
pub(crate) fn wallet_tree_list(tree: &WalletTree) -> (r: Vec<(Principal, Vec<u8>)>)
    ensures
        lists_wallets(wallet_pairs(r@), wallet_tree_entries(*tree)),
{
    tree.tree.iter().map(|(k, v)| (Principal { bytes: k.as_slice().to_vec() }, v)).collect()
}

/// `StableBTreeMap::clear_new`: removes all entries; the map stays where it is.
#[verifier::external_body]
pub(crate) fn wallet_tree_clear(tree: &mut WalletTree)
    ensures
        (wallet_tree_entries(*final(tree)) == Map::<Seq<u8>, Seq<u8>>::empty()),
        wallet_tree_region(*final(tree)) == wallet_tree_region(*old(tree)),
{
    tree.tree.clear_new()
}

/// `Cell::init`: the cell that the region holds, or an empty cell where it
/// holds none; `None` where the region holds a cell of a layout that this
/// version does not read. The cell stands in that region from then on.
/// Nothing is claimed of what a cell found there holds. A region that holds
/// a cell whose bytes are no optional value stops the canister.
#[verifier::external_body]
pub(crate) fn open_cell(region: Region) -> (r: Option<BlobCell>)
    ensures
        r is Some ==> cell_region(r->0) == region_number(region),
{
    Cell::init(region.memory, None).ok().map(|cell| BlobCell { cell })
}

/// `Cell::get`: what the cell holds.
#[verifier::external_body]
pub(crate) fn cell_get(cell: &BlobCell) -> (r: Option<Vec<u8>>)
    ensures
        r.deep_view() == cell_content(*cell),
{
    cell.cell.get().clone()
}

/// `Cell::set`: puts `value` into the cell and says whether it did. Where
/// the value does not fit into memory the cell keeps what it held.
#[verifier::external_body]
pub(crate) fn cell_set(cell: &mut BlobCell, value: Vec<u8>) -> (r: bool)
    ensures
        r ==> cell_content(*final(cell)) == Some(value@),
        !r ==> cell_content(*final(cell)) == cell_content(*old(cell)),
        cell_region(*final(cell)) == cell_region(*old(cell)),
{
    cell.cell.set(Some(value)).is_ok()
}

} // verus!
