//! The durable map from the block height of a payment to the status of its run.

use crate::storage::stable::{
    status_tree_region,
    lists_statuses, open_status_tree, region_of, status_tree_clear, status_tree_entries,
    status_tree_get, status_tree_insert, status_tree_last_key, status_tree_list,
    status_tree_remove, StableMemory, StatusTree,
};
use crate::storage::state::SPAWN_STATUS_MEMORY_ID;
use crate::storage::storage_api::{
    is_greatest_key, pairs_view, Storage, StorageInsertable, StorageInsertableByKey,
    StorageQueryable, StorageUpdateable,
};
use crate::types::spawn_status::{
    lemma_status_round_trip, status_decoding, SpawnStatus, SpawnStatusView,
};
use vstd::prelude::*;

verus! {

/// The status records, each under the block height of the payment that
/// started the run.
pub struct SpawnStatusStorage {
    tree: StatusTree,
}

impl SpawnStatusStorage {
    /// Opens the map in stable memory.
    pub(crate) fn init(memory: &StableMemory) -> (r: SpawnStatusStorage)
        ensures
            r.region() == Self::memory_number(),
    {
        SpawnStatusStorage { tree: open_status_tree(region_of(memory, Self::memory_id())) }
    }

    /// What the map holds under `k` is a stored status record.
    pub closed spec fn holds(&self, k: u64) -> bool {
        &&& status_tree_entries(self.tree).contains_key(k)
        &&& status_decoding(status_tree_entries(self.tree)[k]) is Some
    }
}

impl Storage<u64, SpawnStatus> for SpawnStatusStorage {
    closed spec fn entries(&self) -> Map<u64, SpawnStatusView> {
        Map::new(
            |k: u64| self.holds(k),
            |k: u64| status_decoding(status_tree_entries(self.tree)[k])->0,
        )
    }

    open spec fn key_lt(a: u64, b: u64) -> bool {
        a < b
    }

    open spec fn name_text() -> Seq<char> {
        "spawn_status"@
    }

    fn name() -> (r: &'static str) {
        "spawn_status"
    }

    fn memory_id() -> (r: u8) {
        SPAWN_STATUS_MEMORY_ID
    }

    fn fetch(&self, key: &u64) -> (r: Option<SpawnStatus>) {
        match status_tree_get(&self.tree, *key) {
            Some(bytes) => SpawnStatus::from_bytes(bytes.as_slice()),
            None => None,
        }
    }

    fn store(&mut self, key: &u64, value: &SpawnStatus) {
        value.check_wf();
        let bytes = value.to_bytes();
        proof {
            lemma_status_round_trip(value@);
        }
        let _ = status_tree_insert(&mut self.tree, *key, bytes);
        assert(self.entries() =~= old(self).entries().insert(key@, value@));
    }

    fn discard(&mut self, key: &u64) {
        let _ = status_tree_remove(&mut self.tree, *key);
        assert(self.entries() =~= old(self).entries().remove(key@));
    }

    fn discard_all(&mut self) {
        status_tree_clear(&mut self.tree);
        assert(self.entries() =~= Map::<u64, SpawnStatusView>::empty());
    }

    fn list(&self) -> (r: Vec<(u64, SpawnStatus)>) {
        let raw = status_tree_list(&self.tree);
        let ghost pairs = raw.deep_view();
        let ghost mut origin: Seq<int> = Seq::empty();
        let mut out: Vec<(u64, SpawnStatus)> = Vec::new();
        let mut i: usize = 0;
        while i < raw.len()
            invariant
                i <= raw@.len(),
                pairs == raw.deep_view(),
                lists_statuses(pairs, status_tree_entries(self.tree)),
                out@.len() == origin.len(),
                forall|m: int| 0 <= m < origin.len() ==> 0 <= #[trigger] origin[m] < i,
                forall|m: int, n: int| 0 <= m < n < origin.len() ==> origin[m] < origin[n],
                forall|m: int|
                    0 <= m < origin.len() ==> (#[trigger] out@[m]).0 == pairs[origin[m]].0 && Some(
                        out@[m].1@,
                    ) == status_decoding(pairs[origin[m]].1),
                forall|j: int|
                    0 <= j < i && status_decoding(#[trigger] pairs[j].1) is Some ==> exists|m: int|
                        0 <= m < origin.len() && origin[m] == j,
            decreases raw@.len() - i,
        {
            assert(pairs[i as int].1 == raw@[i as int].1@);
            assert(pairs[i as int].0 == raw@[i as int].0);
            let ghost before = origin;
            match SpawnStatus::from_bytes(raw[i].1.as_slice()) {
                Some(status) => {
                    out.push((raw[i].0, status));
                    proof {
                        origin = origin.push(i as int);
                    }
                },
                None => {},
            }
            proof {
                assert forall|j: int|
                    0 <= j < i + 1 && status_decoding(
                        #[trigger] pairs[j].1,
                    ) is Some implies exists|m: int| 0 <= m < origin.len() && origin[m] == j by {
                    if j < i {
                        let m = choose|m: int| 0 <= m < before.len() && before[m] == j;
                        assert(origin[m] == j);
                    } else {
                        assert(origin[origin.len() - 1] == j);
                    }
                }
            }
            i += 1;
        }
        proof {
            let listed = pairs_view(out@);
            let raw_entries = status_tree_entries(self.tree);
            assert forall|m: int| 0 <= m < listed.len() implies self.entries().contains_key(
                #[trigger] listed[m].0,
            ) && self.entries()[listed[m].0] == listed[m].1 by {
                assert(out@[m].0 == pairs[origin[m]].0);
                assert(raw_entries.contains_key(pairs[origin[m]].0));
                assert(self.holds(listed[m].0));
            }
            assert forall|a: int, b: int| 0 <= a < b < listed.len() implies Self::key_lt(
                listed[a].0,
                listed[b].0,
            ) by {
                assert(out@[a].0 == pairs[origin[a]].0);
                assert(out@[b].0 == pairs[origin[b]].0);
                assert(origin[a] < origin[b]);
            }
            assert forall|k: u64| #[trigger] self.entries().contains_key(k) implies exists|m: int|
                0 <= m < listed.len() && listed[m].0 == k by {
                assert(self.holds(k));
                let j = choose|j: int| 0 <= j < pairs.len() && pairs[j].0 == k;
                assert(raw_entries.contains_key(pairs[j].0));
                assert(status_decoding(pairs[j].1) is Some);
                let m = choose|m: int| 0 <= m < origin.len() && origin[m] == j;
                assert(out@[m].0 == pairs[origin[m]].0);
                assert(listed[m].0 == k);
            }
        }
        out
    }

    open spec fn memory_number() -> u8 {
        SPAWN_STATUS_MEMORY_ID
    }

    closed spec fn region(&self) -> u8 {
        status_tree_region(self.tree)
    }
}

impl StorageQueryable<u64, SpawnStatus> for SpawnStatusStorage {

}

impl StorageInsertableByKey<u64, SpawnStatus> for SpawnStatusStorage {

}

impl StorageUpdateable<u64, SpawnStatus> for SpawnStatusStorage {

}

impl StorageInsertable<SpawnStatus> for SpawnStatusStorage {
    fn last_key(&self) -> (r: Option<u64>) {
        match status_tree_last_key(&self.tree) {
            Some(last) => {
                if self.fetch(&last).is_some() {
                    assert(is_greatest_key(self.entries(), last));
                    assert(self.entries().contains_key(last));
                    return Some(last);
                }
            },
            None => {
                assert(self.entries() =~= Map::<u64, SpawnStatusView>::empty());
                return None;
            },
        }
        let listed = self.list();
        let n = listed.len();
        if n == 0 {
            assert(self.entries() =~= Map::<u64, SpawnStatusView>::empty()) by {
                assert forall|k: u64| !self.entries().contains_key(k) by {
                    if self.entries().contains_key(k) {
                        let m = choose|m: int|
                            0 <= m < pairs_view(listed@).len() && pairs_view(listed@)[m].0 == k;
                    }
                }
            }
            None
        } else {
            let last = listed[n - 1].0;
            proof {
                let pairs = pairs_view(listed@);
                assert(pairs[n - 1].0 == last);
                assert(self.entries().contains_key(pairs[n - 1].0));
                assert forall|k: u64| self.entries().contains_key(k) implies k <= last by {
                    let m = choose|m: int| 0 <= m < pairs.len() && pairs[m].0 == k;
                    if m < n - 1 {
                        assert(Self::key_lt(pairs[m].0, pairs[n - 1].0));
                    }
                }
                assert(is_greatest_key(self.entries(), last));
            }
            Some(last)
        }
    }
}

} // verus!
