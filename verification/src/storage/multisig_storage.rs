//! The durable map from the identity of a wallet canister to its record.

use crate::storage::stable::{
    wallet_tree_region,
    lists_wallets, open_wallet_tree, principal_lt, region_of, wallet_pairs, wallet_tree_clear,
    wallet_tree_entries, wallet_tree_get, wallet_tree_insert, wallet_tree_list,
    wallet_tree_remove, StableMemory, WalletTree,
};
use crate::storage::state::MULTISIGS_MEMORY_ID;
use crate::storage::storage_api::{
    pairs_view, Storage, StorageInsertableByKey, StorageQueryable, StorageUpdateable,
};
use crate::types::principal::Principal;
use crate::types::wallet_data::{
    lemma_wallet_round_trip, wallet_decoding, WalletData, WalletDataView,
};
use vstd::prelude::*;

verus! {

/// The wallet records, each under the identity of its canister.
pub struct MultisigStorage {
    tree: WalletTree,
}

impl MultisigStorage {
    /// Opens the map in stable memory.
    pub(crate) fn init(memory: &StableMemory) -> (r: MultisigStorage)
        ensures
            r.region() == Self::memory_number(),
    {
        MultisigStorage { tree: open_wallet_tree(region_of(memory, Self::memory_id())) }
    }

    /// What the map holds under `k` is a stored wallet record.
    pub closed spec fn holds(&self, k: Seq<u8>) -> bool {
        &&& wallet_tree_entries(self.tree).contains_key(k)
        &&& wallet_decoding(wallet_tree_entries(self.tree)[k]) is Some
    }
}

impl Storage<Principal, WalletData> for MultisigStorage {
    closed spec fn entries(&self) -> Map<Seq<u8>, WalletDataView> {
        Map::new(
            |k: Seq<u8>| self.holds(k),
            |k: Seq<u8>| wallet_decoding(wallet_tree_entries(self.tree)[k])->0,
        )
    }

    open spec fn key_lt(a: Seq<u8>, b: Seq<u8>) -> bool {
        principal_lt(a, b)
    }

    open spec fn name_text() -> Seq<char> {
        "multisigs"@
    }

    fn name() -> (r: &'static str) {
        "multisigs"
    }

    fn memory_id() -> (r: u8) {
        MULTISIGS_MEMORY_ID
    }

    fn fetch(&self, key: &Principal) -> (r: Option<WalletData>) {
        proof {
            use_type_invariant(key);
        }
        match wallet_tree_get(&self.tree, key) {
            Some(bytes) => WalletData::from_bytes(bytes.as_slice()),
            None => None,
        }
    }

    fn store(&mut self, key: &Principal, value: &WalletData) {
        proof {
            use_type_invariant(key);
        }
        value.check_wf();
        let bytes = value.to_bytes();
        proof {
            lemma_wallet_round_trip(value@);
        }
        let _ = wallet_tree_insert(&mut self.tree, key, bytes);
        assert(self.entries() =~= old(self).entries().insert(key@, value@));
    }

    fn discard(&mut self, key: &Principal) {
        proof {
            use_type_invariant(key);
        }
        let _ = wallet_tree_remove(&mut self.tree, key);
        assert(self.entries() =~= old(self).entries().remove(key@));
    }

    fn discard_all(&mut self) {
        wallet_tree_clear(&mut self.tree);
        assert(self.entries() =~= Map::<Seq<u8>, WalletDataView>::empty());
    }

    fn list(&self) -> (r: Vec<(Principal, WalletData)>) {
        let raw = wallet_tree_list(&self.tree);
        let ghost pairs = wallet_pairs(raw@);
        let ghost mut origin: Seq<int> = Seq::empty();
        let mut out: Vec<(Principal, WalletData)> = Vec::new();
        let mut i: usize = 0;
        while i < raw.len()
            invariant
                i <= raw@.len(),
                pairs == wallet_pairs(raw@),
                lists_wallets(pairs, wallet_tree_entries(self.tree)),
                out@.len() == origin.len(),
                forall|m: int| 0 <= m < origin.len() ==> 0 <= #[trigger] origin[m] < i,
                forall|m: int, n: int| 0 <= m < n < origin.len() ==> origin[m] < origin[n],
                forall|m: int|
                    0 <= m < origin.len() ==> (#[trigger] out@[m]).0@ == pairs[origin[m]].0 && Some(
                        out@[m].1@,
                    ) == wallet_decoding(pairs[origin[m]].1),
                forall|j: int|
                    0 <= j < i && wallet_decoding(#[trigger] pairs[j].1) is Some ==> exists|m: int|
                        0 <= m < origin.len() && origin[m] == j,
            decreases raw@.len() - i,
        {
            assert(pairs[i as int].1 == raw@[i as int].1@);
            assert(pairs[i as int].0 == raw@[i as int].0@);
            let ghost before = origin;
            match WalletData::from_bytes(raw[i].1.as_slice()) {
                Some(status) => {
                    out.push((raw[i].0.clone(), status));
                    proof {
                        origin = origin.push(i as int);
                    }
                },
                None => {},
            }
            proof {
                assert forall|j: int|
                    0 <= j < i + 1 && wallet_decoding(
                        #[trigger] pairs[j].1,
                    ) is Some implies exists|m: int| 0 <= m < origin.len() && origin[m] == j by {
                    if j < i {
                        let m = choose|m: int| 0 <= m < before.len() && before[m] == j;
                        assert(origin[m] == j);
                    } else {
                        assert(origin[origin.len() - 1] == j);
                    }
                }
            }
            i += 1;
        }
        proof {
            let listed = pairs_view(out@);
            let raw_entries = wallet_tree_entries(self.tree);
            assert forall|m: int| 0 <= m < listed.len() implies self.entries().contains_key(
                #[trigger] listed[m].0,
            ) && self.entries()[listed[m].0] == listed[m].1 by {
                assert(out@[m].0@ == pairs[origin[m]].0);
                assert(raw_entries.contains_key(pairs[origin[m]].0));
                assert(self.holds(listed[m].0));
            }
            assert forall|a: int, b: int| 0 <= a < b < listed.len() implies Self::key_lt(
                listed[a].0,
                listed[b].0,
            ) by {
                assert(out@[a].0@ == pairs[origin[a]].0);
                assert(out@[b].0@ == pairs[origin[b]].0);
                assert(origin[a] < origin[b]);
            }
            assert forall|k: Seq<u8>| #[trigger] self.entries().contains_key(k) implies exists|m: int|
                0 <= m < listed.len() && listed[m].0 == k by {
                assert(self.holds(k));
                let j = choose|j: int| 0 <= j < pairs.len() && pairs[j].0 == k;
                assert(raw_entries.contains_key(pairs[j].0));
                assert(wallet_decoding(pairs[j].1) is Some);
                let m = choose|m: int| 0 <= m < origin.len() && origin[m] == j;
                assert(out@[m].0@ == pairs[origin[m]].0);
                assert(listed[m].0 == k);
            }
        }
        out
    }

    open spec fn memory_number() -> u8 {
        MULTISIGS_MEMORY_ID
    }

    closed spec fn region(&self) -> u8 {
        wallet_tree_region(self.tree)
    }
}

impl StorageQueryable<Principal, WalletData> for MultisigStorage {

}

impl StorageInsertableByKey<Principal, WalletData> for MultisigStorage {

}

impl StorageUpdateable<Principal, WalletData> for MultisigStorage {

}

} // verus!
