//! Keyed storage: what every durable map of the index offers.
//!
//! [`Storage`] is what a map must provide: its content as a mathematical
//! map, and the five operations that read and change it. The other traits
//! build the operations of the index on top, once and for every map.

use crate::types::error::{Error, ErrorKind, ErrorView};
use vstd::prelude::*;

verus! {

/// The keys and values of a listing, each by its view.
pub open spec fn pairs_view<K: View, V: View>(pairs: Seq<(K, V)>) -> Seq<(K::V, V::V)> {
    Seq::new(pairs.len(), |i: int| (pairs[i].0@, pairs[i].1@))
}

/// `pairs` lists `entries` completely, each key once, by rising key in the order `lt`.
pub open spec fn is_listing<KV, VV>(
    pairs: Seq<(KV, VV)>,
    entries: Map<KV, VV>,
    lt: spec_fn(KV, KV) -> bool,
) -> bool {
    &&& forall|i: int, j: int| 0 <= i < j < pairs.len() ==> lt(pairs[i].0, pairs[j].0)
    &&& forall|i: int|
        0 <= i < pairs.len() ==> entries.contains_key(#[trigger] pairs[i].0) && entries[pairs[i].0]
            == pairs[i].1
    &&& forall|k: KV| #[trigger]
        entries.contains_key(k) ==> exists|i: int| 0 <= i < pairs.len() && pairs[i].0 == k
}

/// A durable map from keys to values, with a name for error reports.
pub trait Storage<K: View, V: View>: Sized {
    /// What the map holds.
    spec fn entries(&self) -> Map<K::V, V::V>;

    /// The order in which the keys are listed.
    spec fn key_lt(a: K::V, b: K::V) -> bool;

    /// The name of the map in error reports.
    spec fn name_text() -> Seq<char>;

    /// The name of the map in error reports.
    fn name() -> (r: &'static str)
        ensures
            r@ == Self::name_text(),
    ;

    /// The number of the region of stable memory that holds the map.
    spec fn memory_number() -> u8;

    /// The number of the region of stable memory in which this map was opened.
    spec fn region(&self) -> u8;

    /// The number of the region of stable memory that holds the map. The
    /// number 255 is no region.
    fn memory_id() -> (r: u8)
        ensures
            r == Self::memory_number(),
            r < 255,
    ;

    /// The value stored under `key`, if there is one.
    fn fetch(&self, key: &K) -> (r: Option<V>)
        ensures
            r is Some <==> self.entries().contains_key(key@),
            r is Some ==> r->0@ == self.entries()[key@],
    ;

    /// Stores `value` under `key`, in place of what was there.
    fn store(&mut self, key: &K, value: &V)
        ensures
            final(self).entries() == old(self).entries().insert(key@, value@),
            final(self).region() == old(self).region(),
    ;

    /// Removes what is stored under `key`.
    fn discard(&mut self, key: &K)
        ensures
            final(self).entries() == old(self).entries().remove(key@),
            final(self).region() == old(self).region(),
    ;

    /// Removes everything.
    fn discard_all(&mut self)
        ensures
            final(self).entries() == Map::<K::V, V::V>::empty(),
            final(self).region() == old(self).region(),
    ;

    /// Everything that is stored, by rising key.
    fn list(&self) -> (r: Vec<(K, V)>)
        ensures
            is_listing(pairs_view(r@), self.entries(), |a: K::V, b: K::V| Self::key_lt(a, b)),
    ;
}

/// The error that an operation of a map reports.
pub open spec fn storage_error(
    kind: ErrorKind,
    now: u64,
    method_name: Seq<char>,
    name: Seq<char>,
    message: Seq<char>,
) -> ErrorView {
    ErrorView::bare(kind, now).with_method_name(method_name).with_info(name).with_message(message)
}

/// The pairs of those of `keys` that `entries` holds, in the order of `keys`.
pub open spec fn found<KV, VV>(keys: Seq<KV>, entries: Map<KV, VV>) -> Seq<(KV, VV)>
    decreases keys.len(),
{
    if keys.len() == 0 {
        Seq::empty()
    } else {
        let before = found(keys.drop_last(), entries);
        if entries.contains_key(keys.last()) {
            before.push((keys.last(), entries[keys.last()]))
        } else {
            before
        }
    }
}

/// `entries` without all of `keys`.
pub open spec fn without<KV, VV>(entries: Map<KV, VV>, keys: Seq<KV>) -> Map<KV, VV>
    decreases keys.len(),
{
    if keys.len() == 0 {
        entries
    } else {
        without(entries, keys.drop_last()).remove(keys.last())
    }
}

/// The views of a sequence of keys.
pub open spec fn keys_view<K: View>(keys: Seq<K>) -> Seq<K::V> {
    Seq::new(keys.len(), |i: int| keys[i]@)
}

/// `found` is the first of `all` that `filter` accepts, or `None` where it
/// accepts none of them.
pub open spec fn first_accepted<K, V, F: Fn(&K, &V) -> bool>(
    filter: F,
    all: Seq<(K, V)>,
    found: Option<(K, V)>,
) -> bool {
    match found {
        Some(pair) => exists|i: int|
            0 <= i < all.len() && all[i] == pair && call_ensures(
                filter,
                (&all[i].0, &all[i].1),
                true,
            ) && forall|j: int|
                0 <= j < i ==> call_ensures(filter, (&(#[trigger] all[j]).0, &all[j].1), false),
        None => forall|j: int|
            0 <= j < all.len() ==> call_ensures(
                filter,
                (&(#[trigger] all[j]).0, &all[j].1),
                false,
            ),
    }
}

/// `chosen` holds those of `all` that `filter` accepts, in their order.
pub open spec fn all_accepted<K, V, F: Fn(&K, &V) -> bool>(
    filter: F,
    all: Seq<(K, V)>,
    chosen: Seq<(K, V)>,
) -> bool
    decreases all.len(),
{
    if all.len() == 0 {
        chosen.len() == 0
    } else {
        let last = all.last();
        ||| call_ensures(filter, (&last.0, &last.1), true) && chosen.len() > 0 && chosen.last()
            == last && all_accepted(filter, all.drop_last(), chosen.drop_last())
        ||| call_ensures(filter, (&last.0, &last.1), false) && all_accepted(
            filter,
            all.drop_last(),
            chosen,
        )
    }
}

/// Puts the items of `items` into the opposite order.
fn reversed<K>(items: Vec<K>) -> (r: Vec<K>)
    ensures
        r@.len() == items@.len(),
        forall|i: int| 0 <= i < r@.len() ==> r@[i] == items@[items@.len() - 1 - i],
{
    let mut items = items;
    let ghost all = items@;
    let mut out: Vec<K> = Vec::new();
    while items.len() > 0
        invariant
            items@.len() + out@.len() == all.len(),
            items@ == all.subrange(0, items@.len() as int),
            forall|i: int| 0 <= i < out@.len() ==> out@[i] == all[all.len() - 1 - i],
        decreases items@.len(),
    {
        let item = items.pop().unwrap();
        out.push(item);
    }
    out
}

/// Reading from a map.
pub trait StorageQueryable<K: View, V: View>: Storage<K, V> {
    /// The entry stored under `key`; `NotFound` where there is none.
    fn get(&self, key: K, now: u64) -> (r: Result<(K, V), Error>)
        ensures
            r is Ok <==> self.entries().contains_key(key@),
            r matches Ok(pair) ==> pair.0@ == key@ && pair.1@ == self.entries()[key@],
            r matches Err(e) ==> e@ == ErrorView::bare(ErrorKind::NotFound, now).with_method_name(
                "get"@,
            ).with_info(Self::name_text()),
    {
        match self.fetch(&key) {
            Some(value) => Ok((key, value)),
            None => Err(Error::not_found(now).add_method_name("get").add_info(Self::name())),
        }
    }

    /// The entry stored under `key`, if there is one.
    fn get_opt(&self, key: K) -> (r: Option<(K, V)>)
        ensures
            r is Some <==> self.entries().contains_key(key@),
            r matches Some(pair) ==> pair.0@ == key@ && pair.1@ == self.entries()[key@],
    {
        match self.fetch(&key) {
            Some(value) => Some((key, value)),
            None => None,
        }
    }

    /// The entries stored under those of `keys` that are there, in the order of `keys`.
    fn get_many(&self, keys: Vec<K>) -> (r: Vec<(K, V)>)
        ensures
            pairs_view(r@) == found(keys_view(keys@), self.entries()),
    {
        let ghost wanted = keys_view(keys@);
        let mut rest = reversed(keys);
        let mut entities: Vec<(K, V)> = Vec::new();
        let ghost mut seen: int = 0;
        proof {
            assert(wanted.subrange(0, 0) =~= Seq::<K::V>::empty());
            assert(pairs_view(entities@) =~= found(wanted.subrange(0, 0), self.entries()));
        }
        while rest.len() > 0
            invariant
                0 <= seen <= wanted.len(),
                seen + rest@.len() == wanted.len(),
                forall|i: int| 0 <= i < rest@.len() ==> rest@[i]@ == wanted[wanted.len() - 1 - i],
                pairs_view(entities@) == found(wanted.subrange(0, seen), self.entries()),
            decreases rest@.len(),
        {
            let key = rest.pop().unwrap();
            let ghost prefix = wanted.subrange(0, seen + 1);
            proof {
                assert(key@ == wanted[seen]);
                assert(prefix.drop_last() =~= wanted.subrange(0, seen));
                assert(prefix.last() == key@);
            }
            let ghost before = pairs_view(entities@);
            match self.fetch(&key) {
                Some(value) => {
                    entities.push((key, value));
                    assert(pairs_view(entities@) =~= before.push((key@, value@)));
                },
                None => {},
            }
            proof {
                seen = seen + 1;
            }
        }
        assert(wanted.subrange(0, seen) =~= wanted);
        entities
    }

    /// Everything that is stored, by rising key.
    fn get_all(&self) -> (r: Vec<(K, V)>)
        ensures
            is_listing(pairs_view(r@), self.entries(), |a: K::V, b: K::V| Self::key_lt(a, b)),
    {
        self.list()
    }

    /// The first entry, by rising key, that `filter` accepts.
    fn find<F: Fn(&K, &V) -> bool>(&self, filter: F) -> (r: Option<(K, V)>)
        requires
            forall|k: &K, v: &V| call_requires(filter, (k, v)),
        ensures
            exists|all: Seq<(K, V)>|
                is_listing(
                    #[trigger] pairs_view(all),
                    self.entries(),
                    |a: K::V, b: K::V| Self::key_lt(a, b),
                ) && first_accepted(filter, all, r),
    {
        let listed = self.list();
        let ghost all = listed@;
        let mut rest = reversed(listed);
        let ghost mut seen: int = 0;
        while rest.len() > 0
            invariant
                0 <= seen <= all.len(),
                seen + rest@.len() == all.len(),
                is_listing(pairs_view(all), self.entries(), |a: K::V, b: K::V| Self::key_lt(a, b)),
                forall|k: &K, v: &V| call_requires(filter, (k, v)),
                forall|i: int| 0 <= i < rest@.len() ==> rest@[i] == all[all.len() - 1 - i],
                forall|j: int|
                    0 <= j < seen ==> call_ensures(
                        filter,
                        (&(#[trigger] all[j]).0, &all[j].1),
                        false,
                    ),
            decreases rest@.len(),
        {
            let pair = rest.pop().unwrap();
            assert(pair == all[seen]);
            if filter(&pair.0, &pair.1) {
                assert(first_accepted(filter, all, Some(pair)));
                return Some(pair);
            }
            proof {
                seen = seen + 1;
            }
        }
        assert(first_accepted(filter, all, None::<(K, V)>));
        None
    }

    /// The entries that `filter` accepts, by rising key.
    fn filter<F: Fn(&K, &V) -> bool>(&self, filter: F) -> (r: Vec<(K, V)>)
        requires
            forall|k: &K, v: &V| call_requires(filter, (k, v)),
        ensures
            exists|all: Seq<(K, V)>|
                is_listing(
                    #[trigger] pairs_view(all),
                    self.entries(),
                    |a: K::V, b: K::V| Self::key_lt(a, b),
                ) && all_accepted(filter, all, r@),
    {
        let listed = self.list();
        let ghost all = listed@;
        let mut rest = reversed(listed);
        let mut chosen: Vec<(K, V)> = Vec::new();
        let ghost mut seen: int = 0;
        proof {
            assert(all.subrange(0, 0) =~= Seq::<(K, V)>::empty());
        }
        while rest.len() > 0
            invariant
                0 <= seen <= all.len(),
                seen + rest@.len() == all.len(),
                is_listing(pairs_view(all), self.entries(), |a: K::V, b: K::V| Self::key_lt(a, b)),
                forall|k: &K, v: &V| call_requires(filter, (k, v)),
                forall|i: int| 0 <= i < rest@.len() ==> rest@[i] == all[all.len() - 1 - i],
                all_accepted(filter, all.subrange(0, seen), chosen@),
            decreases rest@.len(),
        {
            let pair = rest.pop().unwrap();
            let ghost before = chosen@;
            proof {
                let prefix = all.subrange(0, seen + 1);
                assert(pair == all[seen]);
                assert(prefix.drop_last() =~= all.subrange(0, seen));
                assert(prefix.last() == pair);
            }
            if filter(&pair.0, &pair.1) {
                chosen.push(pair);
                assert(chosen@.drop_last() =~= before);
            }
            proof {
                seen = seen + 1;
            }
        }
        assert(all.subrange(0, seen) =~= all);
        chosen
    }

    /// Whether something is stored under `key`.
    fn contains_key(&self, key: K) -> (r: bool)
        ensures
            r == self.entries().contains_key(key@),
    {
        self.fetch(&key).is_some()
    }
}

/// `last` is a key of `entries`, and no key is greater.
pub open spec fn is_greatest_key<VV>(entries: Map<u64, VV>, last: u64) -> bool {
    &&& entries.contains_key(last)
    &&& forall|k: u64| entries.contains_key(k) ==> k <= last
}

/// The key that a generated insert takes: one more than the greatest key,
/// 1 for an empty map, and 0 once the greatest number is a key.
pub open spec fn next_key<VV>(entries: Map<u64, VV>) -> u64 {
    if entries == Map::<u64, VV>::empty() {
        1
    } else {
        let last = choose|last: u64| is_greatest_key(entries, last);
        if last == u64::MAX {
            0
        } else {
            (last + 1) as u64
        }
    }
}

/// Storing under the next free number.
pub trait StorageInsertable<V: View>: Storage<u64, V> {
    /// The greatest key, or `None` where nothing is stored.
    fn last_key(&self) -> (r: Option<u64>)
        ensures
            r is None <==> self.entries() == Map::<u64, V::V>::empty(),
            r matches Some(last) ==> is_greatest_key(self.entries(), last),
    ;

    /// Stores `value` under the next key and gives both back; `Duplicate`
    /// where that key is taken, which happens only once the greatest number
    /// is a key and 0 is one too.
    fn insert(&mut self, value: V, now: u64) -> (r: Result<(u64, V), Error>)
        ensures
            final(self).region() == old(self).region(),
            r is Ok <==> !old(self).entries().contains_key(next_key(old(self).entries())),
            r matches Ok(pair) ==> pair.0 == next_key(old(self).entries()) && pair.1@ == value@
                && final(self).entries() == old(self).entries().insert(pair.0, value@),
            r matches Err(e) ==> final(self).entries() == old(self).entries() && e@
                == storage_error(
                ErrorKind::Duplicate,
                now,
                "insert"@,
                Self::name_text(),
                "Key already exists"@,
            ),
    {
        let key: u64 = match self.last_key() {
            Some(last) => {
                proof {
                    let c = choose|c: u64| is_greatest_key(self.entries(), c);
                    assert(is_greatest_key(self.entries(), last));
                    assert(c <= last && last <= c);
                }
                last.wrapping_add(1)
            },
            None => 1,
        };
        assert(key == next_key(self.entries()));
        if self.fetch(&key).is_some() {
            return Err(
                Error::duplicate(now).add_method_name("insert").add_info(Self::name()).add_message(
                    "Key already exists",
                ),
            );
        }
        self.store(&key, &value);
        Ok((key, value))
    }
}

/// Storing under a given key that is still free.
pub trait StorageInsertableByKey<K: View, V: View>: Storage<K, V> {
    /// Stores `value` under `key` and gives both back; `Duplicate` where
    /// something is stored under `key` already.
    fn insert_by_key(&mut self, key: K, value: V, now: u64) -> (r: Result<(K, V), Error>)
        ensures
            final(self).region() == old(self).region(),
            r is Ok <==> !old(self).entries().contains_key(key@),
            r matches Ok(pair) ==> pair.0@ == key@ && pair.1@ == value@ && final(self).entries()
                == old(self).entries().insert(key@, value@),
            r matches Err(e) ==> final(self).entries() == old(self).entries() && e@
                == storage_error(
                ErrorKind::Duplicate,
                now,
                "insert_by_key"@,
                Self::name_text(),
                "Key already exists"@,
            ),
    {
        if self.fetch(&key).is_some() {
            return Err(
                Error::duplicate(now).add_method_name("insert_by_key").add_info(
                    Self::name(),
                ).add_message("Key already exists"),
            );
        }
        self.store(&key, &value);
        Ok((key, value))
    }
}

/// Changing and removing what is stored.
pub trait StorageUpdateable<K: View, V: View>: Storage<K, V> + StorageQueryable<K, V> {
    /// Replaces what is stored under `key` and gives both back; `NotFound`
    /// where nothing is stored under `key`.
    fn update(&mut self, key: K, value: V, now: u64) -> (r: Result<(K, V), Error>)
        ensures
            final(self).region() == old(self).region(),
            r is Ok <==> old(self).entries().contains_key(key@),
            r matches Ok(pair) ==> pair.0@ == key@ && pair.1@ == value@ && final(self).entries()
                == old(self).entries().insert(key@, value@),
            r matches Err(e) ==> final(self).entries() == old(self).entries() && e@
                == storage_error(
                ErrorKind::NotFound,
                now,
                "update"@,
                Self::name_text(),
                "Key does not exist"@,
            ),
    {
        if !self.fetch(&key).is_some() {
            return Err(
                Error::not_found(now).add_method_name("update").add_info(Self::name()).add_message(
                    "Key does not exist",
                ),
            );
        }
        self.store(&key, &value);
        Ok((key, value))
    }

    /// Stores `value` under `key`, whether or not something was there.
    fn upsert(&mut self, key: K, value: V) -> (r: Result<(K, V), Error>)
        ensures
            final(self).region() == old(self).region(),
            r matches Ok(pair) && pair.0@ == key@ && pair.1@ == value@,
            final(self).entries() == old(self).entries().insert(key@, value@),
    {
        self.store(&key, &value);
        Ok((key, value))
    }

    /// Removes what is stored under `key`; `NotFound` where nothing is.
    fn remove(&mut self, key: K, now: u64) -> (r: Result<(), Error>)
        ensures
            final(self).region() == old(self).region(),
            r is Ok <==> old(self).entries().contains_key(key@),
            r is Ok ==> final(self).entries() == old(self).entries().remove(key@),
            r matches Err(e) ==> final(self).entries() == old(self).entries() && e@
                == storage_error(
                ErrorKind::NotFound,
                now,
                "remove"@,
                Self::name_text(),
                "Key does not exist"@,
            ),
    {
        if !self.fetch(&key).is_some() {
            return Err(
                Error::not_found(now).add_method_name("remove").add_info(Self::name()).add_message(
                    "Key does not exist",
                ),
            );
        }
        self.discard(&key);
        Ok(())
    }

    /// Removes what is stored under any of `keys`.
    fn remove_many(&mut self, keys: Vec<K>)
        ensures
            final(self).region() == old(self).region(),
            final(self).entries() == without(old(self).entries(), keys_view(keys@)),
    {
        let ghost wanted = keys_view(keys@);
        let mut rest = reversed(keys);
        let ghost mut seen: int = 0;
        proof {
            assert(wanted.subrange(0, 0) =~= Seq::<K::V>::empty());
        }
        while rest.len() > 0
            invariant
                0 <= seen <= wanted.len(),
                seen + rest@.len() == wanted.len(),
                forall|i: int| 0 <= i < rest@.len() ==> rest@[i]@ == wanted[wanted.len() - 1 - i],
                self.entries() == without(old(self).entries(), wanted.subrange(0, seen)),
                self.region() == old(self).region(),
            decreases rest@.len(),
        {
            let key = rest.pop().unwrap();
            proof {
                let prefix = wanted.subrange(0, seen + 1);
                assert(key@ == wanted[seen]);
                assert(prefix.drop_last() =~= wanted.subrange(0, seen));
                assert(prefix.last() == key@);
            }
            self.discard(&key);
            proof {
                seen = seen + 1;
            }
        }
        assert(wanted.subrange(0, seen) =~= wanted);
    }

    /// Removes everything.
    fn clear(&mut self)
        ensures
            final(self).region() == old(self).region(),
            final(self).entries() == Map::<K::V, V::V>::empty(),
    {
        self.discard_all();
    }
}

} // verus!
