use crate::instants::{
    clear_order, file_instant, filed_instants, first_instant, new_order, pop_first_instant,
    unfile_instant,
};
use crate::keys::{key_model, position_of, without_first};
use skiplist::SkipMap;
use std::collections::HashMap;
use std::hash::Hash;
use vstd::prelude::*;

verus! {

/// `instant` is the earliest instant that `groups` files a key under.
pub open spec fn is_earliest<Key>(groups: Map<int, Seq<Key>>, instant: int) -> bool {
    &&& groups.contains_key(instant)
    &&& forall|other: int| groups.contains_key(other) ==> instant <= other
}

/// `groups` with `key` filed under `instant`, behind the keys that are filed there already.
pub open spec fn filed<Key>(groups: Map<int, Seq<Key>>, instant: int, key: Key) -> Map<
    int,
    Seq<Key>,
> {
    if groups.contains_key(instant) {
        groups.insert(instant, groups[instant].push(key))
    } else {
        groups.insert(instant, seq![key])
    }
}

/// `groups` without the first occurrence of `key` under `instant`. A group that this
/// empties is dropped.
pub open spec fn unfiled<Key>(groups: Map<int, Seq<Key>>, instant: int, key: Key) -> Map<
    int,
    Seq<Key>,
> {
    if groups.contains_key(instant) && groups[instant].contains(key) {
        let rest = without_first(groups[instant], key);
        if rest.len() == 0 {
            groups.remove(instant)
        } else {
            groups.insert(instant, rest)
        }
    } else {
        groups
    }
}

/// `groups` without the last key of the group of `instant`. A group that this empties is
/// dropped.
pub open spec fn unfiled_last<Key>(groups: Map<int, Seq<Key>>, instant: int) -> Map<
    int,
    Seq<Key>,
> {
    if groups[instant].len() <= 1 {
        groups.remove(instant)
    } else {
        groups.insert(instant, groups[instant].drop_last())
    }
}

/// No group is empty.
pub open spec fn groups_nonempty<Key>(groups: Map<int, Seq<Key>>) -> bool {
    forall|instant: int| groups.contains_key(instant) ==> (#[trigger] groups[instant]).len() > 0
}

/// The keys of a cache, grouped by the instant at which they expire, earliest group first.
///
/// The instants that have a group are kept sorted in a skip list; the groups themselves
/// are kept in a hash map from instant to the keys, in the order in which they were filed.
pub struct ExpiryIndex<Key> {
    order: SkipMap<i128, ()>,
    buckets: HashMap<i128, Vec<Key>>,
}

impl<Key: Eq + Hash + Clone> View for ExpiryIndex<Key> {
    type V = Map<int, Seq<Key>>;

    /// The groups: each instant that has keys filed under it, with those keys in filing
    /// order.
    closed spec fn view(&self) -> Map<int, Seq<Key>> {
        Map::new(
            |instant: int|
                i128::MIN <= instant <= i128::MAX && self.buckets@.contains_key(instant as i128),
            |instant: int| self.buckets@[instant as i128]@,
        )
    }
}

impl<Key: Eq + Hash + Clone> ExpiryIndex<Key> {
    /// The index is sound: the sorted instants are those that have a group, and no group
    /// is empty.
    pub closed spec fn wf(&self) -> bool {
        &&& key_model::<Key>()
        &&& filed_instants(self.order) == self.buckets@.dom()
        &&& forall|instant: i128| #[trigger]
            self.buckets@.contains_key(instant) ==> self.buckets@[instant]@.len() > 0
    }

    /// What a sound index promises of its groups: none is empty, there are finitely many,
    /// and their instants fit the integers that they are kept in.
    pub proof fn wf_groups(&self)
        requires
            self.wf(),
        ensures
            key_model::<Key>(),
            groups_nonempty(self@),
            self@.dom().finite(),
            forall|instant: int| self@.contains_key(instant) ==> i128::MIN <= instant <= i128::MAX,
    {
        broadcast use vstd::std_specs::hash::group_hash_axioms;

        let dom = self.buckets@.dom();
        let widen = |instant: i128| instant as int;
        dom.lemma_map_finite(widen);
        assert(self@.dom() =~= dom.map(widen));
    }

    /// The number of groups: of instants that have keys filed under them.
    pub fn len(&self) -> (len: usize)
        requires
            self.wf(),
        ensures
            len == self@.dom().len(),
    {
        broadcast use vstd::std_specs::hash::group_hash_axioms;

        proof {
            let dom = self.buckets@.dom();
            let widen = |instant: i128| instant as int;
            assert(self@.dom() =~= dom.map(widen));
            vstd::set_lib::lemma_map_size(dom, self@.dom(), widen);
        }
        self.buckets.len()
    }

    /// The number of keys that are filed under `instant`.
    pub fn group_len(&self, instant: i128) -> (len: usize)
        requires
            self.wf(),
        ensures
            len == if self@.contains_key(instant as int) {
                self@[instant as int].len()
            } else {
                0
            },
    {
        broadcast use vstd::std_specs::hash::group_hash_axioms;

        match self.buckets.get(&instant) {
            Some(bucket) => bucket.len(),
            None => 0,
        }
    }

    /// An index without keys.
    pub fn new() -> (index: Self)
        requires
            key_model::<Key>(),
        ensures
            index.wf(),
            index@ == Map::<int, Seq<Key>>::empty(),
    {
        ExpiryIndex { order: new_order(), buckets: HashMap::new() }
    }

    /// Drops every key.
    pub fn clear(&mut self)
        requires
            old(self).wf(),
        ensures
            final(self).wf(),
            final(self)@ == Map::<int, Seq<Key>>::empty(),
    {
        clear_order(&mut self.order);
        self.buckets.clear();
    }

    /// Files `key` under `instant`: behind the keys of that instant's group, or as a new
    /// group.
    pub fn insert(&mut self, instant: i128, key: Key)
        requires
            old(self).wf(),
        ensures
            final(self).wf(),
            final(self)@ == filed(old(self)@, instant as int, key),
    {
        broadcast use vstd::std_specs::hash::group_hash_axioms;

        let mut bucket = match self.buckets.remove(&instant) {
            Some(bucket) => bucket,
            None => {
                file_instant(&mut self.order, instant);
                Vec::new()
            },
        };
        bucket.push(key);
        self.buckets.insert(instant, bucket);
        assert(filed_instants(self.order) =~= self.buckets@.dom());
    }

    /// Takes the first occurrence of `key` out of the group of `instant`, and drops the
    /// group if that empties it. Tells whether `key` was filed there.
    pub fn remove(&mut self, instant: i128, key: &Key) -> (found: bool)
        requires
            old(self).wf(),
        ensures
            final(self).wf(),
            found == (old(self)@.contains_key(instant as int)
                && old(self)@[instant as int].contains(*key)),
            final(self)@ == unfiled(old(self)@, instant as int, *key),
    {
        broadcast use vstd::std_specs::hash::group_hash_axioms;

        match self.buckets.remove(&instant) {
            None => {
                assert(self.buckets@ =~= old(self).buckets@);
                false
            },
            Some(mut bucket) => {
                match position_of(&bucket, key) {
                    None => {
                        self.buckets.insert(instant, bucket);
                        false
                    },
                    Some(at) => {
                        bucket.remove(at);
                        if bucket.len() == 0 {
                            unfile_instant(&mut self.order, instant);
                        } else {
                            self.buckets.insert(instant, bucket);
                        }
                        true
                    },
                }
            },
        }
    }

    /// The earliest instant that has a group, or `None` when the index holds no key.
    pub fn peek_min(&self) -> (earliest: Option<i128>)
        requires
            self.wf(),
        ensures
            match earliest {
                Some(instant) => is_earliest(self@, instant as int),
                None => self@ == Map::<int, Seq<Key>>::empty(),
            },
    {
        first_instant(&self.order)
    }

    /// Takes one key out of the earliest group: the key that was filed there last. Drops
    /// the group if that empties it. `None`, and no change, when the index holds no key.
    pub fn pop_min(&mut self) -> (popped: Option<(i128, Key)>)
        requires
            old(self).wf(),
        ensures
            final(self).wf(),
            match popped {
                Some((instant, key)) => {
                    &&& is_earliest(old(self)@, instant as int)
                    &&& key == old(self)@[instant as int].last()
                    &&& final(self)@ == unfiled_last(old(self)@, instant as int)
                },
                None => {
                    &&& old(self)@ == Map::<int, Seq<Key>>::empty()
                    &&& final(self)@ == old(self)@
                },
            },
    {
        broadcast use vstd::std_specs::hash::group_hash_axioms;

        match first_instant(&self.order) {
            None => None,
            Some(instant) => {
                let mut bucket = self.buckets.remove(&instant).unwrap();
                let key = bucket.pop().unwrap();
                if bucket.len() == 0 {
                    pop_first_instant(&mut self.order);
                } else {
                    self.buckets.insert(instant, bucket);
                }
                Some((instant, key))
            },
        }
    }
}

} // verus!
