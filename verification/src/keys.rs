use std::hash::Hash;
use vstd::prelude::*;
use vstd::std_specs::cmp::PartialEqSpec;
use vstd::std_specs::hash::obeys_key_model;

verus! {

/// What the cache asks of its key type: hashing and `==` agree with identity, as
/// `HashMap` needs it, and a clone of a key is that key. Every primitive integer type
/// meets this.
pub open spec fn key_model<Key: Eq + Hash + Clone>() -> bool {
    &&& obeys_key_model::<Key>()
    &&& Key::obeys_eq_spec()
    &&& forall|a: Key, b: Key| #[trigger] a.eq_spec(&b) <==> (a == b)
    &&& forall|a: Key, b: Key| #[trigger] call_ensures(Key::clone, (&a,), b) ==> a == b
}

/// The index of the first occurrence of `key` in `keys`; arbitrary when there is none.
pub open spec fn first_position<Key>(keys: Seq<Key>, key: Key) -> int {
    choose|i: int| is_first_position(keys, key, i)
}

/// `i` is the index of the first occurrence of `key` in `keys`.
pub open spec fn is_first_position<Key>(keys: Seq<Key>, key: Key, i: int) -> bool {
    &&& 0 <= i < keys.len()
    &&& keys[i] == key
    &&& forall|j: int| 0 <= j < i ==> keys[j] != key
}

/// `keys` without the first occurrence of `key`; `keys` itself when there is none.
pub open spec fn without_first<Key>(keys: Seq<Key>, key: Key) -> Seq<Key> {
    if keys.contains(key) {
        keys.remove(first_position(keys, key))
    } else {
        keys
    }
}

/// A sequence has at most one first occurrence of a key.
pub proof fn first_position_is_unique<Key>(keys: Seq<Key>, key: Key, i: int)
    requires
        is_first_position(keys, key, i),
    ensures
        keys.contains(key),
        first_position(keys, key) == i,
{
}

/// Finds the first occurrence of `key` in `keys`.
pub fn position_of<Key: Eq + Hash + Clone>(keys: &Vec<Key>, key: &Key) -> (found: Option<usize>)
    requires
        key_model::<Key>(),
    ensures
        match found {
            Some(i) => is_first_position(keys@, *key, i as int),
            None => !keys@.contains(*key),
        },
{
    let mut i: usize = 0;
    while i < keys.len()
        invariant
            key_model::<Key>(),
            0 <= i <= keys.len(),
            forall|j: int| 0 <= j < i ==> keys@[j] != *key,
        decreases keys.len() - i,
    {
        if keys[i] == *key {
            return Some(i);
        }
        i += 1;
    }
    None
}

/// Copies a key.
pub fn duplicate<Key: Eq + Hash + Clone>(key: &Key) -> (copy: Key)
    requires
        key_model::<Key>(),
    ensures
        copy == *key,
{
    key.clone()
}

} // verus!
