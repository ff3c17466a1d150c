use skiplist::SkipMap;
use vstd::prelude::*;

verus! {

/// `skiplist::SkipMap`, a map that keeps its keys sorted. The library files instants in it
/// as keys, with the unit value, and reads it through the functions of this module only.
#[verifier::external_type_specification]
#[verifier::external_body]
#[verifier::reject_recursive_types(K)]
#[verifier::reject_recursive_types(V)]
pub struct ExSkipMap<K, V>(SkipMap<K, V>);

/// The set of keys that a skip map of instants holds.
pub uninterp spec fn filed_instants(order: SkipMap<i128, ()>) -> Set<i128>;

/// `SkipMap::new`: a skip map without keys.
#[verifier::external_body]
pub(crate) fn new_order() -> (order: SkipMap<i128, ()>)
    ensures
        filed_instants(order) == Set::<i128>::empty(),
{
    SkipMap::new()
}

/// `SkipMap::clear`: afterwards the skip map holds no key.
#[verifier::external_body]
pub(crate) fn clear_order(order: &mut SkipMap<i128, ()>)
    ensures
        filed_instants(*final(order)) == Set::<i128>::empty(),
{
    order.clear()
}

/// `SkipMap::insert`: afterwards the skip map holds `instant` besides the keys it held. A
/// key that was there already stays, once.
#[verifier::external_body]
pub(crate) fn file_instant(order: &mut SkipMap<i128, ()>, instant: i128)
    ensures
        filed_instants(*final(order)) == filed_instants(*old(order)).insert(instant),
{
    order.insert(instant, ());
}

/// `SkipMap::remove`: afterwards the skip map holds the keys it held but `instant`.
#[verifier::external_body]
pub(crate) fn unfile_instant(order: &mut SkipMap<i128, ()>, instant: i128)
    ensures
        filed_instants(*final(order)) == filed_instants(*old(order)).remove(instant),
{
    order.remove(&instant);
}

/// `SkipMap::front`: the smallest key, or `None` when the skip map holds none.
#[verifier::external_body]
pub(crate) fn first_instant(order: &SkipMap<i128, ()>) -> (first: Option<i128>)
    ensures
        match first {
            Some(instant) => filed_instants(*order).contains(instant) && forall|other: i128|
                filed_instants(*order).contains(other) ==> instant <= other,
            None => filed_instants(*order) == Set::<i128>::empty(),
        },
{
    order.front().map(|(instant, _)| *instant)
}

/// `SkipMap::pop_front`: removes the smallest key and returns it; `None`, and no change,
/// when the skip map holds none.
#[verifier::external_body]
pub(crate) fn pop_first_instant(order: &mut SkipMap<i128, ()>) -> (first: Option<i128>)
    ensures
        match first {
            Some(instant) => {
                &&& filed_instants(*old(order)).contains(instant)
                &&& forall|other: i128|
                    filed_instants(*old(order)).contains(other) ==> instant <= other
                &&& filed_instants(*final(order)) == filed_instants(*old(order)).remove(instant)
            },
            None => {
                &&& filed_instants(*old(order)) == Set::<i128>::empty()
                &&& filed_instants(*final(order)) == Set::<i128>::empty()
            },
        },
{
    order.pop_front().map(|(instant, _)| instant)
}

} // verus!
