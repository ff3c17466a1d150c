use expiry_cache::expiry_index::ExpiryIndex;
use std::collections::BTreeMap;

#[test]
fn an_index_without_keys() {
    let mut index: ExpiryIndex<&str> = ExpiryIndex::new();
    assert_eq!(index.len(), 0);
    assert_eq!(index.peek_min(), None);
    assert_eq!(index.pop_min(), None);
    assert_eq!(index.group_len(0), 0);
    assert_eq!(index.remove(0, &"a"), false);
}

#[test]
fn the_earliest_instant_comes_first() {
    let mut index = ExpiryIndex::new();
    index.insert(300, "c");
    index.insert(100, "a");
    index.insert(200, "b");
    index.insert(-50, "z");
    assert_eq!(index.len(), 4);
    assert_eq!(index.peek_min(), Some(-50));
    assert_eq!(index.pop_min(), Some((-50, "z")));
    assert_eq!(index.pop_min(), Some((100, "a")));
    assert_eq!(index.peek_min(), Some(200));
    assert_eq!(index.pop_min(), Some((200, "b")));
    assert_eq!(index.pop_min(), Some((300, "c")));
    assert_eq!(index.pop_min(), None);
    assert_eq!(index.len(), 0);
}

#[test]
fn keys_of_one_instant_form_one_group() {
    let mut index = ExpiryIndex::new();
    index.insert(100, "a");
    index.insert(100, "b");
    index.insert(100, "c");
    index.insert(200, "d");
    assert_eq!(index.len(), 2);
    assert_eq!(index.group_len(100), 3);
    assert_eq!(index.group_len(200), 1);
    assert_eq!(index.group_len(300), 0);

    // one key at a time, and the group stays the earliest while it has keys
    assert_eq!(index.pop_min(), Some((100, "c")));
    assert_eq!(index.peek_min(), Some(100));
    assert_eq!(index.group_len(100), 2);
    assert_eq!(index.pop_min(), Some((100, "b")));
    assert_eq!(index.pop_min(), Some((100, "a")));
    assert_eq!(index.len(), 1);
    assert_eq!(index.peek_min(), Some(200));
}

#[test]
fn removing_a_key_from_its_group() {
    let mut index = ExpiryIndex::new();
    index.insert(100, "a");
    index.insert(100, "b");
    index.insert(100, "c");
    index.insert(200, "d");

    assert_eq!(index.remove(100, &"b"), true);
    assert_eq!(index.group_len(100), 2);
    assert_eq!(index.remove(100, &"b"), false);
    // filed, but under another instant
    assert_eq!(index.remove(100, &"d"), false);
    assert_eq!(index.remove(300, &"a"), false);
    assert_eq!(index.len(), 2);

    assert_eq!(index.pop_min(), Some((100, "c")));
    assert_eq!(index.pop_min(), Some((100, "a")));
    assert_eq!(index.pop_min(), Some((200, "d")));
}

#[test]
fn a_group_that_is_emptied_is_dropped() {
    let mut index = ExpiryIndex::new();
    index.insert(100, "a");
    index.insert(200, "b");
    assert_eq!(index.remove(100, &"a"), true);
    assert_eq!(index.len(), 1);
    assert_eq!(index.group_len(100), 0);
    assert_eq!(index.peek_min(), Some(200));

    // the instant can be used again
    index.insert(100, "c");
    assert_eq!(index.peek_min(), Some(100));
    assert_eq!(index.pop_min(), Some((100, "c")));
}

#[test]
fn only_the_first_of_equal_keys_is_removed() {
    let mut index = ExpiryIndex::new();
    index.insert(100, "a");
    index.insert(100, "b");
    index.insert(100, "a");
    assert_eq!(index.remove(100, &"a"), true);
    assert_eq!(index.group_len(100), 2);
    assert_eq!(index.pop_min(), Some((100, "a")));
    assert_eq!(index.pop_min(), Some((100, "b")));
}

#[test]
fn clear_drops_every_group() {
    let mut index = ExpiryIndex::new();
    index.insert(100, 1u8);
    index.insert(200, 2u8);
    index.clear();
    assert_eq!(index.len(), 0);
    assert_eq!(index.peek_min(), None);
    index.insert(50, 3u8);
    assert_eq!(index.pop_min(), Some((50, 3u8)));
}

#[test]
fn many_instants_come_out_in_order() {
    let mut index = ExpiryIndex::new();
    // 7 is coprime to 1000: every instant below 1000 is filed once
    for i in 0..1_000i128 {
        index.insert((i * 7) % 1_000, i);
    }
    assert_eq!(index.len(), 1_000);
    for instant in 0..1_000i128 {
        let (popped, _) = index.pop_min().unwrap();
        assert_eq!(popped, instant);
    }
    assert_eq!(index.pop_min(), None);
}

// A small generator of numbers that look random, the same on every run
fn next(state: &mut u64) -> u64 {
    *state = state
        .wrapping_mul(6_364_136_223_846_793_005)
        .wrapping_add(1_442_695_040_888_963_407);
    *state >> 33
}

#[test]
fn the_index_agrees_with_a_sorted_map_of_lists() {
    let mut index: ExpiryIndex<u64> = ExpiryIndex::new();
    let mut model: BTreeMap<i128, Vec<u64>> = BTreeMap::new();
    let mut state = 42u64;
    for _ in 0..20_000 {
        let instant = i128::from(next(&mut state) % 64) * 10 - 300;
        let key = next(&mut state) % 8;
        match next(&mut state) % 4 {
            0 | 1 => {
                index.insert(instant, key);
                model.entry(instant).or_default().push(key);
            }
            2 => {
                let expected = match model.get_mut(&instant) {
                    Some(group) => match group.iter().position(|held| *held == key) {
                        Some(at) => {
                            group.remove(at);
                            true
                        }
                        None => false,
                    },
                    None => false,
                };
                if model.get(&instant).map_or(false, |group| group.is_empty()) {
                    model.remove(&instant);
                }
                assert_eq!(index.remove(instant, &key), expected);
            }
            _ => {
                let expected = match model.iter_mut().next() {
                    Some((instant, group)) => Some((*instant, group.pop().unwrap())),
                    None => None,
                };
                if let Some((instant, _)) = expected {
                    if model[&instant].is_empty() {
                        model.remove(&instant);
                    }
                }
                assert_eq!(index.pop_min(), expected);
            }
        }
        assert_eq!(index.len(), model.len());
        assert_eq!(index.peek_min(), model.keys().next().copied());
        assert_eq!(
            index.group_len(instant),
            model.get(&instant).map_or(0, |group| group.len())
        );
    }
}
