use expiry_cache::keys::{duplicate, position_of};

#[test]
fn the_first_occurrence_is_found() {
    let keys = vec!["a", "b", "c", "b"];
    assert_eq!(position_of(&keys, &"a"), Some(0));
    assert_eq!(position_of(&keys, &"b"), Some(1));
    assert_eq!(position_of(&keys, &"c"), Some(2));
    assert_eq!(position_of(&keys, &"d"), None);
    assert_eq!(position_of(&Vec::<u8>::new(), &1), None);
}

#[test]
fn a_copy_equals_its_key() {
    assert_eq!(duplicate(&"key".to_string()), "key".to_string());
    assert_eq!(duplicate(&42u64), 42);
}
