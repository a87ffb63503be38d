use ebrz::repository::id::{Id, InvalidId};
use ebrz::repository::playground_record::{PlaygroundRecordId, PlaygroundRecordRevisionId};

#[test]
fn zero_is_no_key() {
    assert_eq!(PlaygroundRecordRevisionId::try_from(0).err(), Some(InvalidId));
    assert_eq!(PlaygroundRecordId::try_from(0).err(), Some(InvalidId));
}

#[test]
fn a_key_wraps_its_integer() {
    let key = PlaygroundRecordRevisionId::try_from(42).unwrap();
    assert_eq!(key.get(), 42);
    let negative = PlaygroundRecordRevisionId::try_from(-7).unwrap();
    assert_eq!(negative.get(), -7);
    assert_eq!(PlaygroundRecordRevisionId::try_from(i64::MIN).unwrap().get(), i64::MIN);
    assert_eq!(PlaygroundRecordRevisionId::try_from(i64::MAX).unwrap().get(), i64::MAX);
}

#[test]
fn keys_are_equal_when_their_integers_are() {
    let a: Id<str> = Id::try_from(5).unwrap();
    let b: Id<str> = Id::try_from(5).unwrap();
    let c: Id<str> = Id::try_from(6).unwrap();
    assert_eq!(a, b);
    assert_ne!(a, c);
    let copy = a;
    assert_eq!(copy, a);
    assert_eq!(a.clone(), b);
}

#[test]
fn the_default_key_is_one() {
    let key: PlaygroundRecordId = Default::default();
    assert_eq!(key.get(), 1);
}

#[test]
fn keys_are_ordered_as_their_integers_are() {
    let key = |id: i64| PlaygroundRecordRevisionId::try_from(id).unwrap();
    assert!(key(1) < key(2));
    assert!(key(-5) < key(1));
    assert!(key(9) > key(3));
    assert!(key(4) <= key(4));
    assert_eq!(key(7).cmp(&key(8)), std::cmp::Ordering::Less);
    assert_eq!(key(7).partial_cmp(&key(7)), Some(std::cmp::Ordering::Equal));
    let mut keys = vec![key(3), key(-1), key(2)];
    keys.sort();
    assert_eq!(keys, vec![key(-1), key(2), key(3)]);
}

#[test]
fn keys_are_hashed_as_their_integers_are() {
    let mut seen = std::collections::HashSet::new();
    assert!(seen.insert(PlaygroundRecordId::try_from(5).unwrap()));
    assert!(!seen.insert(PlaygroundRecordId::try_from(5).unwrap()));
    assert!(seen.insert(PlaygroundRecordId::try_from(6).unwrap()));
    assert_eq!(seen.len(), 2);
}
