use pet_participant::crypto::{PublicEncryptKey, PublicSigningKey};
use pet_participant::dict::{same_key, SumDict};

fn key(byte: u8) -> PublicSigningKey {
    PublicSigningKey { bytes: [byte; 32] }
}

fn value(byte: u8) -> PublicEncryptKey {
    PublicEncryptKey { bytes: [byte; 32] }
}

#[test]
fn insert_keeps_the_order_in_which_keys_came() {
    let mut dict = SumDict::new();
    assert!(dict.is_empty());
    assert_eq!(dict.insert(key(3), value(30)), None);
    assert_eq!(dict.insert(key(1), value(10)), None);
    assert_eq!(dict.insert(key(2), value(20)), None);
    assert_eq!(dict.len(), 3);
    assert_eq!(dict.entry(0), (key(3), value(30)));
    assert_eq!(dict.entry(1), (key(1), value(10)));
    assert_eq!(dict.entry(2), (key(2), value(20)));
}

#[test]
fn insert_under_a_key_that_is_there_replaces_the_value() {
    let mut dict = SumDict::new();
    dict.insert(key(3), value(30));
    dict.insert(key(1), value(10));
    assert_eq!(dict.insert(key(3), value(31)), Some(value(30)));
    assert_eq!(dict.len(), 2);
    assert_eq!(dict.entry(0), (key(3), value(31)));
    assert_eq!(dict.entry(1), (key(1), value(10)));
}

#[test]
fn get_finds_the_value_under_a_key() {
    let mut dict = SumDict::new();
    dict.insert(key(3), value(30));
    dict.insert(key(1), value(10));
    assert_eq!(dict.get(&key(1)), Some(value(10)));
    assert_eq!(dict.get(&key(3)), Some(value(30)));
    assert_eq!(dict.get(&key(2)), None);
    assert!(same_key(&key(1), &key(1)));
    assert!(!same_key(&key(1), &key(2)));
}

#[test]
fn dictionaries_are_equal_whatever_the_order() {
    let mut one = SumDict::new();
    one.insert(key(1), value(10));
    one.insert(key(2), value(20));
    one.insert(key(3), value(30));
    let mut other = SumDict::new();
    other.insert(key(3), value(30));
    other.insert(key(1), value(10));
    other.insert(key(2), value(20));
    assert_eq!(one, other);
    assert_eq!(other, one);
    assert_eq!(one.clone(), one);
    assert_eq!(SumDict::new(), SumDict::new());
}

#[test]
fn dictionaries_with_other_entries_are_unequal() {
    let mut one = SumDict::new();
    one.insert(key(1), value(10));
    one.insert(key(2), value(20));
    let mut other_value = SumDict::new();
    other_value.insert(key(1), value(10));
    other_value.insert(key(2), value(21));
    assert_ne!(one, other_value);
    let mut other_key = SumDict::new();
    other_key.insert(key(1), value(10));
    other_key.insert(key(3), value(20));
    assert_ne!(one, other_key);
    let mut shorter = SumDict::new();
    shorter.insert(key(1), value(10));
    assert_ne!(one, shorter);
    assert_ne!(shorter, one);
    assert_ne!(one, SumDict::new());
}
