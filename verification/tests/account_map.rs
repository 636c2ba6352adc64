use accrual_ledger::AccountMap;

fn id(name: &str) -> String {
    name.to_string()
}

#[test]
fn empty_map_holds_nothing() {
    let map: AccountMap<u64> = AccountMap::new();
    assert_eq!(map.get(&id("alice.testnet")), None);
    assert!(!map.contains_key(&id("alice.testnet")));
    assert!(!map.contains_key(&id("")));
}

#[test]
fn insert_then_get() {
    let mut map: AccountMap<u64> = AccountMap::new();
    assert_eq!(map.insert(id("alice.testnet"), 7), None);
    assert_eq!(map.insert(id("bob.testnet"), 9), None);
    assert_eq!(map.get(&id("alice.testnet")), Some(&7));
    assert_eq!(map.get(&id("bob.testnet")), Some(&9));
    assert_eq!(map.get(&id("carol.testnet")), None);
    assert!(map.contains_key(&id("bob.testnet")));
}

#[test]
fn insert_over_a_key_replaces_and_returns_the_old_value() {
    let mut map: AccountMap<u64> = AccountMap::new();
    map.insert(id("alice.testnet"), 1);
    map.insert(id("bob.testnet"), 2);
    assert_eq!(map.insert(id("alice.testnet"), 3), Some(1));
    assert_eq!(map.get(&id("alice.testnet")), Some(&3));
    assert_eq!(map.get(&id("bob.testnet")), Some(&2));
    assert_eq!(map.insert(id("alice.testnet"), 4), Some(3));
    assert_eq!(map.get(&id("alice.testnet")), Some(&4));
}

#[test]
fn remove_takes_one_key_out() {
    let mut map: AccountMap<u64> = AccountMap::new();
    map.insert(id("a"), 1);
    map.insert(id("b"), 2);
    map.insert(id("c"), 3);
    assert_eq!(map.remove(&id("b")), Some(2));
    assert_eq!(map.remove(&id("b")), None);
    assert_eq!(map.get(&id("a")), Some(&1));
    assert_eq!(map.get(&id("b")), None);
    assert_eq!(map.get(&id("c")), Some(&3));
    assert_eq!(map.remove(&id("a")), Some(1));
    assert_eq!(map.remove(&id("c")), Some(3));
    assert!(!map.contains_key(&id("c")));
}

#[test]
fn keys_are_compared_whole() {
    let mut map: AccountMap<u64> = AccountMap::new();
    map.insert(id("wrap.testnet"), 1);
    assert_eq!(map.get(&id("wrap.testne")), None);
    assert_eq!(map.get(&id("wrap.testnet.")), None);
    assert_eq!(map.get(&id("Wrap.testnet")), None);
    assert_eq!(map.get(&id("wrap.testnet")), Some(&1));
}
