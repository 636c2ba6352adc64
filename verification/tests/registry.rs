use accrual_ledger::{LedgerError, Route, TokenData, TokenRegistry};

fn id(name: &str) -> String {
    name.to_string()
}

fn one_pair() -> TokenRegistry {
    let mut registry = TokenRegistry::new();
    assert!(registry.register_pair(id("base.testnet"), id("resv.testnet"), 5));
    registry
}

#[test]
fn token_data_new_keeps_its_arguments() {
    let data = TokenData::new(id("resv.testnet"), 42);
    assert_eq!(data.related_token_id, "resv.testnet");
    assert_eq!(data.reward_rate, 42);
}

#[test]
fn empty_registry_rejects_every_token() {
    let registry = TokenRegistry::new();
    assert_eq!(registry.classify(&id("base.testnet")), Route::Rejected);
    assert!(!registry.is_base(&id("base.testnet")));
    assert!(!registry.is_reserve(&id("base.testnet")));
    assert_eq!(registry.paired_of(&id("base.testnet")), Err(LedgerError::UnregisteredToken));
    assert_eq!(registry.rate_of(&id("base.testnet")), Err(LedgerError::UnregisteredToken));
}

#[test]
fn registration_enters_both_directions() {
    let registry = one_pair();
    assert!(registry.is_base(&id("base.testnet")));
    assert!(!registry.is_reserve(&id("base.testnet")));
    assert!(registry.is_reserve(&id("resv.testnet")));
    assert!(!registry.is_base(&id("resv.testnet")));
    assert_eq!(registry.paired_of(&id("base.testnet")), Ok(id("resv.testnet")));
    assert_eq!(registry.paired_of(&id("resv.testnet")), Ok(id("base.testnet")));
    assert_eq!(registry.rate_of(&id("base.testnet")), Ok(5));
    assert_eq!(registry.rate_of(&id("resv.testnet")), Ok(5));
    assert_eq!(registry.base_entry(&id("base.testnet")), Some(&TokenData::new(id("resv.testnet"), 5)));
    assert_eq!(registry.reserve_entry(&id("resv.testnet")), Some(&TokenData::new(id("base.testnet"), 5)));
    assert_eq!(registry.base_entry(&id("resv.testnet")), None);
    assert_eq!(registry.reserve_entry(&id("base.testnet")), None);
}

#[test]
fn classification_follows_the_side_of_the_token() {
    let registry = one_pair();
    assert_eq!(registry.classify(&id("base.testnet")), Route::Deposit);
    assert_eq!(registry.classify(&id("resv.testnet")), Route::Withdraw);
    assert_eq!(registry.classify(&id("other.testnet")), Route::Rejected);
    assert_eq!(registry.classify(&id("")), Route::Rejected);
    // Asking twice gives the same answer.
    assert_eq!(registry.classify(&id("base.testnet")), Route::Deposit);
}

#[test]
fn registering_the_same_pair_again_changes_nothing() {
    let mut registry = one_pair();
    assert!(registry.register_pair(id("base.testnet"), id("resv.testnet"), 5));
    assert_eq!(registry.paired_of(&id("base.testnet")), Ok(id("resv.testnet")));
    assert_eq!(registry.rate_of(&id("resv.testnet")), Ok(5));
}

#[test]
fn conflicting_registrations_are_refused() {
    let mut registry = one_pair();
    // another rate
    assert!(!registry.register_pair(id("base.testnet"), id("resv.testnet"), 6));
    // a known base with another reserve
    assert!(!registry.register_pair(id("base.testnet"), id("resv2.testnet"), 5));
    // a known reserve with another base
    assert!(!registry.register_pair(id("base2.testnet"), id("resv.testnet"), 5));
    // sides swapped
    assert!(!registry.register_pair(id("resv.testnet"), id("base.testnet"), 5));
    // a reserve as a base, a base as a reserve
    assert!(!registry.register_pair(id("resv.testnet"), id("x.testnet"), 5));
    assert!(!registry.register_pair(id("x.testnet"), id("base.testnet"), 5));
    // a token paired with itself
    assert!(!registry.register_pair(id("x.testnet"), id("x.testnet"), 5));
    // nothing of all this was entered
    assert_eq!(registry.rate_of(&id("base.testnet")), Ok(5));
    assert_eq!(registry.paired_of(&id("resv.testnet")), Ok(id("base.testnet")));
    assert_eq!(registry.classify(&id("resv2.testnet")), Route::Rejected);
    assert_eq!(registry.classify(&id("base2.testnet")), Route::Rejected);
    assert_eq!(registry.classify(&id("x.testnet")), Route::Rejected);
}

#[test]
fn several_pairs_stand_side_by_side() {
    let mut registry = one_pair();
    assert!(registry.register_pair(id("base2.testnet"), id("resv2.testnet"), 9));
    assert_eq!(registry.paired_of(&id("base2.testnet")), Ok(id("resv2.testnet")));
    assert_eq!(registry.paired_of(&id("resv2.testnet")), Ok(id("base2.testnet")));
    assert_eq!(registry.rate_of(&id("resv2.testnet")), Ok(9));
    assert_eq!(registry.rate_of(&id("resv.testnet")), Ok(5));
    assert_eq!(registry.classify(&id("base2.testnet")), Route::Deposit);
    assert_eq!(registry.classify(&id("resv2.testnet")), Route::Withdraw);
}

#[test]
fn every_reserve_resolves_to_a_base() {
    let mut registry = one_pair();
    registry.register_pair(id("base2.testnet"), id("resv2.testnet"), 9);
    for reserve in ["resv.testnet", "resv2.testnet"] {
        let base = registry.paired_of(&id(reserve)).unwrap();
        assert_eq!(registry.classify(&base), Route::Deposit);
        assert_eq!(registry.paired_of(&base), Ok(id(reserve)));
        assert_eq!(registry.rate_of(&base), registry.rate_of(&id(reserve)));
    }
}
