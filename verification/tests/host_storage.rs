//! The ledger behind a host that keeps state in persistent storage: every
//! invocation reads what it concerns from storage, lets the ledger decide, and
//! writes the committed record back.

use accrual_ledger::{Contract, DepositDataDetail, Effect, LedgerError, Settlement, SettlementKind};
use near_sdk::collections::LookupMap;
use near_sdk::{MockedBlockchain, RuntimeFeesConfig, VMConfig, VMContext};

const SECOND: u64 = 1_000_000_000;

fn id(name: &str) -> String {
    name.to_string()
}

/// Starts an invocation by `predecessor` at the clock reading `now`, on the
/// storage that the invocation before it left.
fn invocation(predecessor: &str, now: u64) {
    let context = VMContext {
        current_account_id: id("ledger.testnet"),
        signer_account_id: id("signer.testnet"),
        signer_account_pk: vec![0, 1, 2],
        predecessor_account_id: id(predecessor),
        input: vec![],
        block_index: 0,
        block_timestamp: now,
        epoch_height: 19,
        account_balance: 0,
        account_locked_balance: 0,
        storage_usage: 1_000_000,
        attached_deposit: 0,
        prepaid_gas: 10u64.pow(18),
        random_seed: vec![0, 1, 2],
        is_view: false,
        output_data_receivers: vec![],
    };
    let storage = match near_sdk::env::take_blockchain_interface() {
        Some(mut host) => host.as_mut_mocked_blockchain().unwrap().take_storage(),
        None => Default::default(),
    };
    near_sdk::env::set_blockchain_interface(Box::new(MockedBlockchain::new(
        context,
        VMConfig::default(),
        RuntimeFeesConfig::default(),
        vec![],
        storage,
        Default::default(),
        None,
    )));
}

struct Store {
    owner_id: String,
    token_info: LookupMap<String, (String, u128)>,
    reserve_token_info: LookupMap<String, (String, u128)>,
    records: LookupMap<(String, String), (u64, u128)>,
}

impl Store {
    fn open() -> Self {
        Store {
            owner_id: id("owner.testnet"),
            token_info: LookupMap::new(b"t".to_vec()),
            reserve_token_info: LookupMap::new(b"r".to_vec()),
            records: LookupMap::new(b"a".to_vec()),
        }
    }

    fn init(&mut self) {
        let ledger = Contract::new(self.owner_id.clone());
        let (base, reserve, _) = Contract::initial_pair();
        let forward = ledger.tokens().base_entry(&base).unwrap();
        self.token_info.insert(&base, &(forward.related_token_id.clone(), forward.reward_rate));
        let backward = ledger.tokens().reserve_entry(&reserve).unwrap();
        self.reserve_token_info
            .insert(&reserve, &(backward.related_token_id.clone(), backward.reward_rate));
    }

    fn load(&self, account: &String, token: &String) -> Contract {
        let mut ledger = Contract::unregistered(self.owner_id.clone());
        let mut tokens = vec![token.clone()];
        if let Some((related, rate)) = self.token_info.get(token) {
            tokens.push(related.clone());
            ledger.register_pair(token.clone(), related, rate);
        }
        if let Some((related, rate)) = self.reserve_token_info.get(token) {
            tokens.push(related.clone());
            ledger.register_pair(related, token.clone(), rate);
        }
        for held in tokens.iter() {
            if let Some((time, amount)) = self.records.get(&(account.clone(), held.clone())) {
                let record =
                    DepositDataDetail { token_time_tracker: time, token_deposited_amount: amount };
                ledger.set(account, held, record);
            }
        }
        ledger
    }

    fn on_transfer(&mut self, sender: &str, amount: u128) -> Result<Effect, LedgerError> {
        let token = near_sdk::env::predecessor_account_id();
        let now = near_sdk::env::block_timestamp();
        let mut ledger = self.load(&id(sender), &token);
        let (unused, effect) = ledger.ft_on_transfer(id(sender), token, amount, now)?;
        assert_eq!(unused, 0);
        self.records.insert(
            &(effect.account_id.clone(), effect.token_id.clone()),
            &(effect.record.token_time_tracker, effect.record.token_deposited_amount),
        );
        Ok(effect)
    }

    fn balance(&self, account: &str, token: &str) -> Result<u128, LedgerError> {
        let ledger = self.load(&id(account), &id(token));
        ledger.get_deposit_balance(id(account), id(token), near_sdk::env::block_timestamp())
    }
}

fn call(kind: SettlementKind, token: &str, receiver: &str, amount: u128) -> Settlement {
    Settlement { kind, token_id: id(token), receiver_id: id(receiver), amount }
}

#[test]
fn deposits_and_withdrawals_across_invocations() {
    invocation("owner.testnet", SECOND);
    Store::open().init();

    invocation("wrap.testnet", 10 * SECOND);
    let done = Store::open().on_transfer("alice.testnet", 1_000_000).unwrap();
    assert_eq!(
        done.calls,
        vec![call(SettlementKind::ReserveCredit, "reservetoken.testnet", "alice.testnet", 1_000_000)]
    );

    invocation("wrap.testnet", 20 * SECOND);
    let done = Store::open().on_transfer("bob.testnet", 50).unwrap();
    assert_eq!(done.record, DepositDataDetail { token_time_tracker: 20 * SECOND, token_deposited_amount: 50 });

    invocation("anyone.testnet", 1010 * SECOND);
    assert_eq!(Store::open().balance("alice.testnet", "wrap.testnet"), Ok(2_000_000));
    assert_eq!(Store::open().balance("bob.testnet", "wrap.testnet"), Ok(99));
    assert_eq!(Store::open().balance("carol.testnet", "wrap.testnet"), Ok(0));

    invocation("reservetoken.testnet", 1010 * SECOND);
    assert_eq!(
        Store::open().on_transfer("alice.testnet", 2_000_001),
        Err(LedgerError::InsufficientBalance)
    );
    assert_eq!(Store::open().balance("alice.testnet", "wrap.testnet"), Ok(2_000_000));
    let done = Store::open().on_transfer("alice.testnet", 2_000_000).unwrap();
    assert_eq!(
        done.calls,
        vec![call(SettlementKind::Withdrawal, "wrap.testnet", "alice.testnet", 2_000_000)]
    );
    assert_eq!(done.record, DepositDataDetail { token_time_tracker: 0, token_deposited_amount: 0 });

    invocation("anyone.testnet", 5000 * SECOND);
    assert_eq!(Store::open().balance("alice.testnet", "wrap.testnet"), Ok(0));
    assert_eq!(Store::open().balance("bob.testnet", "wrap.testnet"), Ok(50 + 249));
}

#[test]
fn unregistered_token_aborts_before_anything_is_stored() {
    invocation("owner.testnet", SECOND);
    Store::open().init();

    invocation("stranger.testnet", 2 * SECOND);
    assert_eq!(
        Store::open().on_transfer("alice.testnet", 5),
        Err(LedgerError::UnregisteredToken)
    );
    let store = Store::open();
    assert_eq!(store.records.get(&(id("alice.testnet"), id("stranger.testnet"))), None);
    assert_eq!(store.records.get(&(id("alice.testnet"), id("wrap.testnet"))), None);
    assert_eq!(
        store.balance("alice.testnet", "stranger.testnet"),
        Err(LedgerError::UnregisteredToken)
    );
}

#[test]
fn clock_regression_aborts_before_anything_is_stored() {
    invocation("owner.testnet", SECOND);
    Store::open().init();

    invocation("wrap.testnet", 10 * SECOND);
    Store::open().on_transfer("alice.testnet", 1_000).unwrap();

    invocation("wrap.testnet", 9 * SECOND);
    assert_eq!(Store::open().on_transfer("alice.testnet", 1), Err(LedgerError::ClockRegression));
    assert_eq!(
        Store::open().records.get(&(id("alice.testnet"), id("wrap.testnet"))),
        Some((10 * SECOND, 1_000))
    );
}
