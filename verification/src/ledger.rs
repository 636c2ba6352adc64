//! The ledger: per-account deposit records and the routing of inbound
//! transfers into deposits and withdrawals.
//!
//! Every operation runs in two phases. Planning reads the ledger and either
//! refuses or yields an [`Effect`]: the one record to write and the settlement
//! calls to make. Committing writes the record; the calls are dispatched after
//! that. A refusal therefore never leaves a partial change behind.

use vstd::prelude::*;
use crate::account_map::{AccountId, AccountMap};
use crate::accrual::{accrue, Balance, DepositDataDetail};
use crate::error::LedgerError;
use crate::registry::{RegistryView, Route, TokenRegistry};
use crate::settlement::{settlement_views, Settlement, SettlementKind, SettlementView};

verus! {

/// The records of one account, by token.
pub struct DepositData {
    pub tokens: AccountMap<DepositDataDetail>,
}

impl View for DepositData {
    type V = Map<Seq<char>, DepositDataDetail>;

    open spec fn view(&self) -> Map<Seq<char>, DepositDataDetail> {
        self.tokens@
    }
}

impl DepositData {
    /// An account without records.
    pub fn new() -> (data: Self)
        ensures
            data@ == Map::<Seq<char>, DepositDataDetail>::empty(),
    {
        Self { tokens: AccountMap::new() }
    }
}

/// What an accepted operation does: it writes `record` for `account_id` and
/// `token_id`, and then has `calls` made in order.
#[derive(Clone, Debug, PartialEq, Eq)]
pub struct Effect {
    pub account_id: AccountId,
    /// The base token under which the record is kept.
    pub token_id: AccountId,
    pub record: DepositDataDetail,
    pub calls: Vec<Settlement>,
}

/// An `Effect` with its identifiers and calls as mathematical values.
pub struct EffectView {
    pub account_id: Seq<char>,
    pub token_id: Seq<char>,
    pub record: DepositDataDetail,
    pub calls: Seq<SettlementView>,
}

impl View for Effect {
    type V = EffectView;

    open spec fn view(&self) -> EffectView {
        EffectView {
            account_id: self.account_id@,
            token_id: self.token_id@,
            record: self.record,
            calls: settlement_views(self.calls@),
        }
    }
}

/// The ledger as mathematical maps.
pub struct ContractView {
    pub owner_id: Seq<char>,
    pub tokens: RegistryView,
    /// For each account that ever deposited, its records by token.
    pub accounts: Map<Seq<char>, Map<Seq<char>, DepositDataDetail>>,
}

impl ContractView {
    /// The record of `account` for `token`; the zeroed record where none was written.
    pub open spec fn record(self, account: Seq<char>, token: Seq<char>) -> DepositDataDetail {
        if self.accounts.contains_key(account) && self.accounts[account].contains_key(token) {
            self.accounts[account][token]
        } else {
            DepositDataDetail::zeroed()
        }
    }

    /// The ledger with `record` written for `account` and `token`, and
    /// nothing else changed.
    pub open spec fn with_record(
        self,
        account: Seq<char>,
        token: Seq<char>,
        record: DepositDataDetail,
    ) -> Self {
        let held = if self.accounts.contains_key(account) {
            self.accounts[account]
        } else {
            Map::empty()
        };
        ContractView { accounts: self.accounts.insert(account, held.insert(token, record)), ..self }
    }

    /// The interest that a record accrues up to `now` at the rate of
    /// `token`'s pair.
    pub open spec fn interest_for(
        self,
        token: Seq<char>,
        record: DepositDataDetail,
        now: u64,
    ) -> Result<u128, LedgerError> {
        match self.tokens.rate_of(token) {
            Ok(rate) => record.accrual(rate, now),
            Err(e) => Err(e),
        }
    }

    /// The live balance of `account` in `token` at `now`: principal plus the
    /// interest accrued since the last update.
    pub open spec fn balance(self, account: Seq<char>, token: Seq<char>, now: u64) -> Result<
        u128,
        LedgerError,
    > {
        let record = self.record(account, token);
        match self.interest_for(token, record, now) {
            Ok(interest) => if record.token_deposited_amount + interest > u128::MAX {
                Err(LedgerError::ArithmeticOverflow)
            } else {
                Ok((record.token_deposited_amount + interest) as u128)
            },
            Err(e) => Err(e),
        }
    }

    /// The plan for a deposit of `amount` of the base token `token` by
    /// `sender` at `now`.
    ///
    /// The interest accrued so far and the amount are added to the principal,
    /// the record is stamped with `now`, and the reserve token of the pair is
    /// asked to credit the sender with the amount and the interest.
    pub open spec fn plan_deposit(
        self,
        sender: Seq<char>,
        token: Seq<char>,
        amount: u128,
        now: u64,
    ) -> Result<EffectView, LedgerError> {
        if !self.tokens.is_base(token) {
            Err(LedgerError::UnregisteredToken)
        } else {
            let pair = self.tokens.token_info[token];
            let record = self.record(sender, token);
            match record.accrual(pair.reward_rate, now) {
                Err(e) => Err(e),
                Ok(interest) => if record.token_deposited_amount + interest + amount > u128::MAX {
                    Err(LedgerError::ArithmeticOverflow)
                } else {
                    Ok(
                        EffectView {
                            account_id: sender,
                            token_id: token,
                            record: DepositDataDetail {
                                token_time_tracker: now,
                                token_deposited_amount: (record.token_deposited_amount + interest
                                    + amount) as u128,
                            },
                            calls: seq![
                                SettlementView {
                                    kind: SettlementKind::ReserveCredit,
                                    token_id: pair.related_token_id,
                                    receiver_id: sender,
                                    amount: (amount + interest) as u128,
                                },
                            ],
                        },
                    )
                },
            }
        }
    }

    /// The plan for a withdrawal of `amount` by `sender` at `now`, asked for
    /// by sending the reserve token `token`.
    ///
    /// The balance is the record that the sender holds of the paired base
    /// token. It must cover the amount, interest accrued so far included.
    /// What is left becomes the new principal; a record left with nothing has
    /// its clock reading reset to 0. Where the interest alone covers the
    /// amount, the base token is asked to pay the sender what the interest
    /// exceeds it by; it is always asked to pay the sender the amount.
    pub open spec fn plan_withdraw(
        self,
        sender: Seq<char>,
        token: Seq<char>,
        amount: u128,
        now: u64,
    ) -> Result<EffectView, LedgerError> {
        if !self.tokens.is_reserve(token) {
            Err(LedgerError::UnregisteredToken)
        } else {
            let pair = self.tokens.reserve_token_info[token];
            let base = pair.related_token_id;
            let record = self.record(sender, base);
            match record.accrual(pair.reward_rate, now) {
                Err(e) => Err(e),
                Ok(interest) => if record.token_deposited_amount + interest > u128::MAX {
                    Err(LedgerError::ArithmeticOverflow)
                } else if amount > record.token_deposited_amount + interest {
                    Err(LedgerError::InsufficientBalance)
                } else {
                    let left = (record.token_deposited_amount + interest - amount) as u128;
                    let payout = SettlementView {
                        kind: SettlementKind::Withdrawal,
                        token_id: base,
                        receiver_id: sender,
                        amount: amount,
                    };
                    let reward = SettlementView {
                        kind: SettlementKind::Reward,
                        token_id: base,
                        receiver_id: sender,
                        amount: (interest - amount) as u128,
                    };
                    Ok(
                        EffectView {
                            account_id: sender,
                            token_id: base,
                            record: DepositDataDetail {
                                token_time_tracker: if left == 0 {
                                    0
                                } else {
                                    now
                                },
                                token_deposited_amount: left,
                            },
                            calls: if interest >= amount {
                                seq![reward, payout]
                            } else {
                                seq![payout]
                            },
                        },
                    )
                },
            }
        }
    }

    /// The plan for an inbound transfer of `amount` of `token` from `sender`
    /// at `now`: that of a deposit or of a withdrawal, by the route of the
    /// token, or a refusal.
    pub open spec fn plan_transfer(
        self,
        sender: Seq<char>,
        token: Seq<char>,
        amount: u128,
        now: u64,
    ) -> Result<EffectView, LedgerError> {
        match self.tokens.classify(token) {
            Route::Deposit => self.plan_deposit(sender, token, amount, now),
            Route::Withdraw => self.plan_withdraw(sender, token, amount, now),
            Route::Rejected => Err(LedgerError::UnregisteredToken),
        }
    }

    /// The ledger after `effect` is committed: its record is written.
    pub open spec fn apply(self, effect: EffectView) -> ContractView {
        self.with_record(effect.account_id, effect.token_id, effect.record)
    }
}

/// The ledger: who owns it, the registered token pairs, and every account's
/// deposit records. It keeps no running total beside the records: a total is
/// whatever they add up to.
pub struct Contract {
    owner_id: AccountId,
    tokens: TokenRegistry,
    accounts: AccountMap<DepositData>,
}

impl View for Contract {
    type V = ContractView;

    closed spec fn view(&self) -> ContractView {
        ContractView {
            owner_id: self.owner_id@,
            tokens: self.tokens@,
            accounts: self.accounts@.map_values(|data: DepositData| data@),
        }
    }
}

impl Contract {
    /// The base token of the pair that every new ledger starts with.
    pub open spec fn initial_base() -> Seq<char> {
        "wrap.testnet"@
    }

    /// The reserve token of the pair that every new ledger starts with.
    pub open spec fn initial_reserve() -> Seq<char> {
        "reservetoken.testnet"@
    }

    /// The rate of the pair that every new ledger starts with.
    pub open spec fn initial_rate() -> u128 {
        1
    }

    /// The pair that every new ledger starts with: its base token, its
    /// reserve token and its rate.
    pub fn initial_pair() -> (pair: (AccountId, AccountId, u128))
        ensures
            pair.0@ == Self::initial_base(),
            pair.1@ == Self::initial_reserve(),
            pair.2 == Self::initial_rate(),
            Self::initial_base() != Self::initial_reserve(),
    {
        proof {
            reveal_strlit("wrap.testnet");
            reveal_strlit("reservetoken.testnet");
            assert("wrap.testnet"@.len() != "reservetoken.testnet"@.len());
        }
        ("wrap.testnet".to_string(), "reservetoken.testnet".to_string(), 1u128)
    }

    /// A ledger owned by `owner_id` that has no accounts and knows no pair.
    pub fn unregistered(owner_id: AccountId) -> (contract: Self)
        ensures
            contract@ == (ContractView {
                owner_id: owner_id@,
                tokens: RegistryView::empty(),
                accounts: Map::empty(),
            }),
            contract@.tokens.well_paired(),
    {
        let accounts: AccountMap<DepositData> = AccountMap::new();
        assert(accounts@.map_values(|data: DepositData| data@) =~= Map::empty());
        Contract { owner_id, tokens: TokenRegistry::new(), accounts }
    }

    /// A ledger owned by `owner_id`, without accounts, that knows the one
    /// pair of `wrap.testnet` and `reservetoken.testnet` at the rate 1.
    pub fn new(owner_id: AccountId) -> (contract: Self)
        ensures
            contract@ == (ContractView {
                owner_id: owner_id@,
                tokens: RegistryView::empty().register(
                    Self::initial_base(),
                    Self::initial_reserve(),
                    Self::initial_rate(),
                ),
                accounts: Map::empty(),
            }),
            contract@.tokens.well_paired(),
    {
        let mut contract = Self::unregistered(owner_id);
        let (base, reserve, rate) = Self::initial_pair();
        let accepted = contract.register_pair(base, reserve, rate);
        assert(accepted);
        contract
    }

    /// The account that owns the ledger.
    pub fn owner_id(&self) -> (owner: &AccountId)
        ensures
            owner@ == self@.owner_id,
    {
        &self.owner_id
    }

    /// The registry of token pairs.
    pub fn tokens(&self) -> (tokens: &TokenRegistry)
        ensures
            tokens@ == self@.tokens,
    {
        &self.tokens
    }

    /// Enters one more pair, in both directions.
    ///
    /// A pair of two distinct tokens that the ledger does not know is
    /// entered. A pair that stands there already at this rate is accepted and
    /// changes nothing. Anything else is refused and changes nothing.
    pub fn register_pair(
        &mut self,
        base_token: AccountId,
        reserve_token: AccountId,
        reward_rate: u128,
    ) -> (accepted: bool)
        ensures
            accepted == old(self)@.tokens.accepts(base_token@, reserve_token@, reward_rate),
            accepted ==> final(self)@ == (ContractView {
                tokens: old(self)@.tokens.register(base_token@, reserve_token@, reward_rate),
                ..old(self)@
            }),
            !accepted ==> *final(self) == *old(self),
            final(self)@.tokens.well_paired(),
    {
        self.tokens.register_pair(base_token, reserve_token, reward_rate)
    }

    /// The route of a transfer that arrives as `token_id`.
    pub fn classify(&self, token_id: &AccountId) -> (route: Route)
        ensures
            route == self@.tokens.classify(token_id@),
            self@.tokens.well_paired(),
    {
        self.tokens.classify(token_id)
    }

    /// The record of `account` for `token`: the one last written, or a zeroed
    /// one where none was. Nothing is written.
    pub fn get_or_create(&self, account: &AccountId, token: &AccountId) -> (record:
        DepositDataDetail)
        ensures
            record == self@.record(account@, token@),
    {
        match self.accounts.get(account) {
            Some(data) => match data.tokens.get(token) {
                Some(record) => *record,
                None => DepositDataDetail::new(),
            },
            None => DepositDataDetail::new(),
        }
    }

    /// Writes `record` for `account` and `token`, over what was there.
    pub fn set(&mut self, account: &AccountId, token: &AccountId, record: DepositDataDetail)
        ensures
            final(self)@ == old(self)@.with_record(account@, token@, record),
    {
        let mut data = match self.accounts.remove(account) {
            Some(held) => held,
            None => DepositData::new(),
        };
        data.tokens.insert(token.clone(), record);
        self.accounts.insert(account.clone(), data);
        assert(self@.accounts =~= old(self)@.with_record(account@, token@, record).accounts);
    }

    /// The interest that `account` has accrued up to `now`, at the rate of
    /// `token_id`'s pair.
    pub fn calc_interest_for_account(
        &self,
        token_id: &AccountId,
        account: &DepositDataDetail,
        now: u64,
    ) -> (interest: Result<Balance, LedgerError>)
        ensures
            interest == self@.interest_for(token_id@, *account, now),
    {
        match self.tokens.rate_of(token_id) {
            Ok(rate) => accrue(account, rate, now),
            Err(e) => Err(e),
        }
    }

    /// The live balance of `account_id` in `token_id` at `now`: the principal
    /// plus the interest accrued since the record was last written.
    pub fn get_deposit_balance(&self, account_id: AccountId, token_id: AccountId, now: u64) -> (balance:
        Result<Balance, LedgerError>)
        ensures
            balance == self@.balance(account_id@, token_id@, now),
    {
        let record = self.get_or_create(&account_id, &token_id);
        match self.calc_interest_for_account(&token_id, &record, now) {
            Ok(interest) => match record.token_deposited_amount.checked_add(interest) {
                Some(total) => Ok(total),
                None => Err(LedgerError::ArithmeticOverflow),
            },
            Err(e) => Err(e),
        }
    }

    /// Plans a deposit of `amount` of the base token `token_id` from `sender`
    /// at the clock reading `now`. Nothing is written.
    pub fn plan_deposit(
        &self,
        sender: &AccountId,
        token_id: &AccountId,
        amount: Balance,
        now: u64,
    ) -> (res: Result<Effect, LedgerError>)
        ensures
            match res {
                Ok(effect) => self@.plan_deposit(sender@, token_id@, amount, now) == Ok::<
                    EffectView,
                    LedgerError,
                >(effect@),
                Err(e) => self@.plan_deposit(sender@, token_id@, amount, now) == Err::<
                    EffectView,
                    LedgerError,
                >(e),
            },
            self@.tokens.well_paired(),
    {
        let (reserve, rate) = match self.tokens.base_entry(token_id) {
            Some(pair) => (pair.related_token_id.clone(), pair.reward_rate),
            None => {
                return Err(LedgerError::UnregisteredToken);
            },
        };
        let record = self.get_or_create(sender, token_id);
        let interest = match accrue(&record, rate, now) {
            Ok(interest) => interest,
            Err(e) => {
                return Err(e);
            },
        };
        let grown = match record.token_deposited_amount.checked_add(interest) {
            Some(grown) => grown,
            None => {
                return Err(LedgerError::ArithmeticOverflow);
            },
        };
        let new_balance = match grown.checked_add(amount) {
            Some(new_balance) => new_balance,
            None => {
                return Err(LedgerError::ArithmeticOverflow);
            },
        };
        let mut calls: Vec<Settlement> = Vec::new();
        calls.push(
            Settlement {
                kind: SettlementKind::ReserveCredit,
                token_id: reserve,
                receiver_id: sender.clone(),
                amount: amount + interest,
            },
        );
        let effect = Effect {
            account_id: sender.clone(),
            token_id: token_id.clone(),
            record: DepositDataDetail {
                token_time_tracker: now,
                token_deposited_amount: new_balance,
            },
            calls,
        };
        assert(effect@.calls =~= self@.plan_deposit(sender@, token_id@, amount, now)->Ok_0.calls);
        Ok(effect)
    }

    /// Plans a withdrawal of `amount` for `sender` at the clock reading
    /// `now`, asked for by sending the reserve token `token_id`. Nothing is
    /// written.
    pub fn plan_withdraw(
        &self,
        sender: &AccountId,
        token_id: &AccountId,
        amount: Balance,
        now: u64,
    ) -> (res: Result<Effect, LedgerError>)
        ensures
            match res {
                Ok(effect) => self@.plan_withdraw(sender@, token_id@, amount, now) == Ok::<
                    EffectView,
                    LedgerError,
                >(effect@),
                Err(e) => self@.plan_withdraw(sender@, token_id@, amount, now) == Err::<
                    EffectView,
                    LedgerError,
                >(e),
            },
            self@.tokens.well_paired(),
    {
        let (base, rate) = match self.tokens.reserve_entry(token_id) {
            Some(pair) => (pair.related_token_id.clone(), pair.reward_rate),
            None => {
                return Err(LedgerError::UnregisteredToken);
            },
        };
        let record = self.get_or_create(sender, &base);
        let interest = match accrue(&record, rate, now) {
            Ok(interest) => interest,
            Err(e) => {
                return Err(e);
            },
        };
        let available = match record.token_deposited_amount.checked_add(interest) {
            Some(available) => available,
            None => {
                return Err(LedgerError::ArithmeticOverflow);
            },
        };
        if amount > available {
            return Err(LedgerError::InsufficientBalance);
        }
        let left = available - amount;
        let stamp = if left == 0 {
            0u64
        } else {
            now
        };
        let mut calls: Vec<Settlement> = Vec::new();
        if interest >= amount {
            calls.push(
                Settlement {
                    kind: SettlementKind::Reward,
                    token_id: base.clone(),
                    receiver_id: sender.clone(),
                    amount: interest - amount,
                },
            );
        }
        calls.push(
            Settlement {
                kind: SettlementKind::Withdrawal,
                token_id: base.clone(),
                receiver_id: sender.clone(),
                amount,
            },
        );
        let effect = Effect {
            account_id: sender.clone(),
            token_id: base,
            record: DepositDataDetail { token_time_tracker: stamp, token_deposited_amount: left },
            calls,
        };
        assert(effect@.calls =~= self@.plan_withdraw(sender@, token_id@, amount, now)->Ok_0.calls);
        Ok(effect)
    }

    /// Plans an inbound transfer of `amount` of `token_id` from
    /// `account_id`: a base token is deposited, a reserve token withdraws,
    /// any other token is refused. Nothing is written.
    pub fn plan_transfer(
        &self,
        account_id: &AccountId,
        token_id: &AccountId,
        amount: Balance,
        now: u64,
    ) -> (res: Result<Effect, LedgerError>)
        ensures
            match res {
                Ok(effect) => self@.plan_transfer(account_id@, token_id@, amount, now) == Ok::<
                    EffectView,
                    LedgerError,
                >(effect@),
                Err(e) => self@.plan_transfer(account_id@, token_id@, amount, now) == Err::<
                    EffectView,
                    LedgerError,
                >(e),
            },
            self@.tokens.well_paired(),
    {
        match self.tokens.classify(token_id) {
            Route::Deposit => self.plan_deposit(account_id, token_id, amount, now),
            Route::Withdraw => self.plan_withdraw(account_id, token_id, amount, now),
            Route::Rejected => Err(LedgerError::UnregisteredToken),
        }
    }

    /// Commits a planned effect: writes its record. Its settlement calls are
    /// to be dispatched once this is done.
    pub fn commit(&mut self, effect: &Effect)
        ensures
            final(self)@ == old(self)@.apply(effect@),
    {
        self.set(&effect.account_id, &effect.token_id, effect.record);
    }

    /// Takes a deposit of `amount` of the base token `token_id` from `sender`
    /// at the clock reading `now`.
    ///
    /// On success the record is written, and the effect that is returned
    /// holds the settlement call to dispatch. A refusal leaves the ledger as
    /// it was.
    pub fn deposit_token(
        &mut self,
        sender: &AccountId,
        token_id: &AccountId,
        amount: Balance,
        now: u64,
    ) -> (res: Result<Effect, LedgerError>)
        ensures
            match res {
                Ok(effect) => old(self)@.plan_deposit(sender@, token_id@, amount, now) == Ok::<
                    EffectView,
                    LedgerError,
                >(effect@) && final(self)@ == old(self)@.apply(effect@),
                Err(e) => old(self)@.plan_deposit(sender@, token_id@, amount, now) == Err::<
                    EffectView,
                    LedgerError,
                >(e) && *final(self) == *old(self),
            },
            final(self)@.tokens.well_paired(),
    {
        match self.plan_deposit(sender, token_id, amount, now) {
            Ok(effect) => {
                self.commit(&effect);
                Ok(effect)
            },
            Err(e) => Err(e),
        }
    }

    /// Takes a withdrawal of `amount` for `sender` at the clock reading
    /// `now`, asked for by sending the reserve token `token_id`.
    ///
    /// On success the record of the paired base token is written, and the
    /// effect that is returned holds the settlement calls to dispatch, in
    /// order. A refusal leaves the ledger as it was.
    pub fn withdraw_token(
        &mut self,
        sender: &AccountId,
        token_id: &AccountId,
        amount: Balance,
        now: u64,
    ) -> (res: Result<Effect, LedgerError>)
        ensures
            match res {
                Ok(effect) => old(self)@.plan_withdraw(sender@, token_id@, amount, now) == Ok::<
                    EffectView,
                    LedgerError,
                >(effect@) && final(self)@ == old(self)@.apply(effect@),
                Err(e) => old(self)@.plan_withdraw(sender@, token_id@, amount, now) == Err::<
                    EffectView,
                    LedgerError,
                >(e) && *final(self) == *old(self),
            },
            final(self)@.tokens.well_paired(),
    {
        match self.plan_withdraw(sender, token_id, amount, now) {
            Ok(effect) => {
                self.commit(&effect);
                Ok(effect)
            },
            Err(e) => Err(e),
        }
    }

    /// Routes an inbound transfer of `amount` of `token_id` from
    /// `account_id`: a base token is deposited, a reserve token withdraws,
    /// any other token is refused.
    ///
    /// On success the record is written, and the effect that is returned
    /// holds the settlement calls to dispatch, in order. A refusal leaves the
    /// ledger as it was.
    pub fn transfer_checker(
        &mut self,
        account_id: &AccountId,
        token_id: &AccountId,
        amount: Balance,
        now: u64,
    ) -> (res: Result<Effect, LedgerError>)
        ensures
            match res {
                Ok(effect) => old(self)@.plan_transfer(account_id@, token_id@, amount, now) == Ok::<
                    EffectView,
                    LedgerError,
                >(effect@) && final(self)@ == old(self)@.apply(effect@),
                Err(e) => old(self)@.plan_transfer(account_id@, token_id@, amount, now) == Err::<
                    EffectView,
                    LedgerError,
                >(e) && *final(self) == *old(self),
            },
            final(self)@.tokens.well_paired(),
    {
        match self.plan_transfer(account_id, token_id, amount, now) {
            Ok(effect) => {
                self.commit(&effect);
                Ok(effect)
            },
            Err(e) => Err(e),
        }
    }

    /// The entry point for a transfer that names the ledger as its receiver:
    /// `amount` of `token_id` has arrived from `sender_id` at the clock
    /// reading `now`.
    ///
    /// On success the ledger keeps the whole amount: the first component, the
    /// part handed back to the sender, is 0. The second is the effect that was
    /// committed, with the settlement calls to dispatch. A refusal leaves the
    /// ledger as it was.
    pub fn ft_on_transfer(
        &mut self,
        sender_id: AccountId,
        token_id: AccountId,
        amount: Balance,
        now: u64,
    ) -> (res: Result<(Balance, Effect), LedgerError>)
        ensures
            match res {
                Ok((unused, effect)) => unused == 0 && old(self)@.plan_transfer(
                    sender_id@,
                    token_id@,
                    amount,
                    now,
                ) == Ok::<EffectView, LedgerError>(effect@) && final(self)@ == old(self)@.apply(
                    effect@,
                ),
                Err(e) => old(self)@.plan_transfer(sender_id@, token_id@, amount, now) == Err::<
                    EffectView,
                    LedgerError,
                >(e) && *final(self) == *old(self),
            },
            final(self)@.tokens.well_paired(),
    {
        match self.transfer_checker(&sender_id, &token_id, amount, now) {
            Ok(effect) => Ok((0, effect)),
            Err(e) => Err(e),
        }
    }
}

} // verus!
