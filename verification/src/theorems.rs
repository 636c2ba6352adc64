//! What holds of the ledger across operations, proved over its view.

use vstd::prelude::*;
use crate::accrual::DepositDataDetail;
use crate::error::LedgerError;
use crate::ledger::{ContractView, EffectView};
use crate::registry::{RegistryView, Route};
use crate::settlement::{SettlementKind, SettlementView};

verus! {

/// Routing is total and exclusive: every token takes exactly one route.
/// A deposit is what a base token gives, a refusal what an unknown token
/// gives, and, the registry being well paired, a withdrawal what a reserve
/// token gives.
pub proof fn lemma_routing_total(registry: RegistryView, token: Seq<char>)
    requires
        registry.well_paired(),
    ensures
        registry.classify(token) == Route::Deposit <==> registry.is_base(token),
        registry.classify(token) == Route::Withdraw <==> registry.is_reserve(token),
        registry.classify(token) == Route::Rejected <==> !registry.is_base(token)
            && !registry.is_reserve(token),
{
    if registry.is_reserve(token) {
        assert(registry.reserve_token_info.contains_key(token));
    }
}

/// A transfer of a token that is routed as rejected is refused as
/// unregistered, whoever sends it, whatever the amount and the time; and so
/// it is as a deposit and as a withdrawal.
pub proof fn lemma_rejected_transfer_is_refused(
    ledger: ContractView,
    sender: Seq<char>,
    token: Seq<char>,
    amount: u128,
    now: u64,
)
    requires
        ledger.tokens.classify(token) == Route::Rejected,
    ensures
        ledger.plan_transfer(sender, token, amount, now) == Err::<EffectView, LedgerError>(
            LedgerError::UnregisteredToken,
        ),
        ledger.plan_deposit(sender, token, amount, now) == Err::<EffectView, LedgerError>(
            LedgerError::UnregisteredToken,
        ),
        ledger.plan_withdraw(sender, token, amount, now) == Err::<EffectView, LedgerError>(
            LedgerError::UnregisteredToken,
        ),
{
}

/// Writing one record changes that record and no other, leaves the owner
/// and the registry alone, and removes no account.
pub proof fn lemma_write_touches_one_record(
    ledger: ContractView,
    account: Seq<char>,
    token: Seq<char>,
    record: DepositDataDetail,
    other_account: Seq<char>,
    other_token: Seq<char>,
)
    ensures
        ledger.with_record(account, token, record).record(account, token) == record,
        other_account != account || other_token != token ==> ledger.with_record(
            account,
            token,
            record,
        ).record(other_account, other_token) == ledger.record(other_account, other_token),
        ledger.with_record(account, token, record).tokens == ledger.tokens,
        ledger.with_record(account, token, record).owner_id == ledger.owner_id,
        ledger.accounts.contains_key(other_account) ==> ledger.with_record(
            account,
            token,
            record,
        ).accounts.contains_key(other_account),
        ledger.accounts.contains_key(other_account) && ledger.accounts[other_account].contains_key(
            other_token,
        ) ==> ledger.with_record(account, token, record).accounts[other_account].contains_key(
            other_token,
        ),
{
}

/// An accepted transfer writes the sender's record of one base token: for a
/// deposit the token that arrived, for a withdrawal the token paired with
/// it, which in a well-paired ledger is a base token too.
pub proof fn lemma_transfer_writes_a_base_record(
    ledger: ContractView,
    sender: Seq<char>,
    token: Seq<char>,
    amount: u128,
    now: u64,
)
    requires
        ledger.tokens.well_paired(),
        ledger.plan_transfer(sender, token, amount, now) is Ok,
    ensures
        ledger.plan_transfer(sender, token, amount, now)->Ok_0.account_id == sender,
        ledger.tokens.is_base(ledger.plan_transfer(sender, token, amount, now)->Ok_0.token_id),
        ledger.tokens.classify(token) == Route::Deposit ==> ledger.plan_transfer(
            sender,
            token,
            amount,
            now,
        )->Ok_0.token_id == token,
        ledger.tokens.classify(token) == Route::Withdraw ==> ledger.tokens.paired_of(token) == Ok::<
            Seq<char>,
            LedgerError,
        >(ledger.plan_transfer(sender, token, amount, now)->Ok_0.token_id),
{
    if ledger.tokens.classify(token) == Route::Withdraw {
        assert(ledger.tokens.reserve_token_info.contains_key(token));
    }
}

/// A withdrawal that leaves no principal resets the record to the zeroed
/// one, clock reading included; and the next deposit then starts afresh:
/// whatever the clock reads, it is accepted, earns no interest, and makes the
/// record hold exactly the deposited amount.
pub proof fn lemma_emptied_record_starts_afresh(
    ledger: ContractView,
    sender: Seq<char>,
    reserve: Seq<char>,
    amount: u128,
    now: u64,
    next_amount: u128,
    next_now: u64,
)
    requires
        ledger.tokens.well_paired(),
        ledger.plan_withdraw(sender, reserve, amount, now) is Ok,
        ledger.plan_withdraw(sender, reserve, amount, now)->Ok_0.record.token_deposited_amount == 0,
    ensures
        ({
            let base = ledger.tokens.reserve_token_info[reserve].related_token_id;
            let emptied = ledger.apply(ledger.plan_withdraw(sender, reserve, amount, now)->Ok_0);
            &&& emptied.record(sender, base) == DepositDataDetail::zeroed()
            &&& emptied.plan_deposit(sender, base, next_amount, next_now) == Ok::<
                EffectView,
                LedgerError,
            >(
                EffectView {
                    account_id: sender,
                    token_id: base,
                    record: DepositDataDetail {
                        token_time_tracker: next_now,
                        token_deposited_amount: next_amount,
                    },
                    calls: seq![
                        SettlementView {
                            kind: SettlementKind::ReserveCredit,
                            token_id: reserve,
                            receiver_id: sender,
                            amount: next_amount,
                        },
                    ],
                },
            )
        }),
{
    let base = ledger.tokens.reserve_token_info[reserve].related_token_id;
    assert(ledger.tokens.reserve_token_info.contains_key(reserve));
    assert(ledger.tokens.token_info.contains_key(base));
    let emptied = ledger.apply(ledger.plan_withdraw(sender, reserve, amount, now)->Ok_0);
    let rate = emptied.tokens.token_info[base].reward_rate;
    assert(DepositDataDetail::zeroed().accrual_product(rate, next_now) == 0) by {
        assert(0nat * rate as nat * 0nat == 0) by (nonlinear_arith);
    }
}

/// Depositing into a record without principal and withdrawing the same
/// amount at the same clock reading both succeed and leave the record zeroed.
pub proof fn lemma_deposit_then_withdraw_all(
    ledger: ContractView,
    sender: Seq<char>,
    base: Seq<char>,
    amount: u128,
    now: u64,
)
    requires
        ledger.tokens.well_paired(),
        ledger.tokens.is_base(base),
        ledger.record(sender, base).token_deposited_amount == 0,
        !ledger.record(sender, base).regressed(now),
    ensures
        ledger.plan_deposit(sender, base, amount, now) is Ok,
        ({
            let reserve = ledger.tokens.token_info[base].related_token_id;
            let funded = ledger.apply(ledger.plan_deposit(sender, base, amount, now)->Ok_0);
            &&& funded.record(sender, base) == (DepositDataDetail {
                token_time_tracker: now,
                token_deposited_amount: amount,
            })
            &&& funded.plan_withdraw(sender, reserve, amount, now) is Ok
            &&& funded.apply(funded.plan_withdraw(sender, reserve, amount, now)->Ok_0).record(
                sender,
                base,
            ) == DepositDataDetail::zeroed()
        }),
{
    let pair = ledger.tokens.token_info[base];
    let reserve = pair.related_token_id;
    assert(ledger.tokens.token_info.contains_key(base));
    assert(ledger.tokens.reserve_token_info.contains_key(reserve));
    let before = ledger.record(sender, base);
    assert(before.accrual_product(pair.reward_rate, now) == 0) by {
        assert(before.elapsed_units(now) * pair.reward_rate as nat * 0nat == 0)
            by (nonlinear_arith);
    }
    let funded = ledger.apply(ledger.plan_deposit(sender, base, amount, now)->Ok_0);
    let held = funded.record(sender, base);
    assert(held.elapsed_units(now) == 0);
    assert(held.accrual_product(pair.reward_rate, now) == 0) by {
        assert(0nat * pair.reward_rate as nat * amount as nat == 0) by (nonlinear_arith);
    }
}

/// The balance is a sharp bound on withdrawals: asking for principal plus
/// accrued interest is granted, asking for one more is refused as
/// insufficient.
pub proof fn lemma_withdrawal_boundary(
    ledger: ContractView,
    sender: Seq<char>,
    reserve: Seq<char>,
    now: u64,
)
    requires
        ledger.tokens.is_reserve(reserve),
        ledger.record(sender, ledger.tokens.reserve_token_info[reserve].related_token_id).accrual(
            ledger.tokens.reserve_token_info[reserve].reward_rate,
            now,
        ) is Ok,
        ledger.record(
            sender,
            ledger.tokens.reserve_token_info[reserve].related_token_id,
        ).token_deposited_amount + ledger.record(
            sender,
            ledger.tokens.reserve_token_info[reserve].related_token_id,
        ).accrual(ledger.tokens.reserve_token_info[reserve].reward_rate, now)->Ok_0 < u128::MAX,
    ensures
        ({
            let pair = ledger.tokens.reserve_token_info[reserve];
            let record = ledger.record(sender, pair.related_token_id);
            let available = (record.token_deposited_amount + record.accrual(
                pair.reward_rate,
                now,
            )->Ok_0) as u128;
            &&& ledger.plan_withdraw(sender, reserve, available, now) is Ok
            &&& ledger.plan_withdraw(sender, reserve, (available + 1) as u128, now) == Err::<
                EffectView,
                LedgerError,
            >(LedgerError::InsufficientBalance)
        }),
{
}

/// In a well-paired ledger the balance that a withdrawal draws on is the
/// live balance of the paired base token: a withdrawal of `amount` through
/// `reserve` is granted exactly when that balance can be computed and covers
/// the amount, and is refused for the balance's reason when it cannot.
pub proof fn lemma_withdrawal_draws_on_base_balance(
    ledger: ContractView,
    sender: Seq<char>,
    reserve: Seq<char>,
    amount: u128,
    now: u64,
)
    requires
        ledger.tokens.well_paired(),
        ledger.tokens.is_reserve(reserve),
    ensures
        ({
            let base = ledger.tokens.reserve_token_info[reserve].related_token_id;
            &&& ledger.plan_withdraw(sender, reserve, amount, now) is Ok <==> (ledger.balance(
                sender,
                base,
                now,
            ) matches Ok(available) && amount <= available)
            &&& ledger.balance(sender, base, now) matches Err(e) ==> ledger.plan_withdraw(
                sender,
                reserve,
                amount,
                now,
            ) == Err::<EffectView, LedgerError>(e)
        }),
{
    let base = ledger.tokens.reserve_token_info[reserve].related_token_id;
    assert(ledger.tokens.reserve_token_info.contains_key(reserve));
    assert(ledger.tokens.token_info.contains_key(base));
}

/// Right after a deposit the live balance is the balance before it plus the
/// deposited amount.
pub proof fn lemma_deposit_adds_to_balance(
    ledger: ContractView,
    sender: Seq<char>,
    base: Seq<char>,
    amount: u128,
    now: u64,
)
    requires
        ledger.plan_deposit(sender, base, amount, now) is Ok,
    ensures
        ledger.balance(sender, base, now) is Ok,
        ledger.apply(ledger.plan_deposit(sender, base, amount, now)->Ok_0).balance(
            sender,
            base,
            now,
        ) == Ok::<u128, LedgerError>((ledger.balance(sender, base, now)->Ok_0 + amount) as u128),
{
    let rate = ledger.tokens.token_info[base].reward_rate;
    let funded = ledger.apply(ledger.plan_deposit(sender, base, amount, now)->Ok_0);
    let held = funded.record(sender, base);
    assert(held.elapsed_units(now) == 0);
    assert(held.accrual_product(rate, now) == 0) by {
        assert(0nat * rate as nat * held.token_deposited_amount as nat == 0) by (nonlinear_arith);
    }
}

/// Right after a withdrawal the live balance is the balance before it less
/// the withdrawn amount.
pub proof fn lemma_withdrawal_takes_from_balance(
    ledger: ContractView,
    sender: Seq<char>,
    reserve: Seq<char>,
    amount: u128,
    now: u64,
)
    requires
        ledger.tokens.well_paired(),
        ledger.plan_withdraw(sender, reserve, amount, now) is Ok,
    ensures
        ({
            let base = ledger.tokens.reserve_token_info[reserve].related_token_id;
            &&& ledger.balance(sender, base, now) is Ok
            &&& ledger.apply(ledger.plan_withdraw(sender, reserve, amount, now)->Ok_0).balance(
                sender,
                base,
                now,
            ) == Ok::<u128, LedgerError>((ledger.balance(sender, base, now)->Ok_0 - amount) as u128)
        }),
{
    let base = ledger.tokens.reserve_token_info[reserve].related_token_id;
    assert(ledger.tokens.reserve_token_info.contains_key(reserve));
    assert(ledger.tokens.token_info.contains_key(base));
    let rate = ledger.tokens.token_info[base].reward_rate;
    let drawn = ledger.apply(ledger.plan_withdraw(sender, reserve, amount, now)->Ok_0);
    let held = drawn.record(sender, base);
    assert(held.elapsed_units(now) == 0);
    assert(held.accrual_product(rate, now) == 0) by {
        assert(0nat * rate as nat * held.token_deposited_amount as nat == 0) by (nonlinear_arith);
    }
}

/// At a clock reading other than 0, whatever a deposit or a withdrawal
/// writes keeps the record's mark: its clock reading is 0 exactly when it
/// holds no principal. A deposit of nothing into an empty record is the one
/// exception; it stamps the empty record with the reading.
pub proof fn lemma_written_record_keeps_its_mark(
    ledger: ContractView,
    sender: Seq<char>,
    token: Seq<char>,
    amount: u128,
    now: u64,
)
    requires
        now != 0,
        ledger.plan_transfer(sender, token, amount, now) is Ok,
        ledger.tokens.classify(token) == Route::Deposit ==> ledger.plan_transfer(
            sender,
            token,
            amount,
            now,
        )->Ok_0.record.token_deposited_amount != 0,
    ensures
        ledger.plan_transfer(sender, token, amount, now)->Ok_0.record.token_time_tracker == 0
            <==> ledger.plan_transfer(sender, token, amount, now)->Ok_0.record.token_deposited_amount
            == 0,
{
}

} // verus!
