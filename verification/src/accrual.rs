//! Time-weighted interest on a single deposit record.

use vstd::prelude::*;
use crate::error::LedgerError;

verus! {

/// An amount of tokens.
pub type Balance = u128;

/// Interest per whole time unit is `reward_rate` parts in `RATE_DIVISOR` of the principal.
pub const RATE_DIVISOR: u128 = 1000;

/// Clock ticks (nanoseconds) in one time unit: one second.
pub const TIME_UNIT: u64 = 1_000_000_000;

/// What one account holds of one token: the principal and the clock reading
/// at which it was last written. A reading of 0 marks a record that has never
/// been funded, or that a withdrawal has emptied.
#[derive(Clone, Copy, Debug, PartialEq, Eq, Structural)]
pub struct DepositDataDetail {
    pub token_time_tracker: u64,
    pub token_deposited_amount: Balance,
}

impl DepositDataDetail {
    /// The record of an account that holds nothing.
    pub open spec fn zeroed() -> Self {
        DepositDataDetail { token_time_tracker: 0, token_deposited_amount: 0 }
    }

    /// The clock reading `now` lies before the last update of a funded record.
    pub open spec fn regressed(self, now: u64) -> bool {
        self.token_time_tracker != 0 && now < self.token_time_tracker
    }

    /// Whole time units between the last update and `now`. A remainder below
    /// one unit is dropped; an unfunded record has no elapsed time.
    pub open spec fn elapsed_units(self, now: u64) -> nat {
        if self.token_time_tracker == 0 || now < self.token_time_tracker {
            0
        } else {
            ((now - self.token_time_tracker) / (TIME_UNIT as int)) as nat
        }
    }

    /// Elapsed units times rate times principal, before the division.
    pub open spec fn accrual_product(self, reward_rate: u128, now: u64) -> nat {
        self.elapsed_units(now) * reward_rate as nat * self.token_deposited_amount as nat
    }

    /// The interest accrued up to `now`, rounded down.
    pub open spec fn interest(self, reward_rate: u128, now: u64) -> nat {
        self.accrual_product(reward_rate, now) / (RATE_DIVISOR as nat)
    }

    /// What `accrue` returns: the interest, or the reason why there is none.
    pub open spec fn accrual(self, reward_rate: u128, now: u64) -> Result<u128, LedgerError> {
        if self.regressed(now) {
            Err(LedgerError::ClockRegression)
        } else if self.accrual_product(reward_rate, now) > u128::MAX {
            Err(LedgerError::ArithmeticOverflow)
        } else {
            Ok(self.interest(reward_rate, now) as u128)
        }
    }

    /// A record with no principal and no last update.
    pub fn new() -> (record: Self)
        ensures
            record == Self::zeroed(),
    {
        DepositDataDetail { token_time_tracker: 0u64, token_deposited_amount: 0u128 }
    }
}

/// A product with a zero first or last factor is zero.
proof fn lemma_product_vanishes(a: nat, b: nat, c: nat)
    by (nonlinear_arith)
    requires
        a == 0 || c == 0,
    ensures
        a * b * c == 0,
{
}

/// A product of naturals that exceeds a bound still exceeds it after
/// multiplication by a positive factor.
proof fn lemma_product_stays_above(a: nat, b: nat, bound: nat)
    by (nonlinear_arith)
    requires
        a > bound,
        b >= 1,
    ensures
        a * b > bound,
{
}

/// Interest accrued by `record` up to the clock reading `now`, at
/// `reward_rate` parts in `RATE_DIVISOR` per whole time unit.
///
/// An unfunded record accrues nothing. A reading before the record's last
/// update is refused, and so is a product that leaves 128 bits.
pub fn accrue(record: &DepositDataDetail, reward_rate: u128, now: u64) -> (res: Result<
    u128,
    LedgerError,
>)
    ensures
        res == record.accrual(reward_rate, now),
{
    if record.token_time_tracker == 0 {
        proof {
            lemma_product_vanishes(
                record.elapsed_units(now),
                reward_rate as nat,
                record.token_deposited_amount as nat,
            );
        }
        return Ok(0);
    }
    if now < record.token_time_tracker {
        return Err(LedgerError::ClockRegression);
    }
    let elapsed: u128 = ((now - record.token_time_tracker) / TIME_UNIT) as u128;
    let principal: u128 = record.token_deposited_amount;
    if principal == 0 {
        proof {
            lemma_product_vanishes(elapsed as nat, reward_rate as nat, principal as nat);
        }
        return Ok(0);
    }
    match elapsed.checked_mul(reward_rate) {
        None => {
            proof {
                lemma_product_stays_above(
                    elapsed as nat * reward_rate as nat,
                    principal as nat,
                    u128::MAX as nat,
                );
            }
            Err(LedgerError::ArithmeticOverflow)
        },
        Some(weighted) => match weighted.checked_mul(principal) {
            None => Err(LedgerError::ArithmeticOverflow),
            Some(product) => Ok(product / RATE_DIVISOR),
        },
    }
}

/// Multiplying by the same rate and principal keeps the order of two elapsed times.
proof fn lemma_product_monotonic(e1: nat, e2: nat, rate: nat, principal: nat)
    by (nonlinear_arith)
    requires
        e1 <= e2,
    ensures
        e1 * rate * principal <= e2 * rate * principal,
{
}

/// Accrual is monotonic in time: for one record and one rate, a later clock
/// reading never gives less interest than an earlier one. Where `accrue`
/// succeeds at both readings the later result is at least the earlier one;
/// and where it succeeds at the later reading it succeeds at every earlier
/// one that does not lie before the record's last update.
pub proof fn lemma_accrual_monotonic(record: DepositDataDetail, reward_rate: u128, t1: u64, t2: u64)
    requires
        t1 <= t2,
    ensures
        record.interest(reward_rate, t1) <= record.interest(reward_rate, t2),
        record.accrual(reward_rate, t1) is Ok && record.accrual(reward_rate, t2) is Ok
            ==> record.accrual(reward_rate, t1)->Ok_0 <= record.accrual(reward_rate, t2)->Ok_0,
        record.accrual(reward_rate, t2) is Ok && !record.regressed(t1) ==> record.accrual(
            reward_rate,
            t1,
        ) is Ok,
{
    lemma_product_monotonic(
        record.elapsed_units(t1),
        record.elapsed_units(t2),
        reward_rate as nat,
        record.token_deposited_amount as nat,
    );
}

/// A product of a factor within 2^32 and a factor below 2^96 fits in 128 bits.
proof fn lemma_product_fits(weighted: nat, principal: nat)
    by (nonlinear_arith)
    requires
        weighted <= 0x1_0000_0000,
        principal < 0x1_0000_0000_0000_0000_0000_0000,
    ensures
        weighted * principal <= u128::MAX,
{
}

/// Amounts below 2^96 never overflow while elapsed units times rate stays
/// within 2^32: at the rate 1 that is more than a century of seconds.
pub proof fn lemma_moderate_amounts_fit(record: DepositDataDetail, reward_rate: u128, now: u64)
    requires
        record.token_deposited_amount < 0x1_0000_0000_0000_0000_0000_0000,
        record.elapsed_units(now) * reward_rate <= 0x1_0000_0000,
    ensures
        record.accrual_product(reward_rate, now) <= u128::MAX,
        record.accrual(reward_rate, now) is Ok || record.regressed(now),
{
    lemma_product_fits(
        record.elapsed_units(now) * reward_rate as nat,
        record.token_deposited_amount as nat,
    );
}

/// Time below one whole unit is dropped: when fewer than `TIME_UNIT` ticks
/// lie between the last update and `now`, no unit has elapsed.
pub proof fn lemma_partial_unit_is_dropped(record: DepositDataDetail, now: u64)
    requires
        record.token_time_tracker <= now,
        now - record.token_time_tracker < TIME_UNIT,
    ensures
        record.elapsed_units(now) == 0,
{
}

/// Without an elapsed unit there is no interest: `accrue` returns 0 whatever
/// the principal and the rate are.
pub proof fn lemma_no_elapsed_unit_accrues_nothing(
    record: DepositDataDetail,
    reward_rate: u128,
    now: u64,
)
    requires
        !record.regressed(now),
        record.elapsed_units(now) == 0,
    ensures
        record.accrual(reward_rate, now) == Ok::<u128, LedgerError>(0),
{
    lemma_product_vanishes(
        record.elapsed_units(now),
        reward_rate as nat,
        record.token_deposited_amount as nat,
    );
}

} // verus!
