use accrual_ledger::{accrue, DepositDataDetail, LedgerError, RATE_DIVISOR, TIME_UNIT};

const SECOND: u64 = 1_000_000_000;

fn record(time: u64, amount: u128) -> DepositDataDetail {
    DepositDataDetail { token_time_tracker: time, token_deposited_amount: amount }
}

#[test]
fn constants_are_one_second_and_one_thousandth() {
    assert_eq!(TIME_UNIT, 1_000_000_000);
    assert_eq!(RATE_DIVISOR, 1000);
}

#[test]
fn new_record_is_zeroed() {
    let fresh = DepositDataDetail::new();
    assert_eq!(fresh.token_time_tracker, 0);
    assert_eq!(fresh.token_deposited_amount, 0);
    assert_eq!(fresh, record(0, 0));
}

#[test]
fn unfunded_record_accrues_nothing() {
    assert_eq!(accrue(&record(0, 0), 1, 5_000 * SECOND), Ok(0));
    // A clock reading of 0 marks the record as never funded, whatever it holds.
    assert_eq!(accrue(&record(0, 1_000_000), 1, 5_000 * SECOND), Ok(0));
    assert_eq!(accrue(&record(0, u128::MAX), u128::MAX, u64::MAX), Ok(0));
}

#[test]
fn interest_is_elapsed_times_rate_times_principal_over_divisor() {
    // 1000 s * 1 * 1_000_000 / 1000
    assert_eq!(accrue(&record(SECOND, 1_000_000), 1, 1_001 * SECOND), Ok(1_000_000));
    // 7 s * 3 * 500 / 1000 = 10.5, rounded down
    assert_eq!(accrue(&record(2 * SECOND, 500), 3, 9 * SECOND), Ok(10));
    // 1 s * 1 * 999 / 1000 rounds down to nothing
    assert_eq!(accrue(&record(SECOND, 999), 1, 2 * SECOND), Ok(0));
    assert_eq!(accrue(&record(SECOND, 1000), 1, 2 * SECOND), Ok(1));
    assert_eq!(accrue(&record(SECOND, 1999), 1, 2 * SECOND), Ok(1));
}

#[test]
fn rate_scales_interest() {
    let held = record(SECOND, 10_000);
    assert_eq!(accrue(&held, 0, 11 * SECOND), Ok(0));
    assert_eq!(accrue(&held, 1, 11 * SECOND), Ok(100));
    assert_eq!(accrue(&held, 25, 11 * SECOND), Ok(2_500));
}

#[test]
fn time_below_one_unit_is_dropped() {
    let held = record(SECOND, 1_000_000_000);
    assert_eq!(accrue(&held, 1, SECOND), Ok(0));
    assert_eq!(accrue(&held, 1, SECOND + 1), Ok(0));
    assert_eq!(accrue(&held, 1, 2 * SECOND - 1), Ok(0));
    assert_eq!(accrue(&held, 1, 2 * SECOND), Ok(1_000_000));
    assert_eq!(accrue(&held, 1, 3 * SECOND - 1), Ok(1_000_000));
    assert_eq!(accrue(&held, 1, 3 * SECOND), Ok(2_000_000));
}

#[test]
fn zero_elapsed_units_give_zero_whatever_the_principal() {
    for principal in [0u128, 1, 999, 1_000_000, u128::MAX] {
        for rate in [0u128, 1, 1000, u128::MAX] {
            assert_eq!(accrue(&record(5 * SECOND, principal), rate, 6 * SECOND - 1), Ok(0));
        }
    }
}

#[test]
fn clock_before_last_update_is_refused() {
    assert_eq!(accrue(&record(10 * SECOND, 500), 1, 10 * SECOND - 1), Err(LedgerError::ClockRegression));
    assert_eq!(accrue(&record(10 * SECOND, 500), 1, 0), Err(LedgerError::ClockRegression));
    // Also where nothing is held.
    assert_eq!(accrue(&record(10 * SECOND, 0), 1, 9 * SECOND), Err(LedgerError::ClockRegression));
    assert_eq!(accrue(&record(10 * SECOND, 500), 1, 10 * SECOND), Ok(0));
}

#[test]
fn product_beyond_128_bits_is_refused() {
    // 2 * 1 * 2^127 does not fit.
    assert_eq!(accrue(&record(SECOND, 1u128 << 127), 1, 3 * SECOND), Err(LedgerError::ArithmeticOverflow));
    // elapsed * rate alone does not fit.
    assert_eq!(accrue(&record(SECOND, 1), u128::MAX, 3 * SECOND), Err(LedgerError::ArithmeticOverflow));
    // 1 * 1 * MAX fits exactly.
    assert_eq!(accrue(&record(SECOND, u128::MAX), 1, 2 * SECOND), Ok(u128::MAX / 1000));
    // With no principal the product is zero, however large the rate.
    assert_eq!(accrue(&record(SECOND, 0), u128::MAX, 3 * SECOND), Ok(0));
}

#[test]
fn amounts_below_two_to_the_96_do_not_overflow_over_a_century() {
    let century: u64 = 100 * 365 * 24 * 3600;
    let held = record(SECOND, (1u128 << 96) - 1);
    let expected = (century as u128) * ((1u128 << 96) - 1) / 1000;
    assert_eq!(accrue(&held, 1, SECOND + century * SECOND), Ok(expected));
}

#[test]
fn interest_never_shrinks_as_time_advances() {
    let held = record(3 * SECOND, 123_456_789);
    let mut last = 0u128;
    let mut now = 3 * SECOND;
    while now < 200 * SECOND {
        let interest = accrue(&held, 7, now).unwrap();
        assert!(interest >= last);
        last = interest;
        now += SECOND / 3;
    }
    assert_eq!(last, 196 * 7 * 123_456_789 / 1000);
}

#[test]
fn error_messages_name_the_refusal() {
    assert_eq!(
        LedgerError::UnregisteredToken.message(),
        "This contract is not registered to this saving protocol."
    );
    assert_eq!(LedgerError::InsufficientBalance.message(), "The amount exceed current balance.");
    assert_ne!(LedgerError::ClockRegression.message(), LedgerError::ArithmeticOverflow.message());
    assert!(!LedgerError::ClockRegression.message().is_empty());
    assert!(!LedgerError::ArithmeticOverflow.message().is_empty());
}
