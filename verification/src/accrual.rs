//! Time-based yield: simple interest on a principal, at an annual rate in
//! basis points, for the seconds that passed since the last settlement.
use vstd::prelude::*;
use vstd::arithmetic::div_mod::{lemma_fundamental_div_mod, lemma_hoist_over_denominator};

verus! {

/// What one unit of principal must be held for, in seconds times basis
/// points, to earn one unit of yield: a year of 365 days of 86400 seconds,
/// times the 10000 basis points of the whole.
pub const YEAR_BPS_SECONDS: u128 = 315_360_000_000;

/// The yield that a principal has earned between two timestamps, as an exact
/// number: nothing without principal or without time passed, and otherwise
/// `principal * rate * seconds / (365 * 86400 * 10000)`, rounded down.
pub open spec fn accrued_interest(
    deposit_amount: int,
    last_update: int,
    current_time: int,
    yield_rate: int,
) -> int {
    if deposit_amount == 0 || current_time <= last_update {
        0
    } else {
        (deposit_amount * yield_rate * (current_time - last_update)) / 315_360_000_000
    }
}

/// The yield as the ledger records it: `accrued_interest`, held to the
/// largest amount that the ledger can record.
pub open spec fn yield_owed(
    deposit_amount: u64,
    last_update: i64,
    current_time: i64,
    yield_rate: u64,
) -> u64 {
    let exact = accrued_interest(
        deposit_amount as int,
        last_update as int,
        current_time as int,
        yield_rate as int,
    );
    if exact > u64::MAX {
        u64::MAX
    } else {
        exact as u64
    }
}

/// Dividing a product by `d` can be done on one factor first: the quotient of
/// that factor contributes whole multiples, its remainder the rest.
proof fn lemma_quotient_of_product(w: int, e: int, d: int)
    requires
        0 <= w,
        0 <= e,
        0 < d,
    ensures
        (w * e) / d == (w / d) * e + ((w % d) * e) / d,
{
    lemma_fundamental_div_mod(w, d);
    assert(w * e == (w % d) * e + ((w / d) * e) * d) by (nonlinear_arith)
        requires
            w == d * (w / d) + w % d,
    ;
    lemma_hoist_over_denominator((w % d) * e, (w / d) * e, d as nat);
}

/// The yield earned on `deposit_amount` between `last_update` and
/// `current_time` at `yield_rate` basis points a year.
pub fn calculate_yield(
    deposit_amount: u64,
    last_update: i64,
    current_time: i64,
    yield_rate: u64,
) -> (earned: u64)
    ensures
        earned == yield_owed(deposit_amount, last_update, current_time, yield_rate),
        deposit_amount == 0 || current_time <= last_update ==> earned == 0,
{
    if deposit_amount == 0 || last_update >= current_time {
        return 0;
    }
    let elapsed: u128 = (current_time as i128 - last_update as i128) as u128;
    assert(deposit_amount * yield_rate <= u64::MAX * u64::MAX) by (nonlinear_arith);
    let weighted: u128 = (deposit_amount as u128) * (yield_rate as u128);
    let whole: u128 = weighted / YEAR_BPS_SECONDS;
    let part: u128 = weighted % YEAR_BPS_SECONDS;
    assert(part * elapsed <= 315_360_000_000 * u64::MAX) by (nonlinear_arith)
        requires
            part <= 315_360_000_000,
            elapsed <= u64::MAX,
    ;
    let rest: u128 = part * elapsed / YEAR_BPS_SECONDS;
    proof {
        lemma_quotient_of_product(weighted as int, elapsed as int, YEAR_BPS_SECONDS as int);
        assert(0 <= whole * elapsed) by (nonlinear_arith);
    }
    match whole.checked_mul(elapsed) {
        None => u64::MAX,
        Some(head) => match head.checked_add(rest) {
            None => u64::MAX,
            Some(total) => if total > u64::MAX as u128 {
                u64::MAX
            } else {
                total as u64
            },
        },
    }
}

/// Where no time has passed, nothing is earned, whatever the principal and
/// the rate.
pub proof fn lemma_no_yield_without_elapsed_time(
    deposit_amount: u64,
    timestamp: i64,
    yield_rate: u64,
)
    ensures
        yield_owed(deposit_amount, timestamp, timestamp, yield_rate) == 0,
{
}

/// Without principal nothing is earned, whatever the rate and the time that
/// passed.
pub proof fn lemma_no_yield_without_principal(last_update: i64, current_time: i64, yield_rate: u64)
    ensures
        yield_owed(0, last_update, current_time, yield_rate) == 0,
{
}

/// Five percent a year on 1,000,000 units held for 365 days are 50,000
/// units, from whatever moment the year is counted.
pub proof fn lemma_one_year_at_five_percent(start: i64)
    requires
        start + 365 * 86_400 <= i64::MAX,
    ensures
        yield_owed(1_000_000, start, (start + 365 * 86_400) as i64, 500) == 50_000,
{
    assert((1_000_000int * 500) * (365 * 86_400) == 50_000 * 315_360_000_000) by (nonlinear_arith);
    assert((1_000_000int * 500 * ((start + 365 * 86_400) - start)) == 50_000 * 315_360_000_000)
        by (nonlinear_arith);
}

} // verus!
