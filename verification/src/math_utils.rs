//! Fixed-point, integer-only arithmetic helpers used by the credit logic.
//!
//! Interest rates are expressed in basis points (`1 bps = 1 / 10_000`) and
//! time in ledger seconds, with a 365-day year of `31_536_000` seconds.
//! Every helper states its result exactly over mathematical integers; the
//! caller picks whether a remainder is dropped (`Floor`) or rounds the result
//! up by one (`Ceil`).
use vstd::prelude::*;

verus! {

/// Scaling factor used for fixed-point intermediate arithmetic (10^18).
pub const SCALE: u128 = 1_000_000_000_000_000_000;

/// Number of basis points in 100%.
pub const BPS_DENOMINATOR: u128 = 10_000;

/// Seconds in a 365-day year.
pub const SECONDS_PER_YEAR: u128 = 31_536_000;

/// `BPS_DENOMINATOR * SECONDS_PER_YEAR`, the divisor of a prorated rate.
pub const BPS_YEAR_DENOMINATOR: u128 = 315_360_000_000;

/// Rounding mode for integer division helpers.
#[derive(Clone, Copy, Debug, PartialEq, Eq, Structural)]
pub enum Rounding {
    /// Truncate the remainder.
    Floor,
    /// Round up when a non-zero remainder exists.
    Ceil,
}

/// `n / d` rounded as `rounding` asks, for a non-negative `n` and positive `d`.
pub open spec fn div_rounded(n: int, d: int, rounding: Rounding) -> int {
    match rounding {
        Rounding::Floor => n / d,
        Rounding::Ceil => if n % d == 0 {
            n / d
        } else {
            n / d + 1
        },
    }
}

/// Interest on `principal` at `rate_bps` per year over `elapsed_secs` seconds.
pub open spec fn prorated(principal: int, rate_bps: int, elapsed_secs: int, rounding: Rounding) -> int {
    div_rounded(principal * rate_bps * elapsed_secs, BPS_YEAR_DENOMINATOR as int, rounding)
}

/// A quotient rounded up stays below `u128::MAX` when there is a remainder.
proof fn lemma_quotient_room(product: u128, denominator: u128)
    requires
        denominator != 0,
        product % denominator != 0,
    ensures
        product / denominator < u128::MAX,
{
    assert(denominator != 1) by {
        if denominator == 1 {
            assert(product % 1 == 0) by (nonlinear_arith);
        }
    }
    let q = product / denominator;
    assert(q * denominator <= product) by (nonlinear_arith)
        requires
            denominator > 0,
            q == product / denominator,
    ;
    assert(q <= product / 2) by (nonlinear_arith)
        requires
            denominator >= 2,
            q * denominator <= product,
            q >= 0,
    ;
}

/// Multiply `value` by `numerator` and divide by `denominator`.
///
/// The result is rounded according to `rounding`.
pub fn mul_div(value: u128, numerator: u128, denominator: u128, rounding: Rounding) -> (r: u128)
    requires
        denominator != 0,
        value * numerator <= u128::MAX,
    ensures
        r == div_rounded(value * numerator, denominator as int, rounding),
{
    let product = value * numerator;
    let quotient = product / denominator;
    match rounding {
        Rounding::Floor => quotient,
        Rounding::Ceil => {
            if product % denominator == 0 {
                quotient
            } else {
                proof {
                    lemma_quotient_room(product, denominator);
                }
                quotient + 1
            }
        },
    }
}

/// Multiply `amount` by `SCALE`.
pub fn scale_up(amount: u128) -> (r: u128)
    requires
        amount * SCALE <= u128::MAX,
    ensures
        r == amount * SCALE,
{
    amount * SCALE
}

/// Divide `amount` by `SCALE` using the requested rounding mode.
pub fn scale_down(amount: u128, rounding: Rounding) -> (r: u128)
    ensures
        r == div_rounded(amount as int, SCALE as int, rounding),
{
    let quotient = amount / SCALE;
    match rounding {
        Rounding::Floor => quotient,
        Rounding::Ceil => {
            if amount % SCALE == 0 {
                quotient
            } else {
                proof {
                    lemma_quotient_room(amount, SCALE);
                }
                quotient + 1
            }
        },
    }
}

/// Apply a basis-point rate to an amount.
pub fn apply_bps(amount: u128, rate_bps: u32, rounding: Rounding) -> (r: u128)
    requires
        amount * rate_bps <= u128::MAX,
    ensures
        r == div_rounded(amount * rate_bps, BPS_DENOMINATOR as int, rounding),
{
    mul_div(amount, rate_bps as u128, BPS_DENOMINATOR, rounding)
}

/// Compute prorated interest for an elapsed time interval.
pub fn prorate_interest(principal: u128, rate_bps: u32, elapsed_secs: u64, rounding: Rounding) -> (r: u128)
    requires
        principal * rate_bps * elapsed_secs <= u128::MAX,
    ensures
        r == prorated(principal as int, rate_bps as int, elapsed_secs as int, rounding),
{
    if principal == 0 || rate_bps == 0 || elapsed_secs == 0 {
        assert(principal * rate_bps * elapsed_secs == 0) by (nonlinear_arith)
            requires
                principal == 0 || rate_bps == 0 || elapsed_secs == 0,
        ;
        return 0;
    }
    assert(principal * rate_bps <= principal * rate_bps * elapsed_secs) by (nonlinear_arith)
        requires
            elapsed_secs >= 1,
            principal * rate_bps >= 0,
    ;
    let step1 = principal * (rate_bps as u128);
    let step2 = step1 * (elapsed_secs as u128);
    let quotient = step2 / BPS_YEAR_DENOMINATOR;
    match rounding {
        Rounding::Floor => quotient,
        Rounding::Ceil => {
            if step2 % BPS_YEAR_DENOMINATOR == 0 {
                quotient
            } else {
                proof {
                    lemma_quotient_room(step2, BPS_YEAR_DENOMINATOR);
                }
                quotient + 1
            }
        },
    }
}

/// Rounding up gives the floor, or the floor plus one exactly when the
/// division leaves a remainder.
pub proof fn lemma_ceil_is_floor_or_next(n: int, d: int)
    requires
        n >= 0,
        d > 0,
    ensures
        div_rounded(n, d, Rounding::Floor) <= div_rounded(n, d, Rounding::Ceil) <= div_rounded(
            n,
            d,
            Rounding::Floor,
        ) + 1,
        div_rounded(n, d, Rounding::Ceil) == div_rounded(n, d, Rounding::Floor) <==> n % d == 0,
{
}

/// Scaling an amount up and back down gives the amount back, whichever the
/// rounding.
pub proof fn lemma_scale_round_trip(amount: int, rounding: Rounding)
    requires
        0 <= amount,
    ensures
        div_rounded(amount * SCALE, SCALE as int, rounding) == amount,
{
    let s = SCALE as int;
    assert((amount * s) / s == amount && (amount * s) % s == 0) by {
        vstd::arithmetic::div_mod::lemma_div_multiples_vanish(amount, s);
        vstd::arithmetic::div_mod::lemma_mod_multiples_basic(amount, s);
        vstd::arithmetic::mul::lemma_mul_is_commutative(amount, s);
    }
}

/// A full rate of 10_000 bps gives back the amount, and a zero rate gives zero.
pub proof fn lemma_bps_identities(amount: int, rounding: Rounding)
    requires
        0 <= amount,
    ensures
        div_rounded(amount * 10_000, BPS_DENOMINATOR as int, rounding) == amount,
        div_rounded(amount * 0, BPS_DENOMINATOR as int, rounding) == 0,
{
    assert((amount * 10_000) / 10_000 == amount && (amount * 10_000) % 10_000 == 0) by {
        vstd::arithmetic::div_mod::lemma_div_multiples_vanish(amount, 10_000);
        vstd::arithmetic::div_mod::lemma_mod_multiples_basic(amount, 10_000);
        vstd::arithmetic::mul::lemma_mul_is_commutative(amount, 10_000);
    }
}

/// Interest over exactly one year is the basis-point rate applied to the
/// principal, whichever the rounding.
pub proof fn lemma_one_year_is_apply_bps(principal: int, rate_bps: int, rounding: Rounding)
    requires
        0 <= principal,
        0 <= rate_bps,
    ensures
        prorated(principal, rate_bps, SECONDS_PER_YEAR as int, rounding) == div_rounded(
            principal * rate_bps,
            BPS_DENOMINATOR as int,
            rounding,
        ),
{
    let a = principal * rate_bps;
    let y = SECONDS_PER_YEAR as int;
    assert(a >= 0) by (nonlinear_arith)
        requires
            0 <= principal,
            0 <= rate_bps,
            a == principal * rate_bps,
    ;
    assert(principal * rate_bps * y == y * a) by (nonlinear_arith)
        requires
            a == principal * rate_bps,
    ;
    assert(y * 10_000 == BPS_YEAR_DENOMINATOR as int);
    vstd::arithmetic::div_mod::lemma_div_multiples_vanish(a, y);
    vstd::arithmetic::div_mod::lemma_div_denominator(y * a, y, 10_000);
    vstd::arithmetic::div_mod::lemma_truncate_middle(a, y, 10_000);
    assert(y * (a % 10_000) == 0 <==> a % 10_000 == 0) by (nonlinear_arith)
        requires
            y > 0,
    ;
}

/// Interest grows with the elapsed time, whichever the rounding.
pub proof fn lemma_prorate_monotone_in_time(
    principal: int,
    rate_bps: int,
    t1: int,
    t2: int,
    rounding: Rounding,
)
    requires
        0 <= principal,
        0 <= rate_bps,
        0 <= t1 <= t2,
    ensures
        prorated(principal, rate_bps, t1, rounding) <= prorated(principal, rate_bps, t2, rounding),
{
    let d = BPS_YEAR_DENOMINATOR as int;
    let n1 = principal * rate_bps * t1;
    let n2 = principal * rate_bps * t2;
    assert(0 <= n1 <= n2) by (nonlinear_arith)
        requires
            0 <= principal,
            0 <= rate_bps,
            0 <= t1 <= t2,
            n1 == principal * rate_bps * t1,
            n2 == principal * rate_bps * t2,
    ;
    vstd::arithmetic::div_mod::lemma_div_is_ordered(n1, n2, d);
    if n1 / d == n2 / d && n1 % d != 0 {
        vstd::arithmetic::div_mod::lemma_fundamental_div_mod(n1, d);
        vstd::arithmetic::div_mod::lemma_fundamental_div_mod(n2, d);
    }
}

/// With floor rounding, accruing one interval in two parts never charges more
/// than accruing it at once: the split loses at most the dropped remainders.
pub proof fn lemma_floor_split_never_overcharges(principal: int, rate_bps: int, t1: int, t2: int)
    requires
        0 <= principal,
        0 <= rate_bps,
        0 <= t1,
        0 <= t2,
    ensures
        prorated(principal, rate_bps, t1, Rounding::Floor) + prorated(
            principal,
            rate_bps,
            t2,
            Rounding::Floor,
        ) <= prorated(principal, rate_bps, t1 + t2, Rounding::Floor),
{
    let d = BPS_YEAR_DENOMINATOR as int;
    let n1 = principal * rate_bps * t1;
    let n2 = principal * rate_bps * t2;
    assert(principal * rate_bps * (t1 + t2) == n1 + n2) by (nonlinear_arith)
        requires
            n1 == principal * rate_bps * t1,
            n2 == principal * rate_bps * t2,
    ;
    vstd::arithmetic::div_mod::lemma_fundamental_div_mod(n1, d);
    vstd::arithmetic::div_mod::lemma_fundamental_div_mod(n2, d);
    vstd::arithmetic::div_mod::lemma_fundamental_div_mod(n1 + n2, d);
    let q1 = n1 / d;
    let q2 = n2 / d;
    let q = (n1 + n2) / d;
    assert(q1 + q2 <= q) by (nonlinear_arith)
        requires
            d > 0,
            n1 == d * q1 + n1 % d,
            n2 == d * q2 + n2 % d,
            n1 + n2 == d * q + (n1 + n2) % d,
            0 <= n1 % d < d,
            0 <= n2 % d < d,
            0 <= (n1 + n2) % d < d,
    ;
}

} // verus!
