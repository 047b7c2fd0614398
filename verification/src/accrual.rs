//! Lazy simple-interest accrual.
//!
//! Interest is materialized only when a line is touched:
//! `accrued = floor(utilized * rate_bps * elapsed / (10_000 * 31_536_000))`,
//! added to both the balance and the accrued-interest counter, and the
//! checkpoint moves to the current ledger time. A checkpoint of 0 means that
//! none has been set yet: the first touch sets it without charging anything
//! retroactively. A suspended line inside its grace window accrues at the
//! waiver rate for the part of the interval inside the window.
use crate::risk::MAX_INTEREST_RATE_BPS;
use crate::types::{ContractError, CreditLineData, CreditStatus, GracePeriodConfig, GraceWaiverMode};
use vstd::prelude::*;

verus! {

/// Seconds in a 365-day year.
pub const SECONDS_PER_YEAR: u64 = 31_536_000;

/// Number of basis points in 100%.
pub const BASIS_POINTS_DIVISOR: u32 = 10_000;

/// `BASIS_POINTS_DIVISOR * SECONDS_PER_YEAR`, the divisor of the accrual formula.
pub const ACCRUAL_DENOMINATOR: i128 = 315_360_000_000;

/// Configure the grace-period policy for suspended lines (admin only; the
/// caller checks the admin's authorization): the configuration to store, or
/// `RateTooHigh` when the reduced rate exceeds 100%.
pub fn set_grace_period_config(
    grace_period_seconds: u64,
    waiver_mode: GraceWaiverMode,
    reduced_rate_bps: u32,
) -> (r: Result<GracePeriodConfig, ContractError>)
    ensures
        reduced_rate_bps > MAX_INTEREST_RATE_BPS ==> r == Err::<GracePeriodConfig, ContractError>(
            ContractError::RateTooHigh,
        ),
        reduced_rate_bps <= MAX_INTEREST_RATE_BPS ==> r == Ok::<GracePeriodConfig, ContractError>(
            GracePeriodConfig { grace_period_seconds, waiver_mode, reduced_rate_bps },
        ),
{
    if reduced_rate_bps > MAX_INTEREST_RATE_BPS {
        return Err(ContractError::RateTooHigh);
    }
    Ok(GracePeriodConfig { grace_period_seconds, waiver_mode, reduced_rate_bps })
}

/// Whether `x` is a value of `i128`.
pub open spec fn fits_i128(x: int) -> bool {
    i128::MIN <= x <= i128::MAX
}

/// Whole units of interest in a scaled product: its floor when positive,
/// nothing otherwise.
pub open spec fn whole_interest(product: int) -> int {
    if product > 0 {
        product / (ACCRUAL_DENOMINATOR as int)
    } else {
        0
    }
}

/// Interest on `principal` at `rate` over `elapsed` seconds, or `None` when
/// one of the two products does not fit in `i128`.
pub open spec fn interest_over(principal: int, rate: int, elapsed: int) -> Option<int> {
    if elapsed == 0 {
        Some(0)
    } else {
        let p1 = principal * rate;
        let p = p1 * elapsed;
        if fits_i128(p1) && fits_i128(p) {
            Some(whole_interest(p))
        } else {
            None
        }
    }
}

/// The accrual fields of a line, on their own.
#[derive(Clone, Copy, Debug, PartialEq, Eq, Structural)]
pub struct AccrualState {
    /// Outstanding balance.
    pub utilized_amount: i128,
    /// Annual rate in basis points.
    pub interest_rate_bps: u32,
    /// Interest materialized so far.
    pub accrued_interest: i128,
    /// Accrual checkpoint (0 when not yet established).
    pub last_accrual_ts: u64,
}

/// Whether `calculate_accrual` has an interval to charge: a checkpoint is
/// set, time moved forward, and there is debt.
pub open spec fn state_accrues(line: AccrualState, now: u64) -> bool {
    line.last_accrual_ts != 0 && now > line.last_accrual_ts && line.utilized_amount != 0
}

/// Interest that `calculate_accrual` materializes at `now`.
pub open spec fn state_accrual(line: AccrualState, now: u64) -> int {
    if state_accrues(line, now) {
        interest_over(
            line.utilized_amount as int,
            line.interest_rate_bps as int,
            now - line.last_accrual_ts,
        ).unwrap()
    } else {
        0
    }
}

/// Interest on `principal` at `rate` over `elapsed` seconds, with checked
/// `i128` products.
fn checked_interest(principal: i128, rate: u32, elapsed: u64) -> (r: Option<i128>)
    ensures
        match interest_over(principal as int, rate as int, elapsed as int) {
            Some(a) => r == Some(a as i128) && 0 <= a <= i128::MAX,
            None => r.is_none(),
        },
{
    if elapsed == 0 {
        return Some(0);
    }
    match principal.checked_mul(rate as i128) {
        None => None,
        Some(p1) => match p1.checked_mul(elapsed as i128) {
            None => None,
            Some(p) => {
                if p > 0 {
                    let a = p / ACCRUAL_DENOMINATOR;
                    proof {
                        vstd::arithmetic::div_mod::lemma_div_is_ordered(
                            p as int,
                            i128::MAX as int,
                            ACCRUAL_DENOMINATOR as int,
                        );
                    }
                    Some(a)
                } else {
                    Some(0)
                }
            },
        },
    }
}

/// Accrue interest on `line` up to `now`, returning the amount materialized
/// and the updated state. An interval whose interest products overflow is a
/// caller error (the computation reverts rather than drop the interest).
pub fn calculate_accrual(line: &AccrualState, now: u64) -> (r: (i128, AccrualState))
    requires
        state_accrues(*line, now) ==> interest_over(
            line.utilized_amount as int,
            line.interest_rate_bps as int,
            now - line.last_accrual_ts,
        ) is Some,
        line.utilized_amount + state_accrual(*line, now) <= i128::MAX,
        line.accrued_interest + state_accrual(*line, now) <= i128::MAX,
    ensures
        r.0 == state_accrual(*line, now),
        r.1 == (if now <= line.last_accrual_ts {
            *line
        } else {
            AccrualState {
                utilized_amount: (line.utilized_amount + r.0) as i128,
                accrued_interest: (line.accrued_interest + r.0) as i128,
                last_accrual_ts: now,
                ..*line
            }
        }),
{
    if line.last_accrual_ts == 0 {
        return (0, AccrualState { last_accrual_ts: now, ..*line });
    }
    if now <= line.last_accrual_ts {
        return (0, *line);
    }
    if line.utilized_amount == 0 {
        return (0, AccrualState { last_accrual_ts: now, ..*line });
    }
    let elapsed = now - line.last_accrual_ts;
    let accrued = checked_interest(line.utilized_amount, line.interest_rate_bps, elapsed).unwrap();
    if accrued > 0 {
        let updated = AccrualState {
            utilized_amount: line.utilized_amount + accrued,
            accrued_interest: line.accrued_interest + accrued,
            last_accrual_ts: now,
            ..*line
        };
        return (accrued, updated);
    }
    (0, AccrualState { last_accrual_ts: now, ..*line })
}

/// Seconds of the interval `(last_accrual_ts, now]` that fall inside the grace
/// window of a suspended line under `grace`.
pub open spec fn grace_seconds<A>(line: CreditLineData<A>, now: u64, grace: Option<GracePeriodConfig>) -> int {
    match grace {
        Some(g) => if line.status == CreditStatus::Suspended && g.grace_period_seconds > 0 {
            let end = line.suspension_ts + g.grace_period_seconds;
            if line.last_accrual_ts >= end {
                0
            } else if now <= end {
                now - line.last_accrual_ts
            } else {
                end - line.last_accrual_ts
            }
        } else {
            0
        },
        None => 0,
    }
}

/// Rate that applies inside the grace window.
pub open spec fn grace_rate(grace: Option<GracePeriodConfig>) -> int {
    match grace {
        Some(g) => match g.waiver_mode {
            GraceWaiverMode::FullWaiver => 0,
            GraceWaiverMode::ReducedRate => g.reduced_rate_bps as int,
        },
        None => 0,
    }
}

/// Interest due on `line` at `now`, or `None` when its computation overflows.
/// Closed lines, lines without a checkpoint, intervals that do not move
/// forward and lines without debt owe nothing.
pub open spec fn accrual_due<A>(line: CreditLineData<A>, now: u64, grace: Option<GracePeriodConfig>) -> Option<int> {
    if line.status == CreditStatus::Closed || line.last_accrual_ts == 0 || now
        <= line.last_accrual_ts || line.utilized_amount == 0 {
        Some(0)
    } else {
        let g = grace_seconds(line, now, grace);
        let post = now - line.last_accrual_ts - g;
        match interest_over(line.utilized_amount as int, grace_rate(grace), g) {
            Some(a) => match interest_over(
                line.utilized_amount as int,
                line.interest_rate_bps as int,
                post,
            ) {
                Some(b) => Some(a + b),
                None => None,
            },
            None => None,
        }
    }
}

/// Whether materializing `due` keeps both counters in `i128`.
pub open spec fn accrual_fits<A>(line: CreditLineData<A>, due: int) -> bool {
    fits_i128(line.utilized_amount + due) && fits_i128(line.accrued_interest + due)
}

/// Whether accruing `line` at `now` succeeds.
pub open spec fn accrual_ok<A>(line: CreditLineData<A>, now: u64, grace: Option<GracePeriodConfig>) -> bool {
    match accrual_due(line, now, grace) {
        Some(d) => accrual_fits(line, d),
        None => false,
    }
}

/// `line` with `due` materialized at `now`: unchanged when closed or when the
/// interval does not move forward.
pub open spec fn line_after_accrual<A>(line: CreditLineData<A>, now: u64, due: int) -> CreditLineData<A> {
    if line.status == CreditStatus::Closed || now <= line.last_accrual_ts {
        line
    } else {
        CreditLineData {
            utilized_amount: (line.utilized_amount + due) as i128,
            accrued_interest: (line.accrued_interest + due) as i128,
            last_accrual_ts: now,
            ..line
        }
    }
}

/// `line` accrued at `now` (meaningful when `accrual_ok`).
pub open spec fn accrued_line<A>(line: CreditLineData<A>, now: u64, grace: Option<GracePeriodConfig>) -> CreditLineData<A> {
    line_after_accrual(line, now, accrual_due(line, now, grace).unwrap())
}

/// The changed fields of a line after accrual, and the interest materialized.
#[derive(Clone, Copy, Debug, PartialEq, Eq, Structural)]
pub struct AccrualUpdate {
    /// New balance.
    pub utilized_amount: i128,
    /// New accrued-interest counter.
    pub accrued_interest: i128,
    /// New checkpoint.
    pub last_accrual_ts: u64,
    /// Interest materialized by this accrual.
    pub accrued: i128,
}

/// `line` with the fields of `u` written into it.
pub open spec fn with_update<A>(line: CreditLineData<A>, u: AccrualUpdate) -> CreditLineData<A> {
    CreditLineData {
        utilized_amount: u.utilized_amount,
        accrued_interest: u.accrued_interest,
        last_accrual_ts: u.last_accrual_ts,
        ..line
    }
}

/// Interest that can be computed is at most `i128::MAX / ACCRUAL_DENOMINATOR`.
proof fn lemma_interest_bounded(principal: int, rate: int, elapsed: int)
    requires
        interest_over(principal, rate, elapsed) is Some,
    ensures
        0 <= interest_over(principal, rate, elapsed).unwrap() <= (i128::MAX as int) / (
        ACCRUAL_DENOMINATOR as int),
{
    let d = ACCRUAL_DENOMINATOR as int;
    vstd::arithmetic::div_mod::lemma_div_is_ordered(0, i128::MAX as int, d);
    if elapsed != 0 {
        let p = principal * rate * elapsed;
        if p > 0 {
            vstd::arithmetic::div_mod::lemma_div_is_ordered(p, i128::MAX as int, d);
            vstd::arithmetic::div_mod::lemma_div_is_ordered(0, p, d);
        }
    }
}

/// Compute the accrual of `line` at `now` without consuming it.
pub fn accrue<A>(line: &CreditLineData<A>, now: u64, grace: Option<GracePeriodConfig>) -> (r: Result<
    AccrualUpdate,
    ContractError,
>)
    ensures
        match r {
            Ok(u) => accrual_ok(*line, now, grace) && with_update(*line, u) == accrued_line(
                *line,
                now,
                grace,
            ) && u.accrued == accrual_due(*line, now, grace).unwrap(),
            Err(e) => !accrual_ok(*line, now, grace) && e == ContractError::Overflow,
        },
{
    let unchanged = AccrualUpdate {
        utilized_amount: line.utilized_amount,
        accrued_interest: line.accrued_interest,
        last_accrual_ts: line.last_accrual_ts,
        accrued: 0,
    };
    if line.status == CreditStatus::Closed || now <= line.last_accrual_ts {
        return Ok(unchanged);
    }
    if line.last_accrual_ts == 0 || line.utilized_amount == 0 {
        return Ok(AccrualUpdate { last_accrual_ts: now, ..unchanged });
    }
    let last = line.last_accrual_ts;
    let elapsed = now - last;
    // Seconds of the interval inside the grace window, and the rate there.
    let mut in_grace: u64 = 0;
    let mut waiver_rate: u32 = 0;
    match grace {
        Some(g) => {
            waiver_rate = match g.waiver_mode {
                GraceWaiverMode::FullWaiver => 0,
                GraceWaiverMode::ReducedRate => g.reduced_rate_bps,
            };
            if line.status == CreditStatus::Suspended && g.grace_period_seconds > 0 {
                let end: u128 = (line.suspension_ts as u128) + (g.grace_period_seconds as u128);
                if (last as u128) >= end {
                    in_grace = 0;
                } else if (now as u128) <= end {
                    in_grace = elapsed;
                } else {
                    in_grace = (end - (last as u128)) as u64;
                }
            }
        },
        None => {},
    }
    assert(in_grace == grace_seconds(*line, now, grace));
    assert(waiver_rate == grace_rate(grace));
    let post = elapsed - in_grace;
    let a = match checked_interest(line.utilized_amount, waiver_rate, in_grace) {
        Some(a) => a,
        None => {
            return Err(ContractError::Overflow);
        },
    };
    let b = match checked_interest(line.utilized_amount, line.interest_rate_bps, post) {
        Some(b) => b,
        None => {
            return Err(ContractError::Overflow);
        },
    };
    proof {
        lemma_interest_bounded(line.utilized_amount as int, waiver_rate as int, in_grace as int);
        lemma_interest_bounded(
            line.utilized_amount as int,
            line.interest_rate_bps as int,
            post as int,
        );
    }
    let due = a + b;
    let utilized = match line.utilized_amount.checked_add(due) {
        Some(v) => v,
        None => {
            return Err(ContractError::Overflow);
        },
    };
    let interest = match line.accrued_interest.checked_add(due) {
        Some(v) => v,
        None => {
            return Err(ContractError::Overflow);
        },
    };
    Ok(AccrualUpdate {
        utilized_amount: utilized,
        accrued_interest: interest,
        last_accrual_ts: now,
        accrued: due,
    })
}

/// Accrue interest on `line` up to `now` (see `accrue`), returning the
/// updated line and the interest materialized.
pub fn apply_accrual<A>(line: CreditLineData<A>, now: u64, grace: Option<GracePeriodConfig>) -> (r: Result<
    (CreditLineData<A>, i128),
    ContractError,
>)
    ensures
        match r {
            Ok((l, a)) => accrual_ok(line, now, grace) && l == accrued_line(line, now, grace) && a
                == accrual_due(line, now, grace).unwrap(),
            Err(e) => !accrual_ok(line, now, grace) && e == ContractError::Overflow,
        },
{
    match accrue(&line, now, grace) {
        Ok(u) => {
            let accrued = u.accrued;
            let l = CreditLineData {
                utilized_amount: u.utilized_amount,
                accrued_interest: u.accrued_interest,
                last_accrual_ts: u.last_accrual_ts,
                ..line
            };
            Ok((l, accrued))
        },
        Err(e) => Err(e),
    }
}

} // verus!
