//! Risk parameters of credit lines: the score-driven rate formula, rate-change
//! guardrails, and the admin update of limit, rate and score.
use crate::accrual::{accrual_ok, accrue, accrued_line, accrual_due};
use crate::lifecycle::{LineEvent, LineUpdate};
use crate::types::{
    ContractError, CreditLineData, CreditStatus, LedgerContext, RateChangeConfig, RateFormulaConfig,
};
use vstd::prelude::*;

verus! {

/// Maximum interest rate in basis points (100%).
pub const MAX_INTEREST_RATE_BPS: u32 = 10_000;

/// Maximum risk score on the normalized 0-100 scale.
pub const MAX_RISK_SCORE: u32 = 100;

/// `x` limited to the interval `[lo, hi]`.
pub open spec fn clamp_int(x: int, lo: int, hi: int) -> int {
    if x < lo {
        lo
    } else if x > hi {
        hi
    } else {
        x
    }
}

/// Upper bound of the formula's rate: its maximum, capped at 100%.
pub open spec fn formula_upper(cfg: RateFormulaConfig) -> int {
    if cfg.max_rate_bps < MAX_INTEREST_RATE_BPS {
        cfg.max_rate_bps as int
    } else {
        MAX_INTEREST_RATE_BPS as int
    }
}

/// A formula whose bounds form an interval.
pub open spec fn formula_valid(cfg: RateFormulaConfig) -> bool {
    cfg.min_rate_bps <= formula_upper(cfg)
}

/// Whether the formula's bounds form an interval, so that it can clamp a rate.
pub fn formula_bounds_valid(cfg: &RateFormulaConfig) -> (r: bool)
    ensures
        r == formula_valid(*cfg),
{
    let upper: u32 = if cfg.max_rate_bps < MAX_INTEREST_RATE_BPS {
        cfg.max_rate_bps
    } else {
        MAX_INTEREST_RATE_BPS
    };
    cfg.min_rate_bps <= upper
}

/// `base + score * slope`, limited to `[min_rate, min(max_rate, 100%)]`.
pub open spec fn rate_from_score(cfg: RateFormulaConfig, risk_score: int) -> int {
    clamp_int(
        cfg.base_rate_bps + risk_score * cfg.slope_bps_per_score,
        cfg.min_rate_bps as int,
        formula_upper(cfg),
    )
}

/// Compute interest rate from risk score using a piecewise-linear formula.
///
/// `raw = base_rate_bps + risk_score * slope_bps_per_score`, computed with
/// saturating `u32` arithmetic, is clamped to
/// `[min_rate_bps, min(max_rate_bps, MAX_INTEREST_RATE_BPS)]`. Saturation
/// never shows in the result because the upper bound is far below `u32::MAX`.
pub fn compute_rate_from_score(cfg: &RateFormulaConfig, risk_score: u32) -> (r: u32)
    requires
        formula_valid(*cfg),
    ensures
        r == rate_from_score(*cfg, risk_score as int),
{
    let scaled: u32 = match risk_score.checked_mul(cfg.slope_bps_per_score) {
        Some(p) => p,
        None => u32::MAX,
    };
    let raw: u32 = cfg.base_rate_bps.saturating_add(scaled);
    let upper: u32 = if cfg.max_rate_bps < MAX_INTEREST_RATE_BPS {
        cfg.max_rate_bps
    } else {
        MAX_INTEREST_RATE_BPS
    };
    assert(raw >= upper ==> cfg.base_rate_bps + risk_score * cfg.slope_bps_per_score >= upper) by {
        assert(risk_score * cfg.slope_bps_per_score >= scaled) by (nonlinear_arith)
            requires
                scaled == risk_score * cfg.slope_bps_per_score || (scaled == u32::MAX && risk_score
                    * cfg.slope_bps_per_score > u32::MAX),
        ;
    }
    assert(raw < upper ==> raw == cfg.base_rate_bps + risk_score * cfg.slope_bps_per_score) by {
        if raw < upper {
            assert(scaled < u32::MAX);
        }
    }
    if raw < cfg.min_rate_bps {
        cfg.min_rate_bps
    } else if raw > upper {
        upper
    } else {
        raw
    }
}

/// A higher score never lowers the rate the formula gives.
pub proof fn lemma_rate_monotone_in_score(cfg: RateFormulaConfig, s1: int, s2: int)
    requires
        formula_valid(cfg),
        0 <= s1 <= s2,
    ensures
        rate_from_score(cfg, s1) <= rate_from_score(cfg, s2),
        cfg.min_rate_bps <= rate_from_score(cfg, s1) <= formula_upper(cfg),
        rate_from_score(cfg, s1) <= MAX_INTEREST_RATE_BPS,
{
    assert(s1 * cfg.slope_bps_per_score <= s2 * cfg.slope_bps_per_score) by (nonlinear_arith)
        requires
            0 <= s1 <= s2,
            cfg.slope_bps_per_score >= 0,
    ;
}

/// Store admin-configured rate-change guardrails: the configuration to store,
/// or `Paused` while the protocol is paused.
pub fn set_rate_change_limits(max_rate_change_bps: u32, rate_change_min_interval: u64, paused: bool) -> (r:
    Result<RateChangeConfig, ContractError>)
    ensures
        paused ==> r == Err::<RateChangeConfig, ContractError>(ContractError::Paused),
        !paused ==> r == Ok::<RateChangeConfig, ContractError>(
            RateChangeConfig { max_rate_change_bps, rate_change_min_interval },
        ),
{
    if paused {
        return Err(ContractError::Paused);
    }
    Ok(RateChangeConfig { max_rate_change_bps, rate_change_min_interval })
}

/// Rate a risk update asks for: the formula's, when one is configured, else
/// the requested one.
pub open spec fn effective_rate(formula: Option<RateFormulaConfig>, interest_rate_bps: u32, risk_score: u32) -> int {
    match formula {
        Some(f) => rate_from_score(f, risk_score as int),
        None => interest_rate_bps as int,
    }
}

/// `now - since`, or 0 when `since` is later.
pub open spec fn seconds_since(now: u64, since: u64) -> int {
    if now >= since {
        now - since
    } else {
        0
    }
}

/// Whether the guardrails forbid changing the rate of `line` to `rate` at `now`:
/// the change is too large, or the previous change is too recent.
pub open spec fn rate_change_rejected<A>(
    line: CreditLineData<A>,
    rate: int,
    limits: Option<RateChangeConfig>,
    now: u64,
) -> bool {
    match limits {
        Some(c) => {
            let delta = if rate >= line.interest_rate_bps {
                rate - line.interest_rate_bps
            } else {
                line.interest_rate_bps - rate
            };
            ||| delta > c.max_rate_change_bps
            ||| (c.rate_change_min_interval > 0 && line.last_rate_update_ts != 0 && seconds_since(
                now,
                line.last_rate_update_ts,
            ) < c.rate_change_min_interval)
        },
        None => false,
    }
}

/// Status after setting the limit to `limit` on a line with balance
/// `utilized`: an active line whose limit falls below its balance becomes
/// restricted, a restricted line whose limit covers its balance is cured, and
/// every other status stays as it is.
pub open spec fn status_after_limit(status: CreditStatus, limit: int, utilized: int) -> CreditStatus {
    if limit < utilized && status == CreditStatus::Active {
        CreditStatus::Restricted
    } else if limit >= utilized && status == CreditStatus::Restricted {
        CreditStatus::Active
    } else {
        status
    }
}

/// Whether a risk update is refused before its rate is computed: the
/// protocol is paused, the line is missing or cannot accrue, or the limit or
/// the score is out of range.
pub open spec fn refused_before_rate<A>(
    stored: Option<CreditLineData<A>>,
    credit_limit: i128,
    risk_score: u32,
    ctx: LedgerContext,
) -> bool {
    ||| ctx.paused
    ||| stored is None
    ||| !accrual_ok(stored.unwrap(), ctx.now, ctx.grace)
    ||| credit_limit < 0
    ||| risk_score > MAX_RISK_SCORE
}

/// Outcome of `update_risk_parameters`.
pub open spec fn risk_update_result<A>(
    stored: Option<CreditLineData<A>>,
    credit_limit: i128,
    interest_rate_bps: u32,
    risk_score: u32,
    formula: Option<RateFormulaConfig>,
    limits: Option<RateChangeConfig>,
    ctx: LedgerContext,
) -> Result<LineUpdate<A>, ContractError> {
    if ctx.paused {
        Err(ContractError::Paused)
    } else {
        match stored {
            None => Err(ContractError::CreditLineNotFound),
            Some(line) => if !accrual_ok(line, ctx.now, ctx.grace) {
                Err(ContractError::Overflow)
            } else {
                let l = accrued_line(line, ctx.now, ctx.grace);
                let rate = effective_rate(formula, interest_rate_bps, risk_score);
                let changed = rate != l.interest_rate_bps;
                if credit_limit < 0 {
                    Err(ContractError::NegativeLimit)
                } else if risk_score > MAX_RISK_SCORE {
                    Err(ContractError::ScoreTooHigh)
                } else if rate > MAX_INTEREST_RATE_BPS {
                    Err(ContractError::RateTooHigh)
                } else if changed && rate_change_rejected(l, rate, limits, ctx.now) {
                    Err(ContractError::RateTooHigh)
                } else if changed && ctx.now < l.last_rate_update_ts {
                    Err(ContractError::TimestampRegression)
                } else {
                    Ok(
                        LineUpdate {
                            line: CreditLineData {
                                credit_limit,
                                interest_rate_bps: rate as u32,
                                risk_score,
                                last_rate_update_ts: if changed {
                                    ctx.now
                                } else {
                                    l.last_rate_update_ts
                                },
                                status: status_after_limit(
                                    l.status,
                                    credit_limit as int,
                                    l.utilized_amount as int,
                                ),
                                ..l
                            },
                            accrued: accrual_due(line, ctx.now, ctx.grace).unwrap() as i128,
                            event: Some(LineEvent::RiskParametersUpdated),
                        },
                    )
                }
            },
        }
    }
}

/// Update the borrower's credit limit, risk score, and effective rate (admin
/// only; the caller checks the admin's authorization).
///
/// Interest is accrued first. The effective rate comes from the rate formula
/// when one is configured. A rate change is subject to the guardrails and
/// records the change time. Lowering the limit of an active line below its
/// balance restricts it; raising the limit of a restricted line to cover its
/// balance makes it active again. A configured formula must have bounds that
/// form an interval whenever the update gets as far as computing the rate.
pub fn update_risk_parameters<A>(
    stored: Option<CreditLineData<A>>,
    credit_limit: i128,
    interest_rate_bps: u32,
    risk_score: u32,
    formula: Option<RateFormulaConfig>,
    limits: Option<RateChangeConfig>,
    ctx: LedgerContext,
) -> (r: Result<LineUpdate<A>, ContractError>)
    requires
        formula matches Some(f) ==> formula_valid(f) || refused_before_rate(
            stored,
            credit_limit,
            risk_score,
            ctx,
        ),
    ensures
        r == risk_update_result(stored, credit_limit, interest_rate_bps, risk_score, formula, limits, ctx),
{
    if ctx.paused {
        return Err(ContractError::Paused);
    }
    let line = match stored {
        None => {
            return Err(ContractError::CreditLineNotFound);
        },
        Some(line) => line,
    };
    let u = match accrue(&line, ctx.now, ctx.grace) {
        Ok(u) => u,
        Err(e) => {
            return Err(e);
        },
    };
    if credit_limit < 0 {
        return Err(ContractError::NegativeLimit);
    }
    if risk_score > MAX_RISK_SCORE {
        return Err(ContractError::ScoreTooHigh);
    }
    let rate = match formula {
        Some(f) => compute_rate_from_score(&f, risk_score),
        None => interest_rate_bps,
    };
    if rate > MAX_INTEREST_RATE_BPS {
        return Err(ContractError::RateTooHigh);
    }
    let mut last_rate_update_ts = line.last_rate_update_ts;
    if rate != line.interest_rate_bps {
        match limits {
            Some(cfg) => {
                let delta: u32 = if rate >= line.interest_rate_bps {
                    rate - line.interest_rate_bps
                } else {
                    line.interest_rate_bps - rate
                };
                if delta > cfg.max_rate_change_bps {
                    return Err(ContractError::RateTooHigh);
                }
                if cfg.rate_change_min_interval > 0 && line.last_rate_update_ts != 0 {
                    let elapsed = ctx.now.saturating_sub(line.last_rate_update_ts);
                    if elapsed < cfg.rate_change_min_interval {
                        return Err(ContractError::RateTooHigh);
                    }
                }
            },
            None => {},
        }
        if ctx.now < line.last_rate_update_ts {
            return Err(ContractError::TimestampRegression);
        }
        last_rate_update_ts = ctx.now;
    }
    let status = if credit_limit < u.utilized_amount && line.status == CreditStatus::Active {
        CreditStatus::Restricted
    } else if credit_limit >= u.utilized_amount && line.status == CreditStatus::Restricted {
        CreditStatus::Active
    } else {
        line.status
    };
    let accrued = u.accrued;
    Ok(
        LineUpdate {
            line: CreditLineData {
                credit_limit,
                utilized_amount: u.utilized_amount,
                accrued_interest: u.accrued_interest,
                last_accrual_ts: u.last_accrual_ts,
                interest_rate_bps: rate,
                risk_score,
                last_rate_update_ts,
                status,
                ..line
            },
            accrued,
            event: Some(LineEvent::RiskParametersUpdated),
        },
    )
}

} // verus!
