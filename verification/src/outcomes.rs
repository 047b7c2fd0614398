//! What each operation computes, stated over its inputs with plain
//! arithmetic: the rounding of the helpers, the interest an accrual charges
//! (grace window included), and the line every lifecycle and risk operation
//! produces when it succeeds.
use crate::accrual::{accrual_due, accrual_ok, accrued_line, whole_interest};
use crate::lifecycle::{
    close_result, default_result, forgive_result, open_result, reinstate_result, self_suspend_result,
    settle_result, suspend_result, CloserRole, LineEvent,
};
use crate::accrual::{state_accrual, state_accrues, AccrualState};
use crate::math_utils::{div_rounded, prorated, Rounding, BPS_DENOMINATOR, SCALE};
use crate::risk::{rate_from_score, risk_update_result, formula_upper};
use crate::types::{
    ContractError, CreditLineData, CreditStatus, GracePeriodConfig, GraceWaiverMode, LedgerContext,
    RateChangeConfig, RateFormulaConfig,
};
use vstd::prelude::*;

verus! {

// ── Rounding ─────────────────────────────────────────────────────────────────

/// Floor rounding gives the largest `q` with `q * d <= n`; ceiling rounding
/// gives the smallest `q` with `n <= q * d`.
pub proof fn lemma_rounding_brackets_quotient(n: int, d: int)
    requires
        0 <= n,
        0 < d,
    ensures
        div_rounded(n, d, Rounding::Floor) * d <= n < (div_rounded(n, d, Rounding::Floor) + 1) * d,
        (div_rounded(n, d, Rounding::Ceil) - 1) * d < n <= div_rounded(n, d, Rounding::Ceil) * d,
{
    vstd::arithmetic::div_mod::lemma_fundamental_div_mod(n, d);
    let q = n / d;
    let r = n % d;
    assert(q * d <= n < (q + 1) * d) by (nonlinear_arith)
        requires
            n == d * q + r,
            0 <= r < d,
    ;
    if r == 0 {
        assert((q - 1) * d < n <= q * d) by (nonlinear_arith)
            requires
                n == d * q,
                d > 0,
        ;
    } else {
        assert(q * d < n <= (q + 1) * d) by (nonlinear_arith)
            requires
                n == d * q + r,
                0 < r < d,
        ;
    }
}

/// Whole units of interest in a positive scaled product are its floor by the
/// accrual divisor; a product that is not positive gives nothing.
pub proof fn lemma_whole_interest_is_floor(p: int)
    ensures
        p > 0 ==> whole_interest(p) * 315_360_000_000 <= p < (whole_interest(p) + 1)
            * 315_360_000_000,
        p > 0 ==> whole_interest(p) >= 0,
        p <= 0 ==> whole_interest(p) == 0,
{
    if p > 0 {
        lemma_rounding_brackets_quotient(p, 315_360_000_000);
        vstd::arithmetic::div_mod::lemma_div_pos_is_pos(p, 315_360_000_000);
    }
}

/// The helpers divide by the documented constants: a basis-point share is
/// `amount * rate / 10_000`, a prorated share `principal * rate * seconds /
/// (10_000 * 31_536_000)`, and scaling uses `10^18`, each rounded as asked.
pub proof fn lemma_helper_divisors(principal: int, rate_bps: int, elapsed_secs: int, rounding: Rounding)
    ensures
        BPS_DENOMINATOR == 10_000,
        SCALE == 1_000_000_000_000_000_000,
        prorated(principal, rate_bps, elapsed_secs, rounding) == div_rounded(
            principal * rate_bps * elapsed_secs,
            10_000int * 31_536_000,
            rounding,
        ),
{
}

// ── Accrual ──────────────────────────────────────────────────────────────────

/// Whether `x` fits in `i128`.
pub open spec fn in_i128(x: int) -> bool {
    i128::MIN <= x <= i128::MAX
}

/// Rate that `g` charges inside its window.
pub open spec fn waiver_rate_of(g: GracePeriodConfig) -> int {
    if g.waiver_mode == GraceWaiverMode::FullWaiver {
        0
    } else {
        g.reduced_rate_bps as int
    }
}

/// `calculate_accrual` charges `floor(balance * rate * elapsed / (10_000 *
/// 31_536_000))` on an interval to charge (checkpoint set, time moved
/// forward, debt present), and nothing otherwise.
pub proof fn lemma_state_accrual_is_simple_interest(line: AccrualState, now: u64)
    requires
        state_accrues(line, now) ==> in_i128(line.utilized_amount * line.interest_rate_bps) && in_i128(
            line.utilized_amount * line.interest_rate_bps * (now - line.last_accrual_ts),
        ),
    ensures
        (line.last_accrual_ts != 0 && now > line.last_accrual_ts && line.utilized_amount != 0)
            ==> state_accrual(line, now) == whole_interest(
            line.utilized_amount * line.interest_rate_bps * (now - line.last_accrual_ts),
        ),
        (line.last_accrual_ts == 0 || now <= line.last_accrual_ts || line.utilized_amount == 0)
            ==> state_accrual(line, now) == 0,
{
}

/// No interest is due when time did not move past the checkpoint, when no
/// checkpoint is set, or when there is no debt; the line is then left as it
/// is, except that the checkpoint moves forward to `now`.
pub proof fn lemma_accrual_charges_nothing_without_interval<A>(
    line: CreditLineData<A>,
    now: u64,
    grace: Option<GracePeriodConfig>,
)
    requires
        now <= line.last_accrual_ts || line.last_accrual_ts == 0 || line.utilized_amount == 0,
    ensures
        accrual_ok(line, now, grace),
        accrual_due(line, now, grace) == Some(0int),
        now <= line.last_accrual_ts ==> accrued_line(line, now, grace) == line,
        (now > line.last_accrual_ts && line.status != CreditStatus::Closed) ==> accrued_line(
            line,
            now,
            grace,
        ) == (CreditLineData { last_accrual_ts: now, ..line }),
{
}

/// Outside a grace window (any line that is not suspended), accrual charges
/// `floor(balance * rate * elapsed / (10_000 * 31_536_000))` on the seconds
/// since the checkpoint, adds it to the balance and to the accrued interest,
/// and moves the checkpoint to `now`; nothing else changes.
pub proof fn lemma_accrual_charges_simple_interest<A>(
    line: CreditLineData<A>,
    now: u64,
    grace: Option<GracePeriodConfig>,
)
    requires
        line.status != CreditStatus::Closed,
        line.status != CreditStatus::Suspended,
        line.last_accrual_ts != 0,
        now > line.last_accrual_ts,
        line.utilized_amount != 0,
        in_i128(line.utilized_amount * line.interest_rate_bps),
        in_i128(line.utilized_amount * line.interest_rate_bps * (now - line.last_accrual_ts)),
    ensures
        ({
            let i = whole_interest(
                line.utilized_amount * line.interest_rate_bps * (now - line.last_accrual_ts),
            );
            &&& accrual_due(line, now, grace) == Some(i)
            &&& in_i128(line.utilized_amount + i) && in_i128(line.accrued_interest + i)
                ==> accrual_ok(line, now, grace) && accrued_line(line, now, grace)
                == CreditLineData {
                utilized_amount: (line.utilized_amount + i) as i128,
                accrued_interest: (line.accrued_interest + i) as i128,
                last_accrual_ts: now,
                ..line
            }
        }),
{
}

/// A suspended line's grace window ends at the fixed time
/// `suspension_ts + grace_period_seconds`, however often the line is touched.
/// Of the seconds since the checkpoint, those before the window's end accrue
/// at the waiver rate and those after it at the line's rate, each part
/// floored on its own.
pub proof fn lemma_grace_window_has_fixed_end<A>(line: CreditLineData<A>, now: u64, g: GracePeriodConfig)
    requires
        line.status == CreditStatus::Suspended,
        g.grace_period_seconds > 0,
        line.last_accrual_ts != 0,
        line.utilized_amount != 0,
        line.last_accrual_ts < line.suspension_ts + g.grace_period_seconds < now,
        in_i128(line.utilized_amount * waiver_rate_of(g)),
        in_i128(line.utilized_amount * waiver_rate_of(g) * (line.suspension_ts
            + g.grace_period_seconds - line.last_accrual_ts)),
        in_i128(line.utilized_amount * line.interest_rate_bps),
        in_i128(line.utilized_amount * line.interest_rate_bps * (now - (line.suspension_ts
            + g.grace_period_seconds))),
    ensures
        ({
            let end = line.suspension_ts + g.grace_period_seconds;
            accrual_due(line, now, Some(g)) == Some(
                whole_interest(line.utilized_amount * waiver_rate_of(g) * (end - line.last_accrual_ts))
                    + whole_interest(line.utilized_amount * line.interest_rate_bps * (now - end)),
            )
        }),
{
}

/// While the whole interval since the checkpoint lies inside the grace
/// window (its last second included), a suspended line accrues at the waiver
/// rate only.
pub proof fn lemma_grace_window_inside<A>(line: CreditLineData<A>, now: u64, g: GracePeriodConfig)
    requires
        line.status == CreditStatus::Suspended,
        g.grace_period_seconds > 0,
        line.last_accrual_ts != 0,
        line.utilized_amount != 0,
        line.last_accrual_ts < now <= line.suspension_ts + g.grace_period_seconds,
        in_i128(line.utilized_amount * waiver_rate_of(g)),
        in_i128(line.utilized_amount * waiver_rate_of(g) * (now - line.last_accrual_ts)),
    ensures
        accrual_due(line, now, Some(g)) == Some(
            whole_interest(line.utilized_amount * waiver_rate_of(g) * (now - line.last_accrual_ts)),
        ),
{
}

/// Once the checkpoint is past the grace window's end, a suspended line
/// accrues at its full rate again.
pub proof fn lemma_grace_window_over<A>(line: CreditLineData<A>, now: u64, g: GracePeriodConfig)
    requires
        line.status == CreditStatus::Suspended,
        line.last_accrual_ts != 0,
        line.utilized_amount != 0,
        line.suspension_ts + g.grace_period_seconds <= line.last_accrual_ts < now,
        in_i128(line.utilized_amount * line.interest_rate_bps),
        in_i128(line.utilized_amount * line.interest_rate_bps * (now - line.last_accrual_ts)),
    ensures
        accrual_due(line, now, Some(g)) == Some(
            whole_interest(line.utilized_amount * line.interest_rate_bps * (now - line.last_accrual_ts)),
        ),
{
}

/// Whatever interest is due is added to both the balance and the accrued
/// interest, and the checkpoint moves to `now` (for a line that is not
/// closed, when time moved forward).
pub proof fn lemma_accrual_adds_due_to_both_counters<A>(
    line: CreditLineData<A>,
    now: u64,
    grace: Option<GracePeriodConfig>,
)
    requires
        accrual_ok(line, now, grace),
        line.status != CreditStatus::Closed,
        now > line.last_accrual_ts,
    ensures
        ({
            let d = accrual_due(line, now, grace).unwrap();
            let l = accrued_line(line, now, grace);
            &&& l.utilized_amount == line.utilized_amount + d
            &&& l.accrued_interest == line.accrued_interest + d
            &&& l.last_accrual_ts == now
            &&& l.borrower == line.borrower && l.status == line.status && l.credit_limit
                == line.credit_limit && l.interest_rate_bps == line.interest_rate_bps
                && l.risk_score == line.risk_score && l.suspension_ts == line.suspension_ts
                && l.last_rate_update_ts == line.last_rate_update_ts
        }),
{
}

// ── Lifecycle ────────────────────────────────────────────────────────────────

/// Opening succeeds exactly when the protocol runs, the limit is positive,
/// the rate is at most 10_000 bps, the score at most 100 and no active line
/// is stored; the new line is active with the given terms, no balance, no
/// interest, no rate change or suspension recorded, and its checkpoint now.
pub proof fn lemma_open_outcome<A>(
    stored: Option<CreditLineData<A>>,
    borrower: A,
    credit_limit: i128,
    interest_rate_bps: u32,
    risk_score: u32,
    ctx: LedgerContext,
)
    ensures
        open_result(stored, borrower, credit_limit, interest_rate_bps, risk_score, ctx) is Ok
            <==> (!ctx.paused && credit_limit > 0 && interest_rate_bps <= 10_000 && risk_score <= 100
            && !(stored matches Some(l) && l.status == CreditStatus::Active)),
        open_result(stored, borrower, credit_limit, interest_rate_bps, risk_score, ctx) matches Ok(o)
            ==> {
            &&& o.line.borrower == borrower
            &&& o.line.credit_limit == credit_limit
            &&& o.line.interest_rate_bps == interest_rate_bps
            &&& o.line.risk_score == risk_score
            &&& o.line.status == CreditStatus::Active
            &&& o.line.utilized_amount == 0
            &&& o.line.accrued_interest == 0
            &&& o.line.last_rate_update_ts == 0
            &&& o.line.suspension_ts == 0
            &&& o.line.last_accrual_ts == ctx.now
            &&& o.requires_admin_auth == stored is Some
        },
{
}

/// Suspending (by the admin or by the borrower) succeeds exactly on an
/// active line whose accrual succeeds, unless time would run back before the
/// last suspension; it sets the status to suspended and the suspension time
/// to now, and keeps everything else of the accrued line.
pub proof fn lemma_suspend_outcome<A>(line: CreditLineData<A>, ctx: LedgerContext)
    requires
        !ctx.paused,
        accrual_ok(line, ctx.now, ctx.grace),
    ensures
        ({
            let l = accrued_line(line, ctx.now, ctx.grace);
            &&& (line.status == CreditStatus::Active && ctx.now < line.suspension_ts) ==> suspend_result(
                Some(line),
                ctx,
            ) == Err::<crate::lifecycle::LineUpdate<A>, ContractError>(
                ContractError::TimestampRegression,
            )
            &&& line.status != CreditStatus::Active ==> suspend_result(Some(line), ctx)
                == Err::<crate::lifecycle::LineUpdate<A>, ContractError>(
                ContractError::CreditLineSuspended,
            )
            &&& (line.status == CreditStatus::Active && ctx.now >= line.suspension_ts) ==> {
                &&& suspend_result(Some(line), ctx) matches Ok(u) && u.line == CreditLineData {
                    status: CreditStatus::Suspended,
                    suspension_ts: ctx.now,
                    ..l
                } && u.event == Some(LineEvent::Suspended)
                &&& self_suspend_result(Some(line), ctx) matches Ok(u) && u.line
                    == CreditLineData { status: CreditStatus::Suspended, suspension_ts: ctx.now, ..l }
                    && u.event == Some(LineEvent::SelfSuspended)
            }
        }),
{
}

/// Closing a line that is not closed: the admin always succeeds, the
/// borrower succeeds exactly when the balance is zero, anyone else is
/// refused; a successful close keeps the accrued line and sets it closed.
pub proof fn lemma_close_outcome<A>(line: CreditLineData<A>, closer: CloserRole, ctx: LedgerContext)
    requires
        !ctx.paused,
        line.status != CreditStatus::Closed,
        accrual_ok(line, ctx.now, ctx.grace),
    ensures
        closer == CloserRole::Other ==> close_result(Some(line), closer, ctx) == Err::<
            crate::lifecycle::LineUpdate<A>,
            ContractError,
        >(ContractError::Unauthorized),
        (closer == CloserRole::Borrower && line.utilized_amount != 0) ==> close_result(
            Some(line),
            closer,
            ctx,
        ) == Err::<crate::lifecycle::LineUpdate<A>, ContractError>(
            ContractError::UtilizationNotZero,
        ),
        (closer == CloserRole::Admin || (closer == CloserRole::Borrower && line.utilized_amount
            == 0)) ==> (close_result(Some(line), closer, ctx) matches Ok(u) && u.line
            == CreditLineData {
            status: CreditStatus::Closed,
            ..accrued_line(line, ctx.now, ctx.grace)
        } && u.event == Some(LineEvent::Closed)),
{
}

/// Any line that is neither closed nor already defaulted — active,
/// suspended or restricted — defaults: its accrued line becomes defaulted
/// and a `Defaulted` event requests the liquidation of its balance.
pub proof fn lemma_default_outcome<A>(line: CreditLineData<A>, ctx: LedgerContext)
    requires
        !ctx.paused,
        line.status != CreditStatus::Closed,
        line.status != CreditStatus::Defaulted,
        accrual_ok(line, ctx.now, ctx.grace),
    ensures
        (default_result(Some(line), ctx) matches Ok(u) && u.line.status == CreditStatus::Defaulted
            && u.event == Some(LineEvent::Defaulted) && u.line == (CreditLineData {
            status: CreditStatus::Defaulted,
            ..accrued_line(line, ctx.now, ctx.grace)
        })),
{
}

/// Forgiving `a > 0` on a line that is not closed always succeeds: the
/// balance falls by exactly `min(a, balance)`, and, when the accrued
/// interest lies within the balance, the accrued interest falls by
/// `min(a, accrued interest)`.
pub proof fn lemma_forgive_outcome<A>(line: CreditLineData<A>, amount: i128, ctx: LedgerContext)
    requires
        !ctx.paused,
        amount > 0,
        line.status != CreditStatus::Closed,
        accrual_ok(line, ctx.now, ctx.grace),
    ensures
        ({
            let l = accrued_line(line, ctx.now, ctx.grace);
            let b = l.utilized_amount as int;
            let forgiven = if amount < b {
                amount as int
            } else {
                b
            };
            &&& forgive_result(Some(line), amount, ctx) is Ok
            &&& forgive_result(Some(line), amount, ctx)->Ok_0.line.utilized_amount == b - forgiven
            &&& (0 <= l.accrued_interest <= b) ==> forgive_result(Some(line), amount, ctx)->Ok_0.line.accrued_interest
                == l.accrued_interest - (if amount < l.accrued_interest {
                amount as int
            } else {
                l.accrued_interest as int
            })
            &&& forgive_result(Some(line), amount, ctx)->Ok_0.line.status == l.status
            &&& forgive_result(Some(line), amount, ctx)->Ok_0.line.credit_limit == l.credit_limit
        }),
{
}

/// Settling `r` against a defaulted line with balance `B` succeeds for every
/// `0 < r <= B` not settled before: the balance becomes `B - r`, and the line
/// closes exactly when `r == B`. A larger `r` is refused with `OverLimit`.
pub proof fn lemma_settle_outcome<A>(line: CreditLineData<A>, recovered_amount: i128, ctx: LedgerContext)
    requires
        recovered_amount > 0,
        accrual_ok(line, ctx.now, ctx.grace),
        accrued_line(line, ctx.now, ctx.grace).status == CreditStatus::Defaulted,
    ensures
        ({
            let b = accrued_line(line, ctx.now, ctx.grace).utilized_amount as int;
            &&& recovered_amount <= b ==> (settle_result(Some(line), recovered_amount, false, ctx) matches Ok(u)
                && u.line.utilized_amount == b - recovered_amount && (u.line.status == CreditStatus::Closed
                <==> recovered_amount == b) && (u.line.status == CreditStatus::Defaulted <==> recovered_amount < b)
                && (u.event == Some(LineEvent::Closed) <==> recovered_amount == b))
            &&& recovered_amount > b ==> settle_result(Some(line), recovered_amount, false, ctx)
                == Err::<crate::lifecycle::LineUpdate<A>, ContractError>(ContractError::OverLimit)
        }),
{
}

/// Settlement against a line that is not defaulted is refused with
/// `CreditLineDefaulted`, and a settlement already applied with
/// `AlreadyInitialized`.
pub proof fn lemma_settle_refusals<A>(line: CreditLineData<A>, recovered_amount: i128, ctx: LedgerContext)
    requires
        recovered_amount > 0,
        accrual_ok(line, ctx.now, ctx.grace),
    ensures
        line.status != CreditStatus::Defaulted ==> settle_result(
            Some(line),
            recovered_amount,
            false,
            ctx,
        ) == Err::<crate::lifecycle::LineUpdate<A>, ContractError>(
            ContractError::CreditLineDefaulted,
        ),
        settle_result(Some(line), recovered_amount, true, ctx) == Err::<
            crate::lifecycle::LineUpdate<A>,
            ContractError,
        >(ContractError::AlreadyInitialized),
{
    lemma_accrual_keeps_status(line, ctx);
}

/// Reinstating a defaulted line to `Active` or `Restricted` succeeds, sets
/// that status and clears the suspension time; any other target is refused
/// with `InvalidAmount`, and any line that is not defaulted with
/// `CreditLineDefaulted`.
pub proof fn lemma_reinstate_outcome<A>(line: CreditLineData<A>, target_status: CreditStatus, ctx: LedgerContext)
    requires
        !ctx.paused,
        accrual_ok(line, ctx.now, ctx.grace),
    ensures
        (target_status != CreditStatus::Active && target_status != CreditStatus::Restricted)
            ==> reinstate_result(Some(line), target_status, ctx) == Err::<
            crate::lifecycle::LineUpdate<A>,
            ContractError,
        >(ContractError::InvalidAmount),
        ((target_status == CreditStatus::Active || target_status == CreditStatus::Restricted)
            && line.status != CreditStatus::Defaulted) ==> reinstate_result(
            Some(line),
            target_status,
            ctx,
        ) == Err::<crate::lifecycle::LineUpdate<A>, ContractError>(
            ContractError::CreditLineDefaulted,
        ),
        ((target_status == CreditStatus::Active || target_status == CreditStatus::Restricted)
            && line.status == CreditStatus::Defaulted) ==> (reinstate_result(
            Some(line),
            target_status,
            ctx,
        ) matches Ok(u) && u.line == CreditLineData {
            status: target_status,
            suspension_ts: 0,
            ..accrued_line(line, ctx.now, ctx.grace)
        } && u.event == Some(LineEvent::Reinstated)),
{
    lemma_accrual_keeps_status(line, ctx);
}

proof fn lemma_accrual_keeps_status<A>(line: CreditLineData<A>, ctx: LedgerContext)
    ensures
        accrued_line(line, ctx.now, ctx.grace).status == line.status,
{
}

// ── Risk ─────────────────────────────────────────────────────────────────────

/// The formula's rate is `base + score * slope` when that lies between its
/// minimum and its capped maximum, the minimum below it, and the capped
/// maximum (at most 10_000 bps) above it.
pub proof fn lemma_rate_formula_clamps(cfg: RateFormulaConfig, risk_score: int)
    requires
        cfg.min_rate_bps <= formula_upper(cfg),
    ensures
        ({
            let raw = cfg.base_rate_bps + risk_score * cfg.slope_bps_per_score;
            let upper = if cfg.max_rate_bps < 10_000 {
                cfg.max_rate_bps as int
            } else {
                10_000
            };
            &&& raw < cfg.min_rate_bps ==> rate_from_score(cfg, risk_score) == cfg.min_rate_bps
            &&& raw > upper ==> rate_from_score(cfg, risk_score) == upper
            &&& cfg.min_rate_bps <= raw <= upper ==> rate_from_score(cfg, risk_score) == raw
        }),
{
}

/// A risk update is refused with `NegativeLimit` for a negative limit, then
/// with `ScoreTooHigh` for a score above 100, then with `RateTooHigh` for a
/// rate above 10_000 bps.
pub proof fn lemma_risk_update_refusals<A>(
    line: CreditLineData<A>,
    credit_limit: i128,
    interest_rate_bps: u32,
    risk_score: u32,
    limits: Option<RateChangeConfig>,
    ctx: LedgerContext,
)
    requires
        !ctx.paused,
        accrual_ok(line, ctx.now, ctx.grace),
    ensures
        credit_limit < 0 ==> risk_update_result(
            Some(line),
            credit_limit,
            interest_rate_bps,
            risk_score,
            None,
            limits,
            ctx,
        ) == Err::<crate::lifecycle::LineUpdate<A>, ContractError>(ContractError::NegativeLimit),
        (credit_limit >= 0 && risk_score > 100) ==> risk_update_result(
            Some(line),
            credit_limit,
            interest_rate_bps,
            risk_score,
            None,
            limits,
            ctx,
        ) == Err::<crate::lifecycle::LineUpdate<A>, ContractError>(ContractError::ScoreTooHigh),
        (credit_limit >= 0 && risk_score <= 100 && interest_rate_bps > 10_000) ==> risk_update_result(
            Some(line),
            credit_limit,
            interest_rate_bps,
            risk_score,
            None,
            limits,
            ctx,
        ) == Err::<crate::lifecycle::LineUpdate<A>, ContractError>(ContractError::RateTooHigh),
{
}

/// With a rate formula configured, the rate a successful risk update sets is
/// the formula's rate for the new score, whatever rate was requested.
pub proof fn lemma_risk_update_uses_formula<A>(
    stored: Option<CreditLineData<A>>,
    credit_limit: i128,
    interest_rate_bps: u32,
    risk_score: u32,
    f: RateFormulaConfig,
    limits: Option<RateChangeConfig>,
    ctx: LedgerContext,
)
    ensures
        risk_update_result(stored, credit_limit, interest_rate_bps, risk_score, Some(f), limits, ctx) matches Ok(u)
            ==> u.line.interest_rate_bps == rate_from_score(f, risk_score as int)
            && u.line.risk_score == risk_score,
{
}

/// A rate change larger than the guardrail's maximum step, downwards as
/// well as upwards, is refused with `RateTooHigh`.
pub proof fn lemma_rate_step_limited_both_ways<A>(
    line: CreditLineData<A>,
    credit_limit: i128,
    interest_rate_bps: u32,
    risk_score: u32,
    c: RateChangeConfig,
    ctx: LedgerContext,
)
    requires
        !ctx.paused,
        accrual_ok(line, ctx.now, ctx.grace),
        credit_limit >= 0,
        risk_score <= 100,
        interest_rate_bps <= 10_000,
        interest_rate_bps > line.interest_rate_bps + c.max_rate_change_bps || line.interest_rate_bps
            > interest_rate_bps + c.max_rate_change_bps,
    ensures
        risk_update_result(Some(line), credit_limit, interest_rate_bps, risk_score, None, Some(c), ctx)
            == Err::<crate::lifecycle::LineUpdate<A>, ContractError>(ContractError::RateTooHigh),
{
    lemma_accrual_keeps_status(line, ctx);
}

/// A rate change sooner than the guardrail's minimum interval after the last
/// recorded change is refused with `RateTooHigh`.
pub proof fn lemma_rate_change_interval<A>(
    line: CreditLineData<A>,
    credit_limit: i128,
    interest_rate_bps: u32,
    risk_score: u32,
    c: RateChangeConfig,
    ctx: LedgerContext,
)
    requires
        !ctx.paused,
        accrual_ok(line, ctx.now, ctx.grace),
        credit_limit >= 0,
        risk_score <= 100,
        interest_rate_bps <= 10_000,
        interest_rate_bps != line.interest_rate_bps,
        line.last_rate_update_ts != 0,
        line.last_rate_update_ts <= ctx.now < line.last_rate_update_ts + c.rate_change_min_interval,
    ensures
        risk_update_result(Some(line), credit_limit, interest_rate_bps, risk_score, None, Some(c), ctx)
            == Err::<crate::lifecycle::LineUpdate<A>, ContractError>(ContractError::RateTooHigh),
{
}

/// Without a formula or guardrails, a valid risk update succeeds: the line
/// gets the requested limit, rate and score; a changed rate records the
/// change time; an active line whose limit is below its balance becomes
/// restricted, a restricted one whose limit covers it becomes active, and
/// other statuses stay.
pub proof fn lemma_risk_update_outcome<A>(
    line: CreditLineData<A>,
    credit_limit: i128,
    interest_rate_bps: u32,
    risk_score: u32,
    ctx: LedgerContext,
)
    requires
        !ctx.paused,
        accrual_ok(line, ctx.now, ctx.grace),
        credit_limit >= 0,
        risk_score <= 100,
        interest_rate_bps <= 10_000,
        interest_rate_bps != line.interest_rate_bps ==> ctx.now >= line.last_rate_update_ts,
    ensures
        ({
            let l = accrued_line(line, ctx.now, ctx.grace);
            &&& risk_update_result(Some(line), credit_limit, interest_rate_bps, risk_score, None, None, ctx) matches Ok(u)
            && u.line.credit_limit == credit_limit && u.line.interest_rate_bps == interest_rate_bps
                && u.line.risk_score == risk_score && u.line.utilized_amount == l.utilized_amount
                && u.line.accrued_interest == l.accrued_interest && u.line.last_rate_update_ts == (
            if interest_rate_bps != line.interest_rate_bps {
                ctx.now
            } else {
                line.last_rate_update_ts
            }) && u.line.status == (if line.status == CreditStatus::Active && credit_limit
                < l.utilized_amount {
                CreditStatus::Restricted
            } else if line.status == CreditStatus::Restricted && credit_limit >= l.utilized_amount {
                CreditStatus::Active
            } else {
                line.status
            })
        }),
{
    lemma_accrual_keeps_status(line, ctx);
}

} // verus!
