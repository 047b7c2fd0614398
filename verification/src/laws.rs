//! Properties that relate several operations of the credit logic.
use crate::accrual::{
    accrual_due, accrual_ok, accrued_line, grace_rate, grace_seconds, interest_over,
    line_after_accrual, whole_interest,
};
use crate::freeze::frozen_flag;
use crate::lifecycle::{
    close_result, default_result, forgive_result, open_result, reinstate_result, settle_result,
    suspend_result, CloserRole, LineUpdate, OpenOutcome,
};
use crate::risk::{risk_update_result, MAX_INTEREST_RATE_BPS, MAX_RISK_SCORE};
use crate::types::{
    ContractError, CreditLineData, CreditStatus, GracePeriodConfig, GraceWaiverMode, LedgerContext,
    RateChangeConfig, RateFormulaConfig,
};
use vstd::prelude::*;

verus! {

// ── Accrual ──────────────────────────────────────────────────────────────────

/// Accrual never lowers the balance, never lowers the accrued
/// interest, and never moves the checkpoint back.
pub proof fn lemma_accrual_only_adds<A>(line: CreditLineData<A>, now: u64, grace: Option<GracePeriodConfig>)
    requires
        accrual_ok(line, now, grace),
    ensures
        accrual_due(line, now, grace).unwrap() >= 0,
        accrued_line(line, now, grace).utilized_amount >= line.utilized_amount,
        accrued_line(line, now, grace).accrued_interest >= line.accrued_interest,
        accrued_line(line, now, grace).last_accrual_ts >= line.last_accrual_ts,
        accrued_line(line, now, grace).status == line.status,
        accrued_line(line, now, grace).interest_rate_bps == line.interest_rate_bps,
        accrued_line(line, now, grace).credit_limit == line.credit_limit,
{
    lemma_due_nonnegative(line, now, grace);
}

/// Interest due is never negative.
proof fn lemma_due_nonnegative<A>(line: CreditLineData<A>, now: u64, grace: Option<GracePeriodConfig>)
    requires
        accrual_due(line, now, grace) is Some,
    ensures
        accrual_due(line, now, grace).unwrap() >= 0,
{
    if !(line.status == CreditStatus::Closed || line.last_accrual_ts == 0 || now
        <= line.last_accrual_ts || line.utilized_amount == 0) {
        let d = crate::accrual::ACCRUAL_DENOMINATOR as int;
        let g = grace_seconds(line, now, grace);
        let post = now - line.last_accrual_ts - g;
        let p1 = line.utilized_amount * grace_rate(grace) * g;
        let p2 = line.utilized_amount * line.interest_rate_bps * post;
        if p1 > 0 {
            vstd::arithmetic::div_mod::lemma_div_pos_is_pos(p1, d);
        }
        if p2 > 0 {
            vstd::arithmetic::div_mod::lemma_div_pos_is_pos(p2, d);
        }
    }
}

/// Accruing a line twice at the same ledger time charges interest once: the
/// second accrual finds nothing due and changes nothing.
pub proof fn lemma_accrual_idempotent_at_same_time<A>(
    line: CreditLineData<A>,
    now: u64,
    grace: Option<GracePeriodConfig>,
)
    requires
        accrual_ok(line, now, grace),
    ensures
        accrual_ok(accrued_line(line, now, grace), now, grace),
        accrual_due(accrued_line(line, now, grace), now, grace) == Some(0int),
        accrued_line(accrued_line(line, now, grace), now, grace) == accrued_line(line, now, grace),
{
    let once = accrued_line(line, now, grace);
    assert(once.status == CreditStatus::Closed || now <= once.last_accrual_ts);
    assert(line_after_accrual(once, now, 0) == once);
}

/// A closed line never accrues interest and stays exactly as it is.
pub proof fn lemma_closed_line_never_accrues<A>(line: CreditLineData<A>, now: u64, grace: Option<GracePeriodConfig>)
    requires
        line.status == CreditStatus::Closed,
    ensures
        accrual_ok(line, now, grace),
        accrual_due(line, now, grace) == Some(0int),
        accrued_line(line, now, grace) == line,
{
}

/// The first touch of a line without a checkpoint sets the checkpoint and
/// charges nothing retroactively.
pub proof fn lemma_first_touch_charges_nothing<A>(line: CreditLineData<A>, now: u64, grace: Option<GracePeriodConfig>)
    requires
        line.last_accrual_ts == 0,
        line.status != CreditStatus::Closed,
        now > 0,
    ensures
        accrual_ok(line, now, grace),
        accrual_due(line, now, grace) == Some(0int),
        accrued_line(line, now, grace).last_accrual_ts == now,
        accrued_line(line, now, grace).utilized_amount == line.utilized_amount,
        accrued_line(line, now, grace).accrued_interest == line.accrued_interest,
{
}

/// A grace-period policy affects suspended lines only.
pub proof fn lemma_grace_only_affects_suspended_lines<A>(
    line: CreditLineData<A>,
    now: u64,
    grace: GracePeriodConfig,
)
    requires
        line.status != CreditStatus::Suspended,
    ensures
        accrual_due(line, now, Some(grace)) == accrual_due(line, now, None),
{
}

/// A grace period of zero seconds disables the waiver.
pub proof fn lemma_zero_grace_period_is_disabled<A>(
    line: CreditLineData<A>,
    now: u64,
    grace: GracePeriodConfig,
)
    requires
        grace.grace_period_seconds == 0,
    ensures
        accrual_due(line, now, Some(grace)) == accrual_due(line, now, None),
{
}

/// Under a full waiver, a suspended line accrues nothing while the whole
/// interval lies inside its grace window (the window's last second included).
pub proof fn lemma_full_waiver_inside_window<A>(line: CreditLineData<A>, now: u64, grace: GracePeriodConfig)
    requires
        line.status == CreditStatus::Suspended,
        grace.waiver_mode == GraceWaiverMode::FullWaiver,
        grace.grace_period_seconds > 0,
        line.last_accrual_ts < line.suspension_ts + grace.grace_period_seconds,
        now <= line.suspension_ts + grace.grace_period_seconds,
    ensures
        accrual_ok(line, now, Some(grace)),
        accrual_due(line, now, Some(grace)) == Some(0int),
{
    if !(line.last_accrual_ts == 0 || now <= line.last_accrual_ts || line.utilized_amount == 0) {
        let g = grace_seconds(line, now, Some(grace));
        assert(g == now - line.last_accrual_ts);
        assert(line.utilized_amount * 0 == 0);
        assert(interest_over(line.utilized_amount as int, 0, g) == Some(0int));
        assert(interest_over(line.utilized_amount as int, line.interest_rate_bps as int, 0) == Some(
            0int,
        ));
    }
}

/// Whole units of interest grow with the scaled product.
proof fn lemma_whole_interest_monotone(p1: int, p2: int)
    requires
        p1 <= p2,
    ensures
        whole_interest(p1) <= whole_interest(p2),
        0 <= whole_interest(p1),
{
    let d = crate::accrual::ACCRUAL_DENOMINATOR as int;
    if p1 > 0 {
        vstd::arithmetic::div_mod::lemma_div_is_ordered(p1, p2, d);
        vstd::arithmetic::div_mod::lemma_div_pos_is_pos(p1, d);
    } else if p2 > 0 {
        vstd::arithmetic::div_mod::lemma_div_pos_is_pos(p2, d);
    }
}

/// Flooring two non-negative products separately never gives more than
/// flooring their sum.
proof fn lemma_whole_interest_split(a: int, b: int)
    requires
        0 <= a,
        0 <= b,
    ensures
        whole_interest(a) + whole_interest(b) <= whole_interest(a + b),
{
    let d = crate::accrual::ACCRUAL_DENOMINATOR as int;
    if a == 0 || b == 0 {
        lemma_whole_interest_monotone(a, a + b);
        lemma_whole_interest_monotone(b, a + b);
    } else {
        vstd::arithmetic::div_mod::lemma_fundamental_div_mod(a, d);
        vstd::arithmetic::div_mod::lemma_fundamental_div_mod(b, d);
        vstd::arithmetic::div_mod::lemma_fundamental_div_mod(a + b, d);
        let qa = a / d;
        let qb = b / d;
        let q = (a + b) / d;
        assert(qa + qb <= q) by (nonlinear_arith)
            requires
                d > 0,
                a == d * qa + a % d,
                b == d * qb + b % d,
                a + b == d * q + (a + b) % d,
                0 <= a % d < d,
                0 <= b % d < d,
                0 <= (a + b) % d < d,
        ;
    }
}

/// A grace waiver never charges more than the full rate would: when the
/// waiver rate is at most the line's rate, the interest due with the policy
/// is at most the interest due without it.
pub proof fn lemma_grace_never_charges_more<A>(line: CreditLineData<A>, now: u64, grace: GracePeriodConfig)
    requires
        grace.waiver_mode == GraceWaiverMode::ReducedRate ==> grace.reduced_rate_bps
            <= line.interest_rate_bps,
        accrual_due(line, now, Some(grace)) is Some,
        accrual_due(line, now, None) is Some,
    ensures
        accrual_due(line, now, Some(grace)).unwrap() <= accrual_due(line, now, None).unwrap(),
{
    if !(line.status == CreditStatus::Closed || line.last_accrual_ts == 0 || now
        <= line.last_accrual_ts || line.utilized_amount == 0) {
        let u = line.utilized_amount as int;
        let r = line.interest_rate_bps as int;
        let rg = grace_rate(Some(grace));
        let g = grace_seconds(line, now, Some(grace));
        let e = now - line.last_accrual_ts;
        let post = e - g;
        assert(0 <= g <= e);
        assert(0 <= rg <= r);
        let pg = u * rg * g;
        let q1 = u * r * g;
        let pp = u * r * post;
        assert(u * r * e == q1 + pp) by (nonlinear_arith)
            requires
                q1 == u * r * g,
                pp == u * r * post,
                post == e - g,
        ;
        if u > 0 {
            assert(0 <= pg <= q1 && 0 <= pp) by (nonlinear_arith)
                requires
                    u > 0,
                    0 <= rg <= r,
                    0 <= g,
                    0 <= post,
                    pg == u * rg * g,
                    q1 == u * r * g,
                    pp == u * r * post,
            ;
            lemma_whole_interest_monotone(pg, q1);
            lemma_whole_interest_split(q1, pp);
            lemma_whole_interest_monotone(0, pp);
        } else {
            assert(pg <= 0 && pp <= 0) by (nonlinear_arith)
                requires
                    u < 0,
                    0 <= rg,
                    0 <= r,
                    0 <= g,
                    0 <= post,
                    pg == u * rg * g,
                    pp == u * r * post,
            ;
            lemma_whole_interest_monotone(u * r * e, u * r * e);
        }
    }
}

/// Suspension changes only the status and the suspension time (besides the
/// interest its accrual step materializes): limit, rate, score and borrower
/// are kept.
pub proof fn lemma_suspend_preserves_terms<A>(stored: Option<CreditLineData<A>>, ctx: LedgerContext)
    requires
        suspend_result(stored, ctx) is Ok,
    ensures
        ({
            let u = suspend_result(stored, ctx)->Ok_0;
            let old = stored.unwrap();
            &&& u.line.status == CreditStatus::Suspended
            &&& u.line.suspension_ts == ctx.now
            &&& u.line.borrower == old.borrower
            &&& u.line.credit_limit == old.credit_limit
            &&& u.line.interest_rate_bps == old.interest_rate_bps
            &&& u.line.risk_score == old.risk_score
            &&& u.line.last_rate_update_ts == old.last_rate_update_ts
            &&& u.line == CreditLineData {
                status: CreditStatus::Suspended,
                suspension_ts: ctx.now,
                ..accrued_line(old, ctx.now, ctx.grace)
            }
        }),
{
}

// ── Lifecycle ────────────────────────────────────────────────────────────────

/// While the protocol is paused, opening, suspending, closing, defaulting,
/// forgiving, reinstating and risk updates are refused with `Paused`,
/// whatever their other inputs. (Liquidation settlement is not subject to
/// the pause.)
pub proof fn lemma_pause_blocks_mutations<A>(
    stored: Option<CreditLineData<A>>,
    borrower: A,
    credit_limit: i128,
    interest_rate_bps: u32,
    risk_score: u32,
    amount: i128,
    closer: CloserRole,
    target_status: CreditStatus,
    formula: Option<RateFormulaConfig>,
    limits: Option<RateChangeConfig>,
    ctx: LedgerContext,
)
    requires
        ctx.paused,
    ensures
        open_result(stored, borrower, credit_limit, interest_rate_bps, risk_score, ctx) == Err::<
            OpenOutcome<A>,
            ContractError,
        >(ContractError::Paused),
        suspend_result(stored, ctx) == Err::<LineUpdate<A>, ContractError>(ContractError::Paused),
        close_result(stored, closer, ctx) == Err::<LineUpdate<A>, ContractError>(
            ContractError::Paused,
        ),
        default_result(stored, ctx) == Err::<LineUpdate<A>, ContractError>(ContractError::Paused),
        forgive_result(stored, amount, ctx) == Err::<LineUpdate<A>, ContractError>(
            ContractError::Paused,
        ),
        reinstate_result(stored, target_status, ctx) == Err::<LineUpdate<A>, ContractError>(
            ContractError::Paused,
        ),
        risk_update_result(stored, credit_limit, interest_rate_bps, risk_score, formula, limits, ctx)
            == Err::<LineUpdate<A>, ContractError>(ContractError::Paused),
{
}

/// Closing is idempotent: closing a line that a close just produced changes
/// nothing and publishes no event, whoever asks.
pub proof fn lemma_close_twice_is_close_once<A>(
    stored: Option<CreditLineData<A>>,
    closer: CloserRole,
    second_closer: CloserRole,
    ctx: LedgerContext,
)
    requires
        close_result(stored, closer, ctx) is Ok,
    ensures
        ({
            let first = close_result(stored, closer, ctx)->Ok_0;
            close_result(Some(first.line), second_closer, ctx) == Ok::<LineUpdate<A>, ContractError>(
                LineUpdate { line: first.line, accrued: 0, event: None },
            )
        }),
{
}

/// Defaulting is idempotent: defaulting, at the same ledger time, a line that
/// a default just produced changes nothing and publishes no event.
pub proof fn lemma_default_twice_is_default_once<A>(stored: Option<CreditLineData<A>>, ctx: LedgerContext)
    requires
        default_result(stored, ctx) is Ok,
    ensures
        ({
            let first = default_result(stored, ctx)->Ok_0;
            default_result(Some(first.line), ctx) == Ok::<LineUpdate<A>, ContractError>(
                LineUpdate { line: first.line, accrued: 0, event: None },
            )
        }),
{
    let line = stored.unwrap();
    if line.status != CreditStatus::Defaulted {
        lemma_accrual_idempotent_at_same_time(line, ctx.now, ctx.grace);
        let first = default_result(stored, ctx)->Ok_0;
        let acc = accrued_line(line, ctx.now, ctx.grace);
        assert(first.line == CreditLineData { status: CreditStatus::Defaulted, ..acc });
        assert(accrual_due(first.line, ctx.now, ctx.grace) == accrual_due(acc, ctx.now, ctx.grace));
    }
}

/// A closed line stays closed under every operation except re-opening: each
/// other operation either refuses it or leaves it closed.
pub proof fn lemma_closed_is_terminal<A>(
    line: CreditLineData<A>,
    credit_limit: i128,
    interest_rate_bps: u32,
    risk_score: u32,
    amount: i128,
    already_settled: bool,
    closer: CloserRole,
    target_status: CreditStatus,
    formula: Option<RateFormulaConfig>,
    limits: Option<RateChangeConfig>,
    ctx: LedgerContext,
)
    requires
        line.status == CreditStatus::Closed,
    ensures
        suspend_result(Some(line), ctx) is Err,
        default_result(Some(line), ctx) is Err,
        forgive_result(Some(line), amount, ctx) is Err,
        settle_result(Some(line), amount, already_settled, ctx) is Err,
        reinstate_result(Some(line), target_status, ctx) is Err,
        close_result(Some(line), closer, ctx) matches Ok(u) ==> u.line.status == CreditStatus::Closed,
        risk_update_result(Some(line), credit_limit, interest_rate_bps, risk_score, formula, limits, ctx) matches Ok(u)
            ==> u.line.status == CreditStatus::Closed,
{
    lemma_closed_line_never_accrues(line, ctx.now, ctx.grace);
}

/// Re-opening resets a line: whatever non-active line was stored, the new
/// line is the same fresh active line as for a borrower without one.
pub proof fn lemma_reopen_resets_line<A>(
    old: CreditLineData<A>,
    borrower: A,
    credit_limit: i128,
    interest_rate_bps: u32,
    risk_score: u32,
    ctx: LedgerContext,
)
    requires
        old.status != CreditStatus::Active,
    ensures
        open_result(Some(old), borrower, credit_limit, interest_rate_bps, risk_score, ctx) is Ok
            <==> open_result(None, borrower, credit_limit, interest_rate_bps, risk_score, ctx) is Ok,
        open_result(Some(old), borrower, credit_limit, interest_rate_bps, risk_score, ctx) matches Ok(o)
            ==> o.line == open_result(
            None,
            borrower,
            credit_limit,
            interest_rate_bps,
            risk_score,
            ctx,
        )->Ok_0.line && o.requires_admin_auth,
{
}

/// Suspending and then reinstating is only possible through a default: a
/// suspended line cannot be reinstated directly, and a reinstated line has
/// no suspension time.
pub proof fn lemma_reinstate_only_from_default<A>(
    stored: Option<CreditLineData<A>>,
    target_status: CreditStatus,
    ctx: LedgerContext,
)
    ensures
        reinstate_result(stored, target_status, ctx) matches Ok(u) ==> stored.unwrap().status
            == CreditStatus::Defaulted && u.line.suspension_ts == 0 && u.line.status == target_status,
        suspend_result(stored, ctx) matches Ok(u) ==> reinstate_result(Some(u.line), target_status, ctx)
            is Err,
{
    if let Some(line) = stored {
        if accrual_ok(line, ctx.now, ctx.grace) {
            lemma_accrual_only_adds(line, ctx.now, ctx.grace);
        }
    }
    if suspend_result(stored, ctx) is Ok {
        let l = suspend_result(stored, ctx)->Ok_0.line;
        if accrual_ok(l, ctx.now, ctx.grace) {
            lemma_accrual_only_adds(l, ctx.now, ctx.grace);
        }
    }
}

/// A liquidation settlement lowers the balance by exactly the recovered
/// amount, closes the line exactly when nothing remains, and is refused when
/// the same settlement was already applied.
pub proof fn lemma_settlement_accounting<A>(
    stored: Option<CreditLineData<A>>,
    recovered_amount: i128,
    ctx: LedgerContext,
)
    requires
        recovered_amount > 0,
    ensures
        settle_result(stored, recovered_amount, true, ctx) == Err::<LineUpdate<A>, ContractError>(
            ContractError::AlreadyInitialized,
        ),
        settle_result(stored, recovered_amount, false, ctx) matches Ok(u) ==> {
            let before = accrued_line(stored.unwrap(), ctx.now, ctx.grace);
            &&& u.line.utilized_amount == before.utilized_amount - recovered_amount
            &&& u.line.utilized_amount >= 0
            &&& (u.line.status == CreditStatus::Closed <==> u.line.utilized_amount == 0)
            &&& (u.line.status == CreditStatus::Closed <==> u.event is Some)
        },
{
}

/// The accrued interest is part of the balance: `0 <= accrued_interest <=
/// utilized_amount`.
pub open spec fn interest_within_balance<A>(line: CreditLineData<A>) -> bool {
    0 <= line.accrued_interest <= line.utilized_amount
}

/// Accrual and debt forgiveness keep the accrued interest within the balance,
/// and forgiveness never makes the balance negative.
pub proof fn lemma_forgive_keeps_interest_within_balance<A>(
    stored: Option<CreditLineData<A>>,
    amount: i128,
    ctx: LedgerContext,
)
    requires
        stored matches Some(l) && interest_within_balance(l),
    ensures
        accrual_ok(stored.unwrap(), ctx.now, ctx.grace) ==> interest_within_balance(
            accrued_line(stored.unwrap(), ctx.now, ctx.grace),
        ),
        forgive_result(stored, amount, ctx) matches Ok(u) ==> interest_within_balance(u.line),
{
    let line = stored.unwrap();
    if accrual_ok(line, ctx.now, ctx.grace) {
        lemma_accrual_only_adds(line, ctx.now, ctx.grace);
    }
}

/// After a successful risk update, the rate and the score are within their
/// bounds; an active or restricted line is restricted exactly when its new
/// limit is below its balance; any other status is left as it was.
pub proof fn lemma_risk_update_status_rule<A>(
    stored: Option<CreditLineData<A>>,
    credit_limit: i128,
    interest_rate_bps: u32,
    risk_score: u32,
    formula: Option<RateFormulaConfig>,
    limits: Option<RateChangeConfig>,
    ctx: LedgerContext,
)
    requires
        risk_update_result(stored, credit_limit, interest_rate_bps, risk_score, formula, limits, ctx) is Ok,
    ensures
        ({
            let u = risk_update_result(
                stored,
                credit_limit,
                interest_rate_bps,
                risk_score,
                formula,
                limits,
                ctx,
            )->Ok_0;
            let old = stored.unwrap();
            &&& u.line.interest_rate_bps <= MAX_INTEREST_RATE_BPS
            &&& u.line.risk_score <= MAX_RISK_SCORE
            &&& u.line.credit_limit == credit_limit
            &&& (old.status == CreditStatus::Active || old.status == CreditStatus::Restricted) ==> (
            u.line.status == CreditStatus::Restricted <==> credit_limit < u.line.utilized_amount)
            &&& (old.status == CreditStatus::Active || old.status == CreditStatus::Restricted) ==> (
            u.line.status == CreditStatus::Active <==> credit_limit >= u.line.utilized_amount)
            &&& (old.status != CreditStatus::Active && old.status != CreditStatus::Restricted)
                ==> u.line.status == old.status
        }),
{
    lemma_accrual_only_adds(stored.unwrap(), ctx.now, ctx.grace);
}

// ── Draw freeze ──────────────────────────────────────────────────────────────

/// After a freeze the stored flag reads as frozen, so a second freeze
/// publishes nothing; after an unfreeze it reads as not frozen, so a second
/// unfreeze publishes nothing; a flag never stored reads as not frozen.
pub proof fn lemma_freeze_round_trip()
    ensures
        frozen_flag(Some(true)),
        !frozen_flag(Some(false)),
        !frozen_flag(None),
{
}

} // verus!
