use creditra_credit::accrual::apply_accrual;
use creditra_credit::lifecycle::{
    close_credit_line, default_credit_line, forgive_debt, open_credit_line,
    reinstate_credit_line, self_suspend_credit_line, settle_default_liquidation,
    suspend_credit_line, CloserRole, LineEvent, LineUpdate,
};
use creditra_credit::risk::update_risk_parameters;
use creditra_credit::types::{
    ContractError, CreditLineData, CreditStatus, GracePeriodConfig, GraceWaiverMode,
    LedgerContext,
};

type Line = CreditLineData<u64>;

const BORROWER: u64 = 7;

fn ctx(now: u64) -> LedgerContext {
    LedgerContext { now, paused: false, grace: None }
}

fn ctx_grace(now: u64, grace: GracePeriodConfig) -> LedgerContext {
    LedgerContext { now, paused: false, grace: Some(grace) }
}

fn open(limit: i128, rate: u32, score: u32, now: u64) -> Line {
    open_credit_line(None, BORROWER, limit, rate, score, ctx(now)).unwrap().line
}

/// The line a draw of `amount` at `now` leaves behind: interest accrued, then
/// the amount added to the balance.
fn drawn(line: Line, amount: i128, now: u64) -> Line {
    let (mut line, _) = apply_accrual(line, now, None).unwrap();
    line.utilized_amount += amount;
    line
}

fn update(
    line: Line,
    limit: i128,
    rate: u32,
    score: u32,
    ctx: LedgerContext,
) -> Result<LineUpdate<u64>, ContractError> {
    update_risk_parameters(Some(line), limit, rate, score, None, None, ctx)
}

fn updated(line: Line, limit: i128, rate: u32, score: u32, now: u64) -> Line {
    update(line, limit, rate, score, ctx(now)).unwrap().line
}

// ── open_credit_line ────────────────────────────────────────────────────────

#[test]
fn open_stores_correct_fields() {
    let line = open(5_000, 300, 50, 0);
    assert_eq!(line.borrower, BORROWER);
    assert_eq!(line.credit_limit, 5_000);
    assert_eq!(line.utilized_amount, 0);
    assert_eq!(line.interest_rate_bps, 300);
    assert_eq!(line.risk_score, 50);
    assert_eq!(line.status, CreditStatus::Active);
    assert_eq!(line.last_rate_update_ts, 0);
    assert_eq!(line.accrued_interest, 0);
    assert_eq!(line.suspension_ts, 0);
}

#[test]
fn open_at_max_rate_and_score_succeeds() {
    let line = open(1, 10_000, 100, 0);
    assert_eq!(line.interest_rate_bps, 10_000);
    assert_eq!(line.risk_score, 100);
    assert_eq!(line.status, CreditStatus::Active);
}

#[test]
fn open_rejects_zero_credit_limit() {
    let r = open_credit_line(None, BORROWER, 0, 300, 50, ctx(0));
    assert_eq!(r.unwrap_err().code(), 5);
}

#[test]
fn open_rejects_negative_credit_limit() {
    let r = open_credit_line(None, BORROWER, -1, 300, 50, ctx(0));
    assert_eq!(r.unwrap_err().code(), 5);
}

#[test]
fn open_rejects_rate_above_max() {
    let r = open_credit_line(None, BORROWER, 1_000, 10_001, 50, ctx(0));
    assert!(r.is_err());
    assert_eq!(r.unwrap_err(), ContractError::RateTooHigh);
}

#[test]
fn open_rejects_score_above_max() {
    let r = open_credit_line(None, BORROWER, 1_000, 300, 101, ctx(0));
    assert!(r.is_err());
    assert_eq!(r.unwrap_err(), ContractError::ScoreTooHigh);
}

#[test]
fn open_rejects_duplicate_active_line() {
    let first = open(1_000, 300, 50, 0);
    let r = open_credit_line(Some(first), BORROWER, 2_000, 400, 60, ctx(0));
    assert_eq!(r.unwrap_err().code(), 14);
}

#[test]
fn open_allows_reopen_after_close_and_resets_fields() {
    let line = open(1_000, 300, 50, 0);
    let closed = close_credit_line(Some(line), CloserRole::Admin, ctx(0)).unwrap().line;
    let reopened = open_credit_line(Some(closed), BORROWER, 3_000, 200, 40, ctx(0)).unwrap();
    assert!(reopened.requires_admin_auth);
    let line = reopened.line;
    assert_eq!(line.status, CreditStatus::Active);
    assert_eq!(line.credit_limit, 3_000);
    assert_eq!(line.utilized_amount, 0);
    assert_eq!(line.last_rate_update_ts, 0);
    assert_eq!(line.accrued_interest, 0);
}

#[test]
fn open_allows_reopen_after_default() {
    let line = open(1_000, 300, 50, 0);
    let defaulted = default_credit_line(Some(line), ctx(0)).unwrap().line;
    let line = open_credit_line(Some(defaulted), BORROWER, 1_500, 350, 65, ctx(0)).unwrap().line;
    assert_eq!(line.status, CreditStatus::Active);
    assert_eq!(line.credit_limit, 1_500);
}

#[test]
fn open_allows_reopen_after_suspend() {
    let line = open(1_000, 300, 50, 0);
    let suspended = suspend_credit_line(Some(line), ctx(0)).unwrap().line;
    let line = open_credit_line(Some(suspended), BORROWER, 2_000, 400, 70, ctx(0)).unwrap().line;
    assert_eq!(line.status, CreditStatus::Active);
    assert_eq!(line.credit_limit, 2_000);
    assert_eq!(line.suspension_ts, 0);
}

#[test]
fn open_credit_line_rejects_invalid_credit_limits() {
    for credit_limit in [0, -1, -1_000_000, i128::MIN] {
        let r = open_credit_line(None, BORROWER, credit_limit, 300, 70, ctx(0));
        assert_eq!(
            r.unwrap_err(),
            ContractError::InvalidAmount,
            "open_credit_line should reject credit_limit={}",
            credit_limit
        );
    }
}

#[test]
fn open_credit_line_accepts_minimal_positive_limit() {
    let line = open(1, 300, 70, 0);
    assert_eq!(line.credit_limit, 1);
    assert_eq!(line.utilized_amount, 0);
    assert_eq!(line.status, CreditStatus::Active);
}

#[test]
fn open_new_line_needs_no_admin_auth() {
    let o = open_credit_line(None, BORROWER, 1_000, 300, 50, ctx(42)).unwrap();
    assert!(!o.requires_admin_auth);
    assert_eq!(o.line.last_accrual_ts, 42);
}

// ── rate and score bounds ───────────────────────────────────────────────────

#[test]
fn test_rate_and_score_boundary_validation() {
    let valid = [(0, 0), (10_000, 100), (10_000, 0), (0, 100), (5_000, 50)];
    for (rate, score) in valid {
        let line = open(1_000, rate, score, 0);
        assert_eq!(line.interest_rate_bps, rate);
        assert_eq!(line.risk_score, score);
        let line = updated(line, 1_000, rate, score, 0);
        assert_eq!(line.interest_rate_bps, rate);
        assert_eq!(line.risk_score, score);
    }
    let invalid = [
        (10_001, 50, ContractError::RateTooHigh),
        (5_000, 101, ContractError::ScoreTooHigh),
        (10_001, 101, ContractError::RateTooHigh),
        (10_000, 101, ContractError::ScoreTooHigh),
        (10_001, 100, ContractError::RateTooHigh),
    ];
    for (rate, score, expected) in invalid {
        let r = open_credit_line(None, BORROWER, 1_000, rate, score, ctx(0));
        assert_eq!(r.unwrap_err(), expected);
        let line = open(1_000, 100, 10, 0);
        assert!(update(line, 1_000, rate, score, ctx(0)).is_err());
    }
}

#[test]
fn test_rate_score_edge_cases() {
    let cases = [
        (9_999, 99, true),
        (10_000, 99, true),
        (9_999, 100, true),
        (10_000, 100, true),
        (10_001, 100, false),
        (10_000, 101, false),
        (10_001, 101, false),
    ];
    let mut stored: Option<Line> = None;
    for (rate, score, should_succeed) in cases {
        let r = open_credit_line(stored.take(), BORROWER, 1_000, rate, score, ctx(0));
        if should_succeed {
            let line = r.unwrap().line;
            assert_eq!(line.interest_rate_bps, rate);
            assert_eq!(line.risk_score, score);
            let closed = close_credit_line(Some(line), CloserRole::Admin, ctx(0)).unwrap();
            stored = Some(closed.line);
        } else {
            assert!(r.is_err(), "Expected rejection for rate: {}, score: {}", rate, score);
        }
    }
}

#[test]
fn test_error_mapping_consistency() {
    let rate_over = open_credit_line(None, BORROWER, 1_000, 10_001, 50, ctx(0));
    let score_over = open_credit_line(None, BORROWER, 1_000, 5_000, 101, ctx(0));
    assert!(rate_over.is_err());
    assert!(score_over.is_err());
    assert_eq!(ContractError::RateTooHigh.code(), 8);
    assert_eq!(ContractError::ScoreTooHigh.code(), 9);
    assert_eq!(rate_over.unwrap_err().code(), 8);
    assert_eq!(score_over.unwrap_err().code(), 9);
}

// ── limit decreases and the Restricted status ──────────────────────────────

fn setup_with_draw(limit: i128, draw: i128) -> Line {
    let line = open(limit, 300, 50, 0);
    assert_eq!(line.status, CreditStatus::Active);
    assert_eq!(line.utilized_amount, 0);
    let line = drawn(line, draw, 0);
    assert_eq!(line.utilized_amount, draw);
    assert_eq!(line.status, CreditStatus::Active);
    line
}

#[test]
fn test_limit_decrease_below_utilization_transitions_to_restricted() {
    let line = setup_with_draw(10_000, 5_000);
    let line = updated(line, 2_000, 300, 50, 0);
    assert_eq!(line.credit_limit, 2_000);
    assert_eq!(line.utilized_amount, 5_000);
    assert_eq!(line.status, CreditStatus::Restricted);
}

#[test]
fn test_auto_cure_when_limit_increased_to_meet_utilization() {
    let line = setup_with_draw(10_000, 5_000);
    let line = updated(line, 2_000, 300, 50, 0);
    assert_eq!(line.status, CreditStatus::Restricted);
    let line = updated(line, 5_000, 300, 50, 0);
    assert_eq!(line.credit_limit, 5_000);
    assert_eq!(line.utilized_amount, 5_000);
    assert_eq!(line.status, CreditStatus::Active, "Status should auto-cure to Active");
}

#[test]
fn test_auto_cure_when_limit_increased_above_utilization() {
    let line = setup_with_draw(10_000, 5_000);
    let line = updated(line, 2_000, 300, 50, 0);
    assert_eq!(line.status, CreditStatus::Restricted);
    let line = updated(line, 8_000, 300, 50, 0);
    assert_eq!(line.credit_limit, 8_000);
    assert_eq!(line.status, CreditStatus::Active);
}

#[test]
fn test_multiple_restriction_and_cure_cycles() {
    let line = setup_with_draw(10_000, 5_000);
    let line = updated(line, 3_000, 300, 50, 0);
    assert_eq!(line.status, CreditStatus::Restricted);
    let line = updated(line, 5_000, 300, 50, 0);
    assert_eq!(line.status, CreditStatus::Active);
    let line = updated(line, 2_000, 300, 50, 0);
    assert_eq!(line.status, CreditStatus::Restricted);
    let line = updated(line, 6_000, 300, 50, 0);
    assert_eq!(line.status, CreditStatus::Active);
}

#[test]
fn test_suspended_line_not_auto_cured_on_limit_increase() {
    let line = setup_with_draw(10_000, 5_000);
    let line = suspend_credit_line(Some(line), ctx(0)).unwrap().line;
    assert_eq!(line.status, CreditStatus::Suspended);
    let line = updated(line, 2_000, 300, 50, 0);
    assert_eq!(line.status, CreditStatus::Suspended, "Suspended status should persist");
    assert_eq!(line.credit_limit, 2_000);
    let line = updated(line, 10_000, 300, 50, 0);
    assert_eq!(line.status, CreditStatus::Suspended);
}

#[test]
fn test_interest_rate_update_during_restriction() {
    let line = setup_with_draw(10_000, 5_000);
    let line = updated(line, 2_000, 500, 50, 0);
    assert_eq!(line.status, CreditStatus::Restricted);
    assert_eq!(line.interest_rate_bps, 500);
    assert_eq!(line.risk_score, 50);
}

#[test]
fn test_limit_equals_utilization_not_restricted() {
    let line = setup_with_draw(10_000, 5_000);
    let line = updated(line, 5_000, 300, 50, 0);
    assert_eq!(line.credit_limit, 5_000);
    assert_eq!(line.utilized_amount, 5_000);
    assert_eq!(line.status, CreditStatus::Active);
}

#[test]
fn test_further_decrease_while_restricted() {
    let line = setup_with_draw(10_000, 7_000);
    let line = updated(line, 5_000, 300, 50, 0);
    assert_eq!(line.status, CreditStatus::Restricted);
    let line = updated(line, 3_000, 300, 50, 0);
    assert_eq!(line.credit_limit, 3_000);
    assert_eq!(line.status, CreditStatus::Restricted);
}

#[test]
fn negative_limit_is_rejected() {
    let line = setup_with_draw(10_000, 5_000);
    let r = update(line, -1, 300, 50, ctx(0));
    assert_eq!(r.unwrap_err(), ContractError::NegativeLimit);
}

#[test]
fn defaulted_line_keeps_status_on_limit_decrease() {
    let line = setup_with_draw(10_000, 5_000);
    let line = default_credit_line(Some(line), ctx(0)).unwrap().line;
    let line = updated(line, 1_000, 300, 50, 0);
    assert_eq!(line.status, CreditStatus::Defaulted);
}

// ── accrual through lifecycle operations ───────────────────────────────────

#[test]
fn test_no_accrual_at_same_timestamp() {
    let line = drawn(open(1_000, 1_000, 50, 0), 500, 100);
    let u = update(line, 1_000, 1_000, 50, ctx(100)).unwrap();
    assert_eq!(u.line.last_accrual_ts, 100);
    assert_eq!(u.line.accrued_interest, 0);
    assert_eq!(u.accrued, 0);
}

#[test]
fn test_positive_accrual() {
    let line = drawn(open(1_000_000, 1_000, 50, 0), 100_000, 100);
    let u = update(line, 1_000_000, 1_000, 50, ctx(100 + 31_536_000)).unwrap();
    assert_eq!(u.line.last_accrual_ts, 100 + 31_536_000);
    assert_eq!(u.line.accrued_interest, 10_000);
    assert_eq!(u.line.utilized_amount, 110_000);
    assert_eq!(u.accrued, 10_000);
}

#[test]
fn test_multi_period_accrual() {
    let line = drawn(open(1_000_000, 1_000, 50, 0), 100_000, 100);
    let line1 = updated(line, 1_000_000, 1_000, 50, 100 + 15_768_000);
    assert_eq!(line1.accrued_interest, 5_000);
    let line2 = updated(line1, 1_000_000, 1_000, 50, 100 + 31_536_000);
    // Period 2 accrues on the balance of 105_000: 5_250.
    assert_eq!(line2.accrued_interest, 10_250);
}

#[test]
fn test_zero_utilization_no_accrual() {
    let line = open(1_000_000, 1_000, 50, 0);
    let line = updated(line, 1_000_000, 1_000, 50, 100);
    let line = updated(line, 1_000_000, 1_000, 50, 100 + 31_536_000);
    assert_eq!(line.accrued_interest, 0);
    assert_eq!(line.utilized_amount, 0);
}

#[test]
fn test_rounding_down() {
    let line = drawn(open(1_000_000, 1_000, 50, 0), 100_000, 100);
    let line = updated(line, 1_000_000, 1_000, 50, 101);
    assert_eq!(line.accrued_interest, 0);
    assert_eq!(line.last_accrual_ts, 101);
}

#[test]
fn test_overflow_protection() {
    let line = drawn(open(i128::MAX, 10_000, 100, 0), 1_000_000_000_000_000_000, 100);
    let line = updated(line, i128::MAX, 10_000, 100, 100 + 100 * 31_536_000);
    assert!(line.accrued_interest > 0);
}

#[test]
fn accrual_overflow_is_reported() {
    let line = drawn(open(i128::MAX, 10_000, 100, 0), i128::MAX / 2, 100);
    let r = update(line, i128::MAX, 10_000, 100, ctx(100 + 31_536_000));
    assert_eq!(r.unwrap_err(), ContractError::Overflow);
}

// ── grace periods ───────────────────────────────────────────────────────────

/// Open at t=0, draw at t=1, suspend at `suspend_ts` (at least 1).
fn setup_suspended(credit_limit: i128, draw_amount: i128, rate_bps: u32, suspend_ts: u64) -> Line {
    let line = open(credit_limit, rate_bps, 50, 0);
    let line = drawn(line, draw_amount, 1);
    let ts = if suspend_ts < 1 { 1 } else { suspend_ts };
    suspend_credit_line(Some(line), ctx(ts)).unwrap().line
}

fn full_waiver(seconds: u64) -> GracePeriodConfig {
    GracePeriodConfig {
        grace_period_seconds: seconds,
        waiver_mode: GraceWaiverMode::FullWaiver,
        reduced_rate_bps: 0,
    }
}

fn reduced_rate(seconds: u64, rate: u32) -> GracePeriodConfig {
    GracePeriodConfig {
        grace_period_seconds: seconds,
        waiver_mode: GraceWaiverMode::ReducedRate,
        reduced_rate_bps: rate,
    }
}

#[test]
fn no_grace_config_suspended_line_accrues_at_full_rate() {
    let line = setup_suspended(1_000_000, 100_000, 1_000, 1);
    let line = updated(line, 1_000_000, 1_000, 50, 1 + 31_536_000);
    assert_eq!(line.accrued_interest, 10_000);
    assert_eq!(line.utilized_amount, 110_000);
}

#[test]
fn full_waiver_no_interest_inside_grace_window() {
    let line = setup_suspended(1_000_000, 100_000, 1_000, 1);
    let c = ctx_grace(1 + 15_768_000, full_waiver(31_536_000));
    let line = update(line, 1_000_000, 1_000, 50, c).unwrap().line;
    assert_eq!(line.accrued_interest, 0);
    assert_eq!(line.utilized_amount, 100_000);
}

#[test]
fn full_waiver_no_interest_at_grace_boundary() {
    let line = setup_suspended(1_000_000, 100_000, 1_000, 1);
    let c = ctx_grace(31_536_001, full_waiver(31_536_000));
    let line = update(line, 1_000_000, 1_000, 50, c).unwrap().line;
    assert_eq!(line.accrued_interest, 0);
    assert_eq!(line.utilized_amount, 100_000);
}

#[test]
fn full_waiver_full_rate_resumes_after_grace_window() {
    let line = setup_suspended(1_000_000, 100_000, 1_000, 1);
    let c = ctx_grace(63_072_001, full_waiver(31_536_000));
    let line = update(line, 1_000_000, 1_000, 50, c).unwrap().line;
    assert_eq!(line.accrued_interest, 10_000);
    assert_eq!(line.utilized_amount, 110_000);
}

#[test]
fn reduced_rate_accrues_at_waiver_rate_inside_window() {
    let line = setup_suspended(1_000_000, 100_000, 1_000, 1);
    let c = ctx_grace(31_536_001, reduced_rate(31_536_000, 200));
    let line = update(line, 1_000_000, 1_000, 50, c).unwrap().line;
    assert_eq!(line.accrued_interest, 2_000);
    assert_eq!(line.utilized_amount, 102_000);
}

#[test]
fn full_waiver_split_window_straddles_grace_boundary() {
    let line = setup_suspended(1_000_000, 100_000, 1_000, 1);
    let c = ctx_grace(47_304_001, full_waiver(31_536_000));
    let line = update(line, 1_000_000, 1_000, 50, c).unwrap().line;
    assert_eq!(line.accrued_interest, 5_000);
    assert_eq!(line.utilized_amount, 105_000);
}

#[test]
fn reduced_rate_split_window_straddles_grace_boundary() {
    let line = setup_suspended(1_000_000, 100_000, 1_000, 1);
    let c = ctx_grace(47_304_001, reduced_rate(31_536_000, 200));
    let line = update(line, 1_000_000, 1_000, 50, c).unwrap().line;
    assert_eq!(line.accrued_interest, 7_000);
    assert_eq!(line.utilized_amount, 107_000);
}

#[test]
fn zero_grace_period_seconds_disables_waiver() {
    let line = setup_suspended(1_000_000, 100_000, 1_000, 1);
    let c = ctx_grace(1 + 31_536_000, full_waiver(0));
    let line = update(line, 1_000_000, 1_000, 50, c).unwrap().line;
    assert_eq!(line.accrued_interest, 10_000);
}

#[test]
fn grace_period_does_not_affect_active_lines() {
    let line = drawn(open(1_000_000, 1_000, 50, 0), 100_000, 1);
    let c = ctx_grace(1 + 31_536_000, full_waiver(31_536_000));
    let line = update(line, 1_000_000, 1_000, 50, c).unwrap().line;
    assert_eq!(line.accrued_interest, 10_000);
}

#[test]
fn suspension_ts_recorded_on_suspend() {
    let line = setup_suspended(1_000_000, 100_000, 1_000, 12_345);
    assert_eq!(line.suspension_ts, 12_345);
    assert_eq!(line.status, CreditStatus::Suspended);
}

#[test]
fn default_during_grace_ends_grace_period() {
    let grace = full_waiver(31_536_000);
    let line = setup_suspended(1_000_000, 100_000, 1_000, 0);
    let line = default_credit_line(Some(line), ctx_grace(15_768_000, grace)).unwrap().line;
    let line = reinstate_credit_line(Some(line), CreditStatus::Active, ctx_grace(15_768_000, grace))
        .unwrap()
        .line;
    let c = ctx_grace(15_768_000 + 31_536_000, grace);
    let line = update(line, 1_000_000, 1_000, 50, c).unwrap().line;
    assert_eq!(line.accrued_interest, 10_000);
    assert_eq!(line.status, CreditStatus::Active);
}

#[test]
fn suspension_ts_cleared_on_reinstatement() {
    let line = setup_suspended(1_000_000, 100_000, 1_000, 100);
    let line = default_credit_line(Some(line), ctx(200)).unwrap().line;
    let line = reinstate_credit_line(Some(line), CreditStatus::Active, ctx(200)).unwrap().line;
    assert_eq!(line.suspension_ts, 0);
    assert_eq!(line.status, CreditStatus::Active);
}

// ── suspend, close, default, reinstate ─────────────────────────────────────

#[test]
fn suspend_requires_active_line() {
    let line = setup_suspended(1_000, 100, 300, 5);
    let r = self_suspend_credit_line(Some(line), ctx(6));
    assert_eq!(r.unwrap_err(), ContractError::CreditLineSuspended);
    let r = suspend_credit_line::<u64>(None, ctx(6));
    assert_eq!(r.unwrap_err(), ContractError::CreditLineNotFound);
}

#[test]
fn self_suspend_publishes_self_suspend_event() {
    let line = open(1_000, 300, 50, 0);
    let u = self_suspend_credit_line(Some(line), ctx(9)).unwrap();
    assert_eq!(u.event, Some(LineEvent::SelfSuspended));
    assert_eq!(u.line.status, CreditStatus::Suspended);
    assert_eq!(u.line.suspension_ts, 9);
}

#[test]
fn suspension_time_cannot_move_back() {
    let mut line = open(1_000, 300, 50, 0);
    line.suspension_ts = 50;
    let r = suspend_credit_line(Some(line), ctx(40));
    assert_eq!(r.unwrap_err(), ContractError::TimestampRegression);
}

#[test]
fn close_rules_by_role() {
    let line = drawn(open(1_000, 300, 50, 0), 10, 0);
    let r = close_credit_line(Some(line), CloserRole::Borrower, ctx(0));
    assert_eq!(r.unwrap_err(), ContractError::UtilizationNotZero);

    let line = drawn(open(1_000, 300, 50, 0), 10, 0);
    let r = close_credit_line(Some(line), CloserRole::Other, ctx(0));
    assert_eq!(r.unwrap_err(), ContractError::Unauthorized);

    let line = drawn(open(1_000, 300, 50, 0), 10, 0);
    let u = close_credit_line(Some(line), CloserRole::Admin, ctx(0)).unwrap();
    assert_eq!(u.line.status, CreditStatus::Closed);
    assert_eq!(u.event, Some(LineEvent::Closed));

    let line = open(1_000, 300, 50, 0);
    let u = close_credit_line(Some(line), CloserRole::Borrower, ctx(0)).unwrap();
    assert_eq!(u.line.status, CreditStatus::Closed);
}

#[test]
fn close_is_idempotent() {
    let line = open(1_000, 300, 50, 0);
    let first = close_credit_line(Some(line), CloserRole::Admin, ctx(0)).unwrap();
    let second = close_credit_line(Some(first.line), CloserRole::Other, ctx(5)).unwrap();
    assert_eq!(second.event, None);
    assert_eq!(second.line.status, CreditStatus::Closed);
}

#[test]
fn close_unknown_line_is_not_found() {
    let r = close_credit_line::<u64>(None, CloserRole::Admin, ctx(0));
    assert_eq!(r.unwrap_err(), ContractError::CreditLineNotFound);
}

#[test]
fn default_rules() {
    let line = drawn(open(1_000, 300, 50, 0), 400, 0);
    let u = default_credit_line(Some(line), ctx(0)).unwrap();
    assert_eq!(u.line.status, CreditStatus::Defaulted);
    assert_eq!(u.event, Some(LineEvent::Defaulted));
    let again = default_credit_line(Some(u.line), ctx(0)).unwrap();
    assert_eq!(again.event, None);
    assert_eq!(again.line.status, CreditStatus::Defaulted);

    let closed = close_credit_line(Some(open(1_000, 300, 50, 0)), CloserRole::Admin, ctx(0))
        .unwrap()
        .line;
    let r = default_credit_line(Some(closed), ctx(0));
    assert_eq!(r.unwrap_err(), ContractError::CreditLineClosed);
}

#[test]
fn reinstate_rules() {
    let line = open(1_000, 300, 50, 0);
    let r = reinstate_credit_line(Some(line), CreditStatus::Active, ctx(0));
    assert_eq!(r.unwrap_err(), ContractError::CreditLineDefaulted);

    let line = default_credit_line(Some(open(1_000, 300, 50, 0)), ctx(0)).unwrap().line;
    let r = reinstate_credit_line(Some(line), CreditStatus::Suspended, ctx(0));
    assert_eq!(r.unwrap_err(), ContractError::InvalidAmount);

    let line = default_credit_line(Some(open(1_000, 300, 50, 0)), ctx(0)).unwrap().line;
    let u = reinstate_credit_line(Some(line), CreditStatus::Restricted, ctx(0)).unwrap();
    assert_eq!(u.line.status, CreditStatus::Restricted);
    assert_eq!(u.event, Some(LineEvent::Reinstated));
}

#[test]
fn paused_protocol_blocks_lifecycle_operations() {
    let paused = LedgerContext { now: 0, paused: true, grace: None };
    assert_eq!(
        open_credit_line(None, BORROWER, 1_000, 300, 50, paused).unwrap_err(),
        ContractError::Paused
    );
    let line = open(1_000, 300, 50, 0);
    assert_eq!(suspend_credit_line(Some(line), paused).unwrap_err(), ContractError::Paused);
    let line = open(1_000, 300, 50, 0);
    assert_eq!(default_credit_line(Some(line), paused).unwrap_err(), ContractError::Paused);
    let line = open(1_000, 300, 50, 0);
    assert_eq!(
        close_credit_line(Some(line), CloserRole::Admin, paused).unwrap_err(),
        ContractError::Paused
    );
    let line = open(1_000, 300, 50, 0);
    assert_eq!(forgive_debt(Some(line), 1, paused).unwrap_err(), ContractError::Paused);
    let line = open(1_000, 300, 50, 0);
    assert_eq!(update(line, 1_000, 300, 50, paused).unwrap_err(), ContractError::Paused);
}

// ── forgive_debt ────────────────────────────────────────────────────────────

#[test]
fn forgive_takes_interest_first_and_caps_at_balance() {
    let line = drawn(open(1_000_000, 1_000, 50, 0), 100_000, 100);
    let line = updated(line, 1_000_000, 1_000, 50, 100 + 31_536_000);
    assert_eq!(line.utilized_amount, 110_000);
    assert_eq!(line.accrued_interest, 10_000);

    let u = forgive_debt(Some(line), 4_000, ctx(100 + 31_536_000)).unwrap();
    assert_eq!(u.line.accrued_interest, 6_000);
    assert_eq!(u.line.utilized_amount, 106_000);
    assert_eq!(u.event, None);

    let u = forgive_debt(Some(u.line), 1_000_000, ctx(100 + 31_536_000)).unwrap();
    assert_eq!(u.line.accrued_interest, 0);
    assert_eq!(u.line.utilized_amount, 0);
}

#[test]
fn forgive_rejects_bad_inputs() {
    let line = open(1_000, 300, 50, 0);
    assert_eq!(forgive_debt(Some(line), 0, ctx(0)).unwrap_err(), ContractError::InvalidAmount);
    assert_eq!(
        forgive_debt::<u64>(None, 5, ctx(0)).unwrap_err(),
        ContractError::CreditLineNotFound
    );
    let closed = close_credit_line(Some(open(1_000, 300, 50, 0)), CloserRole::Admin, ctx(0))
        .unwrap()
        .line;
    assert_eq!(forgive_debt(Some(closed), 5, ctx(0)).unwrap_err(), ContractError::CreditLineClosed);
}

// ── settle_default_liquidation ──────────────────────────────────────────────

fn defaulted_with_balance(balance: i128) -> Line {
    let line = drawn(open(10_000, 300, 50, 0), balance, 0);
    default_credit_line(Some(line), ctx(0)).unwrap().line
}

#[test]
fn partial_settlement_keeps_line_defaulted() {
    let line = defaulted_with_balance(1_000);
    let u = settle_default_liquidation(Some(line), 400, false, ctx(0)).unwrap();
    assert_eq!(u.line.utilized_amount, 600);
    assert_eq!(u.line.status, CreditStatus::Defaulted);
    assert_eq!(u.event, None);
}

#[test]
fn full_settlement_closes_line() {
    let line = defaulted_with_balance(1_000);
    let u = settle_default_liquidation(Some(line), 1_000, false, ctx(0)).unwrap();
    assert_eq!(u.line.utilized_amount, 0);
    assert_eq!(u.line.status, CreditStatus::Closed);
    assert_eq!(u.event, Some(LineEvent::Closed));
}

#[test]
fn settlement_rejections() {
    let line = defaulted_with_balance(1_000);
    assert_eq!(
        settle_default_liquidation(Some(line), 1_001, false, ctx(0)).unwrap_err(),
        ContractError::OverLimit
    );
    let line = defaulted_with_balance(1_000);
    assert_eq!(
        settle_default_liquidation(Some(line), 100, true, ctx(0)).unwrap_err(),
        ContractError::AlreadyInitialized
    );
    let line = defaulted_with_balance(1_000);
    assert_eq!(
        settle_default_liquidation(Some(line), 0, false, ctx(0)).unwrap_err(),
        ContractError::InvalidAmount
    );
    let line = open(1_000, 300, 50, 0);
    assert_eq!(
        settle_default_liquidation(Some(line), 10, false, ctx(0)).unwrap_err(),
        ContractError::CreditLineDefaulted
    );
}

// ── further properties on concrete values ──────────────────────────────────

#[test]
fn closed_line_does_not_accrue() {
    let line = drawn(open(10_000, 1_000, 50, 0), 5_000, 10);
    let closed = close_credit_line(Some(line), CloserRole::Admin, ctx(10)).unwrap().line;
    let (after, accrued) = apply_accrual(closed, 10 + 31_536_000, None).unwrap();
    assert_eq!(accrued, 0);
    assert_eq!(after.utilized_amount, 5_000);
    assert_eq!(after.last_accrual_ts, 10);
}

#[test]
fn closed_line_refuses_other_operations() {
    let closed = close_credit_line(Some(open(10_000, 300, 50, 0)), CloserRole::Admin, ctx(0))
        .unwrap()
        .line;
    let u = update(closed, 1, 300, 50, ctx(0)).unwrap();
    assert_eq!(u.line.status, CreditStatus::Closed);
    let r = suspend_credit_line(Some(u.line), ctx(0));
    assert_eq!(r.unwrap_err(), ContractError::CreditLineSuspended);
    let closed = close_credit_line(Some(open(10_000, 300, 50, 0)), CloserRole::Admin, ctx(0))
        .unwrap()
        .line;
    let r = reinstate_credit_line(Some(closed), CreditStatus::Active, ctx(0));
    assert_eq!(r.unwrap_err(), ContractError::CreditLineDefaulted);
}

#[test]
fn first_touch_sets_checkpoint_without_interest() {
    let line = drawn(open(10_000, 1_000, 50, 0), 5_000, 0);
    assert_eq!(line.last_accrual_ts, 0);
    let u = update(line, 10_000, 1_000, 50, ctx(31_536_000)).unwrap();
    assert_eq!(u.accrued, 0);
    assert_eq!(u.line.last_accrual_ts, 31_536_000);
    assert_eq!(u.line.utilized_amount, 5_000);
}

#[test]
fn reduced_rate_charges_less_than_no_waiver() {
    let with_waiver = {
        let line = setup_suspended(1_000_000, 100_000, 1_000, 1);
        let c = ctx_grace(47_304_001, reduced_rate(31_536_000, 200));
        update(line, 1_000_000, 1_000, 50, c).unwrap().accrued
    };
    let without = {
        let line = setup_suspended(1_000_000, 100_000, 1_000, 1);
        update(line, 1_000_000, 1_000, 50, ctx(47_304_001)).unwrap().accrued
    };
    assert_eq!(with_waiver, 7_000);
    assert_eq!(without, 15_000);
    assert!(with_waiver <= without);
}

#[test]
fn suspension_keeps_terms() {
    let line = drawn(open(10_000, 450, 33, 0), 2_000, 5);
    let u = suspend_credit_line(Some(line), ctx(5)).unwrap();
    assert_eq!(u.line.borrower, BORROWER);
    assert_eq!(u.line.credit_limit, 10_000);
    assert_eq!(u.line.interest_rate_bps, 450);
    assert_eq!(u.line.risk_score, 33);
    assert_eq!(u.line.utilized_amount, 2_000);
    assert_eq!(u.line.status, CreditStatus::Suspended);
    assert_eq!(u.line.suspension_ts, 5);
}
