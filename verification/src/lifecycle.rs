//! Credit-line lifecycle: open, suspend, close, default, forgive, settle a
//! liquidation, and reinstate.
//!
//! Each operation is a decision over the stored line (if any) and the ledger
//! context. It returns the line to store, the interest its accrual step
//! materialized and the credit-line event to publish, or the error that
//! rejects the operation. Authorization, storage and events are carried out
//! by the caller; an operation that needs the admin's authorization says so
//! in its documentation or its outcome.
use crate::accrual::{accrual_due, accrual_ok, accrue, accrued_line, apply_accrual};
use crate::risk::{MAX_INTEREST_RATE_BPS, MAX_RISK_SCORE};
use crate::types::{ContractError, CreditLineData, CreditStatus, LedgerContext};
use vstd::prelude::*;

verus! {

/// Credit-line event that an operation publishes.
#[derive(Clone, Copy, Debug, PartialEq, Eq, Structural)]
pub enum LineEvent {
    /// A line was opened.
    Opened,
    /// A line was suspended by the admin.
    Suspended,
    /// A line was suspended by its borrower.
    SelfSuspended,
    /// A line was closed.
    Closed,
    /// A line defaulted; a liquidation is requested for its balance.
    Defaulted,
    /// A defaulted line was reinstated.
    Reinstated,
    /// Limit, rate and score were updated.
    RiskParametersUpdated,
}

/// The line to store after an operation, with what it produced.
#[derive(Debug)]
pub struct LineUpdate<A> {
    /// Line to store.
    pub line: CreditLineData<A>,
    /// Interest materialized by the accrual step.
    pub accrued: i128,
    /// Credit-line event to publish, if any.
    pub event: Option<LineEvent>,
}

/// Who asks to close a line, in the order the roles are checked.
#[derive(Clone, Copy, Debug, PartialEq, Eq, Structural)]
pub enum CloserRole {
    /// The contract admin.
    Admin,
    /// The line's borrower (and not the admin).
    Borrower,
    /// Anyone else.
    Other,
}

/// The result of opening a line.
#[derive(Debug)]
pub struct OpenOutcome<A> {
    /// Line to store.
    pub line: CreditLineData<A>,
    /// Whether the admin must authorize this open (it replaces a stored line).
    pub requires_admin_auth: bool,
}

/// A fresh active line for `borrower`.
pub open spec fn fresh_line<A>(
    borrower: A,
    credit_limit: i128,
    interest_rate_bps: u32,
    risk_score: u32,
    now: u64,
) -> CreditLineData<A> {
    CreditLineData {
        borrower,
        credit_limit,
        utilized_amount: 0,
        interest_rate_bps,
        risk_score,
        status: CreditStatus::Active,
        last_rate_update_ts: 0,
        accrued_interest: 0,
        last_accrual_ts: now,
        suspension_ts: 0,
    }
}

/// Outcome of `open_credit_line`.
pub open spec fn open_result<A>(
    stored: Option<CreditLineData<A>>,
    borrower: A,
    credit_limit: i128,
    interest_rate_bps: u32,
    risk_score: u32,
    ctx: LedgerContext,
) -> Result<OpenOutcome<A>, ContractError> {
    if ctx.paused {
        Err(ContractError::Paused)
    } else if credit_limit <= 0 {
        Err(ContractError::InvalidAmount)
    } else if interest_rate_bps > MAX_INTEREST_RATE_BPS {
        Err(ContractError::RateTooHigh)
    } else if risk_score > MAX_RISK_SCORE {
        Err(ContractError::ScoreTooHigh)
    } else if stored matches Some(l) && l.status == CreditStatus::Active {
        Err(ContractError::AlreadyInitialized)
    } else {
        Ok(
            OpenOutcome {
                line: fresh_line(borrower, credit_limit, interest_rate_bps, risk_score, ctx.now),
                requires_admin_auth: stored is Some,
            },
        )
    }
}

/// Open a new credit line, or replace a stored line that is not active.
///
/// Replacing a stored line needs the admin's authorization, so that a
/// borrower cannot suspend their line and then reactivate it themselves. The
/// caller publishes an `Opened` event.
pub fn open_credit_line<A>(
    stored: Option<CreditLineData<A>>,
    borrower: A,
    credit_limit: i128,
    interest_rate_bps: u32,
    risk_score: u32,
    ctx: LedgerContext,
) -> (r: Result<OpenOutcome<A>, ContractError>)
    ensures
        r == open_result(stored, borrower, credit_limit, interest_rate_bps, risk_score, ctx),
{
    if ctx.paused {
        return Err(ContractError::Paused);
    }
    if credit_limit <= 0 {
        return Err(ContractError::InvalidAmount);
    }
    if interest_rate_bps > MAX_INTEREST_RATE_BPS {
        return Err(ContractError::RateTooHigh);
    }
    if risk_score > MAX_RISK_SCORE {
        return Err(ContractError::ScoreTooHigh);
    }
    let requires_admin_auth = match &stored {
        Some(existing) => {
            if existing.status == CreditStatus::Active {
                return Err(ContractError::AlreadyInitialized);
            }
            true
        },
        None => false,
    };
    let line = CreditLineData {
        borrower,
        credit_limit,
        utilized_amount: 0,
        interest_rate_bps,
        risk_score,
        status: CreditStatus::Active,
        last_rate_update_ts: 0,
        accrued_interest: 0,
        last_accrual_ts: ctx.now,
        suspension_ts: 0,
    };
    Ok(OpenOutcome { line, requires_admin_auth })
}

/// Outcome of suspending a line.
pub open spec fn suspend_result<A>(stored: Option<CreditLineData<A>>, ctx: LedgerContext) -> Result<
    LineUpdate<A>,
    ContractError,
> {
    if ctx.paused {
        Err(ContractError::Paused)
    } else {
        match stored {
            None => Err(ContractError::CreditLineNotFound),
            Some(line) => if !accrual_ok(line, ctx.now, ctx.grace) {
                Err(ContractError::Overflow)
            } else {
                let l = accrued_line(line, ctx.now, ctx.grace);
                if l.status != CreditStatus::Active {
                    Err(ContractError::CreditLineSuspended)
                } else if ctx.now < l.suspension_ts {
                    Err(ContractError::TimestampRegression)
                } else {
                    Ok(
                        LineUpdate {
                            line: CreditLineData {
                                status: CreditStatus::Suspended,
                                suspension_ts: ctx.now,
                                ..l
                            },
                            accrued: accrual_due(line, ctx.now, ctx.grace).unwrap() as i128,
                            event: Some(LineEvent::Suspended),
                        },
                    )
                }
            },
        }
    }
}

/// `Active -> Suspended`, recording the suspension time, after accruing interest.
pub fn suspend_credit_line_internal<A>(stored: Option<CreditLineData<A>>, ctx: LedgerContext) -> (r:
    Result<LineUpdate<A>, ContractError>)
    ensures
        r == suspend_result(stored, ctx),
{
    if ctx.paused {
        return Err(ContractError::Paused);
    }
    let stored_line = match stored {
        None => {
            return Err(ContractError::CreditLineNotFound);
        },
        Some(l) => l,
    };
    let (mut line, accrued) = match apply_accrual(stored_line, ctx.now, ctx.grace) {
        Ok(p) => p,
        Err(e) => {
            return Err(e);
        },
    };
    if line.status != CreditStatus::Active {
        return Err(ContractError::CreditLineSuspended);
    }
    if ctx.now < line.suspension_ts {
        return Err(ContractError::TimestampRegression);
    }
    line.status = CreditStatus::Suspended;
    line.suspension_ts = ctx.now;
    Ok(LineUpdate { line, accrued, event: Some(LineEvent::Suspended) })
}

/// Suspend a credit line temporarily (admin only; the caller checks the
/// admin's authorization). `Active -> Suspended`.
pub fn suspend_credit_line<A>(stored: Option<CreditLineData<A>>, ctx: LedgerContext) -> (r: Result<
    LineUpdate<A>,
    ContractError,
>)
    ensures
        r == suspend_result(stored, ctx),
{
    suspend_credit_line_internal(stored, ctx)
}

/// Outcome of `self_suspend_credit_line`: that of a suspension, published as
/// a self-suspension.
pub open spec fn self_suspend_result<A>(stored: Option<CreditLineData<A>>, ctx: LedgerContext) -> Result<
    LineUpdate<A>,
    ContractError,
> {
    match suspend_result(stored, ctx) {
        Ok(u) => Ok(LineUpdate { event: Some(LineEvent::SelfSuspended), ..u }),
        Err(e) => Err(e),
    }
}

/// Suspend the caller's own active credit line (the caller checks the
/// borrower's authorization). `Active -> Suspended`, like the admin's
/// suspension, but published as a self-suspension. Blocks future draws while
/// repayments stay available; reactivation needs the admin.
pub fn self_suspend_credit_line<A>(stored: Option<CreditLineData<A>>, ctx: LedgerContext) -> (r:
    Result<LineUpdate<A>, ContractError>)
    ensures
        r == self_suspend_result(stored, ctx),
{
    match suspend_credit_line_internal(stored, ctx) {
        Ok(u) => Ok(LineUpdate { line: u.line, accrued: u.accrued, event: Some(LineEvent::SelfSuspended) }),
        Err(e) => Err(e),
    }
}

/// Outcome of `close_credit_line`.
pub open spec fn close_result<A>(
    stored: Option<CreditLineData<A>>,
    closer: CloserRole,
    ctx: LedgerContext,
) -> Result<LineUpdate<A>, ContractError> {
    if ctx.paused {
        Err(ContractError::Paused)
    } else {
        match stored {
            None => Err(ContractError::CreditLineNotFound),
            Some(line) => if line.status == CreditStatus::Closed {
                Ok(LineUpdate { line, accrued: 0, event: None })
            } else if closer == CloserRole::Borrower && line.utilized_amount != 0 {
                Err(ContractError::UtilizationNotZero)
            } else if closer == CloserRole::Other {
                Err(ContractError::Unauthorized)
            } else if !accrual_ok(line, ctx.now, ctx.grace) {
                Err(ContractError::Overflow)
            } else {
                Ok(
                    LineUpdate {
                        line: CreditLineData {
                            status: CreditStatus::Closed,
                            ..accrued_line(line, ctx.now, ctx.grace)
                        },
                        accrued: accrual_due(line, ctx.now, ctx.grace).unwrap() as i128,
                        event: Some(LineEvent::Closed),
                    },
                )
            },
        }
    }
}

/// Close a credit line permanently.
///
/// The admin may always close; the borrower only when nothing is owed;
/// anyone else is refused. Closing an already closed line changes nothing
/// and publishes no event. Interest is accrued before the line closes. A
/// closed line can be replaced by a new `open_credit_line`.
pub fn close_credit_line<A>(stored: Option<CreditLineData<A>>, closer: CloserRole, ctx: LedgerContext) -> (r:
    Result<LineUpdate<A>, ContractError>)
    ensures
        r == close_result(stored, closer, ctx),
{
    if ctx.paused {
        return Err(ContractError::Paused);
    }
    let line = match stored {
        None => {
            return Err(ContractError::CreditLineNotFound);
        },
        Some(l) => l,
    };
    if line.status == CreditStatus::Closed {
        return Ok(LineUpdate { line, accrued: 0, event: None });
    }
    match closer {
        CloserRole::Admin => {},
        CloserRole::Borrower => {
            if line.utilized_amount != 0 {
                return Err(ContractError::UtilizationNotZero);
            }
        },
        CloserRole::Other => {
            return Err(ContractError::Unauthorized);
        },
    }
    let (mut line, accrued) = match apply_accrual(line, ctx.now, ctx.grace) {
        Ok(p) => p,
        Err(e) => {
            return Err(e);
        },
    };
    line.status = CreditStatus::Closed;
    Ok(LineUpdate { line, accrued, event: Some(LineEvent::Closed) })
}

/// Outcome of `default_credit_line`.
pub open spec fn default_result<A>(stored: Option<CreditLineData<A>>, ctx: LedgerContext) -> Result<
    LineUpdate<A>,
    ContractError,
> {
    if ctx.paused {
        Err(ContractError::Paused)
    } else {
        match stored {
            None => Err(ContractError::CreditLineNotFound),
            Some(line) => if line.status == CreditStatus::Closed {
                Err(ContractError::CreditLineClosed)
            } else if !accrual_ok(line, ctx.now, ctx.grace) {
                Err(ContractError::Overflow)
            } else if line.status == CreditStatus::Defaulted {
                Ok(LineUpdate { line, accrued: 0, event: None })
            } else {
                Ok(
                    LineUpdate {
                        line: CreditLineData {
                            status: CreditStatus::Defaulted,
                            ..accrued_line(line, ctx.now, ctx.grace)
                        },
                        accrued: accrual_due(line, ctx.now, ctx.grace).unwrap() as i128,
                        event: Some(LineEvent::Defaulted),
                    },
                )
            },
        }
    }
}

/// Mark a credit line as defaulted (admin only; the caller checks the admin's
/// authorization). `Active`, `Suspended` or `Restricted -> Defaulted`, after
/// accruing interest. Defaulting a defaulted line leaves the stored line as
/// it is and publishes nothing. The `Defaulted` event also requests the
/// liquidation of the line's balance.
pub fn default_credit_line<A>(stored: Option<CreditLineData<A>>, ctx: LedgerContext) -> (r: Result<
    LineUpdate<A>,
    ContractError,
>)
    ensures
        r == default_result(stored, ctx),
{
    if ctx.paused {
        return Err(ContractError::Paused);
    }
    let line = match stored {
        None => {
            return Err(ContractError::CreditLineNotFound);
        },
        Some(l) => l,
    };
    if line.status == CreditStatus::Closed {
        return Err(ContractError::CreditLineClosed);
    }
    let u = match accrue(&line, ctx.now, ctx.grace) {
        Ok(u) => u,
        Err(e) => {
            return Err(e);
        },
    };
    if line.status == CreditStatus::Defaulted {
        return Ok(LineUpdate { line, accrued: 0, event: None });
    }
    let accrued = u.accrued;
    let line = CreditLineData {
        utilized_amount: u.utilized_amount,
        accrued_interest: u.accrued_interest,
        last_accrual_ts: u.last_accrual_ts,
        status: CreditStatus::Defaulted,
        ..line
    };
    Ok(LineUpdate { line, accrued, event: Some(LineEvent::Defaulted) })
}

/// `a - b` when it fits in `i128`, else 0.
pub open spec fn sub_or_zero(a: int, b: int) -> int {
    if i128::MIN <= a - b <= i128::MAX {
        a - b
    } else {
        0
    }
}

/// Outcome of `forgive_debt`.
pub open spec fn forgive_result<A>(stored: Option<CreditLineData<A>>, amount: i128, ctx: LedgerContext) -> Result<
    LineUpdate<A>,
    ContractError,
> {
    if ctx.paused {
        Err(ContractError::Paused)
    } else if amount <= 0 {
        Err(ContractError::InvalidAmount)
    } else {
        match stored {
            None => Err(ContractError::CreditLineNotFound),
            Some(line) => if line.status == CreditStatus::Closed {
                Err(ContractError::CreditLineClosed)
            } else if !accrual_ok(line, ctx.now, ctx.grace) {
                Err(ContractError::Overflow)
            } else {
                let l = accrued_line(line, ctx.now, ctx.grace);
                let forgiven = if amount < l.utilized_amount {
                    amount as int
                } else {
                    l.utilized_amount as int
                };
                let interest_forgiven = if forgiven < l.accrued_interest {
                    forgiven
                } else {
                    l.accrued_interest as int
                };
                Ok(
                    LineUpdate {
                        line: CreditLineData {
                            accrued_interest: sub_or_zero(
                                l.accrued_interest as int,
                                interest_forgiven,
                            ) as i128,
                            utilized_amount: sub_or_zero(l.utilized_amount as int, forgiven) as i128,
                            ..l
                        },
                        accrued: accrual_due(line, ctx.now, ctx.grace).unwrap() as i128,
                        event: None,
                    },
                )
            },
        }
    }
}

/// Forgive outstanding debt without moving tokens (admin only; the caller
/// checks the admin's authorization).
///
/// After accruing interest, the forgiven amount is capped to the balance; it
/// is taken from the accrued interest first as far as that goes, and from the
/// balance in full. No event is published.
pub fn forgive_debt<A>(stored: Option<CreditLineData<A>>, amount: i128, ctx: LedgerContext) -> (r: Result<
    LineUpdate<A>,
    ContractError,
>)
    ensures
        r == forgive_result(stored, amount, ctx),
{
    if ctx.paused {
        return Err(ContractError::Paused);
    }
    if amount <= 0 {
        return Err(ContractError::InvalidAmount);
    }
    let stored_line = match stored {
        None => {
            return Err(ContractError::CreditLineNotFound);
        },
        Some(l) => l,
    };
    if stored_line.status == CreditStatus::Closed {
        return Err(ContractError::CreditLineClosed);
    }
    let (mut line, accrued) = match apply_accrual(stored_line, ctx.now, ctx.grace) {
        Ok(p) => p,
        Err(e) => {
            return Err(e);
        },
    };
    let effective_forgive = if amount < line.utilized_amount {
        amount
    } else {
        line.utilized_amount
    };
    let interest_forgiven = if effective_forgive < line.accrued_interest {
        effective_forgive
    } else {
        line.accrued_interest
    };
    line.accrued_interest = match line.accrued_interest.checked_sub(interest_forgiven) {
        Some(v) => v,
        None => 0,
    };
    line.utilized_amount = match line.utilized_amount.checked_sub(effective_forgive) {
        Some(v) => v,
        None => 0,
    };
    Ok(LineUpdate { line, accrued, event: None })
}

/// Outcome of `settle_default_liquidation`.
pub open spec fn settle_result<A>(
    stored: Option<CreditLineData<A>>,
    recovered_amount: i128,
    already_settled: bool,
    ctx: LedgerContext,
) -> Result<LineUpdate<A>, ContractError> {
    if recovered_amount <= 0 {
        Err(ContractError::InvalidAmount)
    } else if already_settled {
        Err(ContractError::AlreadyInitialized)
    } else {
        match stored {
            None => Err(ContractError::CreditLineNotFound),
            Some(line) => if !accrual_ok(line, ctx.now, ctx.grace) {
                Err(ContractError::Overflow)
            } else {
                let l = accrued_line(line, ctx.now, ctx.grace);
                if l.status != CreditStatus::Defaulted {
                    Err(ContractError::CreditLineDefaulted)
                } else if recovered_amount > l.utilized_amount {
                    Err(ContractError::OverLimit)
                } else {
                    let remaining = l.utilized_amount - recovered_amount;
                    Ok(
                        LineUpdate {
                            line: CreditLineData {
                                utilized_amount: remaining as i128,
                                status: if remaining == 0 {
                                    CreditStatus::Closed
                                } else {
                                    CreditStatus::Defaulted
                                },
                                ..l
                            },
                            accrued: accrual_due(line, ctx.now, ctx.grace).unwrap() as i128,
                            event: if remaining == 0 {
                                Some(LineEvent::Closed)
                            } else {
                                None
                            },
                        },
                    )
                }
            },
        }
    }
}

/// Apply auction liquidation proceeds to a defaulted credit line (admin only;
/// the caller checks the admin's authorization). Accounting only: no tokens
/// move.
///
/// `already_settled` tells whether this settlement id was applied to this
/// borrower before; a settlement is applied at most once. After accruing
/// interest, the recovered amount is taken from the balance; a line paid off
/// in full closes. The caller records the settlement id and publishes the
/// settlement event (and a `Closed` event when the outcome carries one).
pub fn settle_default_liquidation<A>(
    stored: Option<CreditLineData<A>>,
    recovered_amount: i128,
    already_settled: bool,
    ctx: LedgerContext,
) -> (r: Result<LineUpdate<A>, ContractError>)
    ensures
        r == settle_result(stored, recovered_amount, already_settled, ctx),
{
    if recovered_amount <= 0 {
        return Err(ContractError::InvalidAmount);
    }
    if already_settled {
        return Err(ContractError::AlreadyInitialized);
    }
    let stored_line = match stored {
        None => {
            return Err(ContractError::CreditLineNotFound);
        },
        Some(l) => l,
    };
    let (mut line, accrued) = match apply_accrual(stored_line, ctx.now, ctx.grace) {
        Ok(p) => p,
        Err(e) => {
            return Err(e);
        },
    };
    if line.status != CreditStatus::Defaulted {
        return Err(ContractError::CreditLineDefaulted);
    }
    if recovered_amount > line.utilized_amount {
        return Err(ContractError::OverLimit);
    }
    line.utilized_amount = line.utilized_amount - recovered_amount;
    let event = if line.utilized_amount == 0 {
        line.status = CreditStatus::Closed;
        Some(LineEvent::Closed)
    } else {
        None
    };
    Ok(LineUpdate { line, accrued, event })
}

/// Outcome of `reinstate_credit_line`.
pub open spec fn reinstate_result<A>(
    stored: Option<CreditLineData<A>>,
    target_status: CreditStatus,
    ctx: LedgerContext,
) -> Result<LineUpdate<A>, ContractError> {
    if ctx.paused {
        Err(ContractError::Paused)
    } else if target_status != CreditStatus::Active && target_status != CreditStatus::Restricted {
        Err(ContractError::InvalidAmount)
    } else {
        match stored {
            None => Err(ContractError::CreditLineNotFound),
            Some(line) => if !accrual_ok(line, ctx.now, ctx.grace) {
                Err(ContractError::Overflow)
            } else {
                let l = accrued_line(line, ctx.now, ctx.grace);
                if l.status != CreditStatus::Defaulted {
                    Err(ContractError::CreditLineDefaulted)
                } else {
                    Ok(
                        LineUpdate {
                            line: CreditLineData { status: target_status, suspension_ts: 0, ..l },
                            accrued: accrual_due(line, ctx.now, ctx.grace).unwrap() as i128,
                            event: Some(LineEvent::Reinstated),
                        },
                    )
                }
            },
        }
    }
}

/// Reinstate a `Defaulted` credit line to `Active` or `Restricted` (admin
/// only; the caller checks the admin's authorization), after accruing
/// interest. Clears the suspension time.
pub fn reinstate_credit_line<A>(
    stored: Option<CreditLineData<A>>,
    target_status: CreditStatus,
    ctx: LedgerContext,
) -> (r: Result<LineUpdate<A>, ContractError>)
    ensures
        r == reinstate_result(stored, target_status, ctx),
{
    if ctx.paused {
        return Err(ContractError::Paused);
    }
    if target_status != CreditStatus::Active && target_status != CreditStatus::Restricted {
        return Err(ContractError::InvalidAmount);
    }
    let stored_line = match stored {
        None => {
            return Err(ContractError::CreditLineNotFound);
        },
        Some(l) => l,
    };
    let (mut line, accrued) = match apply_accrual(stored_line, ctx.now, ctx.grace) {
        Ok(p) => p,
        Err(e) => {
            return Err(e);
        },
    };
    if line.status != CreditStatus::Defaulted {
        return Err(ContractError::CreditLineDefaulted);
    }
    line.status = target_status;
    line.suspension_ts = 0;
    Ok(LineUpdate { line, accrued, event: Some(LineEvent::Reinstated) })
}

} // verus!
