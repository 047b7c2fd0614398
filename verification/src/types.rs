//! Data types shared by the credit-line logic.
use vstd::prelude::*;

verus! {

/// Errors of the credit logic. Each has a stable numeric code (see `code`),
/// starting at 1, that integrators rely on.
#[derive(Clone, Copy, Debug, PartialEq, Eq, Structural)]
pub enum ContractError {
    /// Caller is not authorized for this action.
    Unauthorized,
    /// Caller is not the admin.
    NotAdmin,
    /// No credit line exists for the borrower.
    CreditLineNotFound,
    /// The credit line is closed.
    CreditLineClosed,
    /// An amount or credit limit is not positive, or a target status is invalid.
    InvalidAmount,
    /// The amount exceeds what the line allows.
    OverLimit,
    /// The credit limit is negative.
    NegativeLimit,
    /// The interest rate exceeds the maximum, or a rate change is not allowed.
    RateTooHigh,
    /// The risk score exceeds the maximum.
    ScoreTooHigh,
    /// The line still has an outstanding balance.
    UtilizationNotZero,
    /// A reentrant call was detected.
    Reentrancy,
    /// An arithmetic result does not fit.
    Overflow,
    /// A limit decrease needs a repayment first.
    LimitDecreaseRequiresRepayment,
    /// The line (or marker) already exists.
    AlreadyInitialized,
    /// An admin transfer was accepted too early.
    AdminAcceptTooEarly,
    /// The borrower is blocked.
    BorrowerBlocked,
    /// The draw exceeds the configured maximum.
    DrawExceedsMaxAmount,
    /// The protocol is paused.
    Paused,
    /// Draws are frozen.
    DrawsFrozen,
    /// The line is suspended (or otherwise not active).
    CreditLineSuspended,
    /// The line is not in the defaulted state this action needs.
    CreditLineDefaulted,
    /// No liquidity token is configured.
    MissingLiquidityToken,
    /// No liquidity source is configured.
    MissingLiquiditySource,
    /// The liquidity reserve is too small.
    InsufficientLiquidityReserve,
    /// A call into the liquidity token failed.
    LiquidityTokenCallFailed,
    /// The repayment allowance is too small.
    InsufficientRepaymentAllowance,
    /// The repayment balance is too small.
    InsufficientRepaymentBalance,
    /// The repayment exceeds the configured maximum.
    RepayExceedsMaxAmount,
    /// The draw cooldown has not elapsed.
    DrawCooldownActive,
    /// A stored timestamp would move backwards.
    TimestampRegression,
}

/// The stable numeric code of each error.
pub open spec fn error_code(e: ContractError) -> u32 {
    match e {
        ContractError::Unauthorized => 1,
        ContractError::NotAdmin => 2,
        ContractError::CreditLineNotFound => 3,
        ContractError::CreditLineClosed => 4,
        ContractError::InvalidAmount => 5,
        ContractError::OverLimit => 6,
        ContractError::NegativeLimit => 7,
        ContractError::RateTooHigh => 8,
        ContractError::ScoreTooHigh => 9,
        ContractError::UtilizationNotZero => 10,
        ContractError::Reentrancy => 11,
        ContractError::Overflow => 12,
        ContractError::LimitDecreaseRequiresRepayment => 13,
        ContractError::AlreadyInitialized => 14,
        ContractError::AdminAcceptTooEarly => 15,
        ContractError::BorrowerBlocked => 16,
        ContractError::DrawExceedsMaxAmount => 17,
        ContractError::Paused => 18,
        ContractError::DrawsFrozen => 19,
        ContractError::CreditLineSuspended => 20,
        ContractError::CreditLineDefaulted => 21,
        ContractError::MissingLiquidityToken => 22,
        ContractError::MissingLiquiditySource => 23,
        ContractError::InsufficientLiquidityReserve => 24,
        ContractError::LiquidityTokenCallFailed => 25,
        ContractError::InsufficientRepaymentAllowance => 26,
        ContractError::InsufficientRepaymentBalance => 27,
        ContractError::RepayExceedsMaxAmount => 28,
        ContractError::DrawCooldownActive => 29,
        ContractError::TimestampRegression => 30,
    }
}

impl ContractError {
    /// The stable numeric code of this error.
    pub fn code(&self) -> (c: u32)
        ensures
            c == error_code(*self),
    {
        match self {
            ContractError::Unauthorized => 1,
            ContractError::NotAdmin => 2,
            ContractError::CreditLineNotFound => 3,
            ContractError::CreditLineClosed => 4,
            ContractError::InvalidAmount => 5,
            ContractError::OverLimit => 6,
            ContractError::NegativeLimit => 7,
            ContractError::RateTooHigh => 8,
            ContractError::ScoreTooHigh => 9,
            ContractError::UtilizationNotZero => 10,
            ContractError::Reentrancy => 11,
            ContractError::Overflow => 12,
            ContractError::LimitDecreaseRequiresRepayment => 13,
            ContractError::AlreadyInitialized => 14,
            ContractError::AdminAcceptTooEarly => 15,
            ContractError::BorrowerBlocked => 16,
            ContractError::DrawExceedsMaxAmount => 17,
            ContractError::Paused => 18,
            ContractError::DrawsFrozen => 19,
            ContractError::CreditLineSuspended => 20,
            ContractError::CreditLineDefaulted => 21,
            ContractError::MissingLiquidityToken => 22,
            ContractError::MissingLiquiditySource => 23,
            ContractError::InsufficientLiquidityReserve => 24,
            ContractError::LiquidityTokenCallFailed => 25,
            ContractError::InsufficientRepaymentAllowance => 26,
            ContractError::InsufficientRepaymentBalance => 27,
            ContractError::RepayExceedsMaxAmount => 28,
            ContractError::DrawCooldownActive => 29,
            ContractError::TimestampRegression => 30,
        }
    }
}

/// No two errors share a code, and the codes are exactly 1 through 30.
pub proof fn lemma_error_codes_distinct(a: ContractError, b: ContractError)
    ensures
        error_code(a) == error_code(b) <==> a == b,
        1 <= error_code(a) <= 30,
{
}

/// Lifecycle status of a credit line.
#[derive(Clone, Copy, Debug, PartialEq, Eq, Structural)]
pub enum CreditStatus {
    /// Draws and repayments are allowed.
    Active,
    /// Draws are blocked; repayments are allowed.
    Suspended,
    /// The borrower defaulted; repayments and liquidation settlement are allowed.
    Defaulted,
    /// The line is terminated.
    Closed,
    /// The limit fell below the balance: draws are blocked until it is cured.
    Restricted,
}

/// A borrower's credit line. `A` is the type of the borrower's address.
#[derive(Debug)]
pub struct CreditLineData<A> {
    /// Borrower the line belongs to.
    pub borrower: A,
    /// Maximum amount that may be drawn.
    pub credit_limit: i128,
    /// Outstanding balance, interest included.
    pub utilized_amount: i128,
    /// Annual interest rate in basis points.
    pub interest_rate_bps: u32,
    /// Risk score on the 0-100 scale.
    pub risk_score: u32,
    /// Lifecycle status.
    pub status: CreditStatus,
    /// Ledger time of the last rate change (0 when never changed).
    pub last_rate_update_ts: u64,
    /// Interest materialized into the balance and not yet repaid.
    pub accrued_interest: i128,
    /// Accrual checkpoint (0 when not yet established).
    pub last_accrual_ts: u64,
    /// Ledger time of the last suspension (0 when not suspended).
    pub suspension_ts: u64,
}

/// How interest is waived while a suspended line is inside its grace window.
#[derive(Clone, Copy, Debug, PartialEq, Eq, Structural)]
pub enum GraceWaiverMode {
    /// No interest inside the grace window.
    FullWaiver,
    /// Interest at `reduced_rate_bps` inside the grace window.
    ReducedRate,
}

/// Grace-period policy for suspended lines.
#[derive(Clone, Copy, Debug, PartialEq, Eq, Structural)]
pub struct GracePeriodConfig {
    /// Length of the window after suspension; 0 disables the policy.
    pub grace_period_seconds: u64,
    /// Waiver applied inside the window.
    pub waiver_mode: GraceWaiverMode,
    /// Rate used inside the window in `ReducedRate` mode.
    pub reduced_rate_bps: u32,
}

/// Admin-configured guardrails on rate changes.
#[derive(Clone, Copy, Debug, PartialEq, Eq, Structural)]
pub struct RateChangeConfig {
    /// Largest allowed change of the rate in one update, in bps.
    pub max_rate_change_bps: u32,
    /// Minimum seconds between two rate changes (0 disables the check).
    pub rate_change_min_interval: u64,
}

/// Piecewise-linear formula that derives a rate from a risk score.
#[derive(Clone, Copy, Debug, PartialEq, Eq, Structural)]
pub struct RateFormulaConfig {
    /// Rate at score 0, in bps.
    pub base_rate_bps: u32,
    /// Rate added per score point, in bps.
    pub slope_bps_per_score: u32,
    /// Lower bound of the effective rate, in bps.
    pub min_rate_bps: u32,
    /// Upper bound of the effective rate, in bps.
    pub max_rate_bps: u32,
}

/// What the ledger tells a lifecycle or risk operation about its surroundings.
#[derive(Clone, Copy, Debug, PartialEq, Eq, Structural)]
pub struct LedgerContext {
    /// Current ledger timestamp.
    pub now: u64,
    /// Whether the protocol-wide pause is on.
    pub paused: bool,
    /// Grace-period policy, if configured.
    pub grace: Option<GracePeriodConfig>,
}

} // verus!
