//! Verified core of a credit-line protocol: fixed-point interest math,
//! interest accrual, risk-driven rate updates, the credit-line lifecycle
//! state machine, and the global draw-freeze switch.
pub mod accrual;
pub mod freeze;
pub mod lifecycle;
pub mod math_utils;
pub mod risk;
pub mod types;
pub mod laws;
pub mod outcomes;
