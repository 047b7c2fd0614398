//! Global draw-freeze switch.
//!
//! An admin-only emergency control that blocks every draw contract-wide while
//! liquidity reserve operations are underway. The flag defaults to `false`
//! (draws allowed) when it was never stored, does not touch any credit line,
//! and never blocks repayments. Setting the flag to the value it already has
//! is a no-op that publishes no event.
use vstd::prelude::*;

verus! {

/// Result of toggling the draw-freeze flag.
#[derive(Clone, Copy, Debug, PartialEq, Eq, Structural)]
pub struct DrawFreezeUpdate {
    /// Flag value to store.
    pub frozen: bool,
    /// Whether the flag changed, so that an event is published.
    pub publish_event: bool,
}

/// The stored flag, `false` when it was never stored.
pub open spec fn frozen_flag(stored: Option<bool>) -> bool {
    match stored {
        Some(b) => b,
        None => false,
    }
}

/// Returns `true` when draws are globally frozen; `false` when the flag was
/// never set.
pub fn is_draws_frozen(stored: Option<bool>) -> (r: bool)
    ensures
        r == frozen_flag(stored),
{
    match stored {
        Some(b) => b,
        None => false,
    }
}

/// Freeze all draws globally (admin only; the caller checks the admin's
/// authorization). Publishes an event only when draws were not frozen yet.
pub fn freeze_draws(stored: Option<bool>) -> (r: DrawFreezeUpdate)
    ensures
        r.frozen,
        r.publish_event == !frozen_flag(stored),
{
    DrawFreezeUpdate { frozen: true, publish_event: !is_draws_frozen(stored) }
}

/// Unfreeze draws globally (admin only; the caller checks the admin's
/// authorization). Publishes an event only when draws were frozen.
pub fn unfreeze_draws(stored: Option<bool>) -> (r: DrawFreezeUpdate)
    ensures
        !r.frozen,
        r.publish_event == frozen_flag(stored),
{
    DrawFreezeUpdate { frozen: false, publish_event: is_draws_frozen(stored) }
}

} // verus!
