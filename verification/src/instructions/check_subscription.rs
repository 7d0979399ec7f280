//! Asking whether a subscription is still active.

use crate::errors::SubscriptionsDappError;
use crate::state::Subscription;
use vstd::prelude::*;

verus! {

/// The subscription that is asked about.
#[derive(Clone, Copy, Debug)]
pub struct CheckSubscription {
    /// The stored subscription.
    pub subscription: Subscription,
}

/// What a check of `subscription` at `current_time` answers: `true` up to and
/// including the second at which it runs out, and a failure after that, never
/// `false`.
pub open spec fn checked_at(subscription: Subscription, current_time: i64) -> Result<
    bool,
    SubscriptionsDappError,
> {
    if subscription.active_at(current_time) {
        Ok(true)
    } else {
        Err(SubscriptionsDappError::SubscriptionExpired)
    }
}

/// Checks the subscription in `ctx` at `current_time`.
pub fn check_subscription_at(ctx: &CheckSubscription, current_time: i64) -> (outcome: Result<
    bool,
    SubscriptionsDappError,
>)
    ensures
        outcome == checked_at(ctx.subscription, current_time),
{
    if !ctx.subscription.is_active(current_time) {
        return Err(SubscriptionsDappError::SubscriptionExpired);
    }
    Ok(true)
}

} // verus!
