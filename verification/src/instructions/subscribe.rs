//! Buying a subscription.

use crate::errors::SubscriptionsDappError;
use crate::state::{
    expiry_fits, expiry_is_in_range, expiry_of, CreatorProfile, Pubkey, Subscription,
    SECONDS_PER_DAY,
};
use vstd::prelude::*;

verus! {

/// Who subscribes, and to which plan.
#[derive(Clone, Copy, Debug)]
pub struct Subscribe<'info> {
    /// The plan that sets the price and the duration.
    pub creator_profile: &'info CreatorProfile,
    /// The party who signs the request and pays.
    pub subscriber: Pubkey,
}

/// The subscription that `subscriber` gets at `current_time` to a plan of
/// `duration_days` days, recorded under the creator and plan number that the
/// subscriber named: it begins at `current_time` and runs out 86400 seconds
/// later for each day. There is none where it would run out after the last
/// moment that a timestamp can hold.
pub open spec fn bought_subscription(
    subscriber: Pubkey,
    creator: Pubkey,
    plan_id: u64,
    duration_days: u32,
    current_time: i64,
) -> Result<Subscription, SubscriptionsDappError> {
    if expiry_fits(current_time, duration_days) {
        Ok(
            Subscription {
                subscriber,
                creator,
                plan_id,
                expires_at: expiry_of(current_time, duration_days) as i64,
                created_at: current_time,
            },
        )
    } else {
        Err(SubscriptionsDappError::ExpiryOutOfRange)
    }
}

/// Makes the subscription that the signer of `ctx` gets at `current_time`.
///
/// The creator and the plan number are recorded as given: they are not held
/// against the plan in `ctx`.
pub fn subscribe_at(ctx: &Subscribe, plan_id: u64, creator: Pubkey, current_time: i64) -> (outcome:
    Result<Subscription, SubscriptionsDappError>)
    ensures
        outcome == bought_subscription(
            ctx.subscriber,
            creator,
            plan_id,
            ctx.creator_profile.duration_days,
            current_time,
        ),
        outcome matches Ok(record) ==> {
            &&& record.expires_at == record.created_at + ctx.creator_profile.duration_days
                * SECONDS_PER_DAY
            &&& record.expires_at >= record.created_at
            &&& ctx.creator_profile.duration_days > 0 ==> record.expires_at > record.created_at
        },
{
    if !expiry_is_in_range(current_time, ctx.creator_profile.duration_days) {
        return Err(SubscriptionsDappError::ExpiryOutOfRange);
    }
    let duration_seconds: i64 = (ctx.creator_profile.duration_days as i64) * SECONDS_PER_DAY;
    Ok(
        Subscription {
            subscriber: ctx.subscriber,
            creator,
            plan_id,
            expires_at: current_time + duration_seconds,
            created_at: current_time,
        },
    )
}

} // verus!
