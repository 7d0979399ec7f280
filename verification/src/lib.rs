//! Subscription plans and subscriptions on a keyed ledger.
//!
//! Creators register plans (a price and a length in days); subscribers pay a
//! plan's price to its creator and receive a subscription that runs out a fixed
//! time after it was bought. Every operation either commits in full or leaves
//! the ledger as it was.
//!
//! The instructions in [`instructions`] say what each request makes at a given
//! time; the functions of this module run them at the time of the host's
//! clock. [`ledger::Ledger`] keeps the records and the balances, [`model`]
//! says what each of its operations does, and [`laws`] what follows.

pub mod clock;
pub mod errors;
pub mod instructions;
pub mod keyed;
pub mod laws;
pub mod ledger;
pub mod model;
pub mod state;

use crate::clock::host_unix_timestamp;
use crate::errors::SubscriptionsDappError;
use crate::instructions::{
    bought_subscription, check_subscription_at, checked_at, create_subscription_plan_at,
    created_plan, plan_outcome_view, subscribe_at, CheckSubscription, CreateSubscriptionPlan,
    Subscribe,
};
use crate::state::{CreatorProfile, Pubkey, Subscription};
use vstd::prelude::*;

verus! {

/// Makes the plan that the signer of `ctx` asks for, created at the time of
/// the host's clock.
///
/// Where the host tells no time the request fails as `ClockUnavailable`. Else
/// the outcome is that of [`create_subscription_plan_at`] at the host's time.
pub fn create_subscription_plan(
    ctx: &CreateSubscriptionPlan,
    plan_id: u64,
    name: String,
    price: u64,
    duration_days: u32,
) -> (outcome: Result<CreatorProfile, SubscriptionsDappError>)
    ensures
        outcome == Err::<CreatorProfile, SubscriptionsDappError>(
            SubscriptionsDappError::ClockUnavailable,
        ) || exists|current_time: i64|
            plan_outcome_view(outcome) == #[trigger] created_plan(
                ctx.creator,
                plan_id,
                name@,
                price,
                duration_days,
                current_time,
            ),
{
    match host_unix_timestamp() {
        Err(_) => Err(SubscriptionsDappError::ClockUnavailable),
        Ok(current_time) => create_subscription_plan_at(
            ctx,
            plan_id,
            name,
            price,
            duration_days,
            current_time,
        ),
    }
}

/// Makes the subscription that the signer of `ctx` gets at the time of the
/// host's clock.
///
/// Where the host tells no time the request fails as `ClockUnavailable`. Else
/// the outcome is that of [`subscribe_at`] at the host's time.
pub fn subscribe(ctx: &Subscribe, plan_id: u64, creator: Pubkey) -> (outcome: Result<
    Subscription,
    SubscriptionsDappError,
>)
    ensures
        outcome == Err::<Subscription, SubscriptionsDappError>(
            SubscriptionsDappError::ClockUnavailable,
        ) || exists|current_time: i64|
            outcome == #[trigger] bought_subscription(
                ctx.subscriber,
                creator,
                plan_id,
                ctx.creator_profile.duration_days,
                current_time,
            ),
{
    match host_unix_timestamp() {
        Err(_) => Err(SubscriptionsDappError::ClockUnavailable),
        Ok(current_time) => subscribe_at(ctx, plan_id, creator, current_time),
    }
}

/// Checks the subscription in `ctx` at the time of the host's clock.
///
/// Where the host tells no time the check fails as `ClockUnavailable`. Else
/// the outcome is that of [`check_subscription_at`] at the host's time: `true`,
/// or a failure as `SubscriptionExpired`.
pub fn check_subscription(ctx: &CheckSubscription) -> (outcome: Result<
    bool,
    SubscriptionsDappError,
>)
    ensures
        outcome == Err::<bool, SubscriptionsDappError>(SubscriptionsDappError::ClockUnavailable)
            || exists|current_time: i64|
            outcome == #[trigger] checked_at(ctx.subscription, current_time),
        outcome != Ok::<bool, SubscriptionsDappError>(false),
{
    match host_unix_timestamp() {
        Err(_) => Err(SubscriptionsDappError::ClockUnavailable),
        Ok(current_time) => check_subscription_at(ctx, current_time),
    }
}

} // verus!
