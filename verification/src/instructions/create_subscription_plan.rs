//! Creating a plan.

use crate::errors::SubscriptionsDappError;
use crate::state::{name_fits, name_is_short_enough, CreatorProfile, PlanView, Pubkey};
use vstd::prelude::*;

verus! {

/// Who asks for a plan to be created.
#[derive(Clone, Copy, Debug)]
pub struct CreateSubscriptionPlan {
    /// The creator who signs the request and will own the plan.
    pub creator: Pubkey,
}

/// The plan that `creator` gets at `current_time` for the given number, name,
/// price and duration, or the reason why there is none. Neither a price nor
/// a duration of zero is refused.
pub open spec fn created_plan(
    creator: Pubkey,
    plan_id: u64,
    name: Seq<char>,
    price: u64,
    duration_days: u32,
    current_time: i64,
) -> Result<PlanView, SubscriptionsDappError> {
    if name_fits(name) {
        Ok(
            PlanView {
                creator,
                plan_id,
                name,
                price,
                duration_days,
                created_at: current_time,
            },
        )
    } else {
        Err(SubscriptionsDappError::NameTooLong)
    }
}

/// A plan seen through its view, an error as it is.
pub open spec fn plan_outcome_view(
    outcome: Result<CreatorProfile, SubscriptionsDappError>,
) -> Result<PlanView, SubscriptionsDappError> {
    match outcome {
        Ok(plan) => Ok(plan@),
        Err(e) => Err(e),
    }
}

/// Makes the plan that the signer of `ctx` asks for at `current_time`.
pub fn create_subscription_plan_at(
    ctx: &CreateSubscriptionPlan,
    plan_id: u64,
    name: String,
    price: u64,
    duration_days: u32,
    current_time: i64,
) -> (outcome: Result<CreatorProfile, SubscriptionsDappError>)
    ensures
        plan_outcome_view(outcome) == created_plan(
            ctx.creator,
            plan_id,
            name@,
            price,
            duration_days,
            current_time,
        ),
{
    if !name_is_short_enough(&name) {
        return Err(SubscriptionsDappError::NameTooLong);
    }
    Ok(
        CreatorProfile {
            creator: ctx.creator,
            plan_id,
            name,
            price,
            duration_days,
            created_at: current_time,
        },
    )
}

} // verus!
