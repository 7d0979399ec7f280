//! The three instructions, each as a function of what it is given and of the
//! time at which it runs.

pub mod check_subscription;
pub mod create_subscription_plan;
pub mod subscribe;

pub use check_subscription::{check_subscription_at, checked_at, CheckSubscription};
pub use create_subscription_plan::{
    create_subscription_plan_at, created_plan, plan_outcome_view, CreateSubscriptionPlan,
};
pub use subscribe::{bought_subscription, subscribe_at, Subscribe};
