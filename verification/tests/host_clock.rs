use subscriptions_dapp::errors::SubscriptionsDappError;
use subscriptions_dapp::instructions::{CheckSubscription, CreateSubscriptionPlan, Subscribe};
use subscriptions_dapp::state::{CreatorProfile, Pubkey, Subscription};
use subscriptions_dapp::{check_subscription, create_subscription_plan, subscribe};

fn signer(tag: u8) -> Pubkey {
    Pubkey::new_from_array([tag; 32])
}

// Outside a host there is no clock to ask: each instruction fails for want of a time.

#[test]
fn create_subscription_plan_without_a_host_clock() {
    let ctx = CreateSubscriptionPlan { creator: signer(1) };
    assert_eq!(
        create_subscription_plan(&ctx, 1, String::from("Gold"), 10, 30),
        Err(SubscriptionsDappError::ClockUnavailable)
    );
}

#[test]
fn subscribe_without_a_host_clock() {
    let plan = CreatorProfile {
        creator: signer(1),
        plan_id: 1,
        name: String::from("Gold"),
        price: 10,
        duration_days: 30,
        created_at: 0,
    };
    let ctx = Subscribe { creator_profile: &plan, subscriber: signer(2) };
    assert_eq!(subscribe(&ctx, 1, signer(1)), Err(SubscriptionsDappError::ClockUnavailable));
}

#[test]
fn check_subscription_without_a_host_clock() {
    let subscription = Subscription {
        subscriber: signer(2),
        creator: signer(1),
        plan_id: 1,
        expires_at: i64::MAX,
        created_at: 0,
    };
    let ctx = CheckSubscription { subscription };
    let outcome = check_subscription(&ctx);
    assert_eq!(outcome, Err(SubscriptionsDappError::ClockUnavailable));
    assert_ne!(outcome, Ok(false));
}
