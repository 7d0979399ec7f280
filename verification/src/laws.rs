//! What holds of the ledger's operations, whatever they are given.

use crate::errors::SubscriptionsDappError;
use crate::model::LedgerView;
use crate::state::{
    expiry_fits, expiry_of, name_fits, PlanView, Pubkey, Subscription, SECONDS_PER_DAY,
};
use vstd::prelude::*;

verus! {

/// The empty ledger is valid.
pub proof fn empty_is_valid()
    ensures
        LedgerView::empty().valid(),
{
}

/// A deposit keeps a valid ledger valid. It adds the amount to the party's
/// balance and to the supply, and changes nothing else.
pub proof fn deposit_keeps_valid(ledger: LedgerView, party: Pubkey, amount: u64)
    requires
        ledger.valid(),
    ensures
        ledger.deposit(party, amount).valid(),
        ledger.can_deposit(amount) ==> ledger.deposit(party, amount).balance(party)
            == ledger.balance(party) + amount,
        forall|other: Pubkey|
            other != party ==> ledger.deposit(party, amount).balance(other) == ledger.balance(
                other,
            ),
        ledger.deposit(party, amount).plans == ledger.plans,
        ledger.deposit(party, amount).subscriptions == ledger.subscriptions,
{
}

/// Creating a plan keeps a valid ledger valid, and touches neither the
/// subscriptions nor any balance.
pub proof fn create_plan_keeps_valid(
    ledger: LedgerView,
    owner: Pubkey,
    plan_id: u64,
    name: Seq<char>,
    price: u64,
    duration_days: u32,
    current_time: i64,
)
    requires
        ledger.valid(),
    ensures
        ledger.create_plan(owner, plan_id, name, price, duration_days, current_time).valid(),
        ledger.create_plan(owner, plan_id, name, price, duration_days, current_time).subscriptions
            == ledger.subscriptions,
        ledger.create_plan(owner, plan_id, name, price, duration_days, current_time).balances
            == ledger.balances,
        ledger.create_plan(owner, plan_id, name, price, duration_days, current_time).supply
            == ledger.supply,
{
}

/// A plan that was created reads back with the values it was created with,
/// and with the time of its creation.
pub proof fn created_plan_reads_back(
    ledger: LedgerView,
    owner: Pubkey,
    plan_id: u64,
    name: Seq<char>,
    price: u64,
    duration_days: u32,
    current_time: i64,
)
    requires
        !ledger.plans.contains_key((owner, plan_id)),
        name_fits(name),
    ensures
        ({
            let plan = PlanView {
                creator: owner,
                plan_id,
                name,
                price,
                duration_days,
                created_at: current_time,
            };
            let after = ledger.create_plan(
                owner,
                plan_id,
                name,
                price,
                duration_days,
                current_time,
            );
            &&& ledger.create_plan_outcome(
                owner,
                plan_id,
                name,
                price,
                duration_days,
                current_time,
            ) == Ok::<PlanView, SubscriptionsDappError>(plan)
            &&& after.plans.contains_key((owner, plan_id))
            &&& after.plans[(owner, plan_id)] == plan
        }),
{
}

/// Creating a plan under a key that holds one is refused, whatever the
/// second request asks for, and leaves the ledger, the first plan with it, as
/// it was.
pub proof fn second_plan_is_refused(
    ledger: LedgerView,
    owner: Pubkey,
    plan_id: u64,
    name: Seq<char>,
    price: u64,
    duration_days: u32,
    current_time: i64,
)
    requires
        ledger.plans.contains_key((owner, plan_id)),
    ensures
        ledger.create_plan_outcome(owner, plan_id, name, price, duration_days, current_time)
            == Err::<PlanView, SubscriptionsDappError>(SubscriptionsDappError::AlreadyExists),
        ledger.create_plan(owner, plan_id, name, price, duration_days, current_time) == ledger,
{
}

/// After a plan was created, a second request for the same owner and number
/// is refused and the first plan stays as it was created.
pub proof fn plan_is_created_once(
    ledger: LedgerView,
    owner: Pubkey,
    plan_id: u64,
    first_name: Seq<char>,
    first_price: u64,
    first_days: u32,
    first_time: i64,
    second_name: Seq<char>,
    second_price: u64,
    second_days: u32,
    second_time: i64,
)
    requires
        ledger.create_plan_outcome(owner, plan_id, first_name, first_price, first_days, first_time)
            is Ok,
    ensures
        ({
            let once = ledger.create_plan(
                owner,
                plan_id,
                first_name,
                first_price,
                first_days,
                first_time,
            );
            &&& once.create_plan_outcome(
                owner,
                plan_id,
                second_name,
                second_price,
                second_days,
                second_time,
            ) == Err::<PlanView, SubscriptionsDappError>(SubscriptionsDappError::AlreadyExists)
            &&& once.create_plan(
                owner,
                plan_id,
                second_name,
                second_price,
                second_days,
                second_time,
            ) == once
        }),
{
}

/// Subscribing keeps a valid ledger valid and the supply as it is.
pub proof fn subscribe_keeps_valid(
    ledger: LedgerView,
    subscriber: Pubkey,
    creator: Pubkey,
    plan_id: u64,
    current_time: i64,
)
    requires
        ledger.valid(),
    ensures
        ledger.subscribe(subscriber, creator, plan_id, current_time).valid(),
        ledger.subscribe(subscriber, creator, plan_id, current_time).supply == ledger.supply,
        ledger.subscribe(subscriber, creator, plan_id, current_time).plans == ledger.plans,
{
    let after = ledger.subscribe(subscriber, creator, plan_id, current_time);
    if ledger.subscribe_outcome(subscriber, creator, plan_id, current_time) is Ok {
        assert(ledger.plans.contains_key((creator, plan_id)));
        assert forall|k: (Pubkey, Pubkey, u64)| #[trigger]
            after.subscriptions.contains_key(k) implies {
            &&& after.subscriptions[k].subscriber == k.0
            &&& after.subscriptions[k].creator == k.1
            &&& after.subscriptions[k].plan_id == k.2
            &&& after.plans.contains_key((k.1, k.2))
            &&& after.subscriptions[k].expires_at == expiry_of(
                after.subscriptions[k].created_at,
                after.plans[(k.1, k.2)].duration_days,
            )
        } by {
            if k != (subscriber, creator, plan_id) {
                assert(ledger.subscriptions.contains_key(k));
            }
        }
    }
}

/// Subscribing to a stored plan with enough funds and no subscription yet,
/// at a time from which the plan's duration can be counted, takes exactly the
/// plan's price from the subscriber, gives exactly that to the creator,
/// leaves every other balance alone, and stores a subscription that begins
/// now and runs out the plan's duration, at 86400 seconds a day, later. This
/// is not stated of a creator who pays a price above zero for a plan of their
/// own: what they pay they receive.
pub proof fn subscribe_moves_the_price(
    ledger: LedgerView,
    subscriber: Pubkey,
    creator: Pubkey,
    plan_id: u64,
    current_time: i64,
)
    requires
        ledger.plans.contains_key((creator, plan_id)),
        ledger.balance(subscriber) >= ledger.plans[(creator, plan_id)].price,
        !ledger.subscriptions.contains_key((subscriber, creator, plan_id)),
        expiry_fits(current_time, ledger.plans[(creator, plan_id)].duration_days),
        subscriber != creator || ledger.plans[(creator, plan_id)].price == 0,
    ensures
        ({
            let plan = ledger.plans[(creator, plan_id)];
            let after = ledger.subscribe(subscriber, creator, plan_id, current_time);
            let outcome = ledger.subscribe_outcome(subscriber, creator, plan_id, current_time);
            &&& after.balance(subscriber) == ledger.balance(subscriber) - plan.price
            &&& after.balance(creator) == ledger.balance(creator) + plan.price
            &&& forall|other: Pubkey|
                other != subscriber && other != creator ==> after.balance(other) == ledger.balance(
                    other,
                )
            &&& outcome is Ok
            &&& after.subscriptions.contains_key((subscriber, creator, plan_id))
            &&& after.subscriptions[(subscriber, creator, plan_id)] == outcome->Ok_0
            &&& outcome->Ok_0.subscriber == subscriber
            &&& outcome->Ok_0.creator == creator
            &&& outcome->Ok_0.plan_id == plan_id
            &&& outcome->Ok_0.created_at == current_time
            &&& outcome->Ok_0.expires_at == outcome->Ok_0.created_at + plan.duration_days
                * SECONDS_PER_DAY
            &&& plan.duration_days > 0 ==> outcome->Ok_0.expires_at > outcome->Ok_0.created_at
        }),
{
}

/// A subscriber who is the creator of the plan holds after subscribing what
/// they held before.
pub proof fn subscribing_to_an_own_plan_moves_nothing(
    ledger: LedgerView,
    party: Pubkey,
    plan_id: u64,
    current_time: i64,
)
    requires
        forall|k: Pubkey| ledger.balances.contains_key(k),
    ensures
        ledger.subscribe(party, party, plan_id, current_time).balances == ledger.balances,
{
    let after = ledger.subscribe(party, party, plan_id, current_time);
    assert(after.balances =~= ledger.balances);
}

/// A subscriber who holds less than the price of a stored plan is refused for
/// want of funds, and the ledger stays as it was: no balance moves and no
/// record is stored.
pub proof fn subscribe_without_funds_is_refused(
    ledger: LedgerView,
    subscriber: Pubkey,
    creator: Pubkey,
    plan_id: u64,
    current_time: i64,
)
    requires
        ledger.plans.contains_key((creator, plan_id)),
        ledger.balance(subscriber) < ledger.plans[(creator, plan_id)].price,
    ensures
        ledger.subscribe_outcome(subscriber, creator, plan_id, current_time) == Err::<
            Subscription,
            SubscriptionsDappError,
        >(SubscriptionsDappError::InsufficientFunds),
        ledger.subscribe(subscriber, creator, plan_id, current_time) == ledger,
{
}

/// Subscribing to a plan that is not stored is refused as not found, and the
/// ledger stays as it was: no record is stored.
pub proof fn subscribe_to_missing_plan_is_refused(
    ledger: LedgerView,
    subscriber: Pubkey,
    creator: Pubkey,
    plan_id: u64,
    current_time: i64,
)
    requires
        !ledger.plans.contains_key((creator, plan_id)),
    ensures
        ledger.subscribe_outcome(subscriber, creator, plan_id, current_time) == Err::<
            Subscription,
            SubscriptionsDappError,
        >(SubscriptionsDappError::NotFound),
        ledger.subscribe(subscriber, creator, plan_id, current_time) == ledger,
{
}

/// A second subscription of the same subscriber to the same creator and plan
/// number is refused, and the first stays as it was stored.
pub proof fn second_subscription_is_refused(
    ledger: LedgerView,
    subscriber: Pubkey,
    creator: Pubkey,
    plan_id: u64,
    current_time: i64,
)
    requires
        ledger.subscriptions.contains_key((subscriber, creator, plan_id)),
    ensures
        ledger.subscribe_outcome(subscriber, creator, plan_id, current_time) is Err,
        ledger.subscribe(subscriber, creator, plan_id, current_time) == ledger,
        ledger.plans.contains_key((creator, plan_id)) && ledger.balance(subscriber)
            >= ledger.plans[(creator, plan_id)].price ==> ledger.subscribe_outcome(
            subscriber,
            creator,
            plan_id,
            current_time,
        ) == Err::<Subscription, SubscriptionsDappError>(
            SubscriptionsDappError::AlreadyExists,
        ),
{
}

/// A stored subscription is active up to and including the second at which it
/// runs out. After that the check fails as expired: it never answers `false`.
pub proof fn active_until_expiry(
    ledger: LedgerView,
    subscriber: Pubkey,
    creator: Pubkey,
    plan_id: u64,
    current_time: i64,
)
    requires
        ledger.subscriptions.contains_key((subscriber, creator, plan_id)),
    ensures
        ({
            let record = ledger.subscriptions[(subscriber, creator, plan_id)];
            let outcome = ledger.is_active_outcome(subscriber, creator, plan_id, current_time);
            &&& current_time <= record.expires_at ==> outcome == Ok::<
                bool,
                SubscriptionsDappError,
            >(true)
            &&& current_time > record.expires_at ==> outcome == Err::<
                bool,
                SubscriptionsDappError,
            >(SubscriptionsDappError::SubscriptionExpired)
            &&& outcome != Ok::<bool, SubscriptionsDappError>(false)
        }),
{
}

/// Asking for a subscription that is not stored fails as not found.
pub proof fn missing_subscription_is_not_found(
    ledger: LedgerView,
    subscriber: Pubkey,
    creator: Pubkey,
    plan_id: u64,
    current_time: i64,
)
    requires
        !ledger.subscriptions.contains_key((subscriber, creator, plan_id)),
    ensures
        ledger.is_active_outcome(subscriber, creator, plan_id, current_time) == Err::<
            bool,
            SubscriptionsDappError,
        >(SubscriptionsDappError::NotFound),
{
}

/// A record that is stored stays stored, with every field as it was, whatever
/// plan is created afterwards.
pub proof fn records_outlast_create_plan(
    ledger: LedgerView,
    owner: Pubkey,
    plan_id: u64,
    name: Seq<char>,
    price: u64,
    duration_days: u32,
    current_time: i64,
)
    ensures
        ({
            let after = ledger.create_plan(
                owner,
                plan_id,
                name,
                price,
                duration_days,
                current_time,
            );
            &&& forall|k: (Pubkey, u64)| #[trigger]
                ledger.plans.contains_key(k) ==> after.plans.contains_key(k) && after.plans[k]
                    == ledger.plans[k]
            &&& after.subscriptions == ledger.subscriptions
        }),
{
}

/// A record that is stored stays stored, with every field as it was, whoever
/// subscribes afterwards.
pub proof fn records_outlast_subscribe(
    ledger: LedgerView,
    subscriber: Pubkey,
    creator: Pubkey,
    plan_id: u64,
    current_time: i64,
)
    ensures
        ({
            let after = ledger.subscribe(subscriber, creator, plan_id, current_time);
            &&& after.plans == ledger.plans
            &&& forall|k: (Pubkey, Pubkey, u64)| #[trigger]
                ledger.subscriptions.contains_key(k) ==> after.subscriptions.contains_key(k)
                    && after.subscriptions[k] == ledger.subscriptions[k]
        }),
{
}

/// A request that is refused changes nothing: no record is stored and no
/// balance moves.
pub proof fn refused_requests_change_nothing(
    ledger: LedgerView,
    party: Pubkey,
    creator: Pubkey,
    plan_id: u64,
    name: Seq<char>,
    price: u64,
    duration_days: u32,
    current_time: i64,
)
    ensures
        ledger.create_plan_outcome(party, plan_id, name, price, duration_days, current_time)
            is Err ==> ledger.create_plan(
            party,
            plan_id,
            name,
            price,
            duration_days,
            current_time,
        ) == ledger,
        ledger.subscribe_outcome(party, creator, plan_id, current_time) is Err
            ==> ledger.subscribe(party, creator, plan_id, current_time) == ledger,
        !ledger.can_deposit(price) ==> ledger.deposit(party, price) == ledger,
{
}

/// A record that was made is stored under its key as it was returned.
pub proof fn returned_records_are_stored(
    ledger: LedgerView,
    party: Pubkey,
    creator: Pubkey,
    plan_id: u64,
    name: Seq<char>,
    price: u64,
    duration_days: u32,
    current_time: i64,
)
    ensures
        ({
            let made = ledger.create_plan_outcome(
                party,
                plan_id,
                name,
                price,
                duration_days,
                current_time,
            );
            let after = ledger.create_plan(
                party,
                plan_id,
                name,
                price,
                duration_days,
                current_time,
            );
            made matches Ok(plan) ==> after.plans.contains_key((party, plan_id)) && after.plans[(
                party,
                plan_id,
            )] == plan
        }),
        ({
            let made = ledger.subscribe_outcome(party, creator, plan_id, current_time);
            let after = ledger.subscribe(party, creator, plan_id, current_time);
            made matches Ok(record) ==> after.subscriptions.contains_key(
                (party, creator, plan_id),
            ) && after.subscriptions[(party, creator, plan_id)] == record
        }),
{
}

/// In a valid ledger a subscription never runs out before it began, and one
/// to a plan of at least one day runs out after it began.
pub proof fn subscriptions_outlast_their_start(
    ledger: LedgerView,
    subscriber: Pubkey,
    creator: Pubkey,
    plan_id: u64,
)
    requires
        ledger.valid(),
        ledger.subscriptions.contains_key((subscriber, creator, plan_id)),
    ensures
        ({
            let record = ledger.subscriptions[(subscriber, creator, plan_id)];
            let plan = ledger.plans[(creator, plan_id)];
            &&& record.expires_at == record.created_at + plan.duration_days * SECONDS_PER_DAY
            &&& record.expires_at >= record.created_at
            &&& plan.duration_days > 0 ==> record.expires_at > record.created_at
        }),
{
}

} // verus!
