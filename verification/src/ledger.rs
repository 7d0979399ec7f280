//! The ledger: plans and subscriptions in keyed storage, and what each party
//! holds.

use crate::errors::SubscriptionsDappError;
use crate::instructions::{
    check_subscription_at, create_subscription_plan_at, plan_outcome_view, subscribe_at,
    CheckSubscription, CreateSubscriptionPlan, Subscribe,
};
use crate::keyed::{
    lemma_to_balances_absent, lemma_to_balances_at, lemma_to_balances_push,
    lemma_to_balances_update, lemma_to_map_absent, lemma_to_map_at, lemma_to_map_push,
    lemma_total_bounds_one, lemma_total_bounds_two, lemma_total_push, lemma_total_update,
    to_balances, to_map, total,
};
use crate::laws::{create_plan_keeps_valid, deposit_keeps_valid, subscribe_keeps_valid};
use crate::model::{LedgerView, PlanKey, SubscriptionKey};
use crate::state::{CreatorProfile, PlanView, Pubkey, Subscription};
use vstd::prelude::*;

verus! {

/// What one party holds.
struct Wallet {
    owner: Pubkey,
    held: u64,
}

/// Plans, subscriptions and balances. A record is stored once under its key
/// and never changed or removed.
pub struct Ledger {
    plans: Vec<CreatorProfile>,
    subscriptions: Vec<Subscription>,
    wallets: Vec<Wallet>,
    supply: u64,
}

spec fn plan_keys(plans: Seq<CreatorProfile>) -> Seq<PlanKey> {
    plans.map_values(|p: CreatorProfile| (p.creator, p.plan_id))
}

spec fn plan_views(plans: Seq<CreatorProfile>) -> Seq<PlanView> {
    plans.map_values(|p: CreatorProfile| p@)
}

spec fn subscription_keys(subscriptions: Seq<Subscription>) -> Seq<SubscriptionKey> {
    subscriptions.map_values(|s: Subscription| (s.subscriber, s.creator, s.plan_id))
}

spec fn owners(wallets: Seq<Wallet>) -> Seq<Pubkey> {
    wallets.map_values(|w: Wallet| w.owner)
}

spec fn amounts(wallets: Seq<Wallet>) -> Seq<u64> {
    wallets.map_values(|w: Wallet| w.held)
}

/// Looks for the wallet of `party`.
fn find_wallet(wallets: &Vec<Wallet>, party: &Pubkey) -> (found: Option<usize>)
    ensures
        match found {
            Some(i) => i < wallets.len() && wallets[i as int].owner == *party,
            None => forall|i: int| 0 <= i < wallets.len() ==> owners(wallets@)[i] != *party,
        },
{
    let mut i: usize = 0;
    while i < wallets.len()
        invariant
            i <= wallets.len(),
            forall|j: int| 0 <= j < i ==> owners(wallets@)[j] != *party,
        decreases wallets.len() - i,
    {
        if wallets[i].owner == *party {
            return Some(i);
        }
        i += 1;
    }
    None
}

/// Gives `amount` to `party`.
fn credit(wallets: &mut Vec<Wallet>, party: Pubkey, amount: u64)
    requires
        owners(old(wallets)@).no_duplicates(),
        total(amounts(old(wallets)@)) + amount <= u64::MAX,
    ensures
        owners(final(wallets)@).no_duplicates(),
        total(amounts(final(wallets)@)) == total(amounts(old(wallets)@)) + amount,
        to_balances(owners(final(wallets)@), amounts(final(wallets)@)) == ({
            let before = to_balances(owners(old(wallets)@), amounts(old(wallets)@));
            before.insert(party, before[party] + amount as nat)
        }),
{
    let ghost old_owners = owners(wallets@);
    let ghost old_amounts = amounts(wallets@);
    match find_wallet(wallets, &party) {
        Some(i) => {
            let held: u64 = wallets[i].held;
            proof {
                lemma_total_bounds_one(old_amounts, i as int);
                lemma_total_update(old_amounts, i as int, (held + amount) as u64);
                lemma_to_balances_update(old_owners, old_amounts, i as int, (held + amount) as u64);
                lemma_to_balances_at(old_owners, old_amounts, i as int);
            }
            wallets.set(i, Wallet { owner: party, held: held + amount });
            assert(owners(wallets@) =~= old_owners);
            assert(amounts(wallets@) =~= old_amounts.update(i as int, (held + amount) as u64));
        },
        None => {
            proof {
                lemma_to_balances_absent(old_owners, old_amounts, party);
                lemma_total_push(old_amounts, amount);
                lemma_to_balances_push(old_owners, old_amounts, party, amount);
            }
            wallets.push(Wallet { owner: party, held: amount });
            assert(owners(wallets@) =~= old_owners.push(party));
            assert(amounts(wallets@) =~= old_amounts.push(amount));
        },
    }
}

/// Takes `amount` from the wallet at place `i`.
fn debit(wallets: &mut Vec<Wallet>, i: usize, amount: u64)
    requires
        owners(old(wallets)@).no_duplicates(),
        i < old(wallets).len(),
        amount <= old(wallets)[i as int].held,
    ensures
        owners(final(wallets)@) == owners(old(wallets)@),
        total(amounts(final(wallets)@)) == total(amounts(old(wallets)@)) - amount,
        to_balances(owners(final(wallets)@), amounts(final(wallets)@)) == ({
            let before = to_balances(owners(old(wallets)@), amounts(old(wallets)@));
            let party = old(wallets)[i as int].owner;
            before.insert(party, (before[party] - amount) as nat)
        }),
{
    let ghost old_owners = owners(wallets@);
    let ghost old_amounts = amounts(wallets@);
    let held: u64 = wallets[i].held;
    let owner: Pubkey = wallets[i].owner;
    proof {
        lemma_total_update(old_amounts, i as int, (held - amount) as u64);
        lemma_to_balances_update(old_owners, old_amounts, i as int, (held - amount) as u64);
        lemma_to_balances_at(old_owners, old_amounts, i as int);
    }
    wallets.set(i, Wallet { owner, held: held - amount });
    assert(owners(wallets@) =~= old_owners);
    assert(amounts(wallets@) =~= old_amounts.update(i as int, (held - amount) as u64));
}

impl View for Ledger {
    type V = LedgerView;

    closed spec fn view(&self) -> LedgerView {
        LedgerView {
            plans: to_map(plan_keys(self.plans@), plan_views(self.plans@)),
            subscriptions: to_map(subscription_keys(self.subscriptions@), self.subscriptions@),
            balances: to_balances(owners(self.wallets@), amounts(self.wallets@)),
            supply: self.supply as nat,
        }
    }
}

impl Ledger {
    /// Whether the ledger is in order: no key is stored twice, the supply is
    /// the sum of what the parties hold, and its view is valid.
    pub closed spec fn wf(&self) -> bool {
        &&& plan_keys(self.plans@).no_duplicates()
        &&& subscription_keys(self.subscriptions@).no_duplicates()
        &&& owners(self.wallets@).no_duplicates()
        &&& self.supply == total(amounts(self.wallets@))
        &&& self@.valid()
    }

    /// A ledger that is in order has a valid view, in which no party, and
    /// no two parties together, hold more than the supply.
    pub proof fn view_is_valid(&self)
        requires
            self.wf(),
        ensures
            self@.valid(),
            forall|party: Pubkey| self@.balance(party) <= self@.supply,
            forall|one: Pubkey, other: Pubkey|
                one != other ==> self@.balance(one) + self@.balance(other) <= self@.supply,
    {
        let keys = owners(self.wallets@);
        let held = amounts(self.wallets@);
        assert forall|party: Pubkey| self@.balance(party) <= self@.supply by {
            if keys.contains(party) {
                lemma_total_bounds_one(held, keys.index_of(party));
            }
        }
        assert forall|one: Pubkey, other: Pubkey| one != other implies self@.balance(one)
            + self@.balance(other) <= self@.supply by {
            if keys.contains(one) && keys.contains(other) {
                lemma_total_bounds_two(held, keys.index_of(one), keys.index_of(other));
            } else if keys.contains(one) {
                lemma_total_bounds_one(held, keys.index_of(one));
            } else if keys.contains(other) {
                lemma_total_bounds_one(held, keys.index_of(other));
            }
        }
    }

    /// The ledger without a plan, a subscription or any value.
    pub fn new() -> (ledger: Ledger)
        ensures
            ledger.wf(),
            ledger@ == LedgerView::empty(),
    {
        let ledger = Ledger {
            plans: Vec::new(),
            subscriptions: Vec::new(),
            wallets: Vec::new(),
            supply: 0,
        };
        assert(ledger@.plans =~= LedgerView::empty().plans);
        assert(ledger@.subscriptions =~= LedgerView::empty().subscriptions);
        assert(ledger@.balances =~= LedgerView::empty().balances);
        ledger
    }

    fn find_plan(&self, owner: &Pubkey, plan_id: u64) -> (found: Option<usize>)
        ensures
            match found {
                Some(i) => i < self.plans.len() && plan_keys(self.plans@)[i as int] == (
                    *owner,
                    plan_id,
                ),
                None => forall|i: int|
                    0 <= i < self.plans.len() ==> plan_keys(self.plans@)[i] != (*owner, plan_id),
            },
    {
        let mut i: usize = 0;
        while i < self.plans.len()
            invariant
                i <= self.plans.len(),
                forall|j: int| 0 <= j < i ==> plan_keys(self.plans@)[j] != (*owner, plan_id),
            decreases self.plans.len() - i,
        {
            if self.plans[i].creator == *owner && self.plans[i].plan_id == plan_id {
                return Some(i);
            }
            i += 1;
        }
        None
    }

    fn find_subscription(&self, subscriber: &Pubkey, creator: &Pubkey, plan_id: u64) -> (found:
        Option<usize>)
        ensures
            match found {
                Some(i) => i < self.subscriptions.len() && subscription_keys(
                    self.subscriptions@,
                )[i as int] == (*subscriber, *creator, plan_id),
                None => forall|i: int|
                    0 <= i < self.subscriptions.len() ==> subscription_keys(self.subscriptions@)[i]
                        != (*subscriber, *creator, plan_id),
            },
    {
        let mut i: usize = 0;
        while i < self.subscriptions.len()
            invariant
                i <= self.subscriptions.len(),
                forall|j: int|
                    0 <= j < i ==> subscription_keys(self.subscriptions@)[j] != (
                        *subscriber,
                        *creator,
                        plan_id,
                    ),
            decreases self.subscriptions.len() - i,
        {
            let s = &self.subscriptions[i];
            if s.subscriber == *subscriber && s.creator == *creator && s.plan_id == plan_id {
                return Some(i);
            }
            i += 1;
        }
        None
    }

    /// What `party` holds.
    pub fn balance(&self, party: &Pubkey) -> (held: u64)
        requires
            self.wf(),
        ensures
            held == self@.balance(*party),
    {
        match find_wallet(&self.wallets, party) {
            Some(i) => {
                proof {
                    lemma_to_balances_at(owners(self.wallets@), amounts(self.wallets@), i as int);
                }
                self.wallets[i].held
            },
            None => {
                proof {
                    lemma_to_balances_absent(owners(self.wallets@), amounts(self.wallets@), *party);
                }
                0
            },
        }
    }

    /// All the value in the ledger.
    pub fn supply(&self) -> (all: u64)
        requires
            self.wf(),
        ensures
            all == self@.supply,
    {
        self.supply
    }

    /// The plan of `owner` with the number `plan_id`, if one is stored.
    pub fn plan(&self, owner: &Pubkey, plan_id: u64) -> (found: Option<&CreatorProfile>)
        requires
            self.wf(),
        ensures
            found is Some == self@.plans.contains_key((*owner, plan_id)),
            found matches Some(plan) ==> plan@ == self@.plans[(*owner, plan_id)],
    {
        match self.find_plan(owner, plan_id) {
            Some(i) => {
                proof {
                    lemma_to_map_at(plan_keys(self.plans@), plan_views(self.plans@), i as int);
                }
                Some(&self.plans[i])
            },
            None => {
                proof {
                    lemma_to_map_absent(
                        plan_keys(self.plans@),
                        plan_views(self.plans@),
                        (*owner, plan_id),
                    );
                }
                None
            },
        }
    }

    /// The subscription of `subscriber` to the plan `plan_id` of `creator`,
    /// if one is stored.
    pub fn subscription(&self, subscriber: &Pubkey, creator: &Pubkey, plan_id: u64) -> (found:
        Option<Subscription>)
        requires
            self.wf(),
        ensures
            found is Some == self@.subscriptions.contains_key((*subscriber, *creator, plan_id)),
            found matches Some(record) ==> record == self@.subscriptions[(
                *subscriber,
                *creator,
                plan_id,
            )],
    {
        match self.find_subscription(subscriber, creator, plan_id) {
            Some(i) => {
                proof {
                    lemma_to_map_at(
                        subscription_keys(self.subscriptions@),
                        self.subscriptions@,
                        i as int,
                    );
                }
                Some(self.subscriptions[i])
            },
            None => {
                proof {
                    lemma_to_map_absent(
                        subscription_keys(self.subscriptions@),
                        self.subscriptions@,
                        (*subscriber, *creator, plan_id),
                    );
                }
                None
            },
        }
    }

    /// Gives `amount` of new value to `party`, unless the supply would no
    /// longer fit the machine's word: then nothing changes.
    pub fn deposit(&mut self, party: Pubkey, amount: u64) -> (done: bool)
        requires
            old(self).wf(),
        ensures
            final(self).wf(),
            done == old(self)@.can_deposit(amount),
            final(self)@ == old(self)@.deposit(party, amount),
    {
        if amount > u64::MAX - self.supply {
            return false;
        }
        proof {
            deposit_keeps_valid(self@, party, amount);
        }
        credit(&mut self.wallets, party, amount);
        self.supply = self.supply + amount;
        true
    }

    /// Stores a new plan of `owner` under the number `plan_id`, created at
    /// `current_time`, and returns it. A plan that is stored under that key
    /// already is not overwritten: the request is refused. So is, on a free
    /// key, a name that is too long. A price or a duration of zero is
    /// accepted.
    pub fn create_plan(
        &mut self,
        owner: Pubkey,
        plan_id: u64,
        name: String,
        price: u64,
        duration_days: u32,
        current_time: i64,
    ) -> (outcome: Result<CreatorProfile, SubscriptionsDappError>)
        requires
            old(self).wf(),
        ensures
            final(self).wf(),
            plan_outcome_view(outcome) == old(self)@.create_plan_outcome(
                owner,
                plan_id,
                name@,
                price,
                duration_days,
                current_time,
            ),
            final(self)@ == old(self)@.create_plan(
                owner,
                plan_id,
                name@,
                price,
                duration_days,
                current_time,
            ),
    {
        let ghost keys = plan_keys(self.plans@);
        let ghost views = plan_views(self.plans@);
        match self.find_plan(&owner, plan_id) {
            Some(i) => {
                proof {
                    lemma_to_map_at(keys, views, i as int);
                }
                return Err(SubscriptionsDappError::AlreadyExists);
            },
            None => {
                proof {
                    lemma_to_map_absent(keys, views, (owner, plan_id));
                }
            },
        }
        let ctx = CreateSubscriptionPlan { creator: owner };
        match create_subscription_plan_at(&ctx, plan_id, name, price, duration_days, current_time) {
            Err(e) => Err(e),
            Ok(plan) => {
                let copy = plan.clone();
                proof {
                    lemma_to_map_push(keys, views, (owner, plan_id), plan@);
                    create_plan_keeps_valid(
                        self@,
                        owner,
                        plan_id,
                        name@,
                        price,
                        duration_days,
                        current_time,
                    );
                }
                self.plans.push(plan);
                assert(plan_keys(self.plans@) =~= keys.push((owner, plan_id)));
                assert(plan_views(self.plans@) =~= views.push(plan@));
                Ok(copy)
            },
        }
    }

    /// Subscribes `subscriber` at `current_time` to the plan `plan_id` of
    /// `creator`, and returns the subscription. The plan's price goes from
    /// the subscriber to the creator and the subscription is stored, both or
    /// neither. The request is refused where no such plan is stored, where
    /// the subscriber holds less than the price, where the subscriber has a
    /// subscription under this key already, and where the subscription would
    /// run out after the last moment that a timestamp can hold; where several
    /// of these hold, the first of them in this order is the reason given.
    pub fn subscribe(
        &mut self,
        subscriber: Pubkey,
        creator: Pubkey,
        plan_id: u64,
        current_time: i64,
    ) -> (outcome: Result<Subscription, SubscriptionsDappError>)
        requires
            old(self).wf(),
        ensures
            final(self).wf(),
            outcome == old(self)@.subscribe_outcome(subscriber, creator, plan_id, current_time),
            final(self)@ == old(self)@.subscribe(subscriber, creator, plan_id, current_time),
    {
        let ghost plan_ks = plan_keys(self.plans@);
        let ghost plan_vs = plan_views(self.plans@);
        let ghost sub_ks = subscription_keys(self.subscriptions@);
        let ghost subs = self.subscriptions@;
        let ghost held = amounts(self.wallets@);
        let ghost holders = owners(self.wallets@);
        let at = match self.find_plan(&creator, plan_id) {
            Some(i) => i,
            None => {
                proof {
                    lemma_to_map_absent(plan_ks, plan_vs, (creator, plan_id));
                }
                return Err(SubscriptionsDappError::NotFound);
            },
        };
        proof {
            lemma_to_map_at(plan_ks, plan_vs, at as int);
        }
        let price: u64 = self.plans[at].price;
        let payer = find_wallet(&self.wallets, &subscriber);
        let funds: u64 = match payer {
            Some(i) => {
                proof {
                    lemma_to_balances_at(holders, held, i as int);
                }
                self.wallets[i].held
            },
            None => {
                proof {
                    lemma_to_balances_absent(holders, held, subscriber);
                }
                0
            },
        };
        if funds < price {
            return Err(SubscriptionsDappError::InsufficientFunds);
        }
        match self.find_subscription(&subscriber, &creator, plan_id) {
            Some(i) => {
                proof {
                    lemma_to_map_at(sub_ks, subs, i as int);
                }
                return Err(SubscriptionsDappError::AlreadyExists);
            },
            None => {
                proof {
                    lemma_to_map_absent(sub_ks, subs, (subscriber, creator, plan_id));
                }
            },
        }
        let ctx = Subscribe { creator_profile: &self.plans[at], subscriber };
        let record = match subscribe_at(&ctx, plan_id, creator, current_time) {
            Ok(record) => record,
            Err(e) => {
                return Err(e);
            },
        };
        proof {
            subscribe_keeps_valid(self@, subscriber, creator, plan_id, current_time);
            lemma_to_map_push(sub_ks, subs, (subscriber, creator, plan_id), record);
        }
        match payer {
            Some(i) => {
                debit(&mut self.wallets, i, price);
                credit(&mut self.wallets, creator, price);
            },
            None => {
                assert(self@.balances =~= LedgerView::moved(
                    self@.balances,
                    subscriber,
                    creator,
                    price as nat,
                ));
            },
        }
        self.subscriptions.push(record);
        assert(subscription_keys(self.subscriptions@) =~= sub_ks.push(
            (subscriber, creator, plan_id),
        ));
        Ok(record)
    }

    /// Tells whether the subscription of `subscriber` to the plan `plan_id`
    /// of `creator` is active at `current_time`. A subscription that ran out
    /// makes the check fail; it never answers `false`.
    pub fn is_active(
        &self,
        subscriber: &Pubkey,
        creator: &Pubkey,
        plan_id: u64,
        current_time: i64,
    ) -> (outcome: Result<bool, SubscriptionsDappError>)
        requires
            self.wf(),
        ensures
            outcome == self@.is_active_outcome(*subscriber, *creator, plan_id, current_time),
    {
        match self.subscription(subscriber, creator, plan_id) {
            None => Err(SubscriptionsDappError::NotFound),
            Some(subscription) => {
                let ctx = CheckSubscription { subscription };
                check_subscription_at(&ctx, current_time)
            },
        }
    }
}

} // verus!
