//! The ledger as a mathematical value, and what each operation makes of it.

use crate::errors::SubscriptionsDappError;
use crate::instructions::{bought_subscription, checked_at, created_plan};
use crate::state::{expiry_of, name_fits, PlanView, Pubkey, Subscription};
use vstd::prelude::*;

verus! {

/// The key under which a plan is stored: its owner and its number.
pub type PlanKey = (Pubkey, u64);

/// The key under which a subscription is stored: the subscriber, the creator
/// and the plan number.
pub type SubscriptionKey = (Pubkey, Pubkey, u64);

/// All that a ledger holds.
pub struct LedgerView {
    /// The plans, each under its owner and number.
    pub plans: Map<PlanKey, PlanView>,
    /// The subscriptions, each under its subscriber, creator and plan number.
    pub subscriptions: Map<SubscriptionKey, Subscription>,
    /// What each party holds, in native value units. Every party has a
    /// balance; one that was never paid holds zero.
    pub balances: Map<Pubkey, nat>,
    /// All the value that was ever deposited. Subscribing moves value from
    /// one balance to another and leaves the supply as it is.
    pub supply: nat,
}

impl LedgerView {
    /// The ledger without a plan, a subscription or any value.
    pub open spec fn empty() -> LedgerView {
        LedgerView {
            plans: Map::empty(),
            subscriptions: Map::empty(),
            balances: Map::total(|k: Pubkey| 0nat),
            supply: 0,
        }
    }

    /// What holds of every ledger: each record is stored under its own key,
    /// each plan's name is short enough, each subscription belongs to a stored
    /// plan and runs out exactly that plan's duration after it began, every
    /// party has a balance, and the supply fits the machine's word.
    pub open spec fn valid(self) -> bool {
        &&& forall|k: PlanKey| #[trigger]
            self.plans.contains_key(k) ==> {
                &&& self.plans[k].creator == k.0
                &&& self.plans[k].plan_id == k.1
                &&& name_fits(self.plans[k].name)
            }
        &&& forall|k: SubscriptionKey| #[trigger]
            self.subscriptions.contains_key(k) ==> {
                &&& self.subscriptions[k].subscriber == k.0
                &&& self.subscriptions[k].creator == k.1
                &&& self.subscriptions[k].plan_id == k.2
                &&& self.plans.contains_key((k.1, k.2))
                &&& self.subscriptions[k].expires_at == expiry_of(
                    self.subscriptions[k].created_at,
                    self.plans[(k.1, k.2)].duration_days,
                )
            }
        &&& forall|k: Pubkey| #[trigger] self.balances.contains_key(k)
        &&& self.supply <= u64::MAX
    }

    /// What a party holds.
    pub open spec fn balance(self, party: Pubkey) -> nat {
        self.balances[party]
    }

    /// Whether `amount` more value can come into being.
    pub open spec fn can_deposit(self, amount: u64) -> bool {
        self.supply + amount <= u64::MAX
    }

    /// The ledger after `amount` was given to `party`, where that can be done;
    /// else the ledger as it is.
    pub open spec fn deposit(self, party: Pubkey, amount: u64) -> LedgerView {
        if self.can_deposit(amount) {
            LedgerView {
                balances: self.balances.insert(party, self.balances[party] + amount as nat),
                supply: self.supply + amount as nat,
                ..self
            }
        } else {
            self
        }
    }

    /// What creating a plan answers: the key must be free, and the name must
    /// be short enough.
    pub open spec fn create_plan_outcome(
        self,
        owner: Pubkey,
        plan_id: u64,
        name: Seq<char>,
        price: u64,
        duration_days: u32,
        current_time: i64,
    ) -> Result<PlanView, SubscriptionsDappError> {
        if self.plans.contains_key((owner, plan_id)) {
            Err(SubscriptionsDappError::AlreadyExists)
        } else {
            created_plan(owner, plan_id, name, price, duration_days, current_time)
        }
    }

    /// The ledger after creating a plan: with the new plan where there is one,
    /// else as it is.
    pub open spec fn create_plan(
        self,
        owner: Pubkey,
        plan_id: u64,
        name: Seq<char>,
        price: u64,
        duration_days: u32,
        current_time: i64,
    ) -> LedgerView {
        match self.create_plan_outcome(owner, plan_id, name, price, duration_days, current_time) {
            Ok(plan) => LedgerView { plans: self.plans.insert((owner, plan_id), plan), ..self },
            Err(_) => self,
        }
    }

    /// What subscribing answers. The plan is looked for first, then the price
    /// is taken, then the place for the record, and last the record is made.
    pub open spec fn subscribe_outcome(
        self,
        subscriber: Pubkey,
        creator: Pubkey,
        plan_id: u64,
        current_time: i64,
    ) -> Result<Subscription, SubscriptionsDappError> {
        if !self.plans.contains_key((creator, plan_id)) {
            Err(SubscriptionsDappError::NotFound)
        } else if self.balances[subscriber] < self.plans[(creator, plan_id)].price {
            Err(SubscriptionsDappError::InsufficientFunds)
        } else if self.subscriptions.contains_key((subscriber, creator, plan_id)) {
            Err(SubscriptionsDappError::AlreadyExists)
        } else {
            bought_subscription(
                subscriber,
                creator,
                plan_id,
                self.plans[(creator, plan_id)].duration_days,
                current_time,
            )
        }
    }

    /// The balances after `amount` went from `from` to `to`.
    pub open spec fn moved(
        balances: Map<Pubkey, nat>,
        from: Pubkey,
        to: Pubkey,
        amount: nat,
    ) -> Map<Pubkey, nat> {
        let paid = balances.insert(from, (balances[from] - amount) as nat);
        paid.insert(to, paid[to] + amount)
    }

    /// The ledger after subscribing: where the subscription is not refused,
    /// the plan's price went from the subscriber to the creator and the record
    /// is stored; else the ledger is as it was.
    pub open spec fn subscribe(
        self,
        subscriber: Pubkey,
        creator: Pubkey,
        plan_id: u64,
        current_time: i64,
    ) -> LedgerView {
        match self.subscribe_outcome(subscriber, creator, plan_id, current_time) {
            Ok(record) => LedgerView {
                subscriptions: self.subscriptions.insert((subscriber, creator, plan_id), record),
                balances: Self::moved(
                    self.balances,
                    subscriber,
                    creator,
                    self.plans[(creator, plan_id)].price as nat,
                ),
                ..self
            },
            Err(_) => self,
        }
    }

    /// What asking for a subscription answers: a failure where none is
    /// stored, else what the stored one answers at `current_time`.
    pub open spec fn is_active_outcome(
        self,
        subscriber: Pubkey,
        creator: Pubkey,
        plan_id: u64,
        current_time: i64,
    ) -> Result<bool, SubscriptionsDappError> {
        if self.subscriptions.contains_key((subscriber, creator, plan_id)) {
            checked_at(self.subscriptions[(subscriber, creator, plan_id)], current_time)
        } else {
            Err(SubscriptionsDappError::NotFound)
        }
    }
}

} // verus!
