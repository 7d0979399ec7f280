//! The records the ledger keeps: identities, plans and subscriptions.

use vstd::prelude::*;
use vstd::std_specs::cmp::PartialEqSpecImpl;
use vstd::utf8::encode_utf8;

verus! {

/// Largest number of bytes a plan's name may take in UTF-8.
pub const MAX_PLAN_NAME_LEN: usize = 200;

/// Number of seconds in one day of a plan's duration.
pub const SECONDS_PER_DAY: i64 = 86400;

/// The identity of a party: a creator or a subscriber.
#[derive(Clone, Copy, Debug, Eq, Hash)]
pub struct Pubkey {
    pub bytes: [u8; 32],
}

impl Pubkey {
    /// The identity made of the given 32 bytes.
    pub fn new_from_array(bytes: [u8; 32]) -> (key: Pubkey)
        ensures
            key.bytes == bytes,
    {
        Pubkey { bytes }
    }

    /// The 32 bytes of this identity.
    pub fn to_bytes(&self) -> (bytes: [u8; 32])
        ensures
            bytes == self.bytes,
    {
        self.bytes
    }
}

impl PartialEq for Pubkey {
    /// Two identities are the same when all their bytes agree.
    fn eq(&self, other: &Pubkey) -> (same: bool) {
        let mut i: usize = 0;
        while i < 32
            invariant
                i <= 32,
                forall|j: int| 0 <= j < i ==> self.bytes[j] == other.bytes[j],
            decreases 32 - i,
        {
            if self.bytes[i] != other.bytes[i] {
                return false;
            }
            i += 1;
        }
        assert(self.bytes =~= other.bytes);
        true
    }
}

impl PartialEqSpecImpl for Pubkey {
    open spec fn obeys_eq_spec() -> bool {
        true
    }

    open spec fn eq_spec(&self, other: &Pubkey) -> bool {
        *self == *other
    }
}

/// What a plan holds, with its name as a sequence of characters.
pub struct PlanView {
    pub creator: Pubkey,
    pub plan_id: u64,
    pub name: Seq<char>,
    pub price: u64,
    pub duration_days: u32,
    pub created_at: i64,
}

/// The number of bytes that `name` takes in UTF-8.
pub open spec fn name_len(name: Seq<char>) -> nat {
    encode_utf8(name).len()
}

/// Whether `name` is short enough to be the name of a plan.
pub open spec fn name_fits(name: Seq<char>) -> bool {
    name_len(name) <= MAX_PLAN_NAME_LEN
}

/// A subscription offering of one creator: a price, paid once, for a number
/// of days. A plan never changes after it was created.
#[derive(Debug, PartialEq, Eq)]
pub struct CreatorProfile {
    /// The creator who owns the plan and receives its price.
    pub creator: Pubkey,
    /// The creator's own number for this plan.
    pub plan_id: u64,
    /// A label of at most `MAX_PLAN_NAME_LEN` bytes.
    pub name: String,
    /// The price of one subscription, in native value units.
    pub price: u64,
    /// How many days one subscription runs.
    pub duration_days: u32,
    /// When the plan was created, in seconds.
    pub created_at: i64,
}

impl View for CreatorProfile {
    type V = PlanView;

    open spec fn view(&self) -> PlanView {
        PlanView {
            creator: self.creator,
            plan_id: self.plan_id,
            name: self.name@,
            price: self.price,
            duration_days: self.duration_days,
            created_at: self.created_at,
        }
    }
}

impl Clone for CreatorProfile {
    fn clone(&self) -> (copy: CreatorProfile)
        ensures
            copy == *self,
    {
        CreatorProfile {
            creator: self.creator,
            plan_id: self.plan_id,
            name: self.name.clone(),
            price: self.price,
            duration_days: self.duration_days,
            created_at: self.created_at,
        }
    }
}

/// The moment at which a subscription that starts at `created_at` and runs
/// for `duration_days` days runs out.
pub open spec fn expiry_of(created_at: i64, duration_days: u32) -> int {
    created_at + duration_days * SECONDS_PER_DAY
}

/// Whether that moment can be written as a timestamp.
pub open spec fn expiry_fits(created_at: i64, duration_days: u32) -> bool {
    expiry_of(created_at, duration_days) <= i64::MAX
}

/// The right of one subscriber to one plan, from `created_at` up to and
/// including `expires_at`. A subscription never changes after it was created.
#[derive(Clone, Copy, Debug, PartialEq, Eq)]
pub struct Subscription {
    /// The party who paid.
    pub subscriber: Pubkey,
    /// The creator named when the subscription was bought.
    pub creator: Pubkey,
    /// The plan number named when the subscription was bought.
    pub plan_id: u64,
    /// The last second at which the subscription is active.
    pub expires_at: i64,
    /// When the subscription was bought, in seconds.
    pub created_at: i64,
}

impl Subscription {
    /// Whether the subscription has not run out at `current_time`.
    pub open spec fn active_at(&self, current_time: i64) -> bool {
        current_time <= self.expires_at
    }

    /// Tells whether the subscription has not run out at `current_time`.
    pub fn is_active(&self, current_time: i64) -> (active: bool)
        ensures
            active == self.active_at(current_time),
    {
        current_time <= self.expires_at
    }
}

/// Tells whether `name` is short enough to be the name of a plan.
pub fn name_is_short_enough(name: &String) -> (fits: bool)
    ensures
        fits == name_fits(name@),
{
    name.as_str().as_bytes().len() <= MAX_PLAN_NAME_LEN
}

/// Tells whether a subscription of `duration_days` days that starts at
/// `created_at` runs out at a moment that can be written as a timestamp.
pub fn expiry_is_in_range(created_at: i64, duration_days: u32) -> (fits: bool)
    ensures
        fits == expiry_fits(created_at, duration_days),
{
    let length: i64 = (duration_days as i64) * SECONDS_PER_DAY;
    created_at <= i64::MAX - length
}

} // verus!
