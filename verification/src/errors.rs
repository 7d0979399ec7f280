//! The ways in which an operation on the ledger can fail.

use vstd::prelude::*;

verus! {

/// Why an operation was refused. A refused operation changes nothing.
#[derive(Clone, Copy, Debug, PartialEq, Eq, Structural)]
pub enum SubscriptionsDappError {
    /// A plan or a subscription with this key is stored already.
    AlreadyExists,
    /// No plan or subscription is stored under this key.
    NotFound,
    /// The subscriber holds less than the plan's price.
    InsufficientFunds,
    /// The subscription ran out before the time of the query.
    SubscriptionExpired,
    /// The plan's name takes more bytes than a plan may hold.
    NameTooLong,
    /// The host told no time.
    ClockUnavailable,
    /// The subscription would run out after the last moment that a timestamp
    /// can hold.
    ExpiryOutOfRange,
}

} // verus!
