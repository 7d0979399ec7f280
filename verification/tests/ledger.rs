use subscriptions_dapp::errors::SubscriptionsDappError;
use subscriptions_dapp::ledger::Ledger;
use subscriptions_dapp::state::{CreatorProfile, Pubkey, Subscription};

const NOW: i64 = 1_700_000_000;

fn party(tag: u8) -> Pubkey {
    Pubkey::new_from_array([tag; 32])
}

fn ledger_with_gold_plan() -> Ledger {
    let mut ledger = Ledger::new();
    ledger.create_plan(party(1), 7, String::from("Gold"), 500, 30, NOW).unwrap();
    ledger
}

#[test]
fn new_ledger_is_empty() {
    let ledger = Ledger::new();
    assert_eq!(ledger.supply(), 0);
    assert_eq!(ledger.balance(&party(1)), 0);
    assert_eq!(ledger.plan(&party(1), 0), None);
    assert_eq!(ledger.subscription(&party(1), &party(2), 0), None);
}

#[test]
fn plan_reads_back_as_created() {
    let mut ledger = Ledger::new();
    let before = NOW - 1;
    let after = NOW + 1;
    let created = ledger.create_plan(party(1), 7, String::from("Gold"), 500, 30, NOW).unwrap();
    let expected = CreatorProfile {
        creator: party(1),
        plan_id: 7,
        name: String::from("Gold"),
        price: 500,
        duration_days: 30,
        created_at: NOW,
    };
    assert_eq!(created, expected);
    let stored = ledger.plan(&party(1), 7).unwrap();
    assert_eq!(*stored, expected);
    assert!(before <= stored.created_at && stored.created_at <= after);
}

#[test]
fn second_plan_under_the_key_is_refused_and_first_is_kept() {
    let mut ledger = ledger_with_gold_plan();
    let again = ledger.create_plan(party(1), 7, String::from("Silver"), 1, 1, NOW + 10);
    assert_eq!(again, Err(SubscriptionsDappError::AlreadyExists));
    let stored = ledger.plan(&party(1), 7).unwrap();
    assert_eq!(stored.name, "Gold");
    assert_eq!(stored.price, 500);
    assert_eq!(stored.duration_days, 30);
    assert_eq!(stored.created_at, NOW);
}

#[test]
fn existing_key_is_reported_before_a_long_name() {
    let mut ledger = ledger_with_gold_plan();
    let again = ledger.create_plan(party(1), 7, "n".repeat(300), 1, 1, NOW);
    assert_eq!(again, Err(SubscriptionsDappError::AlreadyExists));
}

#[test]
fn long_name_is_refused_and_nothing_is_stored() {
    let mut ledger = Ledger::new();
    let outcome = ledger.create_plan(party(1), 7, "n".repeat(201), 1, 1, NOW);
    assert_eq!(outcome, Err(SubscriptionsDappError::NameTooLong));
    assert_eq!(ledger.plan(&party(1), 7), None);
    assert!(ledger.create_plan(party(1), 7, "n".repeat(200), 1, 1, NOW).is_ok());
}

#[test]
fn plans_are_keyed_by_owner_and_number() {
    let mut ledger = ledger_with_gold_plan();
    assert!(ledger.create_plan(party(1), 8, String::from("Other number"), 1, 1, NOW).is_ok());
    assert!(ledger.create_plan(party(2), 7, String::from("Other owner"), 2, 2, NOW).is_ok());
    assert_eq!(ledger.plan(&party(1), 7).unwrap().name, "Gold");
    assert_eq!(ledger.plan(&party(1), 8).unwrap().name, "Other number");
    assert_eq!(ledger.plan(&party(2), 7).unwrap().name, "Other owner");
    assert_eq!(ledger.plan(&party(2), 8), None);
}

#[test]
fn deposit_adds_to_balance_and_supply() {
    let mut ledger = Ledger::new();
    assert!(ledger.deposit(party(5), 1_000));
    assert!(ledger.deposit(party(5), 234));
    assert!(ledger.deposit(party(6), 1));
    assert_eq!(ledger.balance(&party(5)), 1_234);
    assert_eq!(ledger.balance(&party(6)), 1);
    assert_eq!(ledger.balance(&party(7)), 0);
    assert_eq!(ledger.supply(), 1_235);
}

#[test]
fn deposit_beyond_the_largest_supply_changes_nothing() {
    let mut ledger = Ledger::new();
    assert!(ledger.deposit(party(5), u64::MAX - 1));
    assert!(!ledger.deposit(party(6), 2));
    assert_eq!(ledger.balance(&party(5)), u64::MAX - 1);
    assert_eq!(ledger.balance(&party(6)), 0);
    assert_eq!(ledger.supply(), u64::MAX - 1);
    assert!(ledger.deposit(party(6), 1));
    assert_eq!(ledger.supply(), u64::MAX);
    assert!(!ledger.deposit(party(5), 1));
    assert!(ledger.deposit(party(5), 0));
}

#[test]
fn subscribe_moves_exactly_the_price() {
    let mut ledger = ledger_with_gold_plan();
    assert!(ledger.deposit(party(5), 1_200));
    assert!(ledger.deposit(party(1), 50));
    assert!(ledger.deposit(party(9), 3));
    let record = ledger.subscribe(party(5), party(1), 7, NOW + 100).unwrap();
    assert_eq!(ledger.balance(&party(5)), 700);
    assert_eq!(ledger.balance(&party(1)), 550);
    assert_eq!(ledger.balance(&party(9)), 3);
    assert_eq!(ledger.supply(), 1_253);
    assert_eq!(
        record,
        Subscription {
            subscriber: party(5),
            creator: party(1),
            plan_id: 7,
            expires_at: NOW + 100 + 2_592_000,
            created_at: NOW + 100,
        }
    );
    assert_eq!(ledger.subscription(&party(5), &party(1), 7), Some(record));
}

#[test]
fn subscribe_pays_a_creator_who_held_nothing() {
    let mut ledger = ledger_with_gold_plan();
    assert!(ledger.deposit(party(5), 500));
    assert!(ledger.subscribe(party(5), party(1), 7, NOW).is_ok());
    assert_eq!(ledger.balance(&party(5)), 0);
    assert_eq!(ledger.balance(&party(1)), 500);
    assert_eq!(ledger.supply(), 500);
}

#[test]
fn subscribe_without_funds_changes_nothing() {
    let mut ledger = ledger_with_gold_plan();
    assert!(ledger.deposit(party(5), 499));
    assert!(ledger.deposit(party(1), 10));
    let outcome = ledger.subscribe(party(5), party(1), 7, NOW);
    assert_eq!(outcome, Err(SubscriptionsDappError::InsufficientFunds));
    assert_eq!(ledger.balance(&party(5)), 499);
    assert_eq!(ledger.balance(&party(1)), 10);
    assert_eq!(ledger.supply(), 509);
    assert_eq!(ledger.subscription(&party(5), &party(1), 7), None);
}

#[test]
fn subscribe_with_no_wallet_at_all_lacks_funds() {
    let mut ledger = ledger_with_gold_plan();
    let outcome = ledger.subscribe(party(5), party(1), 7, NOW);
    assert_eq!(outcome, Err(SubscriptionsDappError::InsufficientFunds));
    assert_eq!(ledger.subscription(&party(5), &party(1), 7), None);
}

#[test]
fn subscribe_to_missing_plan_is_not_found() {
    let mut ledger = ledger_with_gold_plan();
    assert!(ledger.deposit(party(5), 1_000));
    assert_eq!(
        ledger.subscribe(party(5), party(1), 8, NOW),
        Err(SubscriptionsDappError::NotFound)
    );
    assert_eq!(
        ledger.subscribe(party(5), party(2), 7, NOW),
        Err(SubscriptionsDappError::NotFound)
    );
    assert_eq!(ledger.balance(&party(5)), 1_000);
    assert_eq!(ledger.subscription(&party(5), &party(1), 8), None);
    assert_eq!(ledger.subscription(&party(5), &party(2), 7), None);
}

#[test]
fn missing_plan_is_reported_before_missing_funds() {
    let mut ledger = Ledger::new();
    assert_eq!(
        ledger.subscribe(party(5), party(1), 7, NOW),
        Err(SubscriptionsDappError::NotFound)
    );
}

#[test]
fn second_subscription_is_refused_and_first_is_kept() {
    let mut ledger = ledger_with_gold_plan();
    assert!(ledger.deposit(party(5), 1_200));
    let first = ledger.subscribe(party(5), party(1), 7, NOW).unwrap();
    let again = ledger.subscribe(party(5), party(1), 7, NOW + 1_000);
    assert_eq!(again, Err(SubscriptionsDappError::AlreadyExists));
    assert_eq!(ledger.balance(&party(5)), 700);
    assert_eq!(ledger.balance(&party(1)), 500);
    assert_eq!(ledger.subscription(&party(5), &party(1), 7), Some(first));
}

#[test]
fn missing_funds_are_reported_before_an_existing_subscription() {
    let mut ledger = ledger_with_gold_plan();
    assert!(ledger.deposit(party(5), 600));
    assert!(ledger.subscribe(party(5), party(1), 7, NOW).is_ok());
    assert_eq!(ledger.balance(&party(5)), 100);
    assert_eq!(
        ledger.subscribe(party(5), party(1), 7, NOW),
        Err(SubscriptionsDappError::InsufficientFunds)
    );
}

#[test]
fn subscription_out_of_range_is_refused_and_nothing_moves() {
    let mut ledger = ledger_with_gold_plan();
    assert!(ledger.deposit(party(5), 500));
    let outcome = ledger.subscribe(party(5), party(1), 7, i64::MAX - 2_591_999);
    assert_eq!(outcome, Err(SubscriptionsDappError::ExpiryOutOfRange));
    assert_eq!(ledger.balance(&party(5)), 500);
    assert_eq!(ledger.balance(&party(1)), 0);
    assert_eq!(ledger.subscription(&party(5), &party(1), 7), None);
    let last = ledger.subscribe(party(5), party(1), 7, i64::MAX - 2_592_000).unwrap();
    assert_eq!(last.expires_at, i64::MAX);
    assert_eq!(ledger.balance(&party(1)), 500);
}

#[test]
fn out_of_range_is_reported_last() {
    let mut ledger = ledger_with_gold_plan();
    assert_eq!(
        ledger.subscribe(party(5), party(1), 8, i64::MAX),
        Err(SubscriptionsDappError::NotFound)
    );
    assert_eq!(
        ledger.subscribe(party(5), party(1), 7, i64::MAX),
        Err(SubscriptionsDappError::InsufficientFunds)
    );
    assert!(ledger.deposit(party(5), 1_000));
    assert!(ledger.subscribe(party(5), party(1), 7, NOW).is_ok());
    assert_eq!(
        ledger.subscribe(party(5), party(1), 7, i64::MAX),
        Err(SubscriptionsDappError::AlreadyExists)
    );
}

#[test]
fn two_subscribers_to_one_plan() {
    let mut ledger = ledger_with_gold_plan();
    assert!(ledger.deposit(party(5), 500));
    assert!(ledger.deposit(party(6), 800));
    assert!(ledger.subscribe(party(5), party(1), 7, NOW).is_ok());
    assert!(ledger.subscribe(party(6), party(1), 7, NOW + 5).is_ok());
    assert_eq!(ledger.balance(&party(1)), 1_000);
    assert_eq!(ledger.balance(&party(5)), 0);
    assert_eq!(ledger.balance(&party(6)), 300);
    assert_eq!(ledger.subscription(&party(6), &party(1), 7).unwrap().created_at, NOW + 5);
    assert_eq!(ledger.subscription(&party(5), &party(1), 7).unwrap().created_at, NOW);
}

#[test]
fn creator_subscribing_to_an_own_plan_keeps_the_balance() {
    let mut ledger = ledger_with_gold_plan();
    assert!(ledger.deposit(party(1), 700));
    let record = ledger.subscribe(party(1), party(1), 7, NOW).unwrap();
    assert_eq!(ledger.balance(&party(1)), 700);
    assert_eq!(ledger.supply(), 700);
    assert_eq!(record.subscriber, party(1));
    assert_eq!(record.creator, party(1));
}

#[test]
fn free_plan_needs_no_funds() {
    let mut ledger = Ledger::new();
    ledger.create_plan(party(1), 1, String::from("Free"), 0, 1, NOW).unwrap();
    let record = ledger.subscribe(party(5), party(1), 1, NOW).unwrap();
    assert_eq!(record.expires_at, NOW + 86_400);
    assert_eq!(ledger.balance(&party(5)), 0);
    assert_eq!(ledger.balance(&party(1)), 0);
    assert_eq!(ledger.supply(), 0);
}

#[test]
fn zero_length_plan_expires_at_once() {
    let mut ledger = Ledger::new();
    ledger.create_plan(party(1), 1, String::from("Flash"), 0, 0, NOW).unwrap();
    let record = ledger.subscribe(party(5), party(1), 1, NOW).unwrap();
    assert_eq!(record.expires_at, NOW);
    assert_eq!(ledger.is_active(&party(5), &party(1), 1, NOW), Ok(true));
    assert_eq!(
        ledger.is_active(&party(5), &party(1), 1, NOW + 1),
        Err(SubscriptionsDappError::SubscriptionExpired)
    );
}

#[test]
fn is_active_until_expiry_and_fails_one_second_later() {
    let mut ledger = ledger_with_gold_plan();
    assert!(ledger.deposit(party(5), 500));
    let record = ledger.subscribe(party(5), party(1), 7, NOW).unwrap();
    assert_eq!(record.expires_at, NOW + 2_592_000);
    assert_eq!(ledger.is_active(&party(5), &party(1), 7, NOW), Ok(true));
    assert_eq!(ledger.is_active(&party(5), &party(1), 7, record.expires_at), Ok(true));
    assert_eq!(
        ledger.is_active(&party(5), &party(1), 7, record.expires_at + 1),
        Err(SubscriptionsDappError::SubscriptionExpired)
    );
}

#[test]
fn is_active_of_missing_subscription_is_not_found() {
    let ledger = ledger_with_gold_plan();
    assert_eq!(
        ledger.is_active(&party(5), &party(1), 7, NOW),
        Err(SubscriptionsDappError::NotFound)
    );
}

#[test]
fn records_stay_as_stored_through_later_operations() {
    let mut ledger = ledger_with_gold_plan();
    assert!(ledger.deposit(party(5), 500));
    let record = ledger.subscribe(party(5), party(1), 7, NOW).unwrap();
    let plan = ledger.plan(&party(1), 7).unwrap().clone();
    for n in 0..20u64 {
        let owner = party(20 + n as u8);
        ledger.create_plan(owner, n, format!("Plan {}", n), n, 1, NOW + n as i64).unwrap();
        assert!(ledger.deposit(party(6), n));
        ledger.subscribe(party(6), owner, n, NOW + n as i64).unwrap();
    }
    assert_eq!(*ledger.plan(&party(1), 7).unwrap(), plan);
    assert_eq!(ledger.subscription(&party(5), &party(1), 7), Some(record));
    assert_eq!(ledger.subscription(&party(6), &party(39), 19).unwrap().plan_id, 19);
    assert_eq!(ledger.balance(&party(39)), 19);
    assert_eq!(ledger.balance(&party(6)), 0);
    assert_eq!(ledger.supply(), 500 + 190);
}
