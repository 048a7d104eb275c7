use zero2prod::new_subscriber::{FormData, NewSubscriber};
use zero2prod::store::{ConfirmationOutcome, StoreError, SubscriptionStatus, SubscriptionStore};

fn new_subscriber(name: &str, email: &str) -> NewSubscriber {
    NewSubscriber::try_from(FormData { name: name.to_string(), email: email.to_string() }).unwrap()
}

#[test]
fn register_writes_one_pending_row_and_one_token() {
    let mut store = SubscriptionStore::new();
    let sub = new_subscriber("le guin", "ursula_le_guin@gmail.com");
    let token = store.register_subscriber(&sub, 7, "tok-1".to_string(), 1_600_000_000).unwrap();
    assert_eq!(token, "tok-1");
    assert_eq!(store.subscriber_count(), 1);
    assert_eq!(store.token_count(), 1);
    let row = store.subscriber(0);
    assert_eq!(row.id, 7);
    assert_eq!(row.email, "ursula_le_guin@gmail.com");
    assert_eq!(row.name, "le guin");
    assert_eq!(row.subscribed_at, 1_600_000_000);
    assert_eq!(row.status, SubscriptionStatus::PendingConfirmation);
}

#[test]
fn duplicate_id_is_refused_and_nothing_written() {
    let mut store = SubscriptionStore::new();
    let a = new_subscriber("a", "a@example.com");
    let b = new_subscriber("b", "b@example.com");
    store.register_subscriber(&a, 1, "t1".to_string(), 0).unwrap();
    assert_eq!(
        store.register_subscriber(&b, 1, "t2".to_string(), 0),
        Err(StoreError::DuplicateSubscriberId)
    );
    assert_eq!(store.subscriber_count(), 1);
    assert_eq!(store.token_count(), 1);
}

#[test]
fn duplicate_token_is_refused_and_nothing_written() {
    let mut store = SubscriptionStore::new();
    let a = new_subscriber("a", "a@example.com");
    let b = new_subscriber("b", "b@example.com");
    store.register_subscriber(&a, 1, "t1".to_string(), 0).unwrap();
    assert_eq!(
        store.register_subscriber(&b, 2, "t1".to_string(), 0),
        Err(StoreError::DuplicateToken)
    );
    assert_eq!(store.subscriber_count(), 1);
    assert_eq!(store.token_count(), 1);
}

#[test]
fn same_address_may_register_twice() {
    let mut store = SubscriptionStore::new();
    let a = new_subscriber("a", "a@example.com");
    store.register_subscriber(&a, 1, "t1".to_string(), 0).unwrap();
    store.register_subscriber(&a, 2, "t2".to_string(), 0).unwrap();
    assert_eq!(store.subscriber_count(), 2);
}

#[test]
fn confirm_moves_only_the_owner_to_confirmed() {
    let mut store = SubscriptionStore::new();
    let a = new_subscriber("a", "a@example.com");
    let b = new_subscriber("b", "b@example.com");
    store.register_subscriber(&a, 1, "t1".to_string(), 0).unwrap();
    store.register_subscriber(&b, 2, "t2".to_string(), 0).unwrap();
    assert_eq!(store.confirm_subscriber("t2"), ConfirmationOutcome::Confirmed);
    assert_eq!(store.status_of(1), Some(SubscriptionStatus::PendingConfirmation));
    assert_eq!(store.status_of(2), Some(SubscriptionStatus::Confirmed));
    assert_eq!(store.status_of(3), None);
}

#[test]
fn confirm_again_is_a_harmless_success() {
    let mut store = SubscriptionStore::new();
    let a = new_subscriber("a", "a@example.com");
    store.register_subscriber(&a, 1, "t1".to_string(), 0).unwrap();
    assert_eq!(store.confirm_subscriber("t1"), ConfirmationOutcome::Confirmed);
    assert_eq!(store.confirm_subscriber("t1"), ConfirmationOutcome::Confirmed);
    assert_eq!(store.status_of(1), Some(SubscriptionStatus::Confirmed));
}

#[test]
fn unknown_token_is_not_found() {
    let mut store = SubscriptionStore::new();
    assert_eq!(store.confirm_subscriber("nope"), ConfirmationOutcome::TokenNotFound);
    let a = new_subscriber("a", "a@example.com");
    store.register_subscriber(&a, 1, "t1".to_string(), 0).unwrap();
    assert_eq!(store.confirm_subscriber("t10"), ConfirmationOutcome::TokenNotFound);
    assert_eq!(store.status_of(1), Some(SubscriptionStatus::PendingConfirmation));
}

#[test]
fn two_registrations_get_distinct_ids_and_tokens() {
    let mut store = SubscriptionStore::new();
    let a = new_subscriber("a", "a@example.com");
    let b = new_subscriber("b", "b@example.com");
    let ta = store.register(&a).unwrap();
    let tb = store.register(&b).unwrap();
    assert_ne!(ta, tb);
    assert_eq!(store.subscriber_count(), 2);
    assert_ne!(store.subscriber(0).id, store.subscriber(1).id);
    assert_eq!(store.subscriber(0).email, "a@example.com");
    assert_eq!(store.subscriber(1).email, "b@example.com");
}

#[test]
fn status_names() {
    assert_eq!(SubscriptionStatus::PendingConfirmation.as_str(), "pending_confirmation");
    assert_eq!(SubscriptionStatus::Confirmed.as_str(), "confirmed");
}

#[test]
fn drawn_token_is_hyphenated_lowercase_uuid() {
    let mut store = SubscriptionStore::new();
    let a = new_subscriber("a", "a@example.com");
    let token = store.register(&a).unwrap();
    assert_eq!(token.len(), 36);
    for (i, c) in token.chars().enumerate() {
        if i == 8 || i == 13 || i == 18 || i == 23 {
            assert_eq!(c, '-');
        } else {
            assert!(c.is_ascii_digit() || ('a'..='f').contains(&c));
        }
    }
}
