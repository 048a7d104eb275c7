use zero2prod::email_client::{send_outcome, EmailClient, SendError};
use zero2prod::lifecycle::{
    after_persist, after_send, confirmation_result, handle_confirmation, start_registration,
    validate_registration, ConfirmationResult, RegistrationResult,
};
use zero2prod::new_subscriber::FormData;
use zero2prod::store::{ConfirmationOutcome, StoreError, SubscriptionStatus, SubscriptionStore};
use zero2prod::subscriber_email::SubscriberEmail;

fn client() -> EmailClient {
    let sender = SubscriberEmail::parse("newsletter@example.com".to_string()).unwrap();
    EmailClient::new(sender, "http://localhost:9999".to_string(), 200)
}

fn form(name: &str, email: &str) -> FormData {
    FormData { name: name.to_string(), email: email.to_string() }
}

#[test]
fn subscriptions_subscriptions_returns_200_for_valid_data() {
    let mut store = SubscriptionStore::new();
    let client = client();
    let mut sends = 0;
    let req = start_registration(&mut store, &client, form("le guin", "ursula_le_guin@gmail.com"))
        .unwrap();
    sends += 1;
    assert_eq!(req.url, "http://localhost:9999/email");
    let result = after_send(send_outcome(false, Some(200)));
    assert_eq!(result.status_code(), 200);
    assert_eq!(sends, 1);
    assert_eq!(store.subscriber_count(), 1);
    assert_eq!(store.subscriber(0).email, "ursula_le_guin@gmail.com");
    assert_eq!(store.subscriber(0).name, "le guin");
    assert_eq!(store.subscriber(0).status, SubscriptionStatus::PendingConfirmation);
}

#[test]
fn subscriptions_subscriptions_returns_400_for_invalid_data() {
    let test_cases = vec![
        (form("some name", "not_an_email"), "invalid email"),
        (form("", "ursula_le_guin@gmail.com"), "empty name"),
        (form("some name", ""), "empty email"),
    ];
    let client = client();
    for (invalid, error_message) in test_cases {
        let mut store = SubscriptionStore::new();
        let res = start_registration(&mut store, &client, invalid);
        let code = match res {
            Ok(_) => 200,
            Err(r) => r.status_code(),
        };
        assert_eq!(
            400, code,
            "The API did not fail with 400 Bad Request when the payload was {}.",
            error_message
        );
        assert_eq!(store.subscriber_count(), 0);
        assert_eq!(store.token_count(), 0);
    }
}

#[test]
fn subscribe_sends_email_confirmation_for_valid_data() {
    let mut store = SubscriptionStore::new();
    let client = client();
    let req = start_registration(&mut store, &client, form("le guin", "ursula_le_guin@gmail.com"))
        .unwrap();
    assert_eq!(req.from, "newsletter@example.com");
    assert_eq!(req.to, "ursula_le_guin@gmail.com");
    assert_eq!(req.subject, "hello");
    assert_eq!(req.html_body, req.text_body);
    assert!(!req.html_body.is_empty());
}

#[test]
fn confirm_subscription_with_valid_token() {
    let mut store = SubscriptionStore::new();
    let client = client();
    let req = start_registration(&mut store, &client, form("le guin", "ursula_le_guin@gmail.com"))
        .unwrap();
    assert_eq!(after_send(send_outcome(false, Some(200))), RegistrationResult::Accepted);
    assert_eq!(store.subscriber(0).status, SubscriptionStatus::PendingConfirmation);

    let res = handle_confirmation(&mut store, &req.html_body);
    assert_eq!(res.status_code(), 200);
    assert_eq!(store.subscriber(0).status, SubscriptionStatus::Confirmed);
}

#[test]
fn confirm_with_unknown_token_is_404() {
    let mut store = SubscriptionStore::new();
    let res = handle_confirmation(&mut store, "not-a-token");
    assert_eq!(res, ConfirmationResult::NotFound);
    assert_eq!(res.status_code(), 404);
}

#[test]
fn send_timeout_keeps_the_pending_subscriber() {
    let mut store = SubscriptionStore::new();
    let client = client();
    start_registration(&mut store, &client, form("le guin", "ursula_le_guin@gmail.com")).unwrap();
    let sent = send_outcome(true, None);
    assert_eq!(sent, Err(SendError::Timeout));
    let result = after_send(sent);
    assert_eq!(result, RegistrationResult::NotificationFailed);
    assert_eq!(result.status_code(), 500);
    assert_eq!(store.subscriber_count(), 1);
    assert_eq!(store.subscriber(0).status, SubscriptionStatus::PendingConfirmation);
}

#[test]
fn storage_failure_sends_nothing() {
    let client = client();
    let recipient = SubscriberEmail::parse("ursula_le_guin@gmail.com".to_string()).unwrap();
    let r = after_persist(&client, &recipient, Err(StoreError::Unavailable));
    assert_eq!(r.err(), Some(RegistrationResult::PersistenceFailed));
    assert_eq!(RegistrationResult::PersistenceFailed.status_code(), 500);
}

#[test]
fn confirmation_outcomes_map_to_results() {
    assert_eq!(confirmation_result(Ok(ConfirmationOutcome::Confirmed)), ConfirmationResult::Confirmed);
    assert_eq!(confirmation_result(Ok(ConfirmationOutcome::TokenNotFound)), ConfirmationResult::NotFound);
    assert_eq!(confirmation_result(Err(StoreError::Unavailable)), ConfirmationResult::PersistenceFailed);
    assert_eq!(ConfirmationResult::PersistenceFailed.status_code(), 500);
}

#[test]
fn two_concurrent_style_registrations_are_independent() {
    let mut store = SubscriptionStore::new();
    let client = client();
    let a = start_registration(&mut store, &client, form("a", "a@example.com")).unwrap();
    let b = start_registration(&mut store, &client, form("b", "b@example.com")).unwrap();
    assert_ne!(a.html_body, b.html_body);
    assert_ne!(store.subscriber(0).id, store.subscriber(1).id);
    assert_eq!(handle_confirmation(&mut store, &b.html_body), ConfirmationResult::Confirmed);
    assert_eq!(store.subscriber(0).status, SubscriptionStatus::PendingConfirmation);
    assert_eq!(store.subscriber(1).status, SubscriptionStatus::Confirmed);
}

#[test]
fn validation_refusal_is_invalid_input() {
    assert_eq!(
        validate_registration(form("  ", "a@example.com")).err(),
        Some(RegistrationResult::InvalidInput)
    );
    let ok = validate_registration(form("Ursula", "a@example.com")).unwrap();
    assert_eq!(ok.name.as_ref(), "Ursula");
    assert_eq!(ok.email.as_ref(), "a@example.com");
}
