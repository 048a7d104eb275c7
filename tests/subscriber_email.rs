use zero2prod::subscriber_email::SubscriberEmail;

#[test]
fn invalid_email_rejected() {
    let email = "hello there".to_string();
    assert!(SubscriberEmail::parse(email).is_err());
}

#[test]
fn invalid_email_message_carries_the_text() {
    let err = SubscriberEmail::parse("hello there".to_string()).unwrap_err();
    assert_eq!(err, "invalid email hello there");
}

#[test]
fn empty_email_rejected() {
    assert!(SubscriberEmail::parse(String::new()).is_err());
}

#[test]
fn email_without_domain_rejected() {
    assert!(SubscriberEmail::parse("ursula_le_guin".to_string()).is_err());
    assert!(SubscriberEmail::parse("@gmail.com".to_string()).is_err());
}

#[test]
fn valid_emails_accepted() {
    for s in ["ursula_le_guin@gmail.com", "a.b@example.org", "x+y@sub.domain.net"] {
        let parsed = SubscriberEmail::parse(s.to_string()).unwrap();
        assert_eq!(parsed.as_ref(), s);
    }
}
