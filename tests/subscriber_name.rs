use zero2prod::subscriber_name::{NameError, SubscriberName};

#[test]
fn whitespace_name_is_rejected() {
    let name = " ".to_string();
    assert!(SubscriberName::parse(name).is_err());
}

#[test]
fn empty_string_is_rejected() {
    let name = "".to_string();
    assert!(SubscriberName::parse(name).is_err());
}

#[test]
fn long_name_is_rejected() {
    let name = "a".repeat(257);
    assert!(SubscriberName::parse(name).is_err());
}

#[test]
fn valid_name() {
    let name = "Some Guy".to_string();
    assert!(SubscriberName::parse(name).is_ok());
}

#[test]
fn blank_names_give_empty_or_whitespace() {
    for s in ["", " ", "   ", "\t\n", "\u{3000}\u{a0}", "\u{2003} "] {
        assert_eq!(SubscriberName::parse(s.to_string()).unwrap_err(), NameError::EmptyOrWhitespace);
    }
}

#[test]
fn blank_check_comes_before_length() {
    let name = " ".repeat(300);
    assert_eq!(SubscriberName::parse(name).unwrap_err(), NameError::EmptyOrWhitespace);
}

#[test]
fn name_of_256_graphemes_is_accepted() {
    let name = "a".repeat(256);
    let parsed = SubscriberName::parse(name.clone()).unwrap();
    assert_eq!(parsed.as_ref(), name.as_str());
}

#[test]
fn long_name_carries_the_text() {
    let name = "a".repeat(257);
    assert_eq!(SubscriberName::parse(name.clone()).unwrap_err(), NameError::TooLong(name));
}

#[test]
fn length_counts_grapheme_clusters_not_characters() {
    // each "e" with a combining acute accent is one cluster of two characters
    let name = "e\u{301}".repeat(256);
    assert!(SubscriberName::parse(name).is_ok());
    let name = "e\u{301}".repeat(257);
    assert!(matches!(SubscriberName::parse(name), Err(NameError::TooLong(_))));
}

#[test]
fn every_forbidden_character_is_rejected() {
    for c in ['/', '(', ')', '"', '<', '>', '\\', '{', '}'] {
        let name = format!("Ursula {} Le Guin", c);
        assert_eq!(
            SubscriberName::parse(name.clone()).unwrap_err(),
            NameError::ForbiddenCharacters(name)
        );
    }
}

#[test]
fn length_check_comes_before_forbidden_characters() {
    let name = "{".repeat(257);
    assert!(matches!(SubscriberName::parse(name), Err(NameError::TooLong(_))));
}

#[test]
fn name_error_messages() {
    assert_eq!(NameError::EmptyOrWhitespace.message(), "name must not be empty");
    assert_eq!(
        NameError::ForbiddenCharacters("a/b".to_string()).message(),
        "name contains forbidden characters"
    );
}

#[test]
fn non_breaking_and_ideographic_spaces_are_blank() {
    assert_eq!(
        SubscriberName::parse("\u{85}\u{1680}\u{202f}\u{205f}".to_string()).unwrap_err(),
        NameError::EmptyOrWhitespace
    );
    assert!(SubscriberName::parse("\u{200b}".to_string()).is_ok());
}
