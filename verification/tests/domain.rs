use zero2prod::domain::subscriber_name::is_acceptable_name;
use zero2prod::domain::{NewSubscriber, SubscriberEmail, SubscriberName};
use zero2prod::more;
use zero2prod::text::{trims_to_empty, white_space};
use zero2prod::routes::subscriptions::FormData;

#[test]
fn more_adds_one_hundred() {
    assert_eq!(more(4), 104);
    assert_eq!(more(0), 100);
    assert_eq!(more(u32::MAX - 100), u32::MAX);
}

#[test]
fn a_256_grapheme_long_name_is_valid() {
    let name = "a\u{301}".repeat(256);
    assert!(SubscriberName::parse(name).is_ok());
}

#[test]
fn a_name_longer_than_256_graphemes_is_rejected() {
    let name = "a".repeat(257);
    assert!(SubscriberName::parse(name).is_err());
}

#[test]
fn whitespace_only_names_are_rejected() {
    assert!(SubscriberName::parse(" ".to_string()).is_err());
    assert!(SubscriberName::parse("\t\n \u{3000}".to_string()).is_err());
}

#[test]
fn empty_string_is_rejected() {
    assert!(SubscriberName::parse("".to_string()).is_err());
}

#[test]
fn names_containing_an_invalid_character_are_rejected() {
    for name in &['/', '(', ')', '"', '<', '>', '\\', '{', '}'] {
        let name = format!("ursula{}", name);
        assert!(SubscriberName::parse(name).is_err());
    }
}

#[test]
fn a_valid_name_is_parsed_successfully() {
    let name = SubscriberName::parse("Ursula Le Guin".to_string()).unwrap();
    assert_eq!(name.as_ref(), "Ursula Le Guin");
}

#[test]
fn a_refused_name_is_named_in_the_error() {
    assert_eq!(
        SubscriberName::parse("<script>".to_string()).err().unwrap(),
        "<script> is not a valid subscriber name."
    );
}

#[test]
fn empty_email_is_rejected() {
    assert!(SubscriberEmail::parse("".to_string()).is_err());
}

#[test]
fn email_missing_at_symbol_is_rejected() {
    assert!(SubscriberEmail::parse("ursuladomain.com".to_string()).is_err());
}

#[test]
fn email_missing_subject_is_rejected() {
    assert!(SubscriberEmail::parse("@domain.com".to_string()).is_err());
}

#[test]
fn a_valid_email_is_parsed_successfully() {
    let email = SubscriberEmail::parse("ursula@domain.com".to_string()).unwrap();
    assert_eq!(email.as_ref(), "ursula@domain.com");
}

#[test]
fn a_refused_email_is_named_in_the_error() {
    assert_eq!(
        SubscriberEmail::parse("ursula".to_string()).err().unwrap(),
        "ursula is not a valid subscriber email."
    );
}

#[test]
fn a_valid_form_makes_a_new_subscriber() {
    let form = FormData { email: "le_guin@gmail.com".to_string(), name: "le guin".to_string() };
    let s = NewSubscriber::try_from(form).unwrap();
    assert_eq!(s.email.as_ref(), "le_guin@gmail.com");
    assert_eq!(s.name.as_ref(), "le guin");
}

#[test]
fn the_name_is_checked_before_the_email() {
    let form = FormData { email: "not-an-email".to_string(), name: "".to_string() };
    assert_eq!(NewSubscriber::try_from(form).err().unwrap(), " is not a valid subscriber name.");
    let form = FormData { email: "not-an-email".to_string(), name: "Ursula".to_string() };
    assert_eq!(
        NewSubscriber::try_from(form).err().unwrap(),
        "not-an-email is not a valid subscriber email."
    );
}

#[test]
fn acceptable_names_given_their_length() {
    assert!(is_acceptable_name("Ursula", 6));
    assert!(is_acceptable_name("Ursula", 256));
    assert!(!is_acceptable_name("Ursula", 257));
    assert!(!is_acceptable_name("  ", 2));
    assert!(!is_acceptable_name("a}", 2));
}

#[test]
fn a_name_of_many_combining_characters_counts_its_graphemes() {
    // 256 graphemes of two characters each: 512 characters, still accepted.
    let name = "e\u{301}".repeat(256);
    assert_eq!(name.chars().count(), 512);
    assert!(SubscriberName::parse(name).is_ok());
    let name = "e\u{301}".repeat(257);
    assert!(SubscriberName::parse(name).is_err());
}

#[test]
fn white_space_is_unicode_white_space() {
    for u in 0u32..=0x10FFFF {
        if let Some(c) = char::from_u32(u) {
            assert_eq!(white_space(c), c.is_whitespace());
        }
    }
    assert!(trims_to_empty(" \t\u{3000}"));
    assert!(trims_to_empty(""));
    assert!(!trims_to_empty("  x "));
}
