use stoic_newsletter::domain::subscriber_name::{forbidden, holds_forbidden, name_is_acceptable};
use stoic_newsletter::domain::{Email, Subscriber, SubscriberName};
use stoic_newsletter::routes::subscriptions::SubscribeFormData;

#[test]
fn a_empty_name_is_invalid() {
    let name = "".to_string();
    assert!(SubscriberName::parse(name).is_err());
}

#[test]
fn a_name_that_only_cotains_whitespaces_is_invalid() {
    let name = "    ".to_string();
    assert!(SubscriberName::parse(name).is_err());
}

#[test]
fn a_256_grapheme_long_name_is_valid() {
    let name = "a".repeat(256);
    assert!(SubscriberName::parse(name).is_ok());
}

#[test]
fn a_name_longer_than_256_graphemes_is_invalid() {
    let name = "a".repeat(257);
    assert!(SubscriberName::parse(name).is_err());
}

#[test]
fn a_name_that_contains_special_characters_is_invalid() {
    let forbidden_characters = ['/', '(', ')', '"', '<', '>', '\\', '{', '}'];
    let name = String::from("name");
    for invalid_ch in forbidden_characters {
        let modified_name = format!("{}{}", name, invalid_ch);
        assert!(SubscriberName::parse(modified_name).is_err());
    }
}

#[test]
fn a_valid_name_is_parsed_successfully() {
    assert!(SubscriberName::parse(String::from("Jean Banana")).is_ok());
}

#[test]
fn test_valid_email() {
    let email = String::from("testingg@gmail.com");
    assert!(Email::parse(email).is_ok());
}

#[test]
fn test_empty_string_is_invalid() {
    let email = String::from(" ");
    assert!(Email::parse(email).is_err());
}

#[test]
fn test_invalid_email_is_rejected() {
    let email = String::from("gmail.rs");
    assert!(Email::parse(email).is_err());
}

#[test]
fn a_name_is_kept_as_it_was_given() {
    let name = SubscriberName::parse(String::from(" le guin ")).unwrap();
    assert_eq!(name.as_ref(), " le guin ");
    assert_eq!(name.as_str(), " le guin ");
}

#[test]
fn a_rejected_name_is_reported() {
    let error = SubscriberName::parse(String::from("a/b")).unwrap_err();
    assert_eq!(error, "a/b is not a valid subscriber name");
}

#[test]
fn a_name_is_measured_in_graphemes_not_in_characters() {
    // 256 times "e" with a combining acute accent: 512 characters.
    let name = "e\u{301}".repeat(256);
    assert_eq!(name.chars().count(), 512);
    assert!(SubscriberName::parse(name).is_ok());
    let name = "e\u{301}".repeat(257);
    assert!(SubscriberName::parse(name).is_err());
}

#[test]
fn a_name_of_unicode_white_space_is_invalid() {
    for blank in ["\t", "\n", "\u{85}", "\u{a0}", "\u{1680}", "\u{2003}", "\u{2028}", "\u{3000}"] {
        assert!(SubscriberName::parse(blank.repeat(3)).is_err());
    }
    // A zero width space is no white space.
    assert!(SubscriberName::parse(String::from("\u{200b}")).is_ok());
}

#[test]
fn the_parts_of_the_name_rule_are_judged_together() {
    assert!(name_is_acceptable("Jean Banana", 11));
    assert!(name_is_acceptable("Jean Banana", 256));
    assert!(!name_is_acceptable("Jean Banana", 257));
    assert!(!name_is_acceptable("  ", 2));
    assert!(!name_is_acceptable("Jean {Banana}", 13));
    assert!(forbidden('\\'));
    assert!(!forbidden('['));
    assert!(holds_forbidden("a<b"));
    assert!(!holds_forbidden("a[b]"));
}

#[test]
fn an_email_is_kept_as_it_was_given() {
    let email = Email::parse(String::from("ursula_le_guin@gmail.com")).unwrap();
    assert_eq!(email.as_ref(), "ursula_le_guin@gmail.com");
}

#[test]
fn a_rejected_email_is_reported() {
    let error = Email::parse(String::from("gmail.rs")).unwrap_err();
    assert_eq!(error, "gmail.rs is not a valid email");
}

#[test]
fn an_email_needs_a_local_part_and_a_domain() {
    assert!(Email::parse(String::from("@gmail.com")).is_err());
    assert!(Email::parse(String::from("ursula@")).is_err());
    assert!(Email::parse(String::from("")).is_err());
    assert!(Email::parse(String::from("ursula@127.0.0.1")).is_ok());
}

#[test]
fn values_are_equal_when_their_texts_are() {
    let a = SubscriberName::parse(String::from("le guin")).unwrap();
    let b = SubscriberName::parse(String::from("le guin")).unwrap();
    let c = SubscriberName::parse(String::from("Le Guin")).unwrap();
    assert!(a == b);
    assert!(a != c);
    assert!(a.clone() == a);
    let x = Email::parse(String::from("a@b.com")).unwrap();
    let y = Email::parse(String::from("a@b.com")).unwrap();
    let z = Email::parse(String::from("c@b.com")).unwrap();
    assert!(x == y);
    assert!(x != z);
    let mut set = std::collections::HashSet::new();
    set.insert(x);
    assert!(set.contains(&y));
    assert!(!set.contains(&z));
}

#[test]
fn a_form_becomes_a_subscriber() {
    let form = SubscribeFormData { name: String::from("le guin"), email: String::from("ursula_le_guin@gmail.com") };
    let subscriber = Subscriber::try_from(form).unwrap();
    assert_eq!(subscriber.name.as_ref(), "le guin");
    assert_eq!(subscriber.email.as_ref(), "ursula_le_guin@gmail.com");
    let form = SubscribeFormData { name: String::from(""), email: String::from("invalidemail") };
    assert_eq!(Subscriber::try_from(form).unwrap_err(), " is not a valid subscriber name");
    let form = SubscribeFormData { name: String::from("validnam"), email: String::from("invalidemail") };
    assert_eq!(Subscriber::try_from(form).unwrap_err(), "invalidemail is not a valid email");
}
