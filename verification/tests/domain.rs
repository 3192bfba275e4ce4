use zero2prod::domain::NewSubscriber;
use zero2prod::domain::SubscriberEmail;
use zero2prod::domain::SubscriberName;

#[test]
fn a_well_formed_email_is_accepted() {
    let email = SubscriberEmail::parse("ursula_le_guin@gmail.com".to_string()).unwrap();
    assert_eq!(email.as_ref(), "ursula_le_guin@gmail.com");
}

#[test]
fn the_shortest_email_is_accepted() {
    let email = SubscriberEmail::parse("a@b".to_string()).unwrap();
    assert_eq!(email.as_ref(), "a@b");
}

#[test]
fn a_non_ascii_email_is_accepted() {
    let email = SubscriberEmail::parse("jürgen@münchen.de".to_string()).unwrap();
    assert_eq!(email.as_ref(), "jürgen@münchen.de");
}

#[test]
fn email_missing_at_symbol_is_rejected() {
    let rejected = SubscriberEmail::parse("ursuladomain.com".to_string());
    assert_eq!(rejected.unwrap_err(), "ursuladomain.com is not a valid subscriber email.");
}

#[test]
fn email_missing_local_part_is_rejected() {
    let rejected = SubscriberEmail::parse("@domain.com".to_string());
    assert_eq!(rejected.unwrap_err(), "@domain.com is not a valid subscriber email.");
}

#[test]
fn email_missing_domain_is_rejected() {
    let rejected = SubscriberEmail::parse("ursula@".to_string());
    assert_eq!(rejected.unwrap_err(), "ursula@ is not a valid subscriber email.");
}

#[test]
fn empty_email_is_rejected() {
    let rejected = SubscriberEmail::parse(String::new());
    assert_eq!(rejected.unwrap_err(), " is not a valid subscriber email.");
}

#[test]
fn a_lone_at_symbol_is_rejected() {
    assert!(SubscriberEmail::parse("@".to_string()).is_err());
}

#[test]
fn email_with_two_at_symbols_is_rejected() {
    assert!(SubscriberEmail::parse("a@b@c".to_string()).is_err());
    assert!(SubscriberEmail::parse("a@@c".to_string()).is_err());
}

#[test]
fn email_with_blank_characters_is_rejected() {
    assert!(SubscriberEmail::parse("ursula le_guin@gmail.com".to_string()).is_err());
    assert!(SubscriberEmail::parse("ursula@gmail.com\n".to_string()).is_err());
    assert!(SubscriberEmail::parse("\tursula@gmail.com".to_string()).is_err());
    assert!(SubscriberEmail::parse("ursula@gmail\u{7f}.com".to_string()).is_err());
}

#[test]
fn a_copied_email_reads_the_same() {
    let email = SubscriberEmail::parse("ursula@domain.com".to_string()).unwrap();
    assert_eq!(email.duplicate().as_ref(), "ursula@domain.com");
}

#[test]
fn a_name_is_accepted() {
    let name = SubscriberName::parse("Ursula Le Guin".to_string()).unwrap();
    assert_eq!(name.as_ref(), "Ursula Le Guin");
    assert_eq!(name.duplicate().as_ref(), "Ursula Le Guin");
}

#[test]
fn an_empty_name_is_rejected() {
    let rejected = SubscriberName::parse(String::new());
    assert_eq!(rejected.unwrap_err(), " is not a valid subscriber name.");
}

#[test]
fn a_valid_pair_makes_a_new_subscriber() {
    let subscriber = NewSubscriber::parse(
        "Ursula Le Guin".to_string(),
        "ursula_le_guin@gmail.com".to_string(),
    )
    .unwrap();
    assert_eq!(subscriber.name.as_ref(), "Ursula Le Guin");
    assert_eq!(subscriber.email.as_ref(), "ursula_le_guin@gmail.com");
    let copy = subscriber.duplicate();
    assert_eq!(copy.name.as_ref(), "Ursula Le Guin");
    assert_eq!(copy.email.as_ref(), "ursula_le_guin@gmail.com");
}

#[test]
fn the_name_is_judged_before_the_email() {
    let rejected = NewSubscriber::parse(String::new(), "not-an-email".to_string());
    assert_eq!(rejected.unwrap_err(), " is not a valid subscriber name.");
}

#[test]
fn a_bad_email_spoils_a_good_name() {
    let rejected = NewSubscriber::parse("Ursula".to_string(), "not-an-email".to_string());
    assert_eq!(rejected.unwrap_err(), "not-an-email is not a valid subscriber email.");
}
