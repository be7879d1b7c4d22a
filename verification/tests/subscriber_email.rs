use zero2prod::domain::subscriber_email::{
    SubscriberEmail, MAX_DOMAIN_LENGTH, MAX_EMAIL_LENGTH, MAX_LABEL_LENGTH, MAX_LOCAL_PART_LENGTH,
};
use zero2prod::domain::validation_error::{Rule, ValidationError};

fn refused(text: &str) {
    assert_eq!(
        SubscriberEmail::parse(text.to_string()),
        Err(ValidationError { raw: text.to_string(), rule: Rule::MalformedEmail }),
        "{:?}",
        text
    );
}

fn accepted(text: &str) {
    let email = SubscriberEmail::parse(text.to_string()).unwrap();
    assert_eq!(email.as_ref(), text);
}

#[test]
fn valid_emails_are_parsed_successfully() {
    accepted("ursula@domain.com");
    accepted("alex@kalinin.uk");
    accepted("a@b.c");
    accepted("first.last@sub.domain.example");
    accepted("USER+tag@Example-Host.org");
    accepted("0@1.2");
}

#[test]
fn an_empty_email_is_rejected() {
    refused("");
}

#[test]
fn email_missing_at_symbol_is_rejected() {
    refused("ursulaexample.com");
    refused("foo");
}

#[test]
fn email_missing_subject_is_rejected() {
    refused("@domain.com");
}

#[test]
fn email_missing_domain_is_rejected() {
    refused("ursula@");
    refused("@");
}

#[test]
fn a_domain_without_a_dot_is_rejected() {
    refused("ursula@localhost");
    refused("a@b");
}

#[test]
fn a_second_at_symbol_is_rejected() {
    refused("a@b@domain.com");
    refused("a@@domain.com");
    refused("a@domain.com@");
}

#[test]
fn a_domain_with_an_empty_label_is_rejected() {
    refused("a@.domain.com");
    refused("a@domain.com.");
    refused("a@domain..com");
    refused("a@.");
}

#[test]
fn a_label_may_hold_a_hyphen_but_not_begin_or_end_with_one() {
    accepted("a@my-host.example.com");
    accepted("a@a--b.com");
    refused("a@-host.com");
    refused("a@host-.com");
    refused("a@host.-com");
    refused("a@host.com-");
}

#[test]
fn whitespace_and_control_characters_are_rejected() {
    refused("ursula @domain.com");
    refused(" ursula@domain.com");
    refused("ursula@domain.com ");
    refused("ursula@do main.com");
    refused("ursula\t@domain.com");
    refused("ursula\0@domain.com");
    refused("ursula@domain.com\n");
    refused("ursula\u{7f}@domain.com");
}

#[test]
fn characters_outside_the_local_set_are_rejected() {
    for c in ['(', ')', '<', '>', '[', ']', ':', ';', ',', '"', '\\'] {
        refused(&format!("a{}b@domain.com", c));
    }
}

#[test]
fn every_character_of_the_local_set_is_accepted() {
    for c in ".!#$%&'*+/=?^_`{|}~-".chars() {
        accepted(&format!("a{}b@domain.com", c));
        accepted(&format!("{}@domain.com", c));
    }
}

#[test]
fn characters_outside_ascii_are_rejected() {
    refused("ürsula@domain.com");
    refused("ursula@dömain.com");
}

#[test]
fn address_literals_and_underscores_in_the_domain_are_rejected() {
    refused("a@[127.0.0.1]");
    refused("a@my_host.com");
}

#[test]
fn the_local_part_has_at_most_64_characters() {
    assert_eq!(MAX_LOCAL_PART_LENGTH, 64);
    accepted(&format!("{}@domain.com", "a".repeat(64)));
    refused(&format!("{}@domain.com", "a".repeat(65)));
}

#[test]
fn a_label_has_at_most_63_characters() {
    assert_eq!(MAX_LABEL_LENGTH, 63);
    accepted(&format!("a@{}.com", "b".repeat(63)));
    refused(&format!("a@{}.com", "b".repeat(64)));
    accepted(&format!("a@x.{}", "b".repeat(63)));
    refused(&format!("a@x.{}", "b".repeat(64)));
    accepted(&format!("a@{}.{}.y", "b".repeat(63), "c".repeat(63)));
    refused(&format!("a@{}.{}.y", "b".repeat(63), "c".repeat(64)));
}

#[test]
fn the_domain_has_at_most_255_characters() {
    assert_eq!(MAX_DOMAIN_LENGTH, 255);
    let label = "d".repeat(63);
    let longest = format!("{0}.{0}.{0}.{0}", label);
    assert_eq!(longest.len(), 255);
    accepted(&format!("a@{}", longest));
    let too_long = format!("{0}.{0}.{0}.{1}.e", label, "d".repeat(62));
    assert_eq!(too_long.len(), 256);
    refused(&format!("a@{}", too_long));
}

#[test]
fn the_longest_address_has_320_characters() {
    assert_eq!(MAX_EMAIL_LENGTH, 320);
    let label = "d".repeat(63);
    let longest = format!("{1}@{0}.{0}.{0}.{0}", label, "a".repeat(64));
    assert_eq!(longest.len(), 320);
    accepted(&longest);
    refused(&format!("{}@{}", "a".repeat(400), "domain.com"));
    refused(&"a".repeat(100_000));
}

#[test]
fn parsing_an_email_twice_gives_equal_emails() {
    for text in ["ursula@domain.com", "", "foo", "a@b"] {
        let first = SubscriberEmail::parse(text.to_string());
        let second = SubscriberEmail::parse(text.to_string());
        assert_eq!(first, second);
    }
}

#[test]
fn the_text_of_an_email_parses_to_the_same_email() {
    let email = SubscriberEmail::parse("ursula@domain.com".to_string()).unwrap();
    let again = SubscriberEmail::parse(email.as_ref().to_string()).unwrap();
    assert_eq!(again, email);
}

#[test]
fn a_cloned_email_reads_the_same() {
    let email = SubscriberEmail::parse("ursula@domain.com".to_string()).unwrap();
    assert_eq!(email.clone(), email);
}
