use user_crud::messages::user_not_found_message;
use user_crud::observer::crud_message;
use user_crud::observer::LoggerObserver;
use user_crud::observer::Observable;
use user_crud::patterns::is_valid_email;
use user_crud::patterns::is_valid_phone;
use user_crud::schema::FilterOptions;
use user_crud::text::parse_usize;
use user_crud::text::u64_to_string;

#[test]
fn emails_matching_the_pattern_are_accepted() {
    assert!(is_valid_email("a@b.co"));
    assert!(is_valid_email("john.doe+tag@sub.example.com"));
    assert!(is_valid_email("UPPER_case%99@mixed-Host.ORG"));
    assert!(is_valid_email("a@b..co"));
}

#[test]
fn emails_outside_the_pattern_are_rejected() {
    assert!(!is_valid_email("not-an-email"));
    assert!(!is_valid_email(""));
    assert!(!is_valid_email("@b.co"));
    assert!(!is_valid_email("a@b"));
    assert!(!is_valid_email("a@b.c"));
    assert!(!is_valid_email("a@b.c9"));
    assert!(!is_valid_email("a@@b.co"));
    assert!(!is_valid_email("a@b.co "));
    assert!(!is_valid_email("a b@c.de"));
}

#[test]
fn phones_matching_the_pattern_are_accepted() {
    assert!(is_valid_phone("+6281234567890"));
    assert!(is_valid_phone("6281234567890"));
    assert!(is_valid_phone("12"));
    assert!(is_valid_phone("+123456789012345"));
}

#[test]
fn phones_outside_the_pattern_are_rejected() {
    assert!(!is_valid_phone(""));
    assert!(!is_valid_phone("+"));
    assert!(!is_valid_phone("1"));
    assert!(!is_valid_phone("0123456789"));
    assert!(!is_valid_phone("+1234567890123456"));
    assert!(!is_valid_phone("12a4"));
    assert!(!is_valid_phone("++1234"));
}

#[test]
fn decimal_rendering_is_exact() {
    assert_eq!(u64_to_string(0), "0");
    assert_eq!(u64_to_string(42), "42");
    assert_eq!(u64_to_string(18446744073709551615), "18446744073709551615");
}

#[test]
fn not_found_messages_are_exact() {
    assert_eq!(user_not_found_message(42), "User with id 42 does not exist");
    assert_eq!(user_not_found_message(-2147483648), "User with id -2147483648 does not exist");
}

#[test]
fn decimal_parsing_accepts_digit_runs_only() {
    assert_eq!(parse_usize("0"), Some(0));
    assert_eq!(parse_usize("007"), Some(7));
    assert_eq!(parse_usize("15"), Some(15));
    assert_eq!(parse_usize(""), None);
    assert_eq!(parse_usize("three"), None);
    assert_eq!(parse_usize("1 2"), None);
    assert_eq!(parse_usize("-3"), None);
    assert_eq!(parse_usize("99999999999999999999999"), None);
}

#[test]
fn crud_messages_are_exact() {
    assert_eq!(crud_message("POST", "User"), "POST action performed on User");
    assert_eq!(crud_message("GET", "All Users"), "GET action performed on All Users");
}

#[test]
fn observers_receive_notifications() {
    let mut observable: Observable<LoggerObserver> = Observable::new();
    observable.add_observer(LoggerObserver);
    observable.notify_crud("DEL", "User");
    observable.notify_observers("direct message");
}

#[test]
fn filter_options_default_to_none() {
    let opts = FilterOptions::default();
    assert!(opts.page.is_none());
    assert!(opts.limit.is_none());
}
