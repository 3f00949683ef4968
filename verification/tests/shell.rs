use splashgate::greet;
use splashgate::text::decimal_string;
use splashgate::text::str_eq;

#[test]
fn greet_wraps_the_name() {
    assert_eq!(greet("Alice"), "Hello, Alice! You've been greeted from Rust!");
    assert_eq!(greet(""), "Hello, ! You've been greeted from Rust!");
}

#[test]
fn decimal_rendering_matches_the_number() {
    assert_eq!(decimal_string(0), "0");
    assert_eq!(decimal_string(7), "7");
    assert_eq!(decimal_string(401), "401");
    assert_eq!(decimal_string(65535), "65535");
}

#[test]
fn string_equality_compares_characters() {
    assert!(str_eq("frontend", "frontend"));
    assert!(!str_eq("frontend", "backend"));
    assert!(!str_eq("front", "frontend"));
    assert!(str_eq("", ""));
    assert!(!str_eq("splashscreen", "splashscreem"));
}
