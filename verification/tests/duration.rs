use nudge::duration::{is_deadline, is_deadline_from, parse_duration_secs};

#[test]
fn test_parse_duration() {
    assert_eq!(parse_duration_secs("30s").unwrap(), 30);
    assert_eq!(parse_duration_secs("5m").unwrap(), 300);
    assert_eq!(parse_duration_secs("2h").unwrap(), 7200);
    assert_eq!(parse_duration_secs("7d").unwrap(), 604800);
}

#[test]
fn test_parse_duration_negative() {
    assert!(parse_duration_secs("-5m").is_err());
}

#[test]
fn test_parse_duration_overflow() {
    assert!(parse_duration_secs("9999999999999999999d").is_err());
    assert!(parse_duration_secs("9223372036854775807h").is_err());
}

fn refused(s: &str) -> String {
    parse_duration_secs(s).unwrap_err().message()
}

#[test]
fn white_space_round_a_duration_is_ignored() {
    assert_eq!(parse_duration_secs("  30s\n").unwrap(), 30);
    assert_eq!(parse_duration_secs("\u{2003}1d\u{a0}").unwrap(), 86400);
    assert_eq!(parse_duration_secs("+5m").unwrap(), 300);
    assert_eq!(parse_duration_secs("007s").unwrap(), 7);
    assert_eq!(parse_duration_secs("-0s").unwrap(), 0);
}

#[test]
fn each_refusal_of_a_duration_says_why() {
    assert_eq!(refused(""), "empty duration");
    assert_eq!(refused("  \t "), "empty duration");
    assert_eq!(refused("s"), "invalid duration: s");
    assert_eq!(refused(" 5 m "), "invalid duration: 5 m");
    assert_eq!(refused("1.5h"), "invalid duration: 1.5h");
    assert_eq!(refused("9999999999999999999d"), "invalid duration: 9999999999999999999d");
    assert_eq!(refused("-5m"), "duration must not be negative: -5m");
    assert_eq!(refused("-5x"), "duration must not be negative: -5x");
    assert_eq!(refused("9223372036854775807h"), "duration overflow: 9223372036854775807h");
    assert_eq!(refused("10w"), "unknown duration unit: w. Use s/m/h/d");
    assert_eq!(refused("10"), "unknown duration unit: 0. Use s/m/h/d");
}

#[test]
fn a_number_and_a_unit_are_that_many_seconds() {
    assert_eq!(parse_duration_secs("9223372036854775807s").unwrap(), i64::MAX);
    assert_eq!(parse_duration_secs("153722867280912930m").unwrap(), 9223372036854775800);
    assert!(parse_duration_secs("153722867280912931m").is_err());
    assert_eq!(parse_duration_secs("106751991167300d").unwrap(), 9223372036854720000);
    assert!(parse_duration_secs("106751991167301d").is_err());
}

#[test]
fn a_deadline_is_a_duration_that_can_be_counted_from_now() {
    assert!(is_deadline("30m"));
    assert!(is_deadline("9223363826587899008s"));
    assert!(!is_deadline("9223363826587899009s"));
    assert!(!is_deadline("9223372036854775807s"));
    // What is refused anyway is counted from nothing.
    assert!(is_deadline("bogus"));
    assert!(is_deadline(""));
    assert!(!is_deadline("5\u{b5}"));
    assert!(is_deadline_from("9223372036854775807s", 0));
    assert!(is_deadline_from("9223372036854775807s", -5));
    assert!(!is_deadline_from("9223372036854775807s", 1));
    assert!(!is_deadline_from("5\u{b5}", 0));
}
