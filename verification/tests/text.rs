use nudge::numeral::{parse_i64, parse_u32, push_i64, push_u32, IntError};
use nudge::text::{
    any_piece_is, chars_of, clone_or_empty, clone_text, has_text, is_text, is_white_space, same,
    split_line, strip_prefix, trim,
};

#[test]
fn white_space_is_that_of_the_standard_library() {
    for n in 0..=0x10ffff_u32 {
        if let Some(c) = char::from_u32(n) {
            assert_eq!(is_white_space(c), c.is_whitespace(), "character {n:x}");
        }
    }
}

#[test]
fn trimming_is_that_of_the_standard_library() {
    for s in ["", " ", "a", " a ", "\t a b\u{3000}\n", "\u{feff}x", "  \u{85}", "é \u{2009}"] {
        assert_eq!(trim(s), s.trim());
    }
}

#[test]
fn texts_are_compared_by_their_characters() {
    assert!(same("", ""));
    assert!(same("añb", "añb"));
    assert!(!same("a", "A"));
    assert!(!same("ab", "a"));
    assert_eq!(chars_of("añ€"), vec!['a', 'ñ', '€']);
}

#[test]
fn a_prefix_is_taken_off_where_it_stands() {
    assert_eq!(strip_prefix("label:bug", "label:"), Some("bug"));
    assert_eq!(strip_prefix("label:", "label:"), Some(""));
    assert_eq!(strip_prefix("label", "label:"), None);
    assert_eq!(strip_prefix("Label:x", "label:"), None);
    assert_eq!(strip_prefix("ñandú", "ñ"), Some("andú"));
}

#[test]
fn a_text_is_split_at_its_first_line_break() {
    assert_eq!(split_line("a\nb\nc"), ("a", "b\nc"));
    assert_eq!(split_line("añ"), ("añ", ""));
    assert_eq!(split_line("\n"), ("", ""));
    assert_eq!(split_line(""), ("", ""));
}

#[test]
fn a_text_is_looked_up_in_a_list() {
    let list = vec!["a".to_string(), "bc".to_string()];
    assert!(has_text(&list, "bc"));
    assert!(!has_text(&list, "b"));
    assert!(!has_text(&vec![], ""));
    assert!(is_text(&Some("a".to_string()), "a"));
    assert!(!is_text(&Some("a".to_string()), "b"));
    assert!(!is_text(&None, ""));
    assert_eq!(clone_text(&Some("a".to_string())).as_deref(), Some("a"));
    assert_eq!(clone_or_empty(&None), "");
}

#[test]
fn a_piece_is_found_between_separators() {
    for s in ["", "a", "a,b", " a , b ", "ab,c", ",a", "a,", ",,", "b,a,b"] {
        for wanted in ["", "a", "b", "ab", "a "] {
            let expected = s.split(',').any(|l| l.trim() == wanted);
            assert_eq!(any_piece_is(s, ',', wanted), expected, "{s:?} {wanted:?}");
        }
    }
}

const NUMERALS: [&str; 22] = [
    "",
    "-",
    "+",
    "0",
    "-0",
    "+7",
    "00012",
    "42",
    "-42",
    "4294967295",
    "4294967296",
    "9223372036854775807",
    "9223372036854775808",
    "-9223372036854775808",
    "-9223372036854775809",
    "99999999999999999999999x",
    "-99999999999999999999999x",
    "12x",
    "1 2",
    "--1",
    "+-1",
    "\u{661}",
];

#[test]
fn an_i64_is_read_as_the_standard_library_reads_it() {
    for s in NUMERALS {
        match (parse_i64(s), s.parse::<i64>()) {
            (Ok(a), Ok(b)) => assert_eq!(a, b),
            (Err(a), Err(b)) => assert_eq!(a.message(), b.to_string(), "{s:?}"),
            _ => panic!("{s:?} is read differently"),
        }
    }
}

#[test]
fn a_u32_is_read_as_the_standard_library_reads_it() {
    for s in NUMERALS {
        assert_eq!(parse_u32(s), s.parse::<u32>().ok(), "{s:?}");
    }
}

#[test]
fn each_error_of_a_numeral_comes_for_its_reason() {
    assert_eq!(parse_i64(""), Err(IntError::Empty));
    assert_eq!(parse_i64("1a"), Err(IntError::InvalidDigit));
    assert_eq!(parse_i64("9223372036854775808"), Err(IntError::PosOverflow));
    assert_eq!(parse_i64("-9223372036854775809"), Err(IntError::NegOverflow));
    // The first thing wrong decides.
    assert_eq!(parse_i64("99999999999999999999x"), Err(IntError::PosOverflow));
    assert_eq!(parse_i64("x99999999999999999999"), Err(IntError::InvalidDigit));
}

#[test]
fn what_is_written_reads_back() {
    for n in [0, 7, 10, -1, 4294967296, i64::MAX, i64::MIN] {
        let mut s = String::from("#");
        push_i64(&mut s, n);
        assert_eq!(s, format!("#{n}"));
        assert_eq!(parse_i64(&s[1..]), Ok(n));
    }
    for n in [0, 9, 10, u32::MAX] {
        let mut s = String::new();
        push_u32(&mut s, n);
        assert_eq!(s, n.to_string());
    }
}
