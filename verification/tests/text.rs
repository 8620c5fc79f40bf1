use earbuds::text::{parse_bool, parse_small_number, same_text, str_to_bool};

#[test]
fn same_text_compares_characters() {
    assert!(same_text("", ""));
    assert!(same_text("get_status", "get_status"));
    assert!(!same_text("get_status", "get_statuS"));
    assert!(!same_text("get_status", "get_statu"));
    assert!(!same_text("a", ""));
    assert!(same_text("Grüße", "Grüße"));
    assert!(!same_text("Grüße", "Grusse"));
}

#[test]
fn str_to_bool_accepts_the_four_words() {
    assert!(str_to_bool("1"));
    assert!(str_to_bool("true"));
    assert!(str_to_bool("yes"));
    assert!(str_to_bool("y"));
}

#[test]
fn str_to_bool_ignores_case() {
    assert!(str_to_bool("TRUE"));
    assert!(str_to_bool("True"));
    assert!(str_to_bool("tRuE"));
    assert!(str_to_bool("YES"));
    assert!(str_to_bool("Yes"));
    assert!(str_to_bool("Y"));
}

#[test]
fn str_to_bool_reads_everything_else_as_false() {
    assert!(!str_to_bool("false"));
    assert!(!str_to_bool("False"));
    assert!(!str_to_bool("0"));
    assert!(!str_to_bool("no"));
    assert!(!str_to_bool("n"));
    assert!(!str_to_bool(""));
    assert!(!str_to_bool("on"));
    assert!(!str_to_bool("11"));
    assert!(!str_to_bool("truee"));
    assert!(!str_to_bool("tru"));
    assert!(!str_to_bool(" true"));
    assert!(!str_to_bool("true "));
    assert!(!str_to_bool("yess"));
    assert!(!str_to_bool("ye"));
    assert!(!str_to_bool("trüe"));
    assert!(!str_to_bool("a much longer text than any of the words"));
}

#[test]
fn parse_small_number_reads_decimal_digits() {
    assert_eq!(parse_small_number("0"), Some(0));
    assert_eq!(parse_small_number("1"), Some(1));
    assert_eq!(parse_small_number("5"), Some(5));
    assert_eq!(parse_small_number("42"), Some(42));
    assert_eq!(parse_small_number("255"), Some(255));
}

#[test]
fn parse_small_number_allows_sign_and_leading_zeros() {
    assert_eq!(parse_small_number("+5"), Some(5));
    assert_eq!(parse_small_number("+255"), Some(255));
    assert_eq!(parse_small_number("007"), Some(7));
    assert_eq!(parse_small_number("+000"), Some(0));
    assert_eq!(parse_small_number("0000000000000000000000255"), Some(255));
}

#[test]
fn parse_small_number_refuses_what_is_no_small_number() {
    assert_eq!(parse_small_number(""), None);
    assert_eq!(parse_small_number("+"), None);
    assert_eq!(parse_small_number("-"), None);
    assert_eq!(parse_small_number("-1"), None);
    assert_eq!(parse_small_number("-0"), None);
    assert_eq!(parse_small_number("++1"), None);
    assert_eq!(parse_small_number("1+"), None);
    assert_eq!(parse_small_number("256"), None);
    assert_eq!(parse_small_number("300"), None);
    assert_eq!(parse_small_number("1000"), None);
    assert_eq!(parse_small_number("99999999999999999999999999"), None);
    assert_eq!(parse_small_number(" 1"), None);
    assert_eq!(parse_small_number("1 "), None);
    assert_eq!(parse_small_number("1a"), None);
    assert_eq!(parse_small_number("a"), None);
    assert_eq!(parse_small_number("1.0"), None);
    assert_eq!(parse_small_number("0x10"), None);
    assert_eq!(parse_small_number("٣"), None);
    assert_eq!(parse_small_number("bass"), None);
}

#[test]
fn parse_small_number_agrees_with_the_standard_parser() {
    let samples = [
        "", "0", "9", "10", "099", "255", "256", "+", "+0", "+12", "-3", "12x", "x12", "2 5",
        "0255", "00256", "+-1", "٣", "1_0",
    ];
    for text in samples {
        assert_eq!(parse_small_number(text), text.parse::<u8>().ok(), "for {:?}", text);
    }
    for n in 0u32..400 {
        let text = format!("{}", n);
        assert_eq!(parse_small_number(&text), text.parse::<u8>().ok(), "for {:?}", text);
    }
}

#[test]
fn parse_bool_reads_true_and_false_only() {
    assert_eq!(parse_bool("true"), Some(true));
    assert_eq!(parse_bool("false"), Some(false));
    for text in ["", "maybe", "1", "0", "yes", "no", "y", "n", "True", "FALSE", " true", "false ", "truefalse"] {
        assert_eq!(parse_bool(text), None, "for {:?}", text);
    }
}

#[test]
fn parse_bool_agrees_with_the_standard_parser() {
    for text in ["true", "false", "", "t", "tru", "truee", "True", "fals", "falsee", "1", "yes", "trüe"] {
        assert_eq!(parse_bool(text), text.parse::<bool>().ok(), "for {:?}", text);
    }
}

#[test]
fn strict_and_permissive_rule_agree_on_true_and_false() {
    for text in ["true", "false"] {
        assert_eq!(parse_bool(text), Some(str_to_bool(text)));
    }
}
