use otel_pipeline::decimal::{parse_u64, parse_usize};
use otel_pipeline::env::{var, var_u64, var_usize};

#[test]
fn digits_parse_to_their_value() {
    assert_eq!(parse_u64("0"), Some(0));
    assert_eq!(parse_u64("7"), Some(7));
    assert_eq!(parse_u64("2000"), Some(2000));
    assert_eq!(parse_u64("007"), Some(7));
    assert_eq!(parse_u64("+15"), Some(15));
    assert_eq!(parse_usize("4096"), Some(4096));
    assert_eq!(parse_usize("+0"), Some(0));
}

#[test]
fn the_largest_values_parse_and_the_next_do_not() {
    assert_eq!(parse_u64("18446744073709551615"), Some(u64::MAX));
    assert_eq!(parse_u64("18446744073709551616"), None);
    assert_eq!(parse_u64("99999999999999999999999"), None);
    assert_eq!(parse_u64("000000000000000000000000000001"), Some(1));
    assert_eq!(parse_usize(&usize::MAX.to_string()), Some(usize::MAX));
    assert_eq!(parse_usize("340282366920938463463374607431768211456"), None);
}

#[test]
fn anything_else_is_no_number() {
    for text in [
        "", "+", "-", "-0", "-5", "++5", "+-5", " 5", "5 ", "5\n", "1_000", "1,000", "1.0", "1e3",
        "0x1f", "I am not number", "٣", "５", "5५",
    ] {
        assert_eq!(parse_u64(text), None, "{text:?}");
        assert_eq!(parse_usize(text), None, "{text:?}");
    }
}

#[test]
fn parsing_agrees_with_the_standard_library() {
    for text in ["0", "1", "+1", "-1", "", "+", "12a", "00012", "18446744073709551615", "18446744073709551616", " 1"] {
        assert_eq!(parse_u64(text), text.parse::<u64>().ok(), "{text:?}");
        assert_eq!(parse_usize(text), text.parse::<usize>().ok(), "{text:?}");
    }
}

#[test]
fn variables_are_found_by_name() {
    let vars = vec![
        ("A".to_string(), "1".to_string()),
        ("B".to_string(), "two".to_string()),
        ("A".to_string(), "3".to_string()),
    ];
    assert_eq!(var(&vars, "A"), Some(&"1".to_string()));
    assert_eq!(var(&vars, "B"), Some(&"two".to_string()));
    assert_eq!(var(&vars, "C"), None);
    assert_eq!(var(&vars, "a"), None);
    assert_eq!(var_u64(&vars, "A"), Some(1));
    assert_eq!(var_usize(&vars, "A"), Some(1));
    assert_eq!(var_u64(&vars, "B"), None);
    assert_eq!(var_usize(&vars, "C"), None);
    assert_eq!(var(&Vec::new(), "A"), None);
}
