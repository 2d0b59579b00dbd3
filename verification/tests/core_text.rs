use biq::numbers::{decimal_string, parse_unsigned};
use biq::settings::EnvSnapshot;
use biq::text::{
    chars_of, prefixed, contains, join, replace, split_chars, split_whitespace, trim, trim_end_matches,
    trim_non_alphanumeric, trim_start_matches,
};

fn s(v: &[char]) -> String {
    v.iter().collect()
}

#[test]
fn trimming_and_splitting() {
    let c = chars_of("  a b\u{3000}");
    assert_eq!(s(&trim(&c)), "a b");
    let parts: Vec<String> = split_chars(&chars_of("a,,b"), ',').iter().map(|p| s(p)).collect();
    assert_eq!(parts, vec!["a", "", "b"]);
    let words: Vec<String> = split_whitespace(&chars_of(" one  two\tthree ")).iter().map(|p| s(p)).collect();
    assert_eq!(words, vec!["one", "two", "three"]);
    assert_eq!(s(&trim_non_alphanumeric(&chars_of("--hello!!"))), "hello");
}

#[test]
fn replacing_and_matching() {
    assert_eq!(s(&replace(&chars_of("a b c"), " ", "_")), "a_b_c");
    assert_eq!(s(&replace(&chars_of("aaa"), "aa", "b")), "ba");
    assert_eq!(s(&trim_start_matches(&chars_of("``````json x"), "```")), "json x");
    assert_eq!(s(&trim_end_matches(&chars_of("x//"), "/")), "x");
    assert!(contains(&chars_of("hello"), "ell"));
    assert!(!contains(&chars_of("hello"), "elo"));
}

#[test]
fn joining_and_concatenating() {
    let parts = vec!["a".to_string(), "b".to_string()];
    assert_eq!(join(&parts, ", "), "a, b");
    assert_eq!(join(&vec!["only".to_string()], ", "), "only");
    assert_eq!(prefixed("RSS: ", "x"), "RSS: x");
}

#[test]
fn numbers_format_and_parse() {
    assert_eq!(decimal_string(0), "0");
    assert_eq!(decimal_string(1234567890), "1234567890");
    assert_eq!(parse_unsigned("8000", 65535), Some(8000));
    assert_eq!(parse_unsigned("+42", 65535), Some(42));
    assert_eq!(parse_unsigned("65536", 65535), None);
    assert_eq!(parse_unsigned("", 65535), None);
    assert_eq!(parse_unsigned("-1", 65535), None);
    assert_eq!(parse_unsigned(" 1", 65535), None);
}

#[test]
fn parse_of_formatted_number_gives_it_back() {
    for n in [0u64, 7, 10, 99, 100, 65535, u64::MAX] {
        assert_eq!(parse_unsigned(&decimal_string(n), u64::MAX), Some(n));
    }
}

#[test]
fn environment_lookup() {
    let env = EnvSnapshot {
        vars: vec![
            ("A".to_string(), "1".to_string()),
            ("A".to_string(), "2".to_string()),
            ("B".to_string(), "  ".to_string()),
        ],
    };
    assert_eq!(env.get("A"), Some("1"));
    assert_eq!(env.get("C"), None);
    assert_eq!(env.get_non_blank("B"), None);
    assert_eq!(env.get_non_blank("A"), Some("1".to_string()));
    assert!(env.value_is("C", "true", "true"));
    assert_eq!(env.number_or("A", 100, 5), 1);
    assert_eq!(env.number_or("B", 100, 5), 5);
}
