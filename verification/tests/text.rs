use remote_executor_for_session::number::{parse_i32, parse_i64, write_decimal};
use remote_executor_for_session::order::{sort_texts, text_before};
use remote_executor_for_session::store::TextMap;
use remote_executor_for_session::text::{
    eq_ignore_ascii_case, is_whitespace, join, lines, repeat, replace, rsplit_once, split,
    split_once, split_whitespace, strip_prefix, take_chars, to_ascii_lowercase, trim,
};

#[test]
fn white_space_is_that_of_std() {
    for n in 0..=0x10ffffu32 {
        if let Some(c) = char::from_u32(n) {
            assert_eq!(is_whitespace(c), c.is_whitespace(), "{}", n);
        }
    }
}

#[test]
fn texts_are_cut_as_std_cuts_them() {
    for s in ["", "a", "\n", "a\nb", "a\r\nb\r", "a\n\nb\n", " x  y\t", "\u{3000}z "] {
        assert_eq!(lines(s), s.lines().collect::<Vec<_>>());
        assert_eq!(trim(s), s.trim());
        assert_eq!(split_whitespace(s), s.split_whitespace().collect::<Vec<_>>());
        assert_eq!(split(s, "\r\n"), s.split(['\r', '\n']).collect::<Vec<_>>());
        assert_eq!(replace(s, "\r\n", "+"), s.replace("\r\n", "+"));
        assert_eq!(take_chars(s, 2), s.chars().take(2).collect::<String>());
    }
    assert_eq!(split_once("a=b=c", "="), Some(("a".to_string(), "b=c".to_string())));
    assert_eq!(rsplit_once("a=b=c", "="), Some(("a=b".to_string(), "c".to_string())));
    assert_eq!(strip_prefix("abc", "ab"), Some("c".to_string()));
    assert_eq!(to_ascii_lowercase("AbÄ"), "abÄ");
    assert!(eq_ignore_ascii_case("TRUE", "true"));
    assert_eq!(join(&vec!["a".to_string(), "b".to_string()], ", "), "a, b");
    assert_eq!(repeat("ab", 3), "ababab");
}

#[test]
fn numbers_are_read_as_std_reads_them() {
    for s in [
        "", "-", "+", "0", "-0", "+7", "007", "12a", " 1", "9223372036854775807",
        "9223372036854775808", "-9223372036854775808", "-9223372036854775809", "2147483648",
        "-2147483648",
    ] {
        assert_eq!(parse_i64(s), s.parse::<i64>().ok(), "{}", s);
        assert_eq!(parse_i32(s), s.parse::<i32>().ok(), "{}", s);
    }
    assert_eq!(write_decimal(-120), "-120");
    assert_eq!(write_decimal(0), "0");
}

#[test]
fn texts_are_ordered_as_std_orders_them() {
    let words = ["b", "a", "", "ab", "ß", "\u{10000}", "\u{ffff}", "a"];
    let mut expected: Vec<String> = words.iter().map(|w| w.to_string()).collect();
    assert_eq!(text_before("a", "ab"), "a" < "ab");
    let sorted = sort_texts(&expected);
    expected.sort();
    assert_eq!(sorted, expected);
}

#[test]
fn maps_are_walked_in_order() {
    let mut map: TextMap<u8> = TextMap::new();
    map.insert("b", 1);
    map.insert("a", 2);
    map.insert("b", 3);
    assert_eq!(map.len(), 2);
    assert_eq!(map.key_at(0), "a");
    assert_eq!(map.value_at(1), &3);
    assert_eq!(map.get("a"), Some(&2));
    assert_eq!(map.remove("a"), Some(2));
    assert_eq!(map.remove("a"), None);
    assert!(!map.contains_key("a"));
}
