use exoskeleton_host::json::{parse_json, write_json, Json};
use exoskeleton_host::text::{
    alnum, clean_cut, contains_text, dec_i64, dec_u64, is_blank, join, list_has, over_bytes,
    prefix_bytes, shorten, split_lines, split_on, starts_with, strip_prefix, take_chars, trim,
    trim_end_of, white,
};

#[test]
fn numbers_as_text() {
    for n in [0, 7, 10, 1234567890, u64::MAX] {
        assert_eq!(dec_u64(n), n.to_string());
    }
    for n in [0, -1, 42, i64::MIN, i64::MAX] {
        assert_eq!(dec_i64(n), n.to_string());
    }
}

#[test]
fn white_space_is_trimmed() {
    for s in ["", " ", "\t a b \r\n", "\u{a0}x\u{2003}", "x", "\u{200b}x"] {
        assert_eq!(trim(s), s.trim());
        assert_eq!(is_blank(s), s.trim().is_empty());
    }
    for c in ['a', 'Z', '0', '_', ' ', '\n', '\u{3000}', 'é', '\u{85}', '\u{2028}'] {
        assert_eq!(white(c), c.is_whitespace(), "{c:?}");
    }
    assert!(alnum('z') && alnum('5') && !alnum('-'));
    assert_eq!(trim_end_of("a///", '/'), "a");
}

#[test]
fn texts_are_searched() {
    assert!(contains_text("hello world", "lo w"));
    assert!(contains_text("x", ""));
    assert!(!contains_text("abc", "abd"));
    assert!(starts_with("data: x", "data:"));
    assert_eq!(strip_prefix("data: x", "data: ").as_deref(), Some("x"));
    assert_eq!(strip_prefix("data", "data: "), None);
    assert!(list_has(&vec!["a".into(), "b".into()], "b"));
}

#[test]
fn texts_are_split_and_joined() {
    for s in ["", "a", "a\nb", "a\r\nb\n", "\n\n", "a\n\nb"] {
        let expected: Vec<String> = s.lines().map(|l| l.to_string()).collect();
        assert_eq!(split_lines(s), expected, "{s:?}");
    }
    assert_eq!(split_on("a,b,,c", ','), vec!["a", "b", "", "c"]);
    assert_eq!(join(&vec!["a".into(), "b".into()], "; "), "a; b");
    assert_eq!(join(&vec![], "; "), "");
}

#[test]
fn texts_are_cut() {
    assert_eq!(take_chars("héllo", 2), "hé");
    assert_eq!(prefix_bytes("héllo", 3), "hé");
    assert!(clean_cut("héllo", 3));
    assert!(!clean_cut("héllo", 2));
    assert!(over_bytes("éé", 3));
    assert!(!over_bytes("éé", 4));
    assert_eq!(shorten("abcdef", 5, 3), "abc...");
    assert_eq!(shorten("abcde", 5, 3), "abcde");
}

#[test]
fn json_is_parsed_and_written() {
    let text = r#"{"a":[1,-2,true,null,"x\n"],"b":{"c":1.5}}"#;
    let j = parse_json(text).unwrap();
    assert_eq!(write_json(&j), text);
    assert!(matches!(j.get("a").unwrap().as_array().unwrap()[0], Json::UInt(1)));
    assert!(matches!(j.get("a").unwrap().as_array().unwrap()[1], Json::Int(-2)));
    assert_eq!(j.get("a").unwrap().as_array().unwrap()[1].as_i64(), Some(-2));
    assert!(matches!(j.get("b").unwrap().get("c"), Some(Json::Float(t)) if t == "1.5"));
    let e = parse_json("{").unwrap_err();
    let expected = serde_json::from_str::<serde_json::Value>("{").unwrap_err().to_string();
    assert_eq!(e, expected);
    // The last of several members with one key counts.
    assert_eq!(parse_json(r#"{"k":1,"k":2}"#).unwrap().get_u64("k"), Some(2));
}
