use swissknife_ai_sdk::json::{members_lookup, push_member, string_value, JsonNumber, JsonValue};
use swissknife_ai_sdk::text::{
    blank, chars_of, clone_opt, clone_strings, decimal_string, file_stem_and_extension, find, insert_sorted,
    join, join_path, nonblank_lines, owned, push_decimal, replace_all, rfind_char, split_lines, str_less, string_of, strip_prefix, trim, trim_end_matches, white_space,
};

#[test]
fn string_building() {
    let s = swissknife_ai_sdk::text::concat("ab", "cde");
    assert_eq!(s, "abcde");
    assert_eq!(owned("xy"), "xy");
    let mut n = String::new();
    push_decimal(&mut n, 0);
    assert_eq!(n, "0");
    assert_eq!(decimal_string(18446744073709551615), "18446744073709551615");
    assert_eq!(string_of(&chars_of("héllo")), "héllo");
}

#[test]
fn string_comparisons() {
    assert_eq!(swissknife_ai_sdk::memory::ActionType::from_str("tool_call"), Some(swissknife_ai_sdk::memory::ActionType::ToolCall));
    assert_eq!(swissknife_ai_sdk::memory::ActionType::from_str("tool_calls"), None);
    assert!(str_less("abc", "abd"));
    assert!(str_less("ab", "abc"));
    assert!(!str_less("abc", "ab"));
    assert!(!str_less("a", "a"));
    assert!(str_less("Z", "a"));
    assert_eq!(str_less("é", "z"), "é" < "z");
}

#[test]
fn sorted_insertion_dedups() {
    let mut v: Vec<String> = Vec::new();
    for s in ["pear", "apple", "pear", "fig", "apple"] {
        insert_sorted(&mut v, s.to_string());
    }
    assert_eq!(v, vec!["apple".to_string(), "fig".to_string(), "pear".to_string()]);
}

#[test]
fn lines_and_blanks() {
    assert_eq!(split_lines("a\r\nb\n\nc"), vec!["a".to_string(), "b".to_string(), "".to_string(), "c".to_string()]);
    assert_eq!(split_lines("a\n"), vec!["a".to_string()]);
    assert!(split_lines("").is_empty());
    assert_eq!(nonblank_lines(" \nx\n\t\ny"), vec!["x".to_string(), "y".to_string()]);
    assert!(blank(" \t\u{3000}"));
    assert!(!blank(" x "));
    assert!(white_space('\u{85}'));
    assert!(!white_space('x'));
}

#[test]
fn searching_and_trimming() {
    assert_eq!(find(&chars_of("hello"), &chars_of("ll")), Some(2));
    assert_eq!(find(&chars_of("hello"), &chars_of("z")), None);
    assert_eq!(rfind_char(&chars_of("a.b.c"), '.'), Some(3));
    assert_eq!(trim_end_matches(&chars_of("x.jsonl.jsonl"), &chars_of(".jsonl")), "x");
    assert_eq!(trim("  hi there \n"), "hi there");
    assert_eq!(trim(" \t "), "");
    assert_eq!(strip_prefix("data: x", "data: "), Some("x".to_string()));
    assert_eq!(strip_prefix("dat", "data: "), None);
    assert_eq!(replace_all("/a/b", '/', '-'), "-a-b");
}

#[test]
fn joining_and_paths() {
    assert_eq!(join(&vec!["a".to_string(), "b".to_string()], ", "), "a, b");
    assert_eq!(join(&vec![], ", "), "");
    assert_eq!(join_path("/a", "b"), "/a/b");
    assert_eq!(join_path("/a/", "b"), "/a/b");
    assert_eq!(join_path("/a", "/b"), "/b");
    assert_eq!(join_path("", "b"), "b");
    assert_eq!(file_stem_and_extension("x.tar.gz"), ("x.tar".to_string(), Some("gz".to_string())));
    assert_eq!(file_stem_and_extension(".hidden"), (".hidden".to_string(), None));
    assert_eq!(file_stem_and_extension("noext"), ("noext".to_string(), None));
    assert_eq!(clone_strings(&vec!["q".to_string()]), vec!["q".to_string()]);
    assert_eq!(clone_opt(&Some("o".to_string())), Some("o".to_string()));
}

#[test]
fn json_reading() {
    let mut members = Vec::new();
    push_member(&mut members, "a", string_value("1"));
    push_member(&mut members, "a", string_value("2"));
    push_member(&mut members, "n", JsonValue::Number(JsonNumber::PosInt(9223372036854775808)));
    push_member(&mut members, "m", JsonValue::Number(JsonNumber::NegInt(-1)));
    assert_eq!(members_lookup(&members, "a").and_then(|v| v.as_str()), Some("1"));
    let v = JsonValue::Object(members);
    assert_eq!(v.str_member("a"), Some("1"));
    assert_eq!(v.get("n").and_then(|x| x.as_i64()), None);
    assert_eq!(v.get("n").and_then(|x| x.as_u64()), Some(9223372036854775808));
    assert_eq!(v.get("m").and_then(|x| x.as_i64()), Some(-1));
    assert_eq!(v.get("m").and_then(|x| x.as_u64()), None);
    assert!(v.get("zz").is_none());
    assert!(JsonValue::Null.get("a").is_none());
    assert_eq!(JsonValue::Bool(false).as_bool(), Some(false));
    let copy = v.duplicate();
    assert_eq!(copy.str_member("a"), Some("1"));
    assert_eq!(copy.as_object().map(|m| m.len()), Some(4));
}
