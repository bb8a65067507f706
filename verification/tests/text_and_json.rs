use hermes_rust_backend::json::{Json, JsonNumber, Member};
use hermes_rust_backend::once::OnceSlot;
use hermes_rust_backend::text::{
    byte_prefix, char_is_whitespace, join2, join3, count_nonempty_lines, cut_is_ok, i64_to_text,
    split_comma_pair, str_eq, trim, u64_to_text,
};

fn object(entries: Vec<(&str, Json)>) -> Json {
    Json::Object(
        entries
            .into_iter()
            .map(|(k, v)| Member { key: k.to_string(), value: v })
            .collect(),
    )
}

#[test]
fn counts_nonempty_lines_like_str_lines() {
    assert_eq!(count_nonempty_lines(b""), 0);
    assert_eq!(count_nonempty_lines(b"GPU 0\nGPU 1\n"), 2);
    assert_eq!(count_nonempty_lines(b"GPU 0\n\nGPU 1"), 2);
    assert_eq!(count_nonempty_lines(b"\n\n\n"), 0);
    assert_eq!(count_nonempty_lines(b"\r\n"), 0);
    assert_eq!(count_nonempty_lines(b"a\r\nb\r\n"), 2);
    assert_eq!(count_nonempty_lines(b"\r"), 1);
    assert_eq!(count_nonempty_lines(b"x\n\r"), 2);
}

#[test]
fn line_count_matches_lossy_text_lines() {
    let samples: Vec<&[u8]> = vec![
        b"NVIDIA GeForce RTX 3060\nNVIDIA GeForce RTX 3060\nNVIDIA GeForce GTX 1060 6GB\n",
        b"\xff\xfe\n\n\xc3\n",
        b"a\r\r\n\n b",
        b"",
    ];
    for s in samples {
        let expected = String::from_utf8_lossy(s).lines().filter(|l| !l.is_empty()).count();
        assert_eq!(count_nonempty_lines(s), expected);
    }
}

#[test]
fn compares_and_joins_strings() {
    assert!(str_eq("héllo", "héllo"));
    assert!(!str_eq("héllo", "hello"));
    assert!(!str_eq("ab", "abc"));
    assert_eq!(join2("ab", "cd"), "abcd");
    assert_eq!(join3("a", "", "c"), "ac");
}

#[test]
fn cuts_text_at_a_byte_limit() {
    assert_eq!(byte_prefix("short", 50), "short");
    let long = "x".repeat(60);
    assert_eq!(byte_prefix(&long, 50).len(), 50);
    assert!(cut_is_ok("é", 1) == false);
    assert!(cut_is_ok("é", 2));
    assert_eq!(byte_prefix("éa", 2), "é");
}

#[test]
fn writes_integers_in_decimal() {
    assert_eq!(i64_to_text(0), "0");
    assert_eq!(i64_to_text(1725029869), "1725029869");
    assert_eq!(i64_to_text(-42), "-42");
    assert_eq!(i64_to_text(i64::MIN), i64::MIN.to_string());
    assert_eq!(u64_to_text(u64::MAX), u64::MAX.to_string());
}

#[test]
fn trims_unicode_whitespace() {
    assert_eq!(trim("  RTX 3060, 12288 \n"), "RTX 3060, 12288");
    assert_eq!(trim("\u{3000}x\u{a0}"), "x");
    assert_eq!(trim(" \t\n"), "");
    assert_eq!(trim(""), "");
    for c in ['\u{85}', '\u{2028}', ' ', '\u{1680}', 'a', '\u{200b}'] {
        assert_eq!(char_is_whitespace(c), c.is_whitespace());
    }
}

#[test]
fn splits_at_the_only_separator() {
    assert_eq!(split_comma_pair("RTX 3060, 12288"), Some(("RTX 3060", "12288")));
    assert_eq!(split_comma_pair("a, b, c"), None);
    assert_eq!(split_comma_pair("a,b"), None);
    assert_eq!(split_comma_pair(", "), Some(("", "")));
    assert_eq!(split_comma_pair("Tesla, é"), Some(("Tesla", "é")));
}

#[test]
fn slot_keeps_the_first_value() {
    let mut slot: OnceSlot<u32> = OnceSlot::new();
    assert!(!slot.is_set());
    assert_eq!(slot.get(), None);
    assert_eq!(slot.set(7), Ok(()));
    assert_eq!(slot.set(9), Err(9));
    assert_eq!(slot.get(), Some(&7));
    let mut calls = 0;
    let v = slot.get_or_init(|| {
        calls += 1;
        3
    });
    assert_eq!(v, 7);
    assert_eq!(calls, 0);
    let mut fresh: OnceSlot<u32> = OnceSlot::new();
    assert_eq!(fresh.get_or_init(|| 5), 5);
    assert_eq!(fresh.get_or_init(|| 6), 5);
}

#[test]
fn json_lookups_follow_value_indexing() {
    let doc = object(vec![
        ("a", Json::Str("x".to_string())),
        ("n", Json::Number(JsonNumber::PosInt(3))),
        ("neg", Json::Number(JsonNumber::NegInt(-3))),
        ("list", Json::Array(vec![Json::Null, Json::Bool(true)])),
        ("a", Json::Str("second".to_string())),
    ]);
    assert_eq!(doc.get("a").and_then(|v| v.as_str()), Some("x"));
    assert_eq!(doc.get("missing"), None);
    assert_eq!(doc.get("n").and_then(|v| v.as_u64()), Some(3));
    assert_eq!(doc.get("neg").and_then(|v| v.as_u64()), None);
    assert!(doc.get("neg").unwrap().is_number());
    assert_eq!(doc.get("list").and_then(|v| v.item(1)), Some(&Json::Bool(true)));
    assert_eq!(doc.get("list").and_then(|v| v.item(2)), None);
    assert_eq!(doc.get("list").and_then(|v| v.as_array()).map(|v| v.len()), Some(2));
    assert_eq!(Json::Null.get("a"), None);
    assert_eq!(Json::signed(-5), Json::Number(JsonNumber::NegInt(-5)));
    assert_eq!(Json::signed(5), Json::Number(JsonNumber::PosInt(5)));
}

#[test]
fn deep_clone_copies_everything() {
    let doc = object(vec![(
        "outer",
        Json::Array(vec![object(vec![("k", Json::Number(JsonNumber::Float(1)))]), Json::Null]),
    )]);
    assert_eq!(doc.deep_clone(), doc);
}
