use rook::error_log::{chrono_rfc3339, unix_to_utc, zero_pad};
use rook::json::{Json, Number};
use rook::order::{is_before, sorted_set};
use rook::strmap::StrMap;
use rook::text;

const SAMPLES: [&str; 14] = [
    "",
    " ",
    "abc",
    "  abc  ",
    "a\nb\n",
    "a\r\nb\r",
    "\n\n",
    "one two  three\tfour\n",
    "Grüße, Jürgen",
    "日本語 テキスト",
    "a\u{2003}b\u{a0}c\u{85}",
    "aaa",
    "//a//b//",
    "🎉 party 🎉",
];

#[test]
fn white_space_is_that_of_unicode() {
    for n in 0..=0x10ffffu32 {
        if let Some(c) = char::from_u32(n) {
            assert_eq!(text::space(c), c.is_whitespace(), "{:x}", n);
        }
    }
}

#[test]
fn texts_are_taken_apart_as_std_does() {
    for s in SAMPLES {
        assert_eq!(text::split_lines(s), s.lines().collect::<Vec<_>>(), "{:?}", s);
        assert_eq!(text::split_words(s), s.split_whitespace().collect::<Vec<_>>(), "{:?}", s);
        assert_eq!(text::split_on(s, '/'), s.split('/').collect::<Vec<_>>(), "{:?}", s);
        assert_eq!(text::trimmed(s), s.trim());
        assert_eq!(text::is_blank(s), s.trim().is_empty());
        assert_eq!(text::byte_len(s), s.len());
        assert_eq!(text::char_len(s), s.chars().count());
        assert_eq!(text::to_lower(s), s.to_ascii_lowercase());
        assert_eq!(text::stripped_end(s, '/'), s.trim_end_matches('/'));
        assert_eq!(text::stripped_start(s, '/'), s.trim_start_matches('/'));
        for n in [0usize, 1, 2, 5, 100] {
            assert_eq!(text::take_chars(s, n), s.chars().take(n).collect::<String>());
        }
        for n in 0..=s.len() {
            let want = if s.is_char_boundary(n) { Some(s[..n].to_string()) } else { None };
            assert_eq!(text::cut_at_byte(s, n), want);
        }
        assert_eq!(text::cut_at_byte(s, s.len() + 1), None);
    }
}

#[test]
fn texts_are_searched_as_std_does() {
    for s in SAMPLES {
        for p in ["", "a", "aa", "b", "//", "e, J", " ", "語"] {
            assert_eq!(text::contains(s, p), s.contains(p), "{:?} {:?}", s, p);
            assert_eq!(text::starts_with(s, p), s.starts_with(p));
            assert_eq!(text::ends_with(s, p), s.ends_with(p));
            assert_eq!(text::strip_prefix(s, p).as_deref(), s.strip_prefix(p));
            assert_eq!(text::replaced_once(s, p, "-"), s.replacen(p, "-", 1), "{:?} {:?}", s, p);
            if !p.is_empty() {
                assert_eq!(text::replaced(s, p, "-"), s.replace(p, "-"));
            }
        }
    }
}

#[test]
fn numbers_are_written_and_read() {
    for n in [0u64, 7, 10, 99, 100, 12345, u64::MAX] {
        assert_eq!(text::number(n), n.to_string());
        assert_eq!(text::parse_unsigned(&n.to_string(), u64::MAX), Some(n));
    }
    assert_eq!(text::large_number(u128::MAX), u128::MAX.to_string());
    for n in [0i64, -1, 42, i64::MIN, i64::MAX] {
        assert_eq!(text::signed_number(n), n.to_string());
    }
    for s in ["", "+", "-1", "1a", " 1", "18446744073709551616", "+5", "007"] {
        assert_eq!(text::parse_unsigned(s, u64::MAX), s.parse::<u64>().ok(), "{:?}", s);
    }
    assert_eq!(text::parse_unsigned("65536", 65535), None);
    assert_eq!(text::padded_left("42", 6, ' '), format!("{:6}", 42));
    assert_eq!(text::padded_left("1234567", 6, ' '), format!("{:6}", 1234567));
    assert_eq!(text::to_hex(&vec![0u8, 15, 255], 3), "000fff");
}

#[test]
fn texts_are_put_together() {
    let parts = vec!["a".to_string(), "".to_string(), "b".to_string()];
    assert_eq!(text::joined(&parts, ", "), "a, , b");
    assert_eq!(text::joined(&vec![], ", "), "");
}

#[test]
fn a_sorted_set_holds_each_text_once() {
    let mut v: Vec<String> = ["b", "a", "b", "", "Z", "ä", "a", "ab", "日"]
        .iter()
        .map(|s| s.to_string())
        .collect();
    let got = sorted_set(&v);
    v.sort();
    v.dedup();
    assert_eq!(got, v);
    for a in SAMPLES {
        for b in SAMPLES {
            assert_eq!(is_before(a, b), a < b);
        }
    }
}

#[test]
fn a_map_keeps_the_last_value_of_a_key() {
    let mut m: StrMap<u32> = StrMap::new();
    m.insert("a".to_string(), 1);
    m.insert("b".to_string(), 2);
    m.insert("a".to_string(), 3);
    assert_eq!(m.get("a"), Some(&3));
    assert_eq!(m.remove("a"), Some(3));
    assert_eq!(m.remove("a"), None);
    assert_eq!(m.get("b"), Some(&2));
}

#[test]
fn json_values_are_looked_into() {
    let v = Json::Object(vec![
        ("t".to_string(), Json::Text("x".to_string())),
        ("n".to_string(), Json::Num(Number::Unsigned(5))),
        ("m".to_string(), Json::Num(Number::Negative(-5))),
        ("b".to_string(), Json::Bool(true)),
        ("f".to_string(), Json::Num(Number::Fraction(1.5f64.to_bits()))),
        ("big".to_string(), Json::Num(Number::Unsigned(u64::MAX))),
    ]);
    assert_eq!(v.text_at("t").as_deref(), Some("x"));
    assert_eq!(v.text_at("n"), None);
    assert_eq!(v.unsigned_at("n"), Some(5));
    assert_eq!(v.unsigned_at("m"), None);
    assert_eq!(v.signed_at("m"), Some(-5));
    assert_eq!(v.signed_at("n"), Some(5));
    assert_eq!(v.signed_at("big"), None);
    assert_eq!(v.signed_at("f"), None);
    assert_eq!(v.bool_at("b"), Some(true));
    assert_eq!(v.bool_at("zz"), None);
    assert!(matches!(Json::integer(-1), Json::Num(Number::Negative(-1))));
    assert!(matches!(Json::text_or_null(None), Json::Null));
    assert_eq!(v.copy().text_at("t").as_deref(), Some("x"));
}

#[test]
fn seconds_become_dates() {
    assert_eq!(chrono_rfc3339(0), "1970-01-01T00:00:00Z");
    assert_eq!(chrono_rfc3339(951_827_696), "2000-02-29T12:34:56Z");
    assert_eq!(unix_to_utc(1_700_000_000), (2023, 11, 14, 22, 13, 20));
    assert_eq!(zero_pad(-5, 4), format!("{:04}", -5));
    let mut t: u64 = 0;
    while t < 8_000_000_000 {
        let want = chrono::DateTime::from_timestamp(t as i64, 0)
            .unwrap()
            .format("%Y-%m-%dT%H:%M:%SZ")
            .to_string();
        assert_eq!(chrono_rfc3339(t), want);
        t += 40_009_213;
    }
}

#[test]
fn two_seconds_never_share_a_date() {
    let a = unix_to_utc(1_000_000_000);
    let b = unix_to_utc(1_000_000_001);
    assert_ne!(a, b);
    assert_eq!(a, unix_to_utc(1_000_000_000));
}
