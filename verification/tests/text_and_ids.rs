use yuri_web::object_id::PostId;
use yuri_web::text::{decimal_text, split_tags, text_equals, trim_text, white_space};

#[test]
fn text_equals_compares_characters() {
    assert!(text_equals("title", "title"));
    assert!(!text_equals("title", "titles"));
    assert!(!text_equals("Title", "title"));
    assert!(text_equals("", ""));
    assert!(text_equals("résumé", "résumé"));
}

#[test]
fn white_space_follows_unicode() {
    assert!(white_space(' '));
    assert!(white_space('\t'));
    assert!(white_space('\u{3000}'));
    assert!(white_space('\u{85}'));
    assert!(!white_space('a'));
    assert!(!white_space('\u{200b}'));
    for c in ['\u{a0}', '\u{1680}', '\u{2007}', '\u{2028}', '\u{205f}', 'x', ',', '\0'] {
        assert_eq!(white_space(c), c.is_whitespace());
    }
}

#[test]
fn trim_text_matches_str_trim() {
    for s in ["  yuri  ", "\u{3000}tag\t", "", "   ", "a b", " \u{2003}x\u{2003} "] {
        assert_eq!(trim_text(s), s.trim());
    }
}

#[test]
fn split_tags_splits_and_trims() {
    assert_eq!(split_tags("a, b ,c,"), vec!["a", "b", "c"]);
    assert_eq!(split_tags("a,,b"), vec!["a", "", "b"]);
    assert_eq!(split_tags(","), vec![""]);
    assert_eq!(split_tags(" x "), vec!["x"]);
    assert_eq!(split_tags("one"), vec!["one"]);
    assert_eq!(split_tags(",a"), vec!["", "a"]);
}

#[test]
fn split_tags_agrees_with_std() {
    for s in ["yuri, cute ,school,", "x,,y,,", " , ", "abc", "a,b,c", "ä, ö"] {
        let expected: Vec<String> =
            s.split_terminator(',').map(|p| String::from(p.trim())).collect();
        assert_eq!(split_tags(s), expected);
    }
}

#[test]
fn tag_line_round_trip_on_plain_line() {
    let line = "yuri,cute,school";
    assert_eq!(split_tags(line).join(","), line);
}

#[test]
fn decimal_text_renders_numbers() {
    assert_eq!(decimal_text(0), "0");
    assert_eq!(decimal_text(7), "7");
    assert_eq!(decimal_text(10), "10");
    assert_eq!(decimal_text(1234567890), "1234567890");
    assert_eq!(decimal_text(u64::MAX), u64::MAX.to_string());
}

#[test]
fn post_id_parses_hex_of_either_case() {
    let id = PostId::parse("0123456789abcdefABCDEF01").unwrap();
    assert_eq!(
        id.bytes,
        [0x01, 0x23, 0x45, 0x67, 0x89, 0xab, 0xcd, 0xef, 0xab, 0xcd, 0xef, 0x01]
    );
}

#[test]
fn post_id_rejects_bad_text() {
    assert!(PostId::parse("0123456789abcdef0123456").is_none());
    assert!(PostId::parse("0123456789abcdef012345678").is_none());
    assert!(PostId::parse("0123456789abcdef0123456g").is_none());
    assert!(PostId::parse("").is_none());
    assert!(PostId::parse("0123456789abcdef012345é").is_none());
}

#[test]
fn post_id_renders_lower_hex() {
    let id = PostId { bytes: [0xde, 0xad, 0xbe, 0xef, 0, 1, 2, 3, 4, 5, 6, 0xff] };
    assert_eq!(id.to_hex(), "deadbeef000102030405 06ff".replace(' ', ""));
}

#[test]
fn post_id_text_round_trips() {
    let id = PostId { bytes: [9, 8, 7, 6, 5, 4, 3, 2, 1, 0, 0xaa, 0x5c] };
    assert_eq!(PostId::parse(&id.to_hex()), Some(id));
    let text = "65A1B2C3D4E5F60718293A4B";
    assert_eq!(PostId::parse(text).unwrap().to_hex(), text.to_lowercase());
}
