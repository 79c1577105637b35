use figma_cli::color::{channel_str, parse_hex_color};
use figma_cli::json::{js_string, js_string_array};
use figma_cli::text::{same_text, starts_with_text, trim, u64_text, find_char};

#[test]
fn js_string_escapes_quotes_and_controls() {
    assert_eq!(js_string("plain"), "\"plain\"");
    assert_eq!(js_string("say \"hi\""), "\"say \\\"hi\\\"\"");
    assert_eq!(js_string("a\\b"), "\"a\\\\b\"");
    assert_eq!(js_string("l1\nl2\tx\r"), "\"l1\\nl2\\tx\\r\"");
    assert_eq!(js_string("\u{8}\u{c}"), "\"\\b\\f\"");
    assert_eq!(js_string("\u{1}\u{1f}"), "\"\\u0001\\u001f\"");
    assert_eq!(js_string("é/€"), "\"é/€\"");
    assert_eq!(js_string(""), "\"\"");
}

#[test]
fn js_string_array_is_compact() {
    assert_eq!(js_string_array(&[]), "[]");
    assert_eq!(js_string_array(&["1:2".to_string(), "a\"b".to_string()]), "[\"1:2\",\"a\\\"b\"]");
}

#[test]
fn js_string_literals_differ_for_different_texts() {
    assert_ne!(js_string("a\\nb"), js_string("a\nb"));
    assert_ne!(js_string("\\\""), js_string("\""));
}

#[test]
fn channel_text_matches_float_display() {
    for c in 0..=255u8 {
        assert_eq!(channel_str(c), format!("{}", c as f64 / 255.0), "channel {c}");
    }
}

#[test]
fn hex_colors_parse() {
    assert_eq!(parse_hex_color("#ff0080"), Some((255, 0, 128)));
    assert_eq!(parse_hex_color("FF0080"), Some((255, 0, 128)));
    assert_eq!(parse_hex_color("#abc"), Some((0xaa, 0xbb, 0xcc)));
    assert_eq!(parse_hex_color("##abc"), parse_hex_color("#aabbcc"));
    assert_eq!(parse_hex_color("#+f+f+f"), None);
    assert_eq!(parse_hex_color("+ff"), None);
    assert_eq!(parse_hex_color("#-f0000"), None);
    assert_eq!(parse_hex_color("#12345"), None);
    assert_eq!(parse_hex_color("red"), None);
    assert_eq!(parse_hex_color("#gg0000"), None);
    assert_eq!(parse_hex_color("#éab"), None);
}

#[test]
fn colours_with_other_characters_are_no_colours() {
    assert_eq!(parse_hex_color("#\u{20ac}"), None);
    assert_eq!(parse_hex_color("ab\u{20ac}c"), None);
    assert_eq!(parse_hex_color("#a\u{e9}"), None);
    assert_eq!(parse_hex_color("var:x"), None);
    assert_eq!(parse_hex_color("#ffffff"), Some((255, 255, 255)));
}

#[test]
fn integers_print_in_decimal() {
    assert_eq!(u64_text(0), "0");
    assert_eq!(u64_text(3456), "3456");
    assert_eq!(u64_text(u64::MAX), u64::MAX.to_string());
}

#[test]
fn text_comparisons() {
    assert!(same_text("abc", "abc"));
    assert!(!same_text("abc", "abd"));
    assert!(!same_text("ab", "abc"));
    assert!(starts_with_text("var:x", "var:"));
    assert!(!starts_with_text("va", "var:"));
    assert_eq!(find_char("a:b:c", ':'), Some(1));
    assert_eq!(find_char("abc", ':'), None);
}

#[test]
fn trim_removes_unicode_white_space() {
    assert_eq!(trim("  tok \n"), "tok");
    assert_eq!(trim("\u{3000}x\u{a0}"), "x");
    assert_eq!(trim(" \t "), "");
    assert_eq!(trim("a b"), "a b");
    for s in ["  tok \n", "\u{2028}a\u{85}", "x", ""] {
        assert_eq!(trim(s), s.trim());
    }
}
