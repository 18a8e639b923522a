//! Hexadecimal rendering and reading, and the whitespace rules.

use unidpp_hub::text::{is_white_space_char, trim};
use unidpp_hub::{decode_hex, hex};

#[test]
fn hex_renders_lower_case_two_digits_per_byte() {
    assert_eq!(hex(&[]), "");
    assert_eq!(hex(&[0x00, 0x0f, 0xa0, 0xff]), "000fa0ff");
    assert_eq!(hex(&[0xde, 0xad, 0xbe, 0xef, 0x01]), "deadbeef01");
}

#[test]
fn decode_hex_reads_either_case() {
    assert_eq!(decode_hex("deadBEEF01"), Ok(vec![0xde, 0xad, 0xbe, 0xef, 0x01]));
    assert_eq!(decode_hex(""), Ok(vec![]));
}

#[test]
fn decode_hex_refuses_odd_length_first() {
    assert_eq!(decode_hex("abc"), Err("not hex (odd length)".to_string()));
    assert_eq!(decode_hex("zzz"), Err("not hex (odd length)".to_string()));
}

#[test]
fn decode_hex_refuses_non_digits() {
    assert_eq!(decode_hex("0g"), Err("not hex".to_string()));
    assert_eq!(decode_hex("g0"), Err("not hex".to_string()));
    // "é" is two bytes, neither a digit.
    assert_eq!(decode_hex("é"), Err("not hex".to_string()));
    assert_eq!(decode_hex(" 0"), Err("not hex".to_string()));
}

#[test]
fn decode_hex_reads_back_what_hex_renders() {
    let all: Vec<u8> = (0..=255u8).collect();
    assert_eq!(decode_hex(&hex(&all)), Ok(all));
}

#[test]
fn whitespace_is_the_unicode_white_space_of_std() {
    for c in (0u32..=0x10FFFF).filter_map(char::from_u32) {
        assert_eq!(is_white_space_char(c), c.is_whitespace(), "{:?}", c);
    }
}

#[test]
fn trim_removes_what_str_trim_removes() {
    for s in [
        "",
        "   ",
        "  deadbeef01 \n",
        "\u{3000}\u{85}ab c\u{2029}",
        "x",
        "\t\r\n",
        " a b ",
    ] {
        assert_eq!(trim(s), s.trim());
    }
}
