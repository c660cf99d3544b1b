use takure::text::{
    begins_with, decimal_string, decode_text, parse_u64, read_field, same_text, strip_padding,
};

#[test]
fn same_text_compares_characters() {
    assert!(same_text("", ""));
    assert!(same_text("cardmng", "cardmng"));
    assert!(!same_text("cardmng", "cardmn"));
    assert!(!same_text("cardmng", "Cardmng"));
    assert!(same_text("é", "\u{e9}"));
}

#[test]
fn begins_with_looks_at_the_front_only() {
    assert!(begins_with("X000ABCD", "X000"));
    assert!(begins_with("X000", "X000"));
    assert!(begins_with("anything", ""));
    assert!(begins_with("", ""));
    assert!(!begins_with("X00", "X000"));
    assert!(!begins_with("AX000", "X000"));
    assert!(!begins_with("x000ABCD", "X000"));
    assert!(!begins_with("", "X"));
    assert!(begins_with("éa", "é"));
}

#[test]
fn strip_padding_removes_every_nul() {
    assert_eq!(strip_padding("cardmng\0\0\0"), "cardmng");
    assert_eq!(strip_padding("\0a\0b\0"), "ab");
    assert_eq!(strip_padding("\0\0"), "");
    assert_eq!(strip_padding(""), "");
    assert_eq!(strip_padding("plain"), "plain");
    assert_eq!(strip_padding("é\0ß"), "éß");
}

#[test]
fn decode_text_takes_utf8_only() {
    assert_eq!(decode_text(b"{\"call\":1}"), Some("{\"call\":1}".to_string()));
    assert_eq!(decode_text(b""), Some(String::new()));
    assert_eq!(decode_text(b"a\0b"), Some("a\0b".to_string()));
    assert_eq!(decode_text(&[0xc3, 0xa9]), Some("é".to_string()));
    assert_eq!(decode_text(&[0xff, 0x41]), None);
    assert_eq!(decode_text(&[0xc3]), None);
    assert_eq!(decode_text(&[0xed, 0xa0, 0x80]), None);
}

#[test]
fn read_field_trims_the_window() {
    let mut buffer = [0u8; 256];
    buffer[..12].copy_from_slice(b"playerdata_2");
    assert_eq!(read_field(&buffer, 32), Some("playerdata_2".to_string()));
    assert_eq!(read_field(&buffer, 6), Some("player".to_string()));
    assert_eq!(read_field(&buffer, 0), Some(String::new()));
    assert_eq!(read_field(&buffer, 1000), Some("playerdata_2".to_string()));
    assert_eq!(read_field(b"abc", 32), Some("abc".to_string()));
    assert_eq!(read_field(b"", 32), Some(String::new()));
}

#[test]
fn read_field_stops_at_the_limit() {
    let mut buffer = [0u8; 256];
    buffer[..22].copy_from_slice(b"usergamedata_advancedX");
    assert_eq!(read_field(&buffer, 21), Some("usergamedata_advanced".to_string()));
    buffer[40] = 0xff;
    assert_eq!(read_field(&buffer, 32), Some("usergamedata_advancedX".to_string()));
    assert_eq!(read_field(&buffer, 41), None);
}

#[test]
fn read_field_rejects_what_is_not_utf8() {
    assert_eq!(read_field(&[0x41, 0xff, 0x42], 32), None);
    assert_eq!(read_field(&[0xc3, 0x00, 0xa9], 32), None);
    assert_eq!(read_field(&[0xc3, 0xa9, 0x00], 32), Some("é".to_string()));
    assert_eq!(read_field(&[0xc3, 0xa9, 0x00], 1), None);
}

#[test]
fn parse_u64_reads_decimal_numbers() {
    assert_eq!(parse_u64("0"), Some(0));
    assert_eq!(parse_u64("2022022801"), Some(2022022801));
    assert_eq!(parse_u64("0007"), Some(7));
    assert_eq!(parse_u64("+5"), Some(5));
    assert_eq!(parse_u64("18446744073709551615"), Some(u64::MAX));
    assert_eq!(parse_u64("18446744073709551616"), None);
    assert_eq!(parse_u64("99999999999999999999"), None);
    assert_eq!(parse_u64(""), None);
    assert_eq!(parse_u64("+"), None);
    assert_eq!(parse_u64("-5"), None);
    assert_eq!(parse_u64("++5"), None);
    assert_eq!(parse_u64("5+"), None);
    assert_eq!(parse_u64("12a"), None);
    assert_eq!(parse_u64(" 12"), None);
    assert_eq!(parse_u64("12 "), None);
    assert_eq!(parse_u64("１２"), None);
}

#[test]
fn parse_u64_agrees_with_the_standard_parser() {
    for text in ["0", "+0", "42", "+", "", "-1", "1_000", "18446744073709551615",
        "18446744073709551616", "000000000000000000000000001", "9x", "+9", "٣"]
    {
        assert_eq!(parse_u64(text), text.parse::<u64>().ok(), "{}", text);
    }
}

#[test]
fn decimal_string_writes_the_shortest_form() {
    assert_eq!(decimal_string(0), "0");
    assert_eq!(decimal_string(9), "9");
    assert_eq!(decimal_string(10), "10");
    assert_eq!(decimal_string(101), "101");
    assert_eq!(decimal_string(38311), "38311");
    assert_eq!(decimal_string(u32::MAX), "4294967295");
    for number in [1u32, 19, 100, 999, 1000, 65535, 1_000_000_007] {
        assert_eq!(decimal_string(number), number.to_string());
        assert_eq!(parse_u64(&decimal_string(number)), Some(number as u64));
    }
}
