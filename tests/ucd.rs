use finl_unicode::ucd::{
    apply_emoji_line, apply_property_line, apply_unicode_data_record, cat_to_u8,
    category_from_label, encode_property, fill_range, parse_property_line,
    parse_break_test_line, parse_unicode_data_line, str_eq, str_to_range, RecordKind,
    UnicodeDataRecord,
};
use finl_unicode::categories::GeneralCategory;

#[test]
fn category_labels() {
    assert_eq!(cat_to_u8("Lu"), 0x90);
    assert_eq!(cat_to_u8("Ll"), 0x91);
    assert_eq!(cat_to_u8("Lt"), 0x92);
    assert_eq!(cat_to_u8("Lm"), 0x83);
    assert_eq!(cat_to_u8("Lo"), 0x84);
    assert_eq!(cat_to_u8("Mn"), 0x10);
    assert_eq!(cat_to_u8("Nd"), 0x20);
    assert_eq!(cat_to_u8("Po"), 0x36);
    assert_eq!(cat_to_u8("So"), 0x43);
    assert_eq!(cat_to_u8("Zp"), 0x52);
    assert_eq!(cat_to_u8("Cc"), 0x61);
    assert_eq!(cat_to_u8("Cf"), 0x62);
    assert_eq!(cat_to_u8("Cs"), 0x63);
    assert_eq!(cat_to_u8("Co"), 0x64);
    assert_eq!(cat_to_u8("Cn"), 0x60);
    assert_eq!(cat_to_u8("Xx"), 0x60);
    assert_eq!(cat_to_u8(""), 0x60);
    assert_eq!(cat_to_u8("Lux"), 0x60);
    assert_eq!(category_from_label("Pd"), GeneralCategory::Pd);
}

#[test]
fn property_labels() {
    assert_eq!(encode_property("Prepend"), 0x05);
    assert_eq!(encode_property("CR"), 0x04);
    assert_eq!(encode_property("LF"), 0x04);
    assert_eq!(encode_property("Control"), 0x04);
    assert_eq!(encode_property("Extend"), 0x01);
    assert_eq!(encode_property("SpacingMark"), 0x02);
    assert_eq!(encode_property("L"), 0x0c);
    assert_eq!(encode_property("V"), 0x08);
    assert_eq!(encode_property("T"), 0x09);
    assert_eq!(encode_property("LV"), 0x0d);
    assert_eq!(encode_property("LVT"), 0x0e);
    assert_eq!(encode_property("ZWJ"), 0x03);
    assert_eq!(encode_property("Extended_Grapheme"), 0x06);
    assert_eq!(encode_property("Regional_Indicator"), 0x07);
    assert_eq!(encode_property("Other"), 0x00);
    assert_eq!(encode_property("extend"), 0x00);
}

#[test]
fn code_point_ranges() {
    assert_eq!(str_to_range("0041"), Some((0x41, 0x41)));
    assert_eq!(str_to_range("1100..115F"), Some((0x1100, 0x115F)));
    assert_eq!(str_to_range("e000..f8ff"), Some((0xE000, 0xF8FF)));
    assert_eq!(str_to_range("10FFFF"), Some((0x10FFFF, 0x10FFFF)));
    assert_eq!(str_to_range("FFFFFFFF"), Some((0xFFFF_FFFF, 0xFFFF_FFFF)));
    assert_eq!(str_to_range("100000000"), None);
    assert_eq!(str_to_range(""), None);
    assert_eq!(str_to_range("12G4"), None);
    assert_eq!(str_to_range("..0041"), None);
    assert_eq!(str_to_range("0041.."), None);
    assert_eq!(str_to_range("0041..00G1"), None);
    assert_eq!(str_to_range("0041.0042"), None);
    assert_eq!(str_to_range("0041...0042"), None);
}

#[test]
fn string_equality() {
    assert!(str_eq("abc", "abc"));
    assert!(!str_eq("abc", "abd"));
    assert!(!str_eq("abc", "ab"));
    assert!(str_eq("", ""));
    assert!(str_eq("é", "é"));
}

#[test]
fn unicode_data_records() {
    assert_eq!(
        parse_unicode_data_line("0041;LATIN CAPITAL LETTER A;Lu;0;L;;;;;N;;;;0061;"),
        Some(UnicodeDataRecord { code: 0x41, kind: RecordKind::Single, category: GeneralCategory::Lu })
    );
    assert_eq!(
        parse_unicode_data_line("4E00;<CJK Ideograph, First>;Lo;0;L;;;;;N;;;;;"),
        Some(UnicodeDataRecord { code: 0x4E00, kind: RecordKind::RangeFirst, category: GeneralCategory::Lo })
    );
    assert_eq!(
        parse_unicode_data_line("9FFF;<CJK Ideograph, Last>;Lo;0;L;;;;;N;;;;;"),
        Some(UnicodeDataRecord { code: 0x9FFF, kind: RecordKind::RangeLast, category: GeneralCategory::Lo })
    );
    assert_eq!(
        parse_unicode_data_line("0378;RESERVED;Qq"),
        Some(UnicodeDataRecord { code: 0x378, kind: RecordKind::Single, category: GeneralCategory::Cn })
    );
    assert_eq!(parse_unicode_data_line(""), None);
    assert_eq!(parse_unicode_data_line("0041;NAME"), None);
    assert_eq!(parse_unicode_data_line("00G1;NAME;Lu"), None);
}

#[test]
fn unicode_data_ranges_fill_the_table() {
    let mut raw = vec![0x60u8; 0x20];
    let mut start = 0u32;
    for line in ["0003;<Thing, First>;Lo;", "0006;<Thing, Last>;Lo;", "0010;ONE;Nd;", "001F;END;Cc;"] {
        let record = parse_unicode_data_line(line).unwrap();
        apply_unicode_data_record(&mut raw, &mut start, record);
    }
    assert_eq!(start, 3);
    assert_eq!(&raw[0..8], &[0x60, 0x60, 0x60, 0x84, 0x84, 0x84, 0x84, 0x60]);
    assert_eq!(raw[0x10], 0x20);
    assert_eq!(raw[0x1F], 0x61);
}

#[test]
fn filling_ranges() {
    let mut raw = vec![0u8; 8];
    fill_range(&mut raw, 2, 4, 9);
    assert_eq!(raw, vec![0, 0, 9, 9, 9, 0, 0, 0]);
    fill_range(&mut raw, 6, 100, 1);
    assert_eq!(raw, vec![0, 0, 9, 9, 9, 0, 1, 1]);
    fill_range(&mut raw, 5, 3, 7);
    assert_eq!(raw, vec![0, 0, 9, 9, 9, 0, 1, 1]);
    fill_range(&mut raw, 50, 60, 7);
    assert_eq!(raw, vec![0, 0, 9, 9, 9, 0, 1, 1]);
}

#[test]
fn property_lines() {
    assert_eq!(
        parse_property_line("1100..115F    ; L # Lo  [96] HANGUL CHOSEONG"),
        Some(("1100..115F".to_string(), "L".to_string()))
    );
    assert_eq!(
        parse_property_line("\t000D ;CR#"),
        Some(("000D".to_string(), "CR".to_string()))
    );
    assert_eq!(parse_property_line("# comment ; only"), None);
    assert_eq!(parse_property_line("0041 ; L"), None);
    assert_eq!(parse_property_line(""), None);

    let mut raw = vec![0u8; 16];
    assert!(apply_property_line(&mut raw, "0002..0003 ; Extend # Mn"));
    assert!(apply_property_line(&mut raw, "# no data here"));
    assert!(apply_property_line(&mut raw, "0005 ; Regional_Indicator #"));
    assert!(!apply_property_line(&mut raw, "00X5 ; L #"));
    assert_eq!(&raw[0..6], &[0, 0, 1, 1, 0, 7]);
    assert!(apply_emoji_line(&mut raw, "0003..0004 ; Extended_Pictographic # x"));
    assert!(apply_emoji_line(&mut raw, "0008 ; Emoji # x"));
    assert!(!apply_emoji_line(&mut raw, "zz ; Extended_Pictographic # x"));
    assert_eq!(&raw[0..9], &[0, 0, 1, 6, 6, 7, 0, 0, 0]);
}

#[test]
fn break_test_lines() {
    assert_eq!(
        parse_break_test_line("÷ 0020 × 0308 ÷ 0020 ÷\t#  ÷ [0.2] SPACE (Other) × [9.0] ..."),
        Some(vec![vec![0x20, 0x308], vec![0x20]])
    );
    assert_eq!(
        parse_break_test_line("÷ 000D × 000A ÷ # CR LF"),
        Some(vec![vec![0x0D, 0x0A]])
    );
    assert_eq!(parse_break_test_line("# comment only"), None);
    assert_eq!(parse_break_test_line("÷ 0020 ÷"), None);
    assert_eq!(parse_break_test_line("÷ 00G0 ÷ #"), None);
    assert_eq!(parse_break_test_line("÷ 0020 + 0020 ÷ #"), None);
    assert_eq!(parse_break_test_line(" \t#"), Some(vec![]));
}
