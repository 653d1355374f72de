use finl_unicode::categories::{get_code, CharacterCategories, Either, GeneralCategory};

#[test]
fn character_categories() {
    println!("{}", std::mem::size_of::<Either>());
    assert!('a'.is_letter());
    assert!(!'a'.is_uppercase_letter());
    assert!('Ü'.is_uppercase_letter());
    assert!('Я'.is_uppercase_letter());

    "𠜎 𠜱 𠝹 𠱓 𠱸 𠲖 𠳏 𠳕 𠴕 𠵼 𠵿 𠸎 𠸏 𠹷 𠺝 𠺢 𠻗 𠻹 𠻺 𠼭 𠼮 𠽌 𠾴 𠾼 𠿪 𡁜 𡁯 𡁵 𡁶 𡁻 𡃁 𡃉 𡇙 𢃇 𢞵 𢫕 𢭃 𢯊 𢱑 𢱕 𢳂 𢴈 𢵌 𢵧 𢺳 𣲷 𤓓 𤶸 𤷪 𥄫 𦉘 𦟌 𦧲 𦧺 𧨾 𨅝 𨈇 𨋢 𨳊 𨳍 𨳒 𩶘".chars()
        .filter(|&c| c != ' ')
        .for_each(|c| {
            assert!(c.is_letter());
            assert!(c.is_other_letter());
            assert!(!c.is_cased_letter());
        });

    assert!('\t'.is_control());
    assert!(' '.is_space_separator());
    assert!('['.is_open_punctuation(), "Got character code of {}", get_code('['));
    assert!(']'.is_close_punctuation());
    assert!('^'.is_modifier_symbol());
    assert!('A'.is_uppercase_letter());
    assert!('\u{00AD}'.is_format());
    assert!('¾'.is_other_number());
    assert!('«'.is_initial_punctuation());
    assert!('»'.is_final_punctuation());
    assert!('\u{0300}'.is_nonspacing_mark());
    assert!('\u{0488}'.is_enclosing_mark());
    assert!('٣'.is_decimal_number());
    assert!('子'.is_other_letter());
    assert!('ᾮ'.is_titlecase_letter());
    assert!('\u{1B44}'.is_spacing_mark());
    assert!('∈'.is_math_symbol());
    assert!('‿'.is_connector_punctuation());
    assert!('↹'.is_other_symbol());
    assert!('⸗'.is_dash_punctuation());
    assert!('Ⅷ'.is_letter_number());
    assert!('\u{2028}'.is_line_separator());
    assert!('\u{2029}'.is_paragraph_separator());
    assert!('ゞ'.is_modifier_letter());
    assert!('￡'.is_currency_symbol());
    assert!('\u{FFFF}'.is_unassigned());
    assert!('\u{100000}'.is_private_use());
}

#[test]
fn category_codes_follow_the_nibble_scheme() {
    assert_eq!(get_code('A'), 0x90);
    assert_eq!(get_code('a'), 0x91);
    assert_eq!(get_code('ᾮ'), 0x92);
    assert_eq!(get_code('ゞ'), 0x83);
    assert_eq!(get_code('子'), 0x84);
    assert_eq!(get_code('\u{0300}'), 0x10);
    assert_eq!(get_code('٣'), 0x20);
    assert_eq!(get_code('['), 0x32);
    assert_eq!(get_code('∈'), 0x40);
    assert_eq!(get_code(' '), 0x50);
    assert_eq!(get_code('\t'), 0x61);
    assert_eq!(get_code('\u{FFFF}'), 0x60);
    assert_eq!(get_code('\u{100000}'), 0x64);
}

#[test]
fn composite_classes() {
    assert!('a'.is_cased_letter());
    assert!('ᾮ'.is_cased_letter());
    assert!(!'ゞ'.is_cased_letter());
    assert!('ゞ'.is_letter());
    assert!(!'1'.is_letter());
    assert!('\u{0300}'.is_mark());
    assert!('\u{1B44}'.is_mark());
    assert!('\u{0488}'.is_mark());
    assert!('7'.is_number());
    assert!('¾'.is_number());
    assert!('Ⅷ'.is_number());
    assert!('!'.is_punctuation());
    assert!('‿'.is_punctuation());
    assert!('$'.is_symbol());
    assert!('^'.is_symbol());
    assert!(' '.is_separator());
    assert!('\u{2028}'.is_separator());
    assert!('\t'.is_other());
    assert!('\u{00AD}'.is_other());
    assert!('\u{FFFF}'.is_other());
    assert!('\u{100000}'.is_other());
    assert!(!'a'.is_other());
}

#[test]
fn leaf_predicates_on_other_values() {
    assert!('z'.is_lowercase_letter());
    assert!(!'Z'.is_lowercase_letter());
    assert!('!'.is_other_punctuation());
    assert!('$'.is_currency_symbol());
    assert!(!'$'.is_math_symbol());
    assert!(!'a'.is_unassigned());
    assert!(!'a'.is_private_use());
    assert!('\u{E000}'.is_private_use());
    assert!(!'\u{0300}'.is_spacing_mark());
    assert!(!'\u{1B44}'.is_nonspacing_mark());
}

#[test]
fn unassigned_gap_reports_its_page_category() {
    // U+1249 is unassigned, and every assigned value of its page is Lo.
    assert!('\u{1249}'.is_other_letter());
    assert!(!'\u{1249}'.is_unassigned());
    // U+10FFFF is unassigned, and every assigned value of its page is Co.
    assert!(char::MAX.is_private_use());
    // U+0378 sits in a page of mixed categories and reads as unassigned.
    assert!('\u{0378}'.is_unassigned());
}

#[test]
fn letter_and_cased_letter_agree_with_the_category() {
    for c in ['A', 'a', 'ᾮ', 'ゞ', '子', '1', ' ', '\u{0300}', '\u{FFFF}', '['] {
        let code = get_code(c);
        let g = GeneralCategory::from_code(code);
        assert_eq!(g.code(), code);
        let letter = matches!(
            g,
            GeneralCategory::Lu
                | GeneralCategory::Ll
                | GeneralCategory::Lt
                | GeneralCategory::Lm
                | GeneralCategory::Lo
        );
        let cased = matches!(g, GeneralCategory::Lu | GeneralCategory::Ll | GeneralCategory::Lt);
        assert_eq!(c.is_letter(), letter);
        assert_eq!(c.is_cased_letter(), cased);
    }
}

#[test]
fn every_scalar_value_has_a_category() {
    for x in (0u32..=0x10FFFF).step_by(97) {
        if let Some(c) = char::from_u32(x) {
            let code = get_code(c);
            assert_eq!(GeneralCategory::from_code(code).code(), code);
        }
    }
}

#[test]
fn table_entry_decoding() {
    assert_eq!(Either::from_raw(0x84).get_code(7), 0x84);
    assert_eq!(Either::from_raw(0x60).get_code(200), 0x60);
    // An unknown code byte reads as unassigned.
    assert_eq!(Either::from_raw(0xaa).get_code(0), 0x60);
    // Page 0 holds the ASCII range: 'A' is at index 0x41.
    assert_eq!(Either::from_raw(0x100).get_code(0x41), 0x90);
    // A page index past the page array reads as unassigned.
    assert_eq!(Either::from_raw(0xfff).get_code(0x41), 0x60);
}
