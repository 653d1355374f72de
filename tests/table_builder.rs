use finl_unicode::table_builder::build_table;

fn page(values: &[(usize, u8)], fill: u8) -> Vec<u8> {
    let mut p = vec![fill; 256];
    for &(i, v) in values {
        p[i] = v;
    }
    p
}

#[test]
fn uniform_pages_become_codes_and_others_are_shared() {
    let mut raw = Vec::new();
    raw.extend(page(&[], 0x84));
    raw.extend(page(&[(3, 0x90)], 0x60));
    raw.extend(page(&[(3, 0x90), (4, 0x91)], 0x60));
    raw.extend(page(&[(3, 0x90), (4, 0x91)], 0x60));
    raw.extend(page(&[], 0x60));
    raw.extend(page(&[(0, 0x10), (1, 0x11)], 0x84));
    let table = build_table(&raw, Some(0x60));
    assert_eq!(table.top, vec![0x84, 0x90, 0x100, 0x100, 0x60, 0x101]);
    assert_eq!(table.pages.len(), 2 * 256);
    assert_eq!(&table.pages[0..256], &raw[2 * 256..3 * 256]);
    assert_eq!(&table.pages[256..512], &raw[5 * 256..6 * 256]);
}

#[test]
fn without_a_gap_value_only_constant_pages_are_codes() {
    let mut raw = Vec::new();
    raw.extend(page(&[], 0));
    raw.extend(page(&[(7, 4)], 0));
    raw.extend(page(&[], 6));
    let table = build_table(&raw, None);
    assert_eq!(table.top, vec![0x00, 0x100, 0x06]);
    assert_eq!(table.pages, raw[256..512].to_vec());
}

#[test]
fn empty_input_gives_an_empty_table() {
    let table = build_table(&Vec::new(), None);
    assert!(table.top.is_empty());
    assert!(table.pages.is_empty());
}
