use finl_unicode::grapheme_clusters::{
    get_property, is_continuation, is_hangul, Break, CharCursor, ClusterMachine, GraphemeCluster,
    Graphemes,
};

fn all_clusters(input: &str) -> Vec<&str> {
    let mut graphemes = Graphemes::new(input);
    let mut clusters = vec![];
    while let Some(cluster) = graphemes.next() {
        clusters.push(cluster);
    }
    clusters
}

fn all_owned_clusters(input: &str) -> Vec<String> {
    let mut cursor = CharCursor::new(input);
    let mut clusters = vec![];
    while let Some(cluster) = cursor.next_cluster() {
        clusters.push(cluster);
    }
    clusters
}

#[test]
fn low_level_interface_test() {
    let mut machine = ClusterMachine::new();
    assert_eq!(machine.find_cluster('\r'), Break::Continue);
    assert_eq!(machine.find_cluster('a'), Break::Before);
    assert_eq!(machine.find_cluster('\r'), Break::Before);
    assert_eq!(machine.find_cluster('\n'), Break::After);
}

#[test]
fn can_get_clusters() {
    let mut peekable_index = CharCursor::new("\r\ne\u{301}f");
    assert_eq!(Some("\r\n".to_string()), peekable_index.next_cluster());
    assert_eq!(Some("e\u{301}".to_string()), peekable_index.next_cluster());
    assert_eq!(Some("f".to_string()), peekable_index.next_cluster());
}

#[test]
fn iterator_yields_scenario_clusters() {
    assert_eq!(all_clusters("\r\ne\u{0301}f"), vec!["\r\n", "e\u{0301}", "f"]);
    assert_eq!(all_owned_clusters("\r\ne\u{0301}f"), vec!["\r\n", "e\u{0301}", "f"]);
}

#[test]
fn empty_text_has_no_clusters() {
    assert!(all_clusters("").is_empty());
    let mut cursor = CharCursor::new("");
    assert_eq!(cursor.next_cluster(), None);
    assert_eq!(cursor.next_cluster(), None);
    let mut graphemes = Graphemes::new("");
    assert_eq!(graphemes.next(), None);
}

#[test]
fn clusters_concatenate_to_the_text() {
    for text in [
        "",
        "abc",
        "\r\n\r\r\n\n",
        "e\u{301}\u{302}x\u{1F1E6}\u{1F1E7}\u{1F1E8}",
        "\u{1100}\u{1161}\u{11A8}가각\u{1F476}\u{1F3FF}\u{200D}\u{1F6D1}!",
        "\u{0600}a\u{0903}\u{200D}\u{0378}",
    ] {
        assert_eq!(all_clusters(text).concat(), text);
        assert_eq!(all_owned_clusters(text).concat(), text);
        assert!(all_clusters(text).iter().all(|c| !c.is_empty()));
    }
}

#[test]
fn crlf_stays_together() {
    assert_eq!(all_clusters("a\r\nb"), vec!["a", "\r\n", "b"]);
    assert_eq!(all_clusters("\r\r\n\n"), vec!["\r", "\r\n", "\n"]);
    assert_eq!(all_clusters("\u{0301}\r\n"), vec!["\u{0301}", "\r\n"]);
}

#[test]
fn hangul_syllables_stay_together() {
    // L L V T T
    assert_eq!(
        all_clusters("\u{1100}\u{1100}\u{1161}\u{11A8}\u{11A8}"),
        vec!["\u{1100}\u{1100}\u{1161}\u{11A8}\u{11A8}"]
    );
    // L LV T
    assert_eq!(all_clusters("\u{1100}\u{AC00}\u{11A8}"), vec!["\u{1100}\u{AC00}\u{11A8}"]);
    // L L L
    assert_eq!(all_clusters("\u{1100}\u{1100}\u{1100}"), vec!["\u{1100}\u{1100}\u{1100}"]);
    // L T breaks, as UAX #29 has it
    assert_eq!(all_clusters("\u{1100}\u{11A8}"), vec!["\u{1100}", "\u{11A8}"]);
    // V LVT breaks
    assert_eq!(all_clusters("\u{1161}\u{AC01}"), vec!["\u{1161}", "\u{AC01}"]);
}

#[test]
fn regional_indicators_pair_into_flags() {
    assert_eq!(all_clusters("\u{1F1E6}\u{1F1E7}"), vec!["\u{1F1E6}\u{1F1E7}"]);
    assert_eq!(
        all_clusters("a\u{1F1E6}\u{1F1E7}b"),
        vec!["a", "\u{1F1E6}\u{1F1E7}", "b"]
    );
    assert_eq!(
        all_clusters("\u{1F1E6}\u{1F1E7}\u{1F1E8}"),
        vec!["\u{1F1E6}\u{1F1E7}", "\u{1F1E8}"]
    );
    assert_eq!(
        all_clusters("\u{1F1E6}\u{1F1E7}\u{1F1E8}\u{1F1E9}"),
        vec!["\u{1F1E6}\u{1F1E7}", "\u{1F1E8}\u{1F1E9}"]
    );
}

#[test]
fn emoji_zwj_sequences_stay_together() {
    assert_eq!(
        all_clusters("\u{1F476}\u{1F3FF}\u{200D}\u{1F6D1}x"),
        vec!["\u{1F476}\u{1F3FF}\u{200D}\u{1F6D1}", "x"]
    );
    assert_eq!(all_clusters("a\u{200D}\u{1F6D1}"), vec!["a\u{200D}", "\u{1F6D1}"]);
}

#[test]
fn prepend_joins_the_next_character() {
    assert_eq!(all_clusters("\u{0600}a\u{0301}b"), vec!["\u{0600}a\u{0301}", "b"]);
    assert_eq!(all_clusters("\u{0600}\r"), vec!["\u{0600}", "\r"]);
}

#[test]
fn cursor_can_be_interleaved_with_single_steps() {
    let mut cursor = CharCursor::new("ab\u{0301}c");
    assert_eq!(cursor.peek(), Some('a'));
    assert_eq!(cursor.advance(), Some('a'));
    assert_eq!(cursor.next_cluster(), Some("b\u{0301}".to_string()));
    assert_eq!(cursor.advance(), Some('c'));
    assert_eq!(cursor.peek(), None);
    assert_eq!(cursor.advance(), None);
    assert_eq!(cursor.next_cluster(), None);
}

#[test]
fn property_lookup() {
    assert_eq!(get_property('a'), 0x00);
    assert_eq!(get_property('\u{0301}'), 0x01);
    assert_eq!(get_property('\u{0903}'), 0x02);
    assert_eq!(get_property('\u{200D}'), 0x03);
    assert_eq!(get_property('\r'), 0x04);
    assert_eq!(get_property('\n'), 0x04);
    assert_eq!(get_property('\t'), 0x04);
    assert_eq!(get_property('\u{0600}'), 0x05);
    assert_eq!(get_property('\u{1F6D1}'), 0x06);
    assert_eq!(get_property('\u{1F1E6}'), 0x07);
    assert_eq!(get_property('\u{1161}'), 0x08);
    assert_eq!(get_property('\u{11A8}'), 0x09);
    assert_eq!(get_property('\u{1100}'), 0x0c);
    assert_eq!(get_property('\u{AC00}'), 0x0d);
    assert_eq!(get_property('\u{AC01}'), 0x0e);
    assert_eq!(get_property('\u{10FFFF}'), 0x00);
}

#[test]
fn property_classes() {
    for p in [1u8, 2, 3] {
        assert!(is_continuation(p));
    }
    for p in [0u8, 4, 5, 6, 7, 8, 9, 0x0c, 0x0d, 0x0e] {
        assert!(!is_continuation(p));
    }
    for p in [8u8, 9, 0x0c, 0x0d, 0x0e] {
        assert!(is_hangul(p));
    }
    for p in [0u8, 1, 2, 3, 4, 5, 6, 7] {
        assert!(!is_hangul(p));
    }
}

#[test]
fn machine_transitions() {
    let mut machine = ClusterMachine::new();
    assert_eq!(machine.find_cluster('\t'), Break::After);
    let mut machine = ClusterMachine::new();
    assert_eq!(machine.find_cluster('\u{1F1E6}'), Break::Continue);
    assert_eq!(machine.find_cluster('\u{1F1E7}'), Break::Continue);
    assert_eq!(machine.find_cluster('\u{1F1E8}'), Break::Before);
    let mut machine = ClusterMachine::new();
    assert_eq!(machine.find_cluster('\u{1F6D1}'), Break::Continue);
    assert_eq!(machine.find_cluster('\u{200D}'), Break::Continue);
    assert_eq!(machine.find_cluster('a'), Break::Before);
}
