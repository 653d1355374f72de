//! Reading the Unicode Character Database text files that the property tables are built
//! from: category labels, Grapheme_Cluster_Break labels and hexadecimal code point ranges.
use vstd::prelude::*;

use crate::categories::GeneralCategory;

verus! {

/// Whether two strings hold the same characters.
pub fn str_eq(a: &str, b: &str) -> (r: bool)
    ensures
        r == (a@ == b@),
{
    let n = a.unicode_len();
    let m = b.unicode_len();
    if n != m {
        return false;
    }
    let mut i: usize = 0;
    while i < n
        invariant
            n == a@.len(),
            m == b@.len(),
            n == m,
            i <= n,
            forall|j: int| 0 <= j < i ==> a@[j] == b@[j],
        decreases n - i,
    {
        if a.get_char(i) != b.get_char(i) {
            return false;
        }
        i = i + 1;
    }
    assert(a@ =~= b@);
    true
}

/// The general category that a two-letter label of UnicodeData.txt names; any other
/// label reads as unassigned.
pub open spec fn label_category(label: Seq<char>) -> GeneralCategory {
    if label == "Lu"@ {
        GeneralCategory::Lu
    } else if label == "Ll"@ {
        GeneralCategory::Ll
    } else if label == "Lt"@ {
        GeneralCategory::Lt
    } else if label == "Lm"@ {
        GeneralCategory::Lm
    } else if label == "Lo"@ {
        GeneralCategory::Lo
    } else if label == "Mn"@ {
        GeneralCategory::Mn
    } else if label == "Mc"@ {
        GeneralCategory::Mc
    } else if label == "Me"@ {
        GeneralCategory::Me
    } else if label == "Nd"@ {
        GeneralCategory::Nd
    } else if label == "Nl"@ {
        GeneralCategory::Nl
    } else if label == "No"@ {
        GeneralCategory::No
    } else if label == "Pc"@ {
        GeneralCategory::Pc
    } else if label == "Pd"@ {
        GeneralCategory::Pd
    } else if label == "Ps"@ {
        GeneralCategory::Ps
    } else if label == "Pe"@ {
        GeneralCategory::Pe
    } else if label == "Pi"@ {
        GeneralCategory::Pi
    } else if label == "Pf"@ {
        GeneralCategory::Pf
    } else if label == "Po"@ {
        GeneralCategory::Po
    } else if label == "Sm"@ {
        GeneralCategory::Sm
    } else if label == "Sc"@ {
        GeneralCategory::Sc
    } else if label == "Sk"@ {
        GeneralCategory::Sk
    } else if label == "So"@ {
        GeneralCategory::So
    } else if label == "Zs"@ {
        GeneralCategory::Zs
    } else if label == "Zl"@ {
        GeneralCategory::Zl
    } else if label == "Zp"@ {
        GeneralCategory::Zp
    } else if label == "Cc"@ {
        GeneralCategory::Cc
    } else if label == "Cf"@ {
        GeneralCategory::Cf
    } else if label == "Cs"@ {
        GeneralCategory::Cs
    } else if label == "Co"@ {
        GeneralCategory::Co
    } else {
        GeneralCategory::Cn
    }
}

/// The general category that a label of UnicodeData.txt names.
pub fn category_from_label(label: &str) -> (r: GeneralCategory)
    ensures
        r == label_category(label@),
{
    if str_eq(label, "Lu") {
        GeneralCategory::Lu
    } else if str_eq(label, "Ll") {
        GeneralCategory::Ll
    } else if str_eq(label, "Lt") {
        GeneralCategory::Lt
    } else if str_eq(label, "Lm") {
        GeneralCategory::Lm
    } else if str_eq(label, "Lo") {
        GeneralCategory::Lo
    } else if str_eq(label, "Mn") {
        GeneralCategory::Mn
    } else if str_eq(label, "Mc") {
        GeneralCategory::Mc
    } else if str_eq(label, "Me") {
        GeneralCategory::Me
    } else if str_eq(label, "Nd") {
        GeneralCategory::Nd
    } else if str_eq(label, "Nl") {
        GeneralCategory::Nl
    } else if str_eq(label, "No") {
        GeneralCategory::No
    } else if str_eq(label, "Pc") {
        GeneralCategory::Pc
    } else if str_eq(label, "Pd") {
        GeneralCategory::Pd
    } else if str_eq(label, "Ps") {
        GeneralCategory::Ps
    } else if str_eq(label, "Pe") {
        GeneralCategory::Pe
    } else if str_eq(label, "Pi") {
        GeneralCategory::Pi
    } else if str_eq(label, "Pf") {
        GeneralCategory::Pf
    } else if str_eq(label, "Po") {
        GeneralCategory::Po
    } else if str_eq(label, "Sm") {
        GeneralCategory::Sm
    } else if str_eq(label, "Sc") {
        GeneralCategory::Sc
    } else if str_eq(label, "Sk") {
        GeneralCategory::Sk
    } else if str_eq(label, "So") {
        GeneralCategory::So
    } else if str_eq(label, "Zs") {
        GeneralCategory::Zs
    } else if str_eq(label, "Zl") {
        GeneralCategory::Zl
    } else if str_eq(label, "Zp") {
        GeneralCategory::Zp
    } else if str_eq(label, "Cc") {
        GeneralCategory::Cc
    } else if str_eq(label, "Cf") {
        GeneralCategory::Cf
    } else if str_eq(label, "Cs") {
        GeneralCategory::Cs
    } else if str_eq(label, "Co") {
        GeneralCategory::Co
    } else {
        GeneralCategory::Cn
    }
}

/// The one-byte code of the category that a label of UnicodeData.txt names; an
/// unrecognised label gives the code of Cn, unassigned.
pub fn cat_to_u8(cat: &str) -> (r: u8)
    ensures
        r == label_category(cat@).spec_code(),
{
    category_from_label(cat).code()
}

/// The Grapheme_Cluster_Break code that a property label names; an unrecognised label
/// gives the code of Other. `Extended_Grapheme` names Extended_Pictographic.
pub open spec fn label_property(label: Seq<char>) -> u8 {
    if label == "Prepend"@ {
        0x05
    } else if label == "CR"@ || label == "LF"@ || label == "Control"@ {
        0x04
    } else if label == "Extend"@ {
        0x01
    } else if label == "SpacingMark"@ {
        0x02
    } else if label == "L"@ {
        0x0c
    } else if label == "V"@ {
        0x08
    } else if label == "T"@ {
        0x09
    } else if label == "LV"@ {
        0x0d
    } else if label == "LVT"@ {
        0x0e
    } else if label == "ZWJ"@ {
        0x03
    } else if label == "Extended_Grapheme"@ {
        0x06
    } else if label == "Regional_Indicator"@ {
        0x07
    } else {
        0x00
    }
}

/// The Grapheme_Cluster_Break code that a property label names.
pub fn encode_property(property: &str) -> (r: u8)
    ensures
        r == label_property(property@),
{
    if str_eq(property, "Prepend") {
        0x05
    } else if str_eq(property, "CR") || str_eq(property, "LF") || str_eq(property, "Control") {
        0x04
    } else if str_eq(property, "Extend") {
        0x01
    } else if str_eq(property, "SpacingMark") {
        0x02
    } else if str_eq(property, "L") {
        0x0c
    } else if str_eq(property, "V") {
        0x08
    } else if str_eq(property, "T") {
        0x09
    } else if str_eq(property, "LV") {
        0x0d
    } else if str_eq(property, "LVT") {
        0x0e
    } else if str_eq(property, "ZWJ") {
        0x03
    } else if str_eq(property, "Extended_Grapheme") {
        0x06
    } else if str_eq(property, "Regional_Indicator") {
        0x07
    } else {
        0x00
    }
}

/// The value of a hexadecimal digit, or -1 for any other character.
pub open spec fn hex_digit_value(c: char) -> int {
    if '0' <= c && c <= '9' {
        c as int - '0' as int
    } else if 'A' <= c && c <= 'F' {
        c as int - 'A' as int + 10
    } else if 'a' <= c && c <= 'f' {
        c as int - 'a' as int + 10
    } else {
        -1
    }
}

/// A non-empty run of hexadecimal digits.
pub open spec fn is_hex_number(s: Seq<char>) -> bool {
    &&& s.len() > 0
    &&& forall|i: int| 0 <= i < s.len() ==> hex_digit_value(#[trigger] s[i]) >= 0
}

/// The number that a run of hexadecimal digits writes.
pub open spec fn hex_value(s: Seq<char>) -> int
    decreases s.len(),
{
    if s.len() == 0 {
        0
    } else {
        hex_value(s.drop_last()) * 16 + hex_digit_value(s.last())
    }
}

/// The number that `s` writes in hexadecimal, where it is a run of hexadecimal digits
/// whose value fits in a `u32`.
pub open spec fn parse_hex_spec(s: Seq<char>) -> Option<u32> {
    if is_hex_number(s) && hex_value(s) < 0x1_0000_0000 {
        Some(hex_value(s) as u32)
    } else {
        None
    }
}

/// Reads `chars[from..to]` as a hexadecimal number.
fn parse_hex(chars: &Vec<char>, from: usize, to: usize) -> (r: Option<u32>)
    requires
        from <= to <= chars@.len(),
    ensures
        r == parse_hex_spec(chars@.subrange(from as int, to as int)),
{
    let ghost s = chars@.subrange(from as int, to as int);
    if from == to {
        return None;
    }
    let mut acc: u64 = 0;
    let mut i = from;
    while i < to
        invariant
            s == chars@.subrange(from as int, to as int),
            from <= i <= to <= chars@.len(),
            forall|j: int| from <= j < i ==> hex_digit_value(#[trigger] chars@[j]) >= 0,
            acc as int == if hex_value(chars@.subrange(from as int, i as int)) < 0x1_0000_0000 {
                hex_value(chars@.subrange(from as int, i as int))
            } else {
                0x1_0000_0000
            },
        decreases to - i,
    {
        let c = chars[i];
        assert(s[i - from] == c);
        let d: u64 = if '0' <= c && c <= '9' {
            (c as u64) - ('0' as u64)
        } else if 'A' <= c && c <= 'F' {
            (c as u64) - ('A' as u64) + 10
        } else if 'a' <= c && c <= 'f' {
            (c as u64) - ('a' as u64) + 10
        } else {
            assert(hex_digit_value(s[i - from]) < 0);
            return None;
        };
        let ghost prefix = chars@.subrange(from as int, i as int);
        let ghost next = chars@.subrange(from as int, i + 1);
        assert(next.drop_last() =~= prefix);
        assert(next.last() == c);
        assert(hex_value(next) == hex_value(prefix) * 16 + d);
        proof {
            lemma_hex_value_nonneg(prefix);
            if hex_value(prefix) >= 0x1_0000_0000 {
                assert(hex_value(prefix) * 16 + d >= 0x1_0000_0000) by (nonlinear_arith)
                    requires
                        hex_value(prefix) >= 0x1_0000_0000,
                        d >= 0,
                ;
            }
        }
        let grown = acc * 16 + d;
        acc = if grown < 0x1_0000_0000 {
            grown
        } else {
            0x1_0000_0000
        };
        i = i + 1;
    }
    assert(chars@.subrange(from as int, to as int) =~= s);
    if acc < 0x1_0000_0000 {
        Some(acc as u32)
    } else {
        None
    }
}

/// A run of hexadecimal digits writes a number of at least zero.
proof fn lemma_hex_value_nonneg(s: Seq<char>)
    requires
        forall|i: int| 0 <= i < s.len() ==> hex_digit_value(#[trigger] s[i]) >= 0,
    ensures
        hex_value(s) >= 0,
    decreases s.len(),
{
    if s.len() > 0 {
        assert(forall|i: int|
            0 <= i < s.drop_last().len() ==> #[trigger] s.drop_last()[i] == s[i]);
        lemma_hex_value_nonneg(s.drop_last());
        assert(hex_digit_value(s[s.len() - 1]) >= 0);
    }
}

/// The first position `i`, from `from` on, where `s` holds two dots, or -1.
pub open spec fn dots_from(s: Seq<char>, from: int) -> int
    decreases s.len() - from,
{
    if from < 0 || from + 1 >= s.len() {
        -1
    } else if s[from] == '.' && s[from + 1] == '.' {
        from
    } else {
        dots_from(s, from + 1)
    }
}

/// The range that a code point field of the UCD writes: `XXXX` for one code point or
/// `XXXX..YYYY` for an inclusive range, split at the first `..`, each side a hexadecimal
/// number that fits in a `u32`.
pub open spec fn range_spec(s: Seq<char>) -> Option<(u32, u32)> {
    let d = dots_from(s, 0);
    if d < 0 {
        match parse_hex_spec(s) {
            Some(v) => Some((v, v)),
            None => None,
        }
    } else {
        match (parse_hex_spec(s.subrange(0, d)), parse_hex_spec(s.subrange(d + 2, s.len() as int))) {
            (Some(a), Some(b)) => Some((a, b)),
            _ => None,
        }
    }
}

/// Reads a code point field of the UCD, `XXXX` or `XXXX..YYYY`, as its first and last
/// code points; `None` where a side is no hexadecimal number that fits in a `u32`.
pub fn str_to_range(range: &str) -> (r: Option<(u32, u32)>)
    ensures
        r == range_spec(range@),
{
    let chars = crate::grapheme_clusters::chars_of(range);
    let n = chars.len();
    let mut i: usize = 0;
    while n > 0 && i < n - 1
        invariant
            chars@ == range@,
            n == chars@.len(),
            i <= n,
            dots_from(range@, 0) == dots_from(range@, i as int),
        decreases n - i,
    {
        if chars[i] == '.' && chars[i + 1] == '.' {
            let first = parse_hex(&chars, 0, i);
            let last = parse_hex(&chars, i + 2, n);
            assert(chars@.subrange(0, n as int) =~= range@);
            return match (first, last) {
                (Some(a), Some(b)) => Some((a, b)),
                _ => None,
            };
        }
        i = i + 1;
    }
    assert(chars@.subrange(0, n as int) =~= range@);
    match parse_hex(&chars, 0, n) {
        Some(v) => Some((v, v)),
        None => None,
    }
}


/// The first position, from `from` on, where `s` holds `c`, or the length of `s`.
pub open spec fn find_from(s: Seq<char>, c: char, from: int) -> int
    decreases s.len() - from,
{
    if from < 0 || from >= s.len() {
        s.len() as int
    } else if s[from] == c {
        from
    } else {
        find_from(s, c, from + 1)
    }
}

/// The first position, from `from` on, where `chars` holds `c`, or its length.
fn find_char(chars: &Vec<char>, c: char, from: usize) -> (r: usize)
    requires
        from <= chars@.len(),
    ensures
        r == find_from(chars@, c, from as int),
        from <= r <= chars@.len(),
{
    let mut i = from;
    while i < chars.len()
        invariant
            from <= i <= chars@.len(),
            find_from(chars@, c, from as int) == find_from(chars@, c, i as int),
        decreases chars@.len() - i,
    {
        if chars[i] == c {
            return i;
        }
        i = i + 1;
    }
    i
}

/// `s` ends with `suffix`.
pub open spec fn ends_with(s: Seq<char>, suffix: Seq<char>) -> bool {
    suffix.len() <= s.len() && s.subrange(s.len() - suffix.len(), s.len() as int) == suffix
}

/// Whether `chars[from..to]` ends with `suffix`.
fn slice_ends_with(chars: &Vec<char>, from: usize, to: usize, suffix: &str) -> (r: bool)
    requires
        from <= to <= chars@.len(),
    ensures
        r == ends_with(chars@.subrange(from as int, to as int), suffix@),
{
    let ghost s = chars@.subrange(from as int, to as int);
    let tail = crate::grapheme_clusters::chars_of(suffix);
    let m = tail.len();
    if m > to - from {
        return false;
    }
    let start = to - m;
    let mut k: usize = 0;
    while k < m
        invariant
            from <= start <= to <= chars@.len(),
            start + m == to,
            tail@ == suffix@,
            m == tail@.len(),
            s == chars@.subrange(from as int, to as int),
            k <= m,
            forall|j: int| 0 <= j < k ==> chars@[start + j] == tail@[j],
        decreases m - k,
    {
        if chars[start + k] != tail[k] {
            assert(s.subrange(s.len() - m, s.len() as int)[k as int] != suffix@[k as int]);
            return false;
        }
        k = k + 1;
    }
    assert(s.subrange(s.len() - m, s.len() as int) =~= suffix@);
    true
}

/// The role of a record of UnicodeData.txt: a code point of its own, or the first or
/// last code point of a range that the file gives in two records.
#[derive(Clone, Copy, Debug, PartialEq, Eq, Structural)]
pub enum RecordKind {
    Single,
    RangeFirst,
    RangeLast,
}

/// The fields of a record of UnicodeData.txt that the category table needs.
#[derive(Clone, Copy, Debug, PartialEq, Eq, Structural)]
pub struct UnicodeDataRecord {
    pub code: u32,
    pub kind: RecordKind,
    pub category: GeneralCategory,
}

/// The role that the name field of a record gives it.
pub open spec fn record_kind(name: Seq<char>) -> RecordKind {
    if ends_with(name, ", First>"@) {
        RecordKind::RangeFirst
    } else if ends_with(name, ", Last>"@) {
        RecordKind::RangeLast
    } else {
        RecordKind::Single
    }
}

/// A line of UnicodeData.txt: `;`-separated fields, of which the first is the code point
/// in hexadecimal, the second the name and the third the category label. A line with
/// fewer than three fields, or whose first field is no hexadecimal number, is no record.
pub open spec fn unicode_data_record(s: Seq<char>) -> Option<UnicodeDataRecord> {
    let f0 = find_from(s, ';', 0);
    let f1 = find_from(s, ';', f0 + 1);
    let f2 = find_from(s, ';', f1 + 1);
    if f0 >= s.len() || f1 >= s.len() {
        None
    } else {
        match parse_hex_spec(s.subrange(0, f0)) {
            Some(code) => Some(
                UnicodeDataRecord {
                    code,
                    kind: record_kind(s.subrange(f0 + 1, f1)),
                    category: label_category(s.subrange(f1 + 1, f2)),
                },
            ),
            None => None,
        }
    }
}

/// Reads a line of UnicodeData.txt.
pub fn parse_unicode_data_line(line: &str) -> (r: Option<UnicodeDataRecord>)
    ensures
        r == unicode_data_record(line@),
{
    let chars = crate::grapheme_clusters::chars_of(line);
    let n = chars.len();
    let f0 = find_char(&chars, ';', 0);
    if f0 >= n {
        return None;
    }
    let f1 = find_char(&chars, ';', f0 + 1);
    if f1 >= n {
        return None;
    }
    let f2 = find_char(&chars, ';', f1 + 1);
    let code = match parse_hex(&chars, 0, f0) {
        Some(code) => code,
        None => {
            return None;
        },
    };
    let kind = if slice_ends_with(&chars, f0 + 1, f1, ", First>") {
        RecordKind::RangeFirst
    } else if slice_ends_with(&chars, f0 + 1, f1, ", Last>") {
        RecordKind::RangeLast
    } else {
        RecordKind::Single
    };
    let label = line.substring_char(f1 + 1, f2);
    let category = category_from_label(label);
    Some(UnicodeDataRecord { code, kind, category })
}

/// `raw` with the value `v` at every position from `first` to `last`, both included.
pub open spec fn filled(raw: Seq<u8>, first: u32, last: u32, v: u8) -> Seq<u8> {
    Seq::new(raw.len(), |i: int| if first <= i && i <= last { v } else { raw[i] })
}

/// Sets every value of `raw` from `first` to `last`, both included, to `v`; positions
/// past the end of `raw` are left out.
pub fn fill_range(raw: &mut Vec<u8>, first: u32, last: u32, v: u8)
    ensures
        final(raw)@ == filled(old(raw)@, first, last, v),
{
    let n = raw.len();
    let mut i = first as usize;
    if i >= n || first > last {
        assert(raw@ =~= filled(old(raw)@, first, last, v));
        return;
    }
    while i < n && i <= last as usize
        invariant
            n == raw@.len(),
            n == old(raw)@.len(),
            first <= i,
            raw@ == Seq::new(
                n as nat,
                |k: int| if first <= k && k < i && k <= last { v } else { old(raw)@[k] },
            ),
        decreases n - i,
    {
        raw.set(i, v);
        assert(raw@ =~= Seq::new(
            n as nat,
            |k: int| if first <= k && k < i + 1 && k <= last { v } else { old(raw)@[k] },
        ));
        i = i + 1;
    }
    assert(raw@ =~= filled(old(raw)@, first, last, v));
}

/// Enters a record of UnicodeData.txt into `raw`, the category code of each code point:
/// a single record sets its own code point, the first record of a range is remembered in
/// `range_start`, and the last sets the whole range.
pub fn apply_unicode_data_record(
    raw: &mut Vec<u8>,
    range_start: &mut u32,
    record: UnicodeDataRecord,
)
    ensures
        match record.kind {
            RecordKind::Single => {
                &&& final(raw)@ == filled(
                    old(raw)@,
                    record.code,
                    record.code,
                    record.category.spec_code(),
                )
                &&& *final(range_start) == *old(range_start)
            },
            RecordKind::RangeFirst => {
                &&& final(raw)@ == old(raw)@
                &&& *final(range_start) == record.code
            },
            RecordKind::RangeLast => {
                &&& final(raw)@ == filled(
                    old(raw)@,
                    *old(range_start),
                    record.code,
                    record.category.spec_code(),
                )
                &&& *final(range_start) == *old(range_start)
            },
        },
{
    match record.kind {
        RecordKind::Single => fill_range(raw, record.code, record.code, record.category.code()),
        RecordKind::RangeFirst => {
            *range_start = record.code;
        },
        RecordKind::RangeLast => fill_range(
            raw,
            *range_start,
            record.code,
            record.category.code(),
        ),
    }
}

/// Space, tab, line feed, form feed and carriage return.
pub open spec fn is_blank(c: char) -> bool {
    c == ' ' || c == '\t' || c == '\n' || c == '\x0C' || c == '\r'
}

/// The first position from `i` on, before `to`, that holds no blank, or `to`.
pub open spec fn skip_blanks(s: Seq<char>, i: int, to: int) -> int
    decreases to - i,
{
    if 0 <= i < to && to <= s.len() && is_blank(s[i]) {
        skip_blanks(s, i + 1, to)
    } else {
        i
    }
}

/// The position after the last character before `j`, from `from` on, that is no blank,
/// or `from`.
pub open spec fn back_blanks(s: Seq<char>, from: int, j: int) -> int
    decreases j - from,
{
    if from < j && 0 < j <= s.len() && is_blank(s[j - 1]) {
        back_blanks(s, from, j - 1)
    } else {
        j
    }
}

/// `s[from..to]` without the blanks at either end.
pub open spec fn trimmed(s: Seq<char>, from: int, to: int) -> Seq<char> {
    let a = skip_blanks(s, from, to);
    s.subrange(a, back_blanks(s, a, to))
}

/// The bounds of `chars[from..to]` without the blanks at either end.
fn trim_bounds(chars: &Vec<char>, from: usize, to: usize) -> (r: (usize, usize))
    requires
        from <= to <= chars@.len(),
    ensures
        r.0 == skip_blanks(chars@, from as int, to as int),
        r.1 == back_blanks(chars@, r.0 as int, to as int),
        from <= r.0 <= r.1 <= to,
{
    let mut a = from;
    while a < to && (chars[a] == ' ' || chars[a] == '\t' || chars[a] == '\n' || chars[a]
        == '\x0C' || chars[a] == '\r')
        invariant
            from <= a <= to <= chars@.len(),
            skip_blanks(chars@, from as int, to as int) == skip_blanks(
                chars@,
                a as int,
                to as int,
            ),
        decreases to - a,
    {
        a = a + 1;
    }
    let mut b = to;
    while a < b && (chars[b - 1] == ' ' || chars[b - 1] == '\t' || chars[b - 1] == '\n'
        || chars[b - 1] == '\x0C' || chars[b - 1] == '\r')
        invariant
            from <= a <= b <= to <= chars@.len(),
            back_blanks(chars@, a as int, to as int) == back_blanks(chars@, a as int, b as int),
        decreases b - a,
    {
        b = b - 1;
    }
    (a, b)
}

/// A data line of a UCD property file, `range ; property # comment`: the range and the
/// property, each without blanks at either end. A line without `#`, or whose part before
/// the first `#` holds no `;`, has none.
pub open spec fn property_line(s: Seq<char>) -> Option<(Seq<char>, Seq<char>)> {
    let h = find_from(s, '#', 0);
    let data = s.subrange(0, h);
    let semi = find_from(data, ';', 0);
    if h >= s.len() || semi >= data.len() {
        None
    } else {
        Some((trimmed(s, 0, semi), trimmed(s, semi + 1, h)))
    }
}

/// The first position, from `from` on and before `to`, where `chars` holds `c`, or `to`.
fn find_char_before(chars: &Vec<char>, c: char, from: usize, to: usize) -> (r: usize)
    requires
        from <= to <= chars@.len(),
    ensures
        r == find_from(chars@.subrange(0, to as int), c, from as int),
        from <= r <= to,
{
    let ghost data = chars@.subrange(0, to as int);
    let mut i = from;
    while i < to
        invariant
            from <= i <= to <= chars@.len(),
            data == chars@.subrange(0, to as int),
            find_from(data, c, from as int) == find_from(data, c, i as int),
        decreases to - i,
    {
        if chars[i] == c {
            return i;
        }
        i = i + 1;
    }
    i
}

/// Reads a data line of a UCD property file as its range and its property.
pub fn parse_property_line(line: &str) -> (r: Option<(String, String)>)
    ensures
        match (r, property_line(line@)) {
            (Some(got), Some(want)) => got.0@ == want.0 && got.1@ == want.1,
            (None, None) => true,
            _ => false,
        },
{
    let chars = crate::grapheme_clusters::chars_of(line);
    let n = chars.len();
    let h = find_char(&chars, '#', 0);
    if h >= n {
        return None;
    }
    let semi = find_char_before(&chars, ';', 0, h);
    if semi >= h {
        return None;
    }
    assert(chars@.subrange(0, h as int).subrange(0, semi as int) =~= chars@.subrange(0, semi as int));
    let (a, b) = trim_bounds(&chars, 0, semi);
    let (c, d) = trim_bounds(&chars, semi + 1, h);
    let range = line.substring_char(a, b).to_owned();
    let property = line.substring_char(c, d).to_owned();
    Some((range, property))
}

/// Enters a line of GraphemeBreakProperty.txt into `raw`, the property code of each code
/// point: the range that the line gives takes the code of its property. A line with no
/// data leaves `raw` as it is; one whose range is unreadable too, and gives `false`.
pub fn apply_property_line(raw: &mut Vec<u8>, line: &str) -> (ok: bool)
    ensures
        match property_line(line@) {
            None => ok && final(raw)@ == old(raw)@,
            Some((range, property)) => match range_spec(range) {
                Some((first, last)) => ok && final(raw)@ == filled(
                    old(raw)@,
                    first,
                    last,
                    label_property(property),
                ),
                None => !ok && final(raw)@ == old(raw)@,
            },
        },
{
    match parse_property_line(line) {
        None => true,
        Some((range, property)) => match str_to_range(range.as_str()) {
            Some((first, last)) => {
                fill_range(raw, first, last, encode_property(property.as_str()));
                true
            },
            None => false,
        },
    }
}

/// Enters a line of emoji-data.txt into `raw`: where its property is
/// Extended_Pictographic, the range that it gives takes the code of that property, laid
/// over what was there. Any other line leaves `raw` as it is; one whose range is
/// unreadable gives `false`.
pub fn apply_emoji_line(raw: &mut Vec<u8>, line: &str) -> (ok: bool)
    ensures
        match property_line(line@) {
            Some((range, property)) => if property == "Extended_Pictographic"@ {
                match range_spec(range) {
                    Some((first, last)) => ok && final(raw)@ == filled(
                        old(raw)@,
                        first,
                        last,
                        label_property("Extended_Grapheme"@),
                    ),
                    None => !ok && final(raw)@ == old(raw)@,
                }
            } else {
                ok && final(raw)@ == old(raw)@
            },
            None => ok && final(raw)@ == old(raw)@,
        },
{
    match parse_property_line(line) {
        None => true,
        Some((range, property)) => {
            if str_eq(property.as_str(), "Extended_Pictographic") {
                match str_to_range(range.as_str()) {
                    Some((first, last)) => {
                        fill_range(raw, first, last, encode_property("Extended_Grapheme"));
                        true
                    },
                    None => false,
                }
            } else {
                true
            }
        },
    }
}


/// The end of the token that starts at `i`: the first blank from `i` on, before `to`, or
/// `to`.
pub open spec fn token_end(s: Seq<char>, i: int, to: int) -> int
    decreases to - i,
{
    if 0 <= i < to && to <= s.len() && !is_blank(s[i]) {
        token_end(s, i + 1, to)
    } else {
        i
    }
}

/// The clusters that the tokens of `s[i..to]` describe, given the code points `current`
/// of the cluster being read and the clusters `done` before it. `÷` ends the current
/// cluster, `×` joins, and any other token is a code point in hexadecimal; a token that is
/// none of these makes the line unreadable.
pub open spec fn read_break_tokens(
    s: Seq<char>,
    i: int,
    to: int,
    current: Seq<u32>,
    done: Seq<Seq<u32>>,
) -> Option<Seq<Seq<u32>>>
    decreases to - i,
{
    let a = skip_blanks(s, i, to);
    if !(0 <= i <= a && a < to && to <= s.len()) {
        Some(done)
    } else {
        let b = token_end(s, a, to);
        let token = s.subrange(a, b);
        if b <= a || b > to {
            None
        } else if token == seq!['÷'] {
            read_break_tokens(
                s,
                b,
                to,
                seq![],
                if current.len() > 0 {
                    done.push(current)
                } else {
                    done
                },
            )
        } else if token == seq!['×'] {
            read_break_tokens(s, b, to, current, done)
        } else {
            match parse_hex_spec(token) {
                Some(v) => read_break_tokens(s, b, to, current.push(v), done),
                None => None,
            }
        }
    }
}

/// The expected clusters, as code points, that a line of GraphemeBreakTest.txt gives in
/// its part before `#`. A line without `#`, or with nothing before it, gives none.
pub open spec fn break_test_line(s: Seq<char>) -> Option<Seq<Seq<u32>>> {
    let h = find_from(s, '#', 0);
    if h >= s.len() || h == 0 {
        None
    } else {
        read_break_tokens(s, 0, h, seq![], seq![])
    }
}

/// The expected clusters, as code points, of a line of GraphemeBreakTest.txt such as
/// `÷ 0061 × 0308 ÷ 0062 ÷ # ...`.
pub fn parse_break_test_line(line: &str) -> (r: Option<Vec<Vec<u32>>>)
    ensures
        match (r, break_test_line(line@)) {
            (Some(got), Some(want)) => got@.map_values(|v: Vec<u32>| v@) == want,
            (None, None) => true,
            _ => false,
        },
{
    let chars = crate::grapheme_clusters::chars_of(line);
    let n = chars.len();
    let h = find_char(&chars, '#', 0);
    if h >= n || h == 0 {
        return None;
    }
    let ghost s = chars@;
    let mut current: Vec<u32> = Vec::new();
    let mut done: Vec<Vec<u32>> = Vec::new();
    let mut i: usize = 0;
    assert(done@.map_values(|v: Vec<u32>| v@) =~= Seq::<Seq<u32>>::empty());
    assert(current@ =~= Seq::<u32>::empty());
    while i < h
        invariant
            s == chars@,
            s == line@,
            0 < h < n,
            n == s.len(),
            i <= h,
            break_test_line(s) == read_break_tokens(s, i as int, h as int, current@, done@.map_values(|v: Vec<u32>| v@)),
        decreases h - i,
    {
        let ghost i0 = i as int;
        let ghost before = read_break_tokens(s, i0, h as int, current@, done@.map_values(|v: Vec<u32>| v@));
        let mut a = i;
        while a < h && (chars[a] == ' ' || chars[a] == '\t' || chars[a] == '\n' || chars[a]
            == '\x0C' || chars[a] == '\r')
            invariant
                s == chars@,
                0 < h < n,
                n == s.len(),
                i0 <= a <= h,
                skip_blanks(s, i0, h as int) == skip_blanks(s, a as int, h as int),
            decreases h - a,
        {
            a = a + 1;
        }
        if a >= h {
            i = h;
            proof {
                assert(read_break_tokens(s, i as int, h as int, current@, done@.map_values(|v: Vec<u32>| v@))
                    == Some(done@.map_values(|v: Vec<u32>| v@)));
            }
        } else {
            let mut b = a;
            while b < h && !(chars[b] == ' ' || chars[b] == '\t' || chars[b] == '\n' || chars[b]
                == '\x0C' || chars[b] == '\r')
                invariant
                    s == chars@,
                    0 < h < n,
                    n == s.len(),
                    a <= b <= h,
                    a < h,
                    b == a || !is_blank(s[a as int]),
                    token_end(s, a as int, h as int) == token_end(s, b as int, h as int),
                decreases h - b,
            {
                b = b + 1;
            }
            let ghost token = s.subrange(a as int, b as int);
            assert(b > a);
            if b == a + 1 && chars[a] == '÷' {
                assert(token =~= seq!['÷']);
                if current.len() > 0 {
                    let ghost old_done = done@.map_values(|v: Vec<u32>| v@);
                    let finished = current;
                    current = Vec::new();
                    done.push(finished);
                    assert(done@.map_values(|v: Vec<u32>| v@) =~= old_done.push(finished@));
                }
                assert(current@ =~= Seq::<u32>::empty());
            } else if b == a + 1 && chars[a] == '×' {
                assert(token =~= seq!['×']);
            } else {
                assert(token != seq!['÷'] && token != seq!['×']) by {
                    if b == a + 1 {
                        assert(token[0] == chars[a as int]);
                    } else {
                        assert(token.len() != 1);
                    }
                }
                match parse_hex(&chars, a, b) {
                    Some(v) => {
                        current.push(v);
                    },
                    None => {
                        return None;
                    },
                }
            }
            i = b;
        }
    }
    Some(done)
}

} // verus!
