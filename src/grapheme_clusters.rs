//! Extended grapheme clusters (UAX #29), found by a small state machine over the
//! Grapheme_Cluster_Break property of each scalar value.
//!
//! The machine is fed one character at a time and answers whether the current cluster
//! goes on (`Break::Continue`), ends before the character (`Break::Before`) or ends after it
//! (`Break::After`). The whole segmentation of a text is modelled by the spec functions
//! `scan`, `cluster_end`, `cluster_ends` and `clusters`.
use vstd::prelude::*;

use crate::grapheme_data::{GP_PAGES, GP_TABLE};
use vstd::utf8::{encode_scalar, encode_utf8, is_char_boundary, pop_first_scalar};

verus! {

/// Property code of Other, any scalar value without another Grapheme_Cluster_Break
/// value. Codes 1 to 3 are the ones that always extend a cluster; the Hangul codes are
/// the ones from 0x08 up.
pub const OTHER: u8 = 0x00;

/// Property code of Extend.
pub const EXTEND: u8 = 0x01;

/// Property code of SpacingMark.
pub const SPACING_MARK: u8 = 0x02;

/// Property code of ZWJ, the zero width joiner.
pub const ZWJ: u8 = 0x03;

/// Property code of Control, CR and LF.
pub const CONTROL: u8 = 0x04;

/// Property code of Prepend.
pub const PREPEND: u8 = 0x05;

/// Property code of Extended_Pictographic.
pub const EXTENDED_GRAPHEME: u8 = 0x06;

/// Property code of Regional_Indicator.
pub const REGIONAL_INDICATOR: u8 = 0x07;

/// Property code of a Hangul vowel, V.
pub const HANGUL_V: u8 = 0x08;

/// Property code of a Hangul trailing consonant, T.
pub const HANGUL_T: u8 = 0x09;

/// Property code of a Hangul leading consonant, L.
pub const HANGUL_L: u8 = 0x0c;

/// Property code of a Hangul LV syllable.
pub const HANGUL_LV: u8 = 0x0d;

/// Property code of a Hangul LVT syllable.
pub const HANGUL_LVT: u8 = 0x0e;

/// An entry of the property table: the property of a whole page, or the index of a
/// page in the page array.
pub enum Either {
    Code(u8),
    Page(u16),
}

impl Either {
    /// The entry that a raw table value stands for: below 0x100 the property of a whole
    /// page, else 0x100 plus a page index.
    pub open spec fn spec_from_raw(raw: u16) -> Either {
        if raw < 0x100 {
            Either::Code(raw as u8)
        } else {
            Either::Page((raw - 0x100) as u16)
        }
    }

    /// The entry that a raw table value stands for.
    #[verifier::when_used_as_spec(spec_from_raw)]
    pub fn from_raw(raw: u16) -> (r: Either)
        ensures
            r == Either::spec_from_raw(raw),
    {
        if raw < 0x100 {
            Either::Code(raw as u8)
        } else {
            Either::Page(raw - 0x100)
        }
    }

    /// The property at `index` within the page of this entry.
    #[inline]
    pub fn get_code(&self, index: u8) -> (r: u8)
        ensures
            r == entry_property(*self, index),
    {
        match self {
            Either::Code(code) => *code,
            Either::Page(page) => {
                if (*page as usize) < GP_PAGES.len() {
                    GP_PAGES[*page as usize][index as usize]
                } else {
                    OTHER
                }
            },
        }
    }
}

/// The property that a table entry gives at `index` within its page. An index past the
/// page array reads as `OTHER`.
pub open spec fn entry_property(e: Either, index: u8) -> u8 {
    match e {
        Either::Code(code) => code,
        Either::Page(p) => if (p as int) < GP_PAGES@.len() {
            GP_PAGES[p as int][index as int]
        } else {
            OTHER
        },
    }
}

/// The Grapheme_Cluster_Break property code of a scalar value, as the table gives it.
pub open spec fn gp_of(c: char) -> u8 {
    entry_property(
        Either::spec_from_raw(
            GP_TABLE[((c as u32) >> 16u32) as int][(((c as u32) >> 8u32) & 0xffu32) as int],
        ),
        ((c as u32) & 0xffu32) as u8,
    )
}

/// The property code of a scalar value: two reads of the top level and at most one
/// page read.
#[inline]
pub fn get_property(c: char) -> (r: u8)
    ensures
        r == gp_of(c),
{
    let x = c as u32;
    proof {
        crate::categories::lemma_page_split(x);
    }
    Either::from_raw(GP_TABLE[(x >> 16) as usize][((x >> 8) & 0xff) as usize]).get_code(
        (x & 0xff) as u8,
    )
}

/// Extend, SpacingMark or ZWJ: the codes whose bits 0x0c are clear, but for `OTHER`.
pub open spec fn is_continuation_prop(property: u8) -> bool {
    property != 0 && property & 0x0c == 0
}

/// Whether a property always continues the cluster before it.
#[inline]
pub fn is_continuation(property: u8) -> (r: bool)
    ensures
        r == is_continuation_prop(property),
{
    property != 0 && property & 0xc == 0
}

/// Whether a property is one of the Hangul syllable types L, V, T, LV, LVT, whose codes
/// are the ones from 0x08 up.
#[inline]
pub fn is_hangul(property: u8) -> (r: bool)
    ensures
        r == (property & 0x08 != 0),
        property <= HANGUL_LVT ==> (r <==> HANGUL_V <= property),
{
    proof {
        lemma_property_bits(property);
    }
    property & 0x8 != 0
}

/// The bit tests on property codes, in terms of their values.
proof fn lemma_property_bits(p: u8)
    by (bit_vector)
    ensures
        p <= 0x0e ==> ((p & 0x8 != 0) <==> 0x08 <= p),
        p <= 0x0e ==> ((p != 0 && p & 0x0c == 0) <==> (p == 0x01 || p == 0x02 || p == 0x03)),
{
}

/// Where the machine stands within the cluster it is reading.
#[derive(Clone, Copy, Debug, PartialEq, Eq, Structural)]
pub enum ClusterMachineState {
    /// No character of the cluster read yet.
    Start,
    /// After a Prepend character, which takes the next character with it.
    Precore,
    /// After a cluster base, going on while extending characters follow (as `Other`).
    CcsBase,
    /// After a CR, waiting for an LF.
    CrLf,
    /// After a Hangul L.
    HangulSyllableL,
    /// After a Hangul V or LV.
    HangulSyllableV,
    /// After a Hangul T or LVT.
    HangulSyllableT,
    /// Within the extending characters of a cluster.
    CcsExtend,
    /// After one Regional_Indicator.
    Flag,
    /// After an Extended_Pictographic, with its extending characters.
    Emoji,
    /// After an Extended_Pictographic and a ZWJ.
    EmojiZWJ,
    /// After any other base character.
    Other,
}

/// Where a cluster boundary lies with respect to the character just fed.
#[derive(Clone, Copy, Debug, PartialEq, Eq, Structural)]
pub enum Break {
    /// The character belongs to the current cluster, which goes on.
    Continue,
    /// The cluster ends before the character, which is not consumed.
    Before,
    /// The cluster ends after the character, which is consumed.
    After,
}

/// The state that the first character of a cluster leads to, by its property.
pub open spec fn start_state(p: u8) -> ClusterMachineState {
    if p == PREPEND {
        ClusterMachineState::Precore
    } else if p == EXTEND || p == SPACING_MARK {
        ClusterMachineState::CcsExtend
    } else if p == HANGUL_L {
        ClusterMachineState::HangulSyllableL
    } else if p == HANGUL_V || p == HANGUL_LV {
        ClusterMachineState::HangulSyllableV
    } else if p == HANGUL_T || p == HANGUL_LVT {
        ClusterMachineState::HangulSyllableT
    } else if p == EXTENDED_GRAPHEME {
        ClusterMachineState::Emoji
    } else if p == REGIONAL_INDICATOR {
        ClusterMachineState::Flag
    } else {
        ClusterMachineState::Other
    }
}

/// The first character `c`, of property `p`, of a cluster: CR waits for an LF, another
/// control character is a cluster of its own, anything else picks the state by its
/// property.
pub open spec fn first_step(c: char, p: u8) -> (ClusterMachineState, Break) {
    if c == '\r' {
        (ClusterMachineState::CrLf, Break::Continue)
    } else if p == CONTROL {
        (ClusterMachineState::Start, Break::After)
    } else {
        (start_state(p), Break::Continue)
    }
}

/// Extend, SpacingMark or ZWJ, by value.
pub open spec fn is_extending(p: u8) -> bool {
    p == EXTEND || p == SPACING_MARK || p == ZWJ
}

/// Ends the cluster before `c` and sets up the state for a cluster that starts at `c`.
pub open spec fn redispatch(c: char, p: u8) -> (ClusterMachineState, Break) {
    (first_step(c, p).0, Break::Before)
}

/// The transition of the machine from state `st` on character `c` of property `p`.
pub open spec fn step(st: ClusterMachineState, c: char, p: u8) -> (ClusterMachineState, Break) {
    if st == ClusterMachineState::Start {
        first_step(c, p)
    } else if p == CONTROL {
        if st == ClusterMachineState::CrLf && c == '\n' {
            (ClusterMachineState::Start, Break::After)
        } else if c == '\r' {
            (ClusterMachineState::CrLf, Break::Before)
        } else {
            (ClusterMachineState::Start, Break::Before)
        }
    } else {
        match st {
            ClusterMachineState::Precore => (first_step(c, p).0, Break::Continue),
            ClusterMachineState::HangulSyllableL => {
                if p == HANGUL_L {
                    (ClusterMachineState::HangulSyllableL, Break::Continue)
                } else if p == HANGUL_V || p == HANGUL_LV {
                    (ClusterMachineState::HangulSyllableV, Break::Continue)
                } else if p == HANGUL_LVT {
                    (ClusterMachineState::HangulSyllableT, Break::Continue)
                } else if is_extending(p) {
                    (ClusterMachineState::CcsExtend, Break::Continue)
                } else {
                    redispatch(c, p)
                }
            },
            ClusterMachineState::HangulSyllableV => {
                if p == HANGUL_V {
                    (ClusterMachineState::HangulSyllableV, Break::Continue)
                } else if p == HANGUL_T {
                    (ClusterMachineState::HangulSyllableT, Break::Continue)
                } else if is_extending(p) {
                    (ClusterMachineState::CcsExtend, Break::Continue)
                } else {
                    redispatch(c, p)
                }
            },
            ClusterMachineState::HangulSyllableT => {
                if p == HANGUL_T {
                    (ClusterMachineState::HangulSyllableT, Break::Continue)
                } else if is_extending(p) {
                    (ClusterMachineState::CcsExtend, Break::Continue)
                } else {
                    redispatch(c, p)
                }
            },
            ClusterMachineState::CcsExtend => {
                if is_extending(p) {
                    (ClusterMachineState::CcsExtend, Break::Continue)
                } else {
                    (ClusterMachineState::CcsExtend, Break::Before)
                }
            },
            ClusterMachineState::Flag => {
                if p == REGIONAL_INDICATOR {
                    (ClusterMachineState::Other, Break::Continue)
                } else if is_extending(p) {
                    (ClusterMachineState::CcsExtend, Break::Continue)
                } else {
                    redispatch(c, p)
                }
            },
            ClusterMachineState::Emoji => {
                if p == ZWJ {
                    (ClusterMachineState::EmojiZWJ, Break::Continue)
                } else if p == EXTEND || p == SPACING_MARK {
                    (ClusterMachineState::Emoji, Break::Continue)
                } else {
                    redispatch(c, p)
                }
            },
            ClusterMachineState::EmojiZWJ => {
                if p == EXTENDED_GRAPHEME {
                    (ClusterMachineState::Emoji, Break::Continue)
                } else {
                    (ClusterMachineState::EmojiZWJ, Break::Before)
                }
            },
            ClusterMachineState::CrLf => (ClusterMachineState::CrLf, Break::Before),
            _ => {
                if is_continuation_prop(p) {
                    (st, Break::Continue)
                } else {
                    redispatch(c, p)
                }
            },
        }
    }
}

/// The state machine that finds the end of one grapheme cluster.
pub struct ClusterMachine {
    state: ClusterMachineState,
}

impl ClusterMachine {
    /// The state the machine is in.
    pub closed spec fn current(&self) -> ClusterMachineState {
        self.state
    }

    /// A machine at the start of a cluster.
    #[inline]
    pub fn new() -> (r: ClusterMachine)
        ensures
            r.current() == ClusterMachineState::Start,
    {
        ClusterMachine { state: ClusterMachineState::Start }
    }

    /// Feeds the next character `c` and tells where the cluster boundary lies with
    /// respect to it.
    #[inline]
    pub fn find_cluster(&mut self, c: char) -> (r: Break)
        ensures
            (final(self).current(), r) == step(old(self).current(), c, gp_of(c)),
    {
        if self.state == ClusterMachineState::Start {
            return self.first_character(c);
        }
        let property = get_property(c);
        if property == CONTROL {
            return if self.state == ClusterMachineState::CrLf && c == '\n' {
                self.state = ClusterMachineState::Start;
                Break::After
            } else {
                if c == '\r' {
                    self.state = ClusterMachineState::CrLf;
                } else {
                    self.state = ClusterMachineState::Start;
                }
                Break::Before
            };
        }
        match self.state {
            ClusterMachineState::Precore => {
                self.first_character(c);
                Break::Continue
            },
            ClusterMachineState::HangulSyllableL => {
                if property == HANGUL_L {
                    Break::Continue
                } else if property == HANGUL_V || property == HANGUL_LV {
                    self.state = ClusterMachineState::HangulSyllableV;
                    Break::Continue
                } else if property == HANGUL_LVT {
                    self.state = ClusterMachineState::HangulSyllableT;
                    Break::Continue
                } else if property == EXTEND || property == SPACING_MARK || property == ZWJ {
                    self.state = ClusterMachineState::CcsExtend;
                    Break::Continue
                } else {
                    self.first_character(c);
                    Break::Before
                }
            },
            ClusterMachineState::HangulSyllableV => {
                if property == HANGUL_V {
                    Break::Continue
                } else if property == HANGUL_T {
                    self.state = ClusterMachineState::HangulSyllableT;
                    Break::Continue
                } else if property == EXTEND || property == SPACING_MARK || property == ZWJ {
                    self.state = ClusterMachineState::CcsExtend;
                    Break::Continue
                } else {
                    self.first_character(c);
                    Break::Before
                }
            },
            ClusterMachineState::HangulSyllableT => {
                if property == HANGUL_T {
                    Break::Continue
                } else if property == EXTEND || property == SPACING_MARK || property == ZWJ {
                    self.state = ClusterMachineState::CcsExtend;
                    Break::Continue
                } else {
                    self.first_character(c);
                    Break::Before
                }
            },
            ClusterMachineState::CcsExtend => {
                if property == EXTEND || property == SPACING_MARK || property == ZWJ {
                    Break::Continue
                } else {
                    Break::Before
                }
            },
            ClusterMachineState::Flag => {
                if property == REGIONAL_INDICATOR {
                    self.state = ClusterMachineState::Other;
                    Break::Continue
                } else if property == EXTEND || property == SPACING_MARK || property == ZWJ {
                    self.state = ClusterMachineState::CcsExtend;
                    Break::Continue
                } else {
                    self.first_character(c);
                    Break::Before
                }
            },
            ClusterMachineState::Emoji => {
                if property == ZWJ {
                    self.state = ClusterMachineState::EmojiZWJ;
                    Break::Continue
                } else if property == EXTEND || property == SPACING_MARK {
                    Break::Continue
                } else {
                    self.first_character(c);
                    Break::Before
                }
            },
            ClusterMachineState::EmojiZWJ => {
                if property == EXTENDED_GRAPHEME {
                    self.state = ClusterMachineState::Emoji;
                    Break::Continue
                } else {
                    Break::Before
                }
            },
            ClusterMachineState::CrLf => Break::Before,
            _ => {
                if is_continuation(property) {
                    Break::Continue
                } else {
                    self.first_character(c);
                    Break::Before
                }
            },
        }
    }

    /// Starts a cluster with `c`.
    #[inline]
    fn first_character(&mut self, c: char) -> (r: Break)
        ensures
            (final(self).current(), r) == first_step(c, gp_of(c)),
    {
        if c == '\r' {
            self.state = ClusterMachineState::CrLf;
            return Break::Continue;
        }
        let property = get_property(c);
        if property == CONTROL {
            self.state = ClusterMachineState::Start;
            return Break::After;
        }
        self.state = if property == PREPEND {
            ClusterMachineState::Precore
        } else if property == EXTEND || property == SPACING_MARK {
            ClusterMachineState::CcsExtend
        } else if property == HANGUL_L {
            ClusterMachineState::HangulSyllableL
        } else if property == HANGUL_V || property == HANGUL_LV {
            ClusterMachineState::HangulSyllableV
        } else if property == HANGUL_T || property == HANGUL_LVT {
            ClusterMachineState::HangulSyllableT
        } else if property == EXTENDED_GRAPHEME {
            ClusterMachineState::Emoji
        } else if property == REGIONAL_INDICATOR {
            ClusterMachineState::Flag
        } else {
            ClusterMachineState::Other
        };
        Break::Continue
    }
}


/// The end of the cluster that a machine in state `st` is reading when it reaches
/// position `i` of `s`: the position of the first character that is not part of it.
pub open spec fn scan(s: Seq<char>, st: ClusterMachineState, i: int) -> int
    decreases s.len() - i,
{
    if 0 <= i < s.len() {
        let t = step(st, s[i], gp_of(s[i]));
        if t.1 == Break::Continue {
            scan(s, t.0, i + 1)
        } else if t.1 == Break::Before {
            i
        } else {
            i + 1
        }
    } else {
        s.len() as int
    }
}

/// The end of the cluster that starts at position `p` of `s`.
pub open spec fn cluster_end(s: Seq<char>, p: int) -> int {
    scan(s, ClusterMachineState::Start, p)
}

/// The ends of the clusters of `s` from position `p` on, in order.
pub open spec fn cluster_ends(s: Seq<char>, p: int) -> Seq<int>
    decreases s.len() - p,
{
    if 0 <= p < s.len() {
        let e = cluster_end(s, p);
        if p < e <= s.len() {
            seq![e] + cluster_ends(s, e)
        } else {
            seq![]
        }
    } else {
        seq![]
    }
}

/// The clusters of `s` from position `p` on, in order.
pub open spec fn clusters_from(s: Seq<char>, p: int) -> Seq<Seq<char>>
    decreases s.len() - p,
{
    if 0 <= p < s.len() {
        let e = cluster_end(s, p);
        if p < e <= s.len() {
            seq![s.subrange(p, e)] + clusters_from(s, e)
        } else {
            seq![]
        }
    } else {
        seq![]
    }
}

/// The extended grapheme clusters of `s`, in order.
pub open spec fn clusters(s: Seq<char>) -> Seq<Seq<char>> {
    clusters_from(s, 0)
}

/// The first cluster of a non-empty `s`.
pub open spec fn first_cluster(s: Seq<char>) -> Seq<char> {
    s.subrange(0, cluster_end(s, 0))
}

/// Position `k` of `s` is the end of one of its clusters.
pub open spec fn is_boundary(s: Seq<char>, k: int) -> bool {
    cluster_ends(s, 0).contains(k)
}

/// A scan never moves backwards, nor past the end.
pub proof fn lemma_scan_bounds(s: Seq<char>, st: ClusterMachineState, i: int)
    requires
        0 <= i <= s.len(),
    ensures
        i <= scan(s, st, i) <= s.len(),
    decreases s.len() - i,
{
    if i < s.len() {
        let t = step(st, s[i], gp_of(s[i]));
        if t.1 == Break::Continue {
            lemma_scan_bounds(s, t.0, i + 1);
        }
    }
}

/// A cluster that starts before the end holds at least one character.
pub proof fn lemma_cluster_end_advances(s: Seq<char>, p: int)
    requires
        0 <= p < s.len(),
    ensures
        p < cluster_end(s, p) <= s.len(),
{
    let t = step(ClusterMachineState::Start, s[p], gp_of(s[p]));
    if t.1 == Break::Continue {
        lemma_scan_bounds(s, t.0, p + 1);
    }
}

/// The characters of `s`, in order, read in one pass.
pub fn chars_of(s: &str) -> (r: Vec<char>)
    ensures
        r@ == s@,
{
    let mut r: Vec<char> = Vec::new();
    let mut it = s.chars();
    loop
        invariant
            r@ + vstd::std_specs::iter::IteratorSpec::remaining(&it) == s@,
            vstd::std_specs::iter::IteratorSpec::decrease(&it) is Some,
        ensures
            r@ == s@,
        decreases vstd::std_specs::iter::IteratorSpec::decrease(&it)->0,
    {
        match it.next() {
            Some(c) => {
                r.push(c);
            },
            None => {
                assert(vstd::std_specs::iter::IteratorSpec::remaining(&it).len() == 0);
                assert(r@ =~= s@);
                break;
            },
        }
    }
    r
}

/// The number of bytes that `c` takes in UTF-8.
fn utf8_width(c: char) -> (r: usize)
    ensures
        r == encode_scalar(c as u32).len(),
{
    proof {
        vstd::utf8::char_is_scalar(c);
    }
    let x = c as u32;
    if x < 0x80 {
        1
    } else if x < 0x800 {
        2
    } else if x < 0x10000 {
        3
    } else {
        4
    }
}

/// The UTF-8 encoding of two texts one after the other is the encoding of the first
/// followed by that of the second.
proof fn lemma_encode_concat(a: Seq<char>, b: Seq<char>)
    ensures
        encode_utf8(a + b) == encode_utf8(a) + encode_utf8(b),
    decreases a.len(),
{
    if a.len() == 0 {
        assert(a + b =~= b);
        assert(encode_utf8(a) + encode_utf8(b) =~= encode_utf8(b));
    } else {
        assert((a + b).drop_first() =~= a.drop_first() + b);
        assert((a + b)[0] == a[0]);
        lemma_encode_concat(a.drop_first(), b);
        assert(encode_utf8(a + b) =~= encode_utf8(a) + encode_utf8(b));
    }
}

/// In the encoding of two texts one after the other, the end of the first is a character
/// boundary.
proof fn lemma_boundary_after(a: Seq<char>, b: Seq<char>)
    ensures
        is_char_boundary(encode_utf8(a + b), encode_utf8(a).len() as int),
    decreases a.len(),
{
    broadcast use vstd::utf8::encode_utf8_valid_utf8;

    lemma_encode_concat(a, b);
    if a.len() > 0 {
        let bytes = encode_utf8(a + b);
        vstd::utf8::encode_utf8_first_scalar(a + b);
        assert((a + b).drop_first() =~= a.drop_first() + b);
        assert((a + b)[0] == a[0]);
        lemma_boundary_after(a.drop_first(), b);
        lemma_encode_concat(a.drop_first(), b);
        assert(pop_first_scalar(bytes) =~= encode_utf8(a.drop_first() + b));
    }
}

/// A text is the decoding of its own UTF-8 bytes: two texts with the same bytes are the same.
proof fn lemma_same_bytes_same_text(x: Seq<char>, y: Seq<char>)
    requires
        encode_utf8(x) == encode_utf8(y),
    ensures
        x == y,
{
    vstd::utf8::encode_utf8_decode_utf8(x);
    vstd::utf8::encode_utf8_decode_utf8(y);
}

/// One more character adds its own encoding to the bytes of a prefix, and a prefix never
/// has more bytes than the whole text.
proof fn lemma_prefix_bytes(s: Seq<char>, i: int)
    requires
        0 <= i < s.len(),
    ensures
        encode_utf8(s.subrange(0, i + 1)).len() == encode_utf8(s.subrange(0, i)).len()
            + encode_scalar(s[i] as u32).len(),
        encode_utf8(s.subrange(0, i + 1)).len() <= encode_utf8(s).len(),
{
    let c = s[i];
    lemma_encode_concat(s.subrange(0, i), seq![c]);
    assert(s.subrange(0, i + 1) =~= s.subrange(0, i) + seq![c]);
    assert(seq![c].drop_first() =~= Seq::<char>::empty());
    assert(encode_utf8(Seq::<char>::empty()) =~= Seq::<u8>::empty());
    assert(encode_utf8(seq![c]) =~= encode_scalar(seq![c][0] as u32) + encode_utf8(
        seq![c].drop_first(),
    ));
    lemma_encode_concat(s.subrange(0, i + 1), s.subrange(i + 1, s.len() as int));
    assert(s.subrange(0, i + 1) + s.subrange(i + 1, s.len() as int) =~= s);
}

/// The characters of `text` from position `from` to position `to`, cut at the byte offsets
/// of those positions.
fn slice_between<'b>(
    text: &'b str,
    from_byte: usize,
    to_byte: usize,
    Ghost(from): Ghost<int>,
    Ghost(to): Ghost<int>,
) -> (r: &'b str)
    requires
        0 <= from <= to <= text@.len(),
        from_byte == encode_utf8(text@.subrange(0, from)).len(),
        to_byte == encode_utf8(text@.subrange(0, to)).len(),
    ensures
        r@ == text@.subrange(from, to),
{
    let ghost s = text@;
    let ghost n = s.len() as int;
    proof {
        assert(s.subrange(0, from) + s.subrange(from, n) =~= s);
        lemma_boundary_after(s.subrange(0, from), s.subrange(from, n));
        lemma_encode_concat(s.subrange(0, from), s.subrange(from, n));
        assert(s.subrange(from, to) + s.subrange(to, n) =~= s.subrange(from, n));
        lemma_boundary_after(s.subrange(from, to), s.subrange(to, n));
        lemma_encode_concat(s.subrange(from, to), s.subrange(to, n));
        assert(s.subrange(0, from) + s.subrange(from, to) =~= s.subrange(0, to));
        lemma_encode_concat(s.subrange(0, from), s.subrange(from, to));
    }
    let (_, tail) = text.split_at(from_byte);
    proof {
        assert(encode_utf8(tail@) =~= encode_utf8(s.subrange(from, n)));
        lemma_same_bytes_same_text(tail@, s.subrange(from, n));
    }
    let (head, _) = tail.split_at(to_byte - from_byte);
    proof {
        assert(encode_utf8(head@) =~= encode_utf8(s.subrange(from, to)));
        lemma_same_bytes_same_text(head@, s.subrange(from, to));
    }
    head
}

/// The clusters of a text, handed out one at a time as slices of it.
pub struct Graphemes<'a> {
    input: &'a str,
    chars: Vec<char>,
    pos: usize,
    byte_pos: usize,
}

impl<'a> Graphemes<'a> {
    /// The characters of the text.
    pub closed spec fn text(&self) -> Seq<char> {
        self.chars@
    }

    /// The position, in characters, of the next cluster.
    pub closed spec fn position(&self) -> int {
        self.pos as int
    }

    /// The fields agree with the text: `byte_pos` is the byte offset of `pos`.
    pub closed spec fn wf(&self) -> bool {
        &&& self.chars@ == self.input@
        &&& self.pos <= self.chars@.len()
        &&& self.byte_pos == encode_utf8(self.chars@.subrange(0, self.pos as int)).len()
    }

    /// The clusters not handed out yet.
    pub open spec fn remaining(&self) -> Seq<Seq<char>> {
        clusters_from(self.text(), self.position())
    }

    /// The clusters of `input`, from the first.
    pub fn new(input: &'a str) -> (r: Graphemes<'a>)
        ensures
            r.wf(),
            r.text() == input@,
            r.position() == 0,
            r.remaining() == clusters(input@),
    {
        let r = Graphemes { input, chars: chars_of(input), pos: 0, byte_pos: 0 };
        assert(r.chars@.subrange(0, 0) =~= Seq::<char>::empty());
        r
    }

    /// The next cluster, or `None` once every cluster has been handed out.
    pub fn next(&mut self) -> (r: Option<&'a str>)
        requires
            old(self).wf(),
        ensures
            final(self).wf(),
            final(self).text() == old(self).text(),
            match r {
                Some(x) => {
                    &&& old(self).remaining().len() > 0
                    &&& x@ == old(self).remaining()[0]
                    &&& final(self).remaining() == old(self).remaining().drop_first()
                    &&& final(self).position() == cluster_end(old(self).text(), old(self).position())
                },
                None => {
                    &&& old(self).remaining().len() == 0
                    &&& final(self).position() == old(self).position()
                },
            },
    {
        let n = self.chars.len();
        let start = self.pos;
        if start >= n {
            return None;
        }
        let ghost s = self.chars@;
        let total = self.input.as_bytes().len();
        let mut machine = ClusterMachine::new();
        let mut i = start;
        let mut byte_end = self.byte_pos;
        loop
            invariant_except_break
                i == start ==> machine.current() == ClusterMachineState::Start,
                cluster_end(s, start as int) == scan(s, machine.current(), i as int),
            invariant
                s == self.chars@,
                s == self.input@,
                n == s.len(),
                start <= i <= n,
                start < n,
                total == encode_utf8(s).len(),
                self.byte_pos == encode_utf8(s.subrange(0, start as int)).len(),
                byte_end == encode_utf8(s.subrange(0, i as int)).len(),
            ensures
                start < i <= n,
                cluster_end(s, start as int) == i,
                byte_end == encode_utf8(s.subrange(0, i as int)).len(),
            decreases n - i,
        {
            if i >= n {
                break;
            }
            let c = self.chars[i];
            proof {
                lemma_prefix_bytes(s, i as int);
            }
            let width = utf8_width(c);
            match machine.find_cluster(c) {
                Break::Continue => {
                    i = i + 1;
                    byte_end = byte_end + width;
                },
                Break::Before => {
                    break;
                },
                Break::After => {
                    i = i + 1;
                    byte_end = byte_end + width;
                    break;
                },
            }
        }
        proof {
            lemma_cluster_end_advances(s, start as int);
        }
        let head = slice_between(self.input, self.byte_pos, byte_end, Ghost(start as int), Ghost(i as int));
        self.pos = i;
        self.byte_pos = byte_end;
        assert(clusters_from(s, start as int) == seq![s.subrange(start as int, i as int)]
            + clusters_from(s, i as int));
        assert((seq![s.subrange(start as int, i as int)] + clusters_from(s, i as int)).drop_first()
            =~= clusters_from(s, i as int));
        Some(head)
    }
}

/// A source of characters that hands out its grapheme clusters one at a time, as owned
/// strings.
pub trait GraphemeCluster {
    /// The characters not consumed yet.
    spec fn rest(&self) -> Seq<char>;

    /// The internal state agrees with `rest`.
    spec fn cursor_wf(&self) -> bool;

    /// Consumes and returns the next cluster, or returns `None` when no character is left.
    fn next_cluster(&mut self) -> (r: Option<String>)
        requires
            old(self).cursor_wf(),
        ensures
            final(self).cursor_wf(),
            match r {
                Some(c) => {
                    &&& old(self).rest().len() > 0
                    &&& c@ == first_cluster(old(self).rest())
                    &&& final(self).rest() == old(self).rest().skip(c@.len() as int)
                },
                None => {
                    &&& old(self).rest().len() == 0
                    &&& final(self).rest() == old(self).rest()
                },
            },
    ;
}

/// A cursor over the characters of a text: it can peek at the next character and
/// consume one, and between clusters the caller may consume characters itself.
pub struct CharCursor<'a> {
    text: &'a str,
    chars: Vec<char>,
    pos: usize,
    byte_pos: usize,
}

impl<'a> CharCursor<'a> {
    /// A cursor at the start of `text`.
    pub fn new(text: &'a str) -> (r: CharCursor<'a>)
        ensures
            r.cursor_wf(),
            r.rest() == text@,
    {
        let r = CharCursor { text, chars: chars_of(text), pos: 0, byte_pos: 0 };
        assert(r.chars@.skip(0) =~= r.chars@);
        assert(r.chars@.subrange(0, 0) =~= Seq::<char>::empty());
        r
    }

    /// The next character, without consuming it.
    pub fn peek(&self) -> (r: Option<char>)
        requires
            self.cursor_wf(),
        ensures
            r == (if self.rest().len() > 0 {
                Some(self.rest()[0])
            } else {
                None::<char>
            }),
    {
        if self.pos < self.chars.len() {
            Some(self.chars[self.pos])
        } else {
            None
        }
    }

    /// Consumes the next character, if any, and returns it.
    pub fn advance(&mut self) -> (r: Option<char>)
        requires
            old(self).cursor_wf(),
        ensures
            final(self).cursor_wf(),
            r == (if old(self).rest().len() > 0 {
                Some(old(self).rest()[0])
            } else {
                None::<char>
            }),
            final(self).rest() == (if old(self).rest().len() > 0 {
                old(self).rest().drop_first()
            } else {
                old(self).rest()
            }),
    {
        if self.pos < self.chars.len() {
            let c = self.chars[self.pos];
            let total = self.text.as_bytes().len();
            proof {
                lemma_prefix_bytes(self.chars@, self.pos as int);
                assert(encode_utf8(self.chars@.subrange(0, self.pos + 1)).len() <= total);
            }
            self.byte_pos = self.byte_pos + utf8_width(c);
            self.pos = self.pos + 1;
            assert(self.chars@.skip(self.pos as int) =~= old(self).chars@.skip(
                old(self).pos as int,
            ).drop_first());
            Some(c)
        } else {
            None
        }
    }
}

impl<'a> GraphemeCluster for CharCursor<'a> {
    closed spec fn rest(&self) -> Seq<char> {
        self.chars@.skip(self.pos as int)
    }

    closed spec fn cursor_wf(&self) -> bool {
        &&& self.chars@ == self.text@
        &&& self.pos <= self.chars@.len()
        &&& self.byte_pos == encode_utf8(self.chars@.subrange(0, self.pos as int)).len()
    }

    fn next_cluster(&mut self) -> (r: Option<String>) {
        let n = self.chars.len();
        let start = self.pos;
        if start >= n {
            return None;
        }
        let ghost s = self.chars@;
        let ghost rest = s.skip(start as int);
        let total = self.text.as_bytes().len();
        let mut machine = ClusterMachine::new();
        let mut i = start;
        let mut byte_end = self.byte_pos;
        loop
            invariant_except_break
                i == start ==> machine.current() == ClusterMachineState::Start,
                cluster_end(rest, 0) == scan(rest, machine.current(), i - start),
            invariant
                s == self.chars@,
                s == self.text@,
                rest == s.skip(start as int),
                n == s.len(),
                start <= i <= n,
                start < n,
                total == encode_utf8(s).len(),
                self.byte_pos == encode_utf8(s.subrange(0, start as int)).len(),
                byte_end == encode_utf8(s.subrange(0, i as int)).len(),
            ensures
                start < i <= n,
                cluster_end(rest, 0) == i - start,
                byte_end == encode_utf8(s.subrange(0, i as int)).len(),
            decreases n - i,
        {
            if i >= n {
                break;
            }
            let c = self.chars[i];
            assert(c == rest[i - start]);
            proof {
                lemma_prefix_bytes(s, i as int);
            }
            let width = utf8_width(c);
            match machine.find_cluster(c) {
                Break::Continue => {
                    i = i + 1;
                    byte_end = byte_end + width;
                },
                Break::Before => {
                    break;
                },
                Break::After => {
                    i = i + 1;
                    byte_end = byte_end + width;
                    break;
                },
            }
        }
        proof {
            lemma_cluster_end_advances(rest, 0);
        }
        let head = slice_between(self.text, self.byte_pos, byte_end, Ghost(start as int), Ghost(i as int));
        self.pos = i;
        self.byte_pos = byte_end;
        let c = head.to_owned();
        assert(c@ =~= first_cluster(rest));
        assert(self.chars@.skip(i as int) =~= rest.skip(i - start));
        Some(c)
    }
}

} // verus!
