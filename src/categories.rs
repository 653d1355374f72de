//! Unicode General_Category of a scalar value, read in constant time from a paged table.
//!
//! Each category has a one-byte code. The high nibble selects the coarse class
//! (1 mark, 2 number, 3 punctuation, 4 symbol, 5 separator, 6 other, 8 letter,
//! 9 cased letter), so a coarse class is `code & 0xf0` and "is a letter" is
//! `code & 0x80 == 0x80`.
//!
//! For the sake of speed and size, a page of 256 scalar values in which every assigned
//! value has the same category reports that category for its unassigned values too.
//! For example `'\u{1249}'` is unassigned, but all other values of its page (the
//! Ethiopic syllables from U+1200) are Lo, so it reports Lo.
use vstd::prelude::*;

use crate::category_data::{CAT_PAGES, CAT_TABLE};

verus! {

/// The Unicode General_Category values that a `char` can have.
///
/// There is no surrogate predicate: surrogates are not `char`s. `Cs` still has a code,
/// since the category table covers every code point.
#[derive(Clone, Copy, Debug, PartialEq, Eq, Structural)]
pub enum GeneralCategory {
    Lu,
    Ll,
    Lt,
    Lm,
    Lo,
    Mn,
    Mc,
    Me,
    Nd,
    Nl,
    No,
    Pc,
    Pd,
    Ps,
    Pe,
    Pi,
    Pf,
    Po,
    Sm,
    Sc,
    Sk,
    So,
    Zs,
    Zl,
    Zp,
    Cc,
    Cf,
    Cs,
    Co,
    Cn,
}

impl GeneralCategory {
    /// The one-byte code of the category.
    pub open spec fn spec_code(self) -> u8 {
        match self {
            GeneralCategory::Lu => 0x90,
            GeneralCategory::Ll => 0x91,
            GeneralCategory::Lt => 0x92,
            GeneralCategory::Lm => 0x83,
            GeneralCategory::Lo => 0x84,
            GeneralCategory::Mn => 0x10,
            GeneralCategory::Mc => 0x11,
            GeneralCategory::Me => 0x12,
            GeneralCategory::Nd => 0x20,
            GeneralCategory::Nl => 0x21,
            GeneralCategory::No => 0x22,
            GeneralCategory::Pc => 0x30,
            GeneralCategory::Pd => 0x31,
            GeneralCategory::Ps => 0x32,
            GeneralCategory::Pe => 0x33,
            GeneralCategory::Pi => 0x34,
            GeneralCategory::Pf => 0x35,
            GeneralCategory::Po => 0x36,
            GeneralCategory::Sm => 0x40,
            GeneralCategory::Sc => 0x41,
            GeneralCategory::Sk => 0x42,
            GeneralCategory::So => 0x43,
            GeneralCategory::Zs => 0x50,
            GeneralCategory::Zl => 0x51,
            GeneralCategory::Zp => 0x52,
            GeneralCategory::Cc => 0x61,
            GeneralCategory::Cf => 0x62,
            GeneralCategory::Cs => 0x63,
            GeneralCategory::Co => 0x64,
            GeneralCategory::Cn => 0x60,
        }
    }

    /// The one-byte code of the category.
    #[verifier::when_used_as_spec(spec_code)]
    pub fn code(self) -> (r: u8)
        ensures
            r == self.spec_code(),
    {
        match self {
            GeneralCategory::Lu => 0x90,
            GeneralCategory::Ll => 0x91,
            GeneralCategory::Lt => 0x92,
            GeneralCategory::Lm => 0x83,
            GeneralCategory::Lo => 0x84,
            GeneralCategory::Mn => 0x10,
            GeneralCategory::Mc => 0x11,
            GeneralCategory::Me => 0x12,
            GeneralCategory::Nd => 0x20,
            GeneralCategory::Nl => 0x21,
            GeneralCategory::No => 0x22,
            GeneralCategory::Pc => 0x30,
            GeneralCategory::Pd => 0x31,
            GeneralCategory::Ps => 0x32,
            GeneralCategory::Pe => 0x33,
            GeneralCategory::Pi => 0x34,
            GeneralCategory::Pf => 0x35,
            GeneralCategory::Po => 0x36,
            GeneralCategory::Sm => 0x40,
            GeneralCategory::Sc => 0x41,
            GeneralCategory::Sk => 0x42,
            GeneralCategory::So => 0x43,
            GeneralCategory::Zs => 0x50,
            GeneralCategory::Zl => 0x51,
            GeneralCategory::Zp => 0x52,
            GeneralCategory::Cc => 0x61,
            GeneralCategory::Cf => 0x62,
            GeneralCategory::Cs => 0x63,
            GeneralCategory::Co => 0x64,
            GeneralCategory::Cn => 0x60,
        }
    }

    /// The category whose code is `b`; a byte that is no category's code reads as
    /// unassigned.
    pub open spec fn spec_from_code(b: u8) -> GeneralCategory {
        match b {
            0x90 => GeneralCategory::Lu,
            0x91 => GeneralCategory::Ll,
            0x92 => GeneralCategory::Lt,
            0x83 => GeneralCategory::Lm,
            0x84 => GeneralCategory::Lo,
            0x10 => GeneralCategory::Mn,
            0x11 => GeneralCategory::Mc,
            0x12 => GeneralCategory::Me,
            0x20 => GeneralCategory::Nd,
            0x21 => GeneralCategory::Nl,
            0x22 => GeneralCategory::No,
            0x30 => GeneralCategory::Pc,
            0x31 => GeneralCategory::Pd,
            0x32 => GeneralCategory::Ps,
            0x33 => GeneralCategory::Pe,
            0x34 => GeneralCategory::Pi,
            0x35 => GeneralCategory::Pf,
            0x36 => GeneralCategory::Po,
            0x40 => GeneralCategory::Sm,
            0x41 => GeneralCategory::Sc,
            0x42 => GeneralCategory::Sk,
            0x43 => GeneralCategory::So,
            0x50 => GeneralCategory::Zs,
            0x51 => GeneralCategory::Zl,
            0x52 => GeneralCategory::Zp,
            0x61 => GeneralCategory::Cc,
            0x62 => GeneralCategory::Cf,
            0x63 => GeneralCategory::Cs,
            0x64 => GeneralCategory::Co,
            _ => GeneralCategory::Cn,
        }
    }

    /// The category whose code is `b`; a byte that is no category's code reads as
    /// unassigned.
    #[verifier::when_used_as_spec(spec_from_code)]
    pub fn from_code(b: u8) -> (r: GeneralCategory)
        ensures
            r == GeneralCategory::spec_from_code(b),
    {
        match b {
            0x90 => GeneralCategory::Lu,
            0x91 => GeneralCategory::Ll,
            0x92 => GeneralCategory::Lt,
            0x83 => GeneralCategory::Lm,
            0x84 => GeneralCategory::Lo,
            0x10 => GeneralCategory::Mn,
            0x11 => GeneralCategory::Mc,
            0x12 => GeneralCategory::Me,
            0x20 => GeneralCategory::Nd,
            0x21 => GeneralCategory::Nl,
            0x22 => GeneralCategory::No,
            0x30 => GeneralCategory::Pc,
            0x31 => GeneralCategory::Pd,
            0x32 => GeneralCategory::Ps,
            0x33 => GeneralCategory::Pe,
            0x34 => GeneralCategory::Pi,
            0x35 => GeneralCategory::Pf,
            0x36 => GeneralCategory::Po,
            0x40 => GeneralCategory::Sm,
            0x41 => GeneralCategory::Sc,
            0x42 => GeneralCategory::Sk,
            0x43 => GeneralCategory::So,
            0x50 => GeneralCategory::Zs,
            0x51 => GeneralCategory::Zl,
            0x52 => GeneralCategory::Zp,
            0x61 => GeneralCategory::Cc,
            0x62 => GeneralCategory::Cf,
            0x63 => GeneralCategory::Cs,
            0x64 => GeneralCategory::Co,
            _ => GeneralCategory::Cn,
        }
    }

    /// Class L: Lu, Ll, Lt, Lm, Lo.
    pub open spec fn is_letter_class(self) -> bool {
        self is Lu || self is Ll || self is Lt || self is Lm || self is Lo
    }

    /// Class LC: Lu, Ll, Lt.
    pub open spec fn is_cased_letter_class(self) -> bool {
        self is Lu || self is Ll || self is Lt
    }

    /// Class M: Mn, Mc, Me.
    pub open spec fn is_mark_class(self) -> bool {
        self is Mn || self is Mc || self is Me
    }

    /// Class N: Nd, Nl, No.
    pub open spec fn is_number_class(self) -> bool {
        self is Nd || self is Nl || self is No
    }

    /// Class P: Pc, Pd, Ps, Pe, Pi, Pf, Po.
    pub open spec fn is_punctuation_class(self) -> bool {
        self is Pc || self is Pd || self is Ps || self is Pe || self is Pi || self is Pf
            || self is Po
    }

    /// Class S: Sm, Sc, Sk, So.
    pub open spec fn is_symbol_class(self) -> bool {
        self is Sm || self is Sc || self is Sk || self is So
    }

    /// Class Z: Zs, Zl, Zp.
    pub open spec fn is_separator_class(self) -> bool {
        self is Zs || self is Zl || self is Zp
    }

    /// Class C: Cc, Cf, Cs, Co, Cn.
    pub open spec fn is_other_class(self) -> bool {
        self is Cc || self is Cf || self is Cs || self is Co || self is Cn
    }
}

/// Every category has a code of its own: decoding the code gives the category back, so
/// the code that a lookup returns always names a category.
pub proof fn lemma_code_round_trip(g: GeneralCategory)
    ensures
        GeneralCategory::spec_from_code(g.spec_code()) == g,
{
}

/// Bit tests on a code byte in terms of its range.
proof fn lemma_code_bits(x: u8)
    by (bit_vector)
    ensures
        (x & 0x80 == 0x80) <==> 0x80 <= x,
        (x & 0xf0 == 0x10) <==> (0x10 <= x && x < 0x20),
        (x & 0xf0 == 0x20) <==> (0x20 <= x && x < 0x30),
        (x & 0xf0 == 0x30) <==> (0x30 <= x && x < 0x40),
        (x & 0xf0 == 0x40) <==> (0x40 <= x && x < 0x50),
        (x & 0xf0 == 0x50) <==> (0x50 <= x && x < 0x60),
        (x & 0xf0 == 0x60) <==> (0x60 <= x && x < 0x70),
        (x & 0xf0 == 0x90) <==> (0x90 <= x && x < 0xa0),
{
}

/// An entry of a category table: the category of a whole page, or the index of a page
/// in the page array.
pub enum Either {
    Code(GeneralCategory),
    Page(u16),
}

/// The category that a table entry gives at `index` within its page. An index past the
/// page array reads as unassigned.
pub open spec fn entry_category(e: Either, index: u8) -> GeneralCategory {
    match e {
        Either::Code(g) => g,
        Either::Page(p) => if (p as int) < CAT_PAGES@.len() {
            CAT_PAGES[p as int][index as int]
        } else {
            GeneralCategory::Cn
        },
    }
}

/// The General_Category of a scalar value, as the table gives it.
pub open spec fn category_of(c: char) -> GeneralCategory {
    entry_category(
        Either::spec_from_raw(
            CAT_TABLE[((c as u32) >> 16u32) as int][(((c as u32) >> 8u32) & 0xffu32) as int],
        ),
        ((c as u32) & 0xffu32) as u8,
    )
}

impl Either {
    /// The entry that a raw table value stands for: below 0x100 the code of a whole
    /// page, else 0x100 plus a page index.
    pub open spec fn spec_from_raw(raw: u16) -> Either {
        if raw < 0x100 {
            Either::Code(GeneralCategory::spec_from_code(raw as u8))
        } else {
            Either::Page((raw - 0x100) as u16)
        }
    }

    /// The entry that a raw table value stands for.
    #[verifier::when_used_as_spec(spec_from_raw)]
    pub fn from_raw(raw: u16) -> (r: Either)
        ensures
            r == Either::spec_from_raw(raw),
    {
        if raw < 0x100 {
            Either::Code(GeneralCategory::from_code(raw as u8))
        } else {
            Either::Page(raw - 0x100)
        }
    }

    /// The code of the category at `index` within the page of this entry.
    #[inline]
    pub fn get_code(&self, index: u8) -> (r: u8)
        ensures
            r == entry_category(*self, index).spec_code(),
    {
        match self {
            Either::Code(g) => g.code(),
            Either::Page(page) => {
                if (*page as usize) < CAT_PAGES.len() {
                    CAT_PAGES[*page as usize][index as usize].code()
                } else {
                    GeneralCategory::Cn.code()
                }
            },
        }
    }
}

/// Splits a scalar value into its plane, its page within the plane and its index
/// within the page.
pub proof fn lemma_page_split(x: u32)
    by (bit_vector)
    requires
        x <= 0x10ffff,
    ensures
        (x >> 16u32) < 17,
        ((x >> 8u32) & 0xffu32) < 0x100,
        (x & 0xffu32) < 0x100,
{
}

/// The category code of a scalar value: two reads of the top level and at most one page read.
#[inline]
pub fn get_code(c: char) -> (r: u8)
    ensures
        r == category_of(c).spec_code(),
{
    let x = c as u32;
    proof {
        lemma_page_split(x);
    }
    Either::from_raw(CAT_TABLE[(x >> 16) as usize][((x >> 8) & 0xff) as usize]).get_code(
        (x & 0xff) as u8,
    )
}

/// Boolean tests of the Unicode general categories of a character, one for each category
/// and one for each composite class (L, LC, M, N, P, S, Z, C).
///
/// There is no `is_surrogate`: surrogate code points are not `char`s.
pub trait CharacterCategories: Sized {
    /// The general category of the character.
    spec fn general_category(self) -> GeneralCategory;

    /// Class L, letter (Lu, Ll, Lt, Lm, Lo).
    fn is_letter(self) -> (r: bool)
        ensures
            r == self.general_category().is_letter_class(),
    ;

    /// Class LC, cased letter (Lu, Ll, Lt).
    fn is_cased_letter(self) -> (r: bool)
        ensures
            r == self.general_category().is_cased_letter_class(),
    ;

    /// Uppercase letter (Lu).
    fn is_uppercase_letter(self) -> (r: bool)
        ensures
            r == (self.general_category() is Lu),
    ;

    /// Lowercase letter (Ll).
    fn is_lowercase_letter(self) -> (r: bool)
        ensures
            r == (self.general_category() is Ll),
    ;

    /// Titlecase letter (Lt).
    fn is_titlecase_letter(self) -> (r: bool)
        ensures
            r == (self.general_category() is Lt),
    ;

    /// Modifier letter (Lm).
    fn is_modifier_letter(self) -> (r: bool)
        ensures
            r == (self.general_category() is Lm),
    ;

    /// Other letter (Lo).
    fn is_other_letter(self) -> (r: bool)
        ensures
            r == (self.general_category() is Lo),
    ;

    /// Class M, mark (Mn, Mc, Me).
    fn is_mark(self) -> (r: bool)
        ensures
            r == self.general_category().is_mark_class(),
    ;

    /// Nonspacing mark (Mn).
    fn is_nonspacing_mark(self) -> (r: bool)
        ensures
            r == (self.general_category() is Mn),
    ;

    /// Spacing mark (Mc).
    fn is_spacing_mark(self) -> (r: bool)
        ensures
            r == (self.general_category() is Mc),
    ;

    /// Enclosing mark (Me).
    fn is_enclosing_mark(self) -> (r: bool)
        ensures
            r == (self.general_category() is Me),
    ;

    /// Class N, number (Nd, Nl, No).
    fn is_number(self) -> (r: bool)
        ensures
            r == self.general_category().is_number_class(),
    ;

    /// Decimal digit (Nd).
    fn is_decimal_number(self) -> (r: bool)
        ensures
            r == (self.general_category() is Nd),
    ;

    /// Letterlike numeric character (Nl).
    fn is_letter_number(self) -> (r: bool)
        ensures
            r == (self.general_category() is Nl),
    ;

    /// Other numeric character (No).
    fn is_other_number(self) -> (r: bool)
        ensures
            r == (self.general_category() is No),
    ;

    /// Class P, punctuation (Pc, Pd, Ps, Pe, Pi, Pf, Po).
    fn is_punctuation(self) -> (r: bool)
        ensures
            r == self.general_category().is_punctuation_class(),
    ;

    /// Connector punctuation (Pc).
    fn is_connector_punctuation(self) -> (r: bool)
        ensures
            r == (self.general_category() is Pc),
    ;

    /// Dash punctuation (Pd).
    fn is_dash_punctuation(self) -> (r: bool)
        ensures
            r == (self.general_category() is Pd),
    ;

    /// Open punctuation (Ps).
    fn is_open_punctuation(self) -> (r: bool)
        ensures
            r == (self.general_category() is Ps),
    ;

    /// Close punctuation (Pe).
    fn is_close_punctuation(self) -> (r: bool)
        ensures
            r == (self.general_category() is Pe),
    ;

    /// Initial punctuation (Pi).
    fn is_initial_punctuation(self) -> (r: bool)
        ensures
            r == (self.general_category() is Pi),
    ;

    /// Final punctuation (Pf).
    fn is_final_punctuation(self) -> (r: bool)
        ensures
            r == (self.general_category() is Pf),
    ;

    /// Other punctuation (Po).
    fn is_other_punctuation(self) -> (r: bool)
        ensures
            r == (self.general_category() is Po),
    ;

    /// Class S, symbol (Sm, Sc, Sk, So).
    fn is_symbol(self) -> (r: bool)
        ensures
            r == self.general_category().is_symbol_class(),
    ;

    /// Math symbol (Sm).
    fn is_math_symbol(self) -> (r: bool)
        ensures
            r == (self.general_category() is Sm),
    ;

    /// Currency symbol (Sc).
    fn is_currency_symbol(self) -> (r: bool)
        ensures
            r == (self.general_category() is Sc),
    ;

    /// Modifier symbol (Sk).
    fn is_modifier_symbol(self) -> (r: bool)
        ensures
            r == (self.general_category() is Sk),
    ;

    /// Other symbol (So).
    fn is_other_symbol(self) -> (r: bool)
        ensures
            r == (self.general_category() is So),
    ;

    /// Class Z, separator (Zs, Zl, Zp).
    fn is_separator(self) -> (r: bool)
        ensures
            r == self.general_category().is_separator_class(),
    ;

    /// Space separator (Zs).
    fn is_space_separator(self) -> (r: bool)
        ensures
            r == (self.general_category() is Zs),
    ;

    /// Line separator (Zl).
    fn is_line_separator(self) -> (r: bool)
        ensures
            r == (self.general_category() is Zl),
    ;

    /// Paragraph separator (Zp).
    fn is_paragraph_separator(self) -> (r: bool)
        ensures
            r == (self.general_category() is Zp),
    ;

    /// Class C, other (Cc, Cf, Cs, Co, Cn).
    fn is_other(self) -> (r: bool)
        ensures
            r == self.general_category().is_other_class(),
    ;

    /// Control character (Cc).
    fn is_control(self) -> (r: bool)
        ensures
            r == (self.general_category() is Cc),
    ;

    /// Format character (Cf).
    fn is_format(self) -> (r: bool)
        ensures
            r == (self.general_category() is Cf),
    ;

    /// Private use character (Co).
    fn is_private_use(self) -> (r: bool)
        ensures
            r == (self.general_category() is Co),
    ;

    /// Unassigned (Cn).
    fn is_unassigned(self) -> (r: bool)
        ensures
            r == (self.general_category() is Cn),
    ;
}

impl CharacterCategories for char {
    open spec fn general_category(self) -> GeneralCategory {
        category_of(self)
    }

    #[inline]
    fn is_letter(self) -> (r: bool) {
        let code = get_code(self);
        proof {
            lemma_code_bits(code);
        }
        code & 0x80 == 0x80
    }

    #[inline]
    fn is_cased_letter(self) -> (r: bool) {
        let code = get_code(self);
        proof {
            lemma_code_bits(code);
        }
        code & 0xf0 == 0x90
    }

    #[inline]
    fn is_uppercase_letter(self) -> (r: bool) {
        get_code(self) == GeneralCategory::Lu.code()
    }

    #[inline]
    fn is_lowercase_letter(self) -> (r: bool) {
        get_code(self) == GeneralCategory::Ll.code()
    }

    #[inline]
    fn is_titlecase_letter(self) -> (r: bool) {
        get_code(self) == GeneralCategory::Lt.code()
    }

    #[inline]
    fn is_modifier_letter(self) -> (r: bool) {
        get_code(self) == GeneralCategory::Lm.code()
    }

    #[inline]
    fn is_other_letter(self) -> (r: bool) {
        get_code(self) == GeneralCategory::Lo.code()
    }

    #[inline]
    fn is_mark(self) -> (r: bool) {
        let code = get_code(self);
        proof {
            lemma_code_bits(code);
        }
        code & 0xf0 == 0x10
    }

    #[inline]
    fn is_nonspacing_mark(self) -> (r: bool) {
        get_code(self) == GeneralCategory::Mn.code()
    }

    #[inline]
    fn is_spacing_mark(self) -> (r: bool) {
        get_code(self) == GeneralCategory::Mc.code()
    }

    #[inline]
    fn is_enclosing_mark(self) -> (r: bool) {
        get_code(self) == GeneralCategory::Me.code()
    }

    #[inline]
    fn is_number(self) -> (r: bool) {
        let code = get_code(self);
        proof {
            lemma_code_bits(code);
        }
        code & 0xf0 == 0x20
    }

    #[inline]
    fn is_decimal_number(self) -> (r: bool) {
        get_code(self) == GeneralCategory::Nd.code()
    }

    #[inline]
    fn is_letter_number(self) -> (r: bool) {
        get_code(self) == GeneralCategory::Nl.code()
    }

    #[inline]
    fn is_other_number(self) -> (r: bool) {
        get_code(self) == GeneralCategory::No.code()
    }

    #[inline]
    fn is_punctuation(self) -> (r: bool) {
        let code = get_code(self);
        proof {
            lemma_code_bits(code);
        }
        code & 0xf0 == 0x30
    }

    #[inline]
    fn is_connector_punctuation(self) -> (r: bool) {
        get_code(self) == GeneralCategory::Pc.code()
    }

    #[inline]
    fn is_dash_punctuation(self) -> (r: bool) {
        get_code(self) == GeneralCategory::Pd.code()
    }

    #[inline]
    fn is_open_punctuation(self) -> (r: bool) {
        get_code(self) == GeneralCategory::Ps.code()
    }

    #[inline]
    fn is_close_punctuation(self) -> (r: bool) {
        get_code(self) == GeneralCategory::Pe.code()
    }

    #[inline]
    fn is_initial_punctuation(self) -> (r: bool) {
        get_code(self) == GeneralCategory::Pi.code()
    }

    #[inline]
    fn is_final_punctuation(self) -> (r: bool) {
        get_code(self) == GeneralCategory::Pf.code()
    }

    #[inline]
    fn is_other_punctuation(self) -> (r: bool) {
        get_code(self) == GeneralCategory::Po.code()
    }

    #[inline]
    fn is_symbol(self) -> (r: bool) {
        let code = get_code(self);
        proof {
            lemma_code_bits(code);
        }
        code & 0xf0 == 0x40
    }

    #[inline]
    fn is_math_symbol(self) -> (r: bool) {
        get_code(self) == GeneralCategory::Sm.code()
    }

    #[inline]
    fn is_currency_symbol(self) -> (r: bool) {
        get_code(self) == GeneralCategory::Sc.code()
    }

    #[inline]
    fn is_modifier_symbol(self) -> (r: bool) {
        get_code(self) == GeneralCategory::Sk.code()
    }

    #[inline]
    fn is_other_symbol(self) -> (r: bool) {
        get_code(self) == GeneralCategory::So.code()
    }

    #[inline]
    fn is_separator(self) -> (r: bool) {
        let code = get_code(self);
        proof {
            lemma_code_bits(code);
        }
        code & 0xf0 == 0x50
    }

    #[inline]
    fn is_space_separator(self) -> (r: bool) {
        get_code(self) == GeneralCategory::Zs.code()
    }

    #[inline]
    fn is_line_separator(self) -> (r: bool) {
        get_code(self) == GeneralCategory::Zl.code()
    }

    #[inline]
    fn is_paragraph_separator(self) -> (r: bool) {
        get_code(self) == GeneralCategory::Zp.code()
    }

    #[inline]
    fn is_other(self) -> (r: bool) {
        let code = get_code(self);
        proof {
            lemma_code_bits(code);
        }
        code & 0xf0 == 0x60
    }

    #[inline]
    fn is_control(self) -> (r: bool) {
        get_code(self) == GeneralCategory::Cc.code()
    }

    #[inline]
    fn is_format(self) -> (r: bool) {
        get_code(self) == GeneralCategory::Cf.code()
    }

    #[inline]
    fn is_private_use(self) -> (r: bool) {
        get_code(self) == GeneralCategory::Co.code()
    }

    #[inline]
    fn is_unassigned(self) -> (r: bool) {
        get_code(self) == GeneralCategory::Cn.code()
    }
}

} // verus!
