//! Grapheme_Cluster_Break property of every scalar value (Unicode 14.0.0), with
//! Extended_Pictographic laid over it, as a paged table.

use vstd::prelude::*;

use crate::grapheme_clusters::{
    CONTROL, EXTEND, EXTENDED_GRAPHEME, HANGUL_L, HANGUL_LV, HANGUL_LVT, HANGUL_T, HANGUL_V, OTHER,
    PREPEND, REGIONAL_INDICATOR, SPACING_MARK, ZWJ,
};

verus! {

/// A top-level entry for a page whose values all have property OTHER.
pub const ALL_OTHER: u16 = 0x00;

/// A top-level entry for a page whose values all have property CONTROL.
pub const ALL_CONTROL: u16 = 0x04;

/// A top-level entry for a page whose values all have property EXTENDED_GRAPHEME.
pub const ALL_EXTENDED_GRAPHEME: u16 = 0x06;

/// The top level, one row per plane of 0x10000 scalar values and one entry per page
/// of 256: below 0x100 the code of the whole page, else 0x100 plus the index of the
/// page in `GP_PAGES`.
#[verifier::opaque]
pub const GP_TABLE: [[u16; 256]; 17] = [
    GP_PLANE_0,
    GP_PLANE_1,
    GP_PLANE_2,
    GP_PLANE_3,
    GP_PLANE_4,
    GP_PLANE_5,
    GP_PLANE_6,
    GP_PLANE_7,
    GP_PLANE_8,
    GP_PLANE_9,
    GP_PLANE_10,
    GP_PLANE_11,
    GP_PLANE_12,
    GP_PLANE_13,
    GP_PLANE_14,
    GP_PLANE_15,
    GP_PLANE_16,
];

#[verifier::opaque]
pub const GP_PLANE_0: [u16; 256] = [
    0x100, ALL_OTHER, ALL_OTHER, 0x101, 0x102, 0x103, 0x104, 0x105,
    0x106, 0x107, 0x108, 0x109, 0x10a, 0x10b, 0x10c, 0x10d,
    0x10e, 0x10f, ALL_OTHER, 0x110, ALL_OTHER, ALL_OTHER, ALL_OTHER, 0x111,
    0x112, 0x113, 0x114, 0x115, 0x116, 0x117, ALL_OTHER, ALL_OTHER,
    0x118, 0x119, ALL_OTHER, 0x11a, 0x11b, 0x11c, 0x11d, 0x11e,
    ALL_OTHER, 0x11f, ALL_OTHER, 0x120, 0x121, 0x122, ALL_OTHER, ALL_OTHER,
    0x123, ALL_OTHER, 0x124, ALL_OTHER, ALL_OTHER, ALL_OTHER, ALL_OTHER, ALL_OTHER,
    ALL_OTHER, ALL_OTHER, ALL_OTHER, ALL_OTHER, ALL_OTHER, ALL_OTHER, ALL_OTHER, ALL_OTHER,
    ALL_OTHER, ALL_OTHER, ALL_OTHER, ALL_OTHER, ALL_OTHER, ALL_OTHER, ALL_OTHER, ALL_OTHER,
    ALL_OTHER, ALL_OTHER, ALL_OTHER, ALL_OTHER, ALL_OTHER, ALL_OTHER, ALL_OTHER, ALL_OTHER,
    ALL_OTHER, ALL_OTHER, ALL_OTHER, ALL_OTHER, ALL_OTHER, ALL_OTHER, ALL_OTHER, ALL_OTHER,
    ALL_OTHER, ALL_OTHER, ALL_OTHER, ALL_OTHER, ALL_OTHER, ALL_OTHER, ALL_OTHER, ALL_OTHER,
    ALL_OTHER, ALL_OTHER, ALL_OTHER, ALL_OTHER, ALL_OTHER, ALL_OTHER, ALL_OTHER, ALL_OTHER,
    ALL_OTHER, ALL_OTHER, ALL_OTHER, ALL_OTHER, ALL_OTHER, ALL_OTHER, ALL_OTHER, ALL_OTHER,
    ALL_OTHER, ALL_OTHER, ALL_OTHER, ALL_OTHER, ALL_OTHER, ALL_OTHER, ALL_OTHER, ALL_OTHER,
    ALL_OTHER, ALL_OTHER, ALL_OTHER, ALL_OTHER, ALL_OTHER, ALL_OTHER, ALL_OTHER, ALL_OTHER,
    ALL_OTHER, ALL_OTHER, ALL_OTHER, ALL_OTHER, ALL_OTHER, ALL_OTHER, ALL_OTHER, ALL_OTHER,
    ALL_OTHER, ALL_OTHER, ALL_OTHER, ALL_OTHER, ALL_OTHER, ALL_OTHER, ALL_OTHER, ALL_OTHER,
    ALL_OTHER, ALL_OTHER, ALL_OTHER, ALL_OTHER, ALL_OTHER, ALL_OTHER, ALL_OTHER, ALL_OTHER,
    ALL_OTHER, ALL_OTHER, ALL_OTHER, ALL_OTHER, ALL_OTHER, ALL_OTHER, ALL_OTHER, ALL_OTHER,
    ALL_OTHER, ALL_OTHER, ALL_OTHER, ALL_OTHER, ALL_OTHER, ALL_OTHER, 0x125, ALL_OTHER,
    0x126, 0x127, 0x128, 0x129, 0x12a, 0x12b, 0x12c, 0x12d,
    0x12e, 0x12f, 0x130, 0x12a, 0x12b, 0x12c, 0x12d, 0x12e,
    0x12f, 0x130, 0x12a, 0x12b, 0x12c, 0x12d, 0x12e, 0x12f,
    0x130, 0x12a, 0x12b, 0x12c, 0x12d, 0x12e, 0x12f, 0x130,
    0x12a, 0x12b, 0x12c, 0x12d, 0x12e, 0x12f, 0x130, 0x12a,
    0x12b, 0x12c, 0x12d, 0x12e, 0x12f, 0x130, 0x12a, 0x131,
    ALL_OTHER, ALL_OTHER, ALL_OTHER, ALL_OTHER, ALL_OTHER, ALL_OTHER, ALL_OTHER, ALL_OTHER,
    ALL_OTHER, ALL_OTHER, ALL_OTHER, ALL_OTHER, ALL_OTHER, ALL_OTHER, ALL_OTHER, ALL_OTHER,
    ALL_OTHER, ALL_OTHER, ALL_OTHER, ALL_OTHER, ALL_OTHER, ALL_OTHER, ALL_OTHER, ALL_OTHER,
    ALL_OTHER, ALL_OTHER, ALL_OTHER, ALL_OTHER, ALL_OTHER, ALL_OTHER, ALL_OTHER, ALL_OTHER,
    ALL_OTHER, ALL_OTHER, ALL_OTHER, 0x132, ALL_OTHER, ALL_OTHER, 0x133, 0x134,
];

#[verifier::opaque]
pub const GP_PLANE_1: [u16; 256] = [
    ALL_OTHER, 0x135, 0x136, 0x137, ALL_OTHER, ALL_OTHER, ALL_OTHER, ALL_OTHER,
    ALL_OTHER, ALL_OTHER, 0x138, ALL_OTHER, ALL_OTHER, 0x139, 0x13a, 0x13b,
    0x13c, 0x13d, 0x13e, 0x13f, 0x140, 0x141, 0x142, 0x143,
    0x144, 0x145, 0x146, ALL_OTHER, 0x147, 0x148, 0x149, ALL_OTHER,
    ALL_OTHER, ALL_OTHER, ALL_OTHER, ALL_OTHER, ALL_OTHER, ALL_OTHER, ALL_OTHER, ALL_OTHER,
    ALL_OTHER, ALL_OTHER, ALL_OTHER, ALL_OTHER, ALL_OTHER, ALL_OTHER, ALL_OTHER, ALL_OTHER,
    ALL_OTHER, ALL_OTHER, ALL_OTHER, ALL_OTHER, 0x14a, ALL_OTHER, ALL_OTHER, ALL_OTHER,
    ALL_OTHER, ALL_OTHER, ALL_OTHER, ALL_OTHER, ALL_OTHER, ALL_OTHER, ALL_OTHER, ALL_OTHER,
    ALL_OTHER, ALL_OTHER, ALL_OTHER, ALL_OTHER, ALL_OTHER, ALL_OTHER, ALL_OTHER, ALL_OTHER,
    ALL_OTHER, ALL_OTHER, ALL_OTHER, ALL_OTHER, ALL_OTHER, ALL_OTHER, ALL_OTHER, ALL_OTHER,
    ALL_OTHER, ALL_OTHER, ALL_OTHER, ALL_OTHER, ALL_OTHER, ALL_OTHER, ALL_OTHER, ALL_OTHER,
    ALL_OTHER, ALL_OTHER, ALL_OTHER, ALL_OTHER, ALL_OTHER, ALL_OTHER, ALL_OTHER, ALL_OTHER,
    ALL_OTHER, ALL_OTHER, ALL_OTHER, ALL_OTHER, ALL_OTHER, ALL_OTHER, ALL_OTHER, ALL_OTHER,
    ALL_OTHER, ALL_OTHER, 0x14b, 0x14c, ALL_OTHER, ALL_OTHER, ALL_OTHER, 0x14d,
    ALL_OTHER, ALL_OTHER, ALL_OTHER, ALL_OTHER, ALL_OTHER, ALL_OTHER, ALL_OTHER, ALL_OTHER,
    ALL_OTHER, ALL_OTHER, ALL_OTHER, ALL_OTHER, ALL_OTHER, ALL_OTHER, ALL_OTHER, ALL_OTHER,
    ALL_OTHER, ALL_OTHER, ALL_OTHER, ALL_OTHER, ALL_OTHER, ALL_OTHER, ALL_OTHER, ALL_OTHER,
    ALL_OTHER, ALL_OTHER, ALL_OTHER, ALL_OTHER, ALL_OTHER, ALL_OTHER, ALL_OTHER, ALL_OTHER,
    ALL_OTHER, ALL_OTHER, ALL_OTHER, ALL_OTHER, ALL_OTHER, ALL_OTHER, ALL_OTHER, ALL_OTHER,
    ALL_OTHER, ALL_OTHER, ALL_OTHER, ALL_OTHER, ALL_OTHER, ALL_OTHER, ALL_OTHER, ALL_OTHER,
    ALL_OTHER, ALL_OTHER, ALL_OTHER, ALL_OTHER, ALL_OTHER, ALL_OTHER, ALL_OTHER, ALL_OTHER,
    ALL_OTHER, ALL_OTHER, ALL_OTHER, ALL_OTHER, ALL_OTHER, ALL_OTHER, ALL_OTHER, ALL_OTHER,
    ALL_OTHER, ALL_OTHER, ALL_OTHER, ALL_OTHER, ALL_OTHER, ALL_OTHER, ALL_OTHER, ALL_OTHER,
    ALL_OTHER, ALL_OTHER, ALL_OTHER, ALL_OTHER, 0x14e, ALL_OTHER, ALL_OTHER, ALL_OTHER,
    ALL_OTHER, ALL_OTHER, ALL_OTHER, ALL_OTHER, ALL_OTHER, ALL_OTHER, ALL_OTHER, ALL_OTHER,
    ALL_OTHER, ALL_OTHER, ALL_OTHER, ALL_OTHER, ALL_OTHER, ALL_OTHER, ALL_OTHER, 0x14f,
    ALL_OTHER, 0x150, 0x151, ALL_OTHER, ALL_OTHER, ALL_OTHER, ALL_OTHER, ALL_OTHER,
    ALL_OTHER, ALL_OTHER, 0x152, ALL_OTHER, ALL_OTHER, ALL_OTHER, ALL_OTHER, ALL_OTHER,
    0x153, 0x14c, 0x154, ALL_OTHER, ALL_OTHER, ALL_OTHER, ALL_OTHER, ALL_OTHER,
    0x155, 0x156, ALL_OTHER, ALL_OTHER, ALL_OTHER, ALL_OTHER, ALL_OTHER, ALL_OTHER,
    ALL_EXTENDED_GRAPHEME, 0x157, 0x158, 0x159, ALL_EXTENDED_GRAPHEME, 0x15a, 0x15b, 0x15c,
    0x15d, 0x15e, ALL_EXTENDED_GRAPHEME, ALL_OTHER, ALL_EXTENDED_GRAPHEME, ALL_EXTENDED_GRAPHEME, ALL_EXTENDED_GRAPHEME, 0x15f,
];

#[verifier::opaque]
pub const GP_PLANE_2: [u16; 256] = [
    ALL_OTHER, ALL_OTHER, ALL_OTHER, ALL_OTHER, ALL_OTHER, ALL_OTHER, ALL_OTHER, ALL_OTHER,
    ALL_OTHER, ALL_OTHER, ALL_OTHER, ALL_OTHER, ALL_OTHER, ALL_OTHER, ALL_OTHER, ALL_OTHER,
    ALL_OTHER, ALL_OTHER, ALL_OTHER, ALL_OTHER, ALL_OTHER, ALL_OTHER, ALL_OTHER, ALL_OTHER,
    ALL_OTHER, ALL_OTHER, ALL_OTHER, ALL_OTHER, ALL_OTHER, ALL_OTHER, ALL_OTHER, ALL_OTHER,
    ALL_OTHER, ALL_OTHER, ALL_OTHER, ALL_OTHER, ALL_OTHER, ALL_OTHER, ALL_OTHER, ALL_OTHER,
    ALL_OTHER, ALL_OTHER, ALL_OTHER, ALL_OTHER, ALL_OTHER, ALL_OTHER, ALL_OTHER, ALL_OTHER,
    ALL_OTHER, ALL_OTHER, ALL_OTHER, ALL_OTHER, ALL_OTHER, ALL_OTHER, ALL_OTHER, ALL_OTHER,
    ALL_OTHER, ALL_OTHER, ALL_OTHER, ALL_OTHER, ALL_OTHER, ALL_OTHER, ALL_OTHER, ALL_OTHER,
    ALL_OTHER, ALL_OTHER, ALL_OTHER, ALL_OTHER, ALL_OTHER, ALL_OTHER, ALL_OTHER, ALL_OTHER,
    ALL_OTHER, ALL_OTHER, ALL_OTHER, ALL_OTHER, ALL_OTHER, ALL_OTHER, ALL_OTHER, ALL_OTHER,
    ALL_OTHER, ALL_OTHER, ALL_OTHER, ALL_OTHER, ALL_OTHER, ALL_OTHER, ALL_OTHER, ALL_OTHER,
    ALL_OTHER, ALL_OTHER, ALL_OTHER, ALL_OTHER, ALL_OTHER, ALL_OTHER, ALL_OTHER, ALL_OTHER,
    ALL_OTHER, ALL_OTHER, ALL_OTHER, ALL_OTHER, ALL_OTHER, ALL_OTHER, ALL_OTHER, ALL_OTHER,
    ALL_OTHER, ALL_OTHER, ALL_OTHER, ALL_OTHER, ALL_OTHER, ALL_OTHER, ALL_OTHER, ALL_OTHER,
    ALL_OTHER, ALL_OTHER, ALL_OTHER, ALL_OTHER, ALL_OTHER, ALL_OTHER, ALL_OTHER, ALL_OTHER,
    ALL_OTHER, ALL_OTHER, ALL_OTHER, ALL_OTHER, ALL_OTHER, ALL_OTHER, ALL_OTHER, ALL_OTHER,
    ALL_OTHER, ALL_OTHER, ALL_OTHER, ALL_OTHER, ALL_OTHER, ALL_OTHER, ALL_OTHER, ALL_OTHER,
    ALL_OTHER, ALL_OTHER, ALL_OTHER, ALL_OTHER, ALL_OTHER, ALL_OTHER, ALL_OTHER, ALL_OTHER,
    ALL_OTHER, ALL_OTHER, ALL_OTHER, ALL_OTHER, ALL_OTHER, ALL_OTHER, ALL_OTHER, ALL_OTHER,
    ALL_OTHER, ALL_OTHER, ALL_OTHER, ALL_OTHER, ALL_OTHER, ALL_OTHER, ALL_OTHER, ALL_OTHER,
    ALL_OTHER, ALL_OTHER, ALL_OTHER, ALL_OTHER, ALL_OTHER, ALL_OTHER, ALL_OTHER, ALL_OTHER,
    ALL_OTHER, ALL_OTHER, ALL_OTHER, ALL_OTHER, ALL_OTHER, ALL_OTHER, ALL_OTHER, ALL_OTHER,
    ALL_OTHER, ALL_OTHER, ALL_OTHER, ALL_OTHER, ALL_OTHER, ALL_OTHER, ALL_OTHER, ALL_OTHER,
    ALL_OTHER, ALL_OTHER, ALL_OTHER, ALL_OTHER, ALL_OTHER, ALL_OTHER, ALL_OTHER, ALL_OTHER,
    ALL_OTHER, ALL_OTHER, ALL_OTHER, ALL_OTHER, ALL_OTHER, ALL_OTHER, ALL_OTHER, ALL_OTHER,
    ALL_OTHER, ALL_OTHER, ALL_OTHER, ALL_OTHER, ALL_OTHER, ALL_OTHER, ALL_OTHER, ALL_OTHER,
    ALL_OTHER, ALL_OTHER, ALL_OTHER, ALL_OTHER, ALL_OTHER, ALL_OTHER, ALL_OTHER, ALL_OTHER,
    ALL_OTHER, ALL_OTHER, ALL_OTHER, ALL_OTHER, ALL_OTHER, ALL_OTHER, ALL_OTHER, ALL_OTHER,
    ALL_OTHER, ALL_OTHER, ALL_OTHER, ALL_OTHER, ALL_OTHER, ALL_OTHER, ALL_OTHER, ALL_OTHER,
    ALL_OTHER, ALL_OTHER, ALL_OTHER, ALL_OTHER, ALL_OTHER, ALL_OTHER, ALL_OTHER, ALL_OTHER,
    ALL_OTHER, ALL_OTHER, ALL_OTHER, ALL_OTHER, ALL_OTHER, ALL_OTHER, ALL_OTHER, ALL_OTHER,
    ALL_OTHER, ALL_OTHER, ALL_OTHER, ALL_OTHER, ALL_OTHER, ALL_OTHER, ALL_OTHER, ALL_OTHER,
];

#[verifier::opaque]
pub const GP_PLANE_3: [u16; 256] = [
    ALL_OTHER, ALL_OTHER, ALL_OTHER, ALL_OTHER, ALL_OTHER, ALL_OTHER, ALL_OTHER, ALL_OTHER,
    ALL_OTHER, ALL_OTHER, ALL_OTHER, ALL_OTHER, ALL_OTHER, ALL_OTHER, ALL_OTHER, ALL_OTHER,
    ALL_OTHER, ALL_OTHER, ALL_OTHER, ALL_OTHER, ALL_OTHER, ALL_OTHER, ALL_OTHER, ALL_OTHER,
    ALL_OTHER, ALL_OTHER, ALL_OTHER, ALL_OTHER, ALL_OTHER, ALL_OTHER, ALL_OTHER, ALL_OTHER,
    ALL_OTHER, ALL_OTHER, ALL_OTHER, ALL_OTHER, ALL_OTHER, ALL_OTHER, ALL_OTHER, ALL_OTHER,
    ALL_OTHER, ALL_OTHER, ALL_OTHER, ALL_OTHER, ALL_OTHER, ALL_OTHER, ALL_OTHER, ALL_OTHER,
    ALL_OTHER, ALL_OTHER, ALL_OTHER, ALL_OTHER, ALL_OTHER, ALL_OTHER, ALL_OTHER, ALL_OTHER,
    ALL_OTHER, ALL_OTHER, ALL_OTHER, ALL_OTHER, ALL_OTHER, ALL_OTHER, ALL_OTHER, ALL_OTHER,
    ALL_OTHER, ALL_OTHER, ALL_OTHER, ALL_OTHER, ALL_OTHER, ALL_OTHER, ALL_OTHER, ALL_OTHER,
    ALL_OTHER, ALL_OTHER, ALL_OTHER, ALL_OTHER, ALL_OTHER, ALL_OTHER, ALL_OTHER, ALL_OTHER,
    ALL_OTHER, ALL_OTHER, ALL_OTHER, ALL_OTHER, ALL_OTHER, ALL_OTHER, ALL_OTHER, ALL_OTHER,
    ALL_OTHER, ALL_OTHER, ALL_OTHER, ALL_OTHER, ALL_OTHER, ALL_OTHER, ALL_OTHER, ALL_OTHER,
    ALL_OTHER, ALL_OTHER, ALL_OTHER, ALL_OTHER, ALL_OTHER, ALL_OTHER, ALL_OTHER, ALL_OTHER,
    ALL_OTHER, ALL_OTHER, ALL_OTHER, ALL_OTHER, ALL_OTHER, ALL_OTHER, ALL_OTHER, ALL_OTHER,
    ALL_OTHER, ALL_OTHER, ALL_OTHER, ALL_OTHER, ALL_OTHER, ALL_OTHER, ALL_OTHER, ALL_OTHER,
    ALL_OTHER, ALL_OTHER, ALL_OTHER, ALL_OTHER, ALL_OTHER, ALL_OTHER, ALL_OTHER, ALL_OTHER,
    ALL_OTHER, ALL_OTHER, ALL_OTHER, ALL_OTHER, ALL_OTHER, ALL_OTHER, ALL_OTHER, ALL_OTHER,
    ALL_OTHER, ALL_OTHER, ALL_OTHER, ALL_OTHER, ALL_OTHER, ALL_OTHER, ALL_OTHER, ALL_OTHER,
    ALL_OTHER, ALL_OTHER, ALL_OTHER, ALL_OTHER, ALL_OTHER, ALL_OTHER, ALL_OTHER, ALL_OTHER,
    ALL_OTHER, ALL_OTHER, ALL_OTHER, ALL_OTHER, ALL_OTHER, ALL_OTHER, ALL_OTHER, ALL_OTHER,
    ALL_OTHER, ALL_OTHER, ALL_OTHER, ALL_OTHER, ALL_OTHER, ALL_OTHER, ALL_OTHER, ALL_OTHER,
    ALL_OTHER, ALL_OTHER, ALL_OTHER, ALL_OTHER, ALL_OTHER, ALL_OTHER, ALL_OTHER, ALL_OTHER,
    ALL_OTHER, ALL_OTHER, ALL_OTHER, ALL_OTHER, ALL_OTHER, ALL_OTHER, ALL_OTHER, ALL_OTHER,
    ALL_OTHER, ALL_OTHER, ALL_OTHER, ALL_OTHER, ALL_OTHER, ALL_OTHER, ALL_OTHER, ALL_OTHER,
    ALL_OTHER, ALL_OTHER, ALL_OTHER, ALL_OTHER, ALL_OTHER, ALL_OTHER, ALL_OTHER, ALL_OTHER,
    ALL_OTHER, ALL_OTHER, ALL_OTHER, ALL_OTHER, ALL_OTHER, ALL_OTHER, ALL_OTHER, ALL_OTHER,
    ALL_OTHER, ALL_OTHER, ALL_OTHER, ALL_OTHER, ALL_OTHER, ALL_OTHER, ALL_OTHER, ALL_OTHER,
    ALL_OTHER, ALL_OTHER, ALL_OTHER, ALL_OTHER, ALL_OTHER, ALL_OTHER, ALL_OTHER, ALL_OTHER,
    ALL_OTHER, ALL_OTHER, ALL_OTHER, ALL_OTHER, ALL_OTHER, ALL_OTHER, ALL_OTHER, ALL_OTHER,
    ALL_OTHER, ALL_OTHER, ALL_OTHER, ALL_OTHER, ALL_OTHER, ALL_OTHER, ALL_OTHER, ALL_OTHER,
    ALL_OTHER, ALL_OTHER, ALL_OTHER, ALL_OTHER, ALL_OTHER, ALL_OTHER, ALL_OTHER, ALL_OTHER,
    ALL_OTHER, ALL_OTHER, ALL_OTHER, ALL_OTHER, ALL_OTHER, ALL_OTHER, ALL_OTHER, ALL_OTHER,
];

#[verifier::opaque]
pub const GP_PLANE_4: [u16; 256] = [
    ALL_OTHER, ALL_OTHER, ALL_OTHER, ALL_OTHER, ALL_OTHER, ALL_OTHER, ALL_OTHER, ALL_OTHER,
    ALL_OTHER, ALL_OTHER, ALL_OTHER, ALL_OTHER, ALL_OTHER, ALL_OTHER, ALL_OTHER, ALL_OTHER,
    ALL_OTHER, ALL_OTHER, ALL_OTHER, ALL_OTHER, ALL_OTHER, ALL_OTHER, ALL_OTHER, ALL_OTHER,
    ALL_OTHER, ALL_OTHER, ALL_OTHER, ALL_OTHER, ALL_OTHER, ALL_OTHER, ALL_OTHER, ALL_OTHER,
    ALL_OTHER, ALL_OTHER, ALL_OTHER, ALL_OTHER, ALL_OTHER, ALL_OTHER, ALL_OTHER, ALL_OTHER,
    ALL_OTHER, ALL_OTHER, ALL_OTHER, ALL_OTHER, ALL_OTHER, ALL_OTHER, ALL_OTHER, ALL_OTHER,
    ALL_OTHER, ALL_OTHER, ALL_OTHER, ALL_OTHER, ALL_OTHER, ALL_OTHER, ALL_OTHER, ALL_OTHER,
    ALL_OTHER, ALL_OTHER, ALL_OTHER, ALL_OTHER, ALL_OTHER, ALL_OTHER, ALL_OTHER, ALL_OTHER,
    ALL_OTHER, ALL_OTHER, ALL_OTHER, ALL_OTHER, ALL_OTHER, ALL_OTHER, ALL_OTHER, ALL_OTHER,
    ALL_OTHER, ALL_OTHER, ALL_OTHER, ALL_OTHER, ALL_OTHER, ALL_OTHER, ALL_OTHER, ALL_OTHER,
    ALL_OTHER, ALL_OTHER, ALL_OTHER, ALL_OTHER, ALL_OTHER, ALL_OTHER, ALL_OTHER, ALL_OTHER,
    ALL_OTHER, ALL_OTHER, ALL_OTHER, ALL_OTHER, ALL_OTHER, ALL_OTHER, ALL_OTHER, ALL_OTHER,
    ALL_OTHER, ALL_OTHER, ALL_OTHER, ALL_OTHER, ALL_OTHER, ALL_OTHER, ALL_OTHER, ALL_OTHER,
    ALL_OTHER, ALL_OTHER, ALL_OTHER, ALL_OTHER, ALL_OTHER, ALL_OTHER, ALL_OTHER, ALL_OTHER,
    ALL_OTHER, ALL_OTHER, ALL_OTHER, ALL_OTHER, ALL_OTHER, ALL_OTHER, ALL_OTHER, ALL_OTHER,
    ALL_OTHER, ALL_OTHER, ALL_OTHER, ALL_OTHER, ALL_OTHER, ALL_OTHER, ALL_OTHER, ALL_OTHER,
    ALL_OTHER, ALL_OTHER, ALL_OTHER, ALL_OTHER, ALL_OTHER, ALL_OTHER, ALL_OTHER, ALL_OTHER,
    ALL_OTHER, ALL_OTHER, ALL_OTHER, ALL_OTHER, ALL_OTHER, ALL_OTHER, ALL_OTHER, ALL_OTHER,
    ALL_OTHER, ALL_OTHER, ALL_OTHER, ALL_OTHER, ALL_OTHER, ALL_OTHER, ALL_OTHER, ALL_OTHER,
    ALL_OTHER, ALL_OTHER, ALL_OTHER, ALL_OTHER, ALL_OTHER, ALL_OTHER, ALL_OTHER, ALL_OTHER,
    ALL_OTHER, ALL_OTHER, ALL_OTHER, ALL_OTHER, ALL_OTHER, ALL_OTHER, ALL_OTHER, ALL_OTHER,
    ALL_OTHER, ALL_OTHER, ALL_OTHER, ALL_OTHER, ALL_OTHER, ALL_OTHER, ALL_OTHER, ALL_OTHER,
    ALL_OTHER, ALL_OTHER, ALL_OTHER, ALL_OTHER, ALL_OTHER, ALL_OTHER, ALL_OTHER, ALL_OTHER,
    ALL_OTHER, ALL_OTHER, ALL_OTHER, ALL_OTHER, ALL_OTHER, ALL_OTHER, ALL_OTHER, ALL_OTHER,
    ALL_OTHER, ALL_OTHER, ALL_OTHER, ALL_OTHER, ALL_OTHER, ALL_OTHER, ALL_OTHER, ALL_OTHER,
    ALL_OTHER, ALL_OTHER, ALL_OTHER, ALL_OTHER, ALL_OTHER, ALL_OTHER, ALL_OTHER, ALL_OTHER,
    ALL_OTHER, ALL_OTHER, ALL_OTHER, ALL_OTHER, ALL_OTHER, ALL_OTHER, ALL_OTHER, ALL_OTHER,
    ALL_OTHER, ALL_OTHER, ALL_OTHER, ALL_OTHER, ALL_OTHER, ALL_OTHER, ALL_OTHER, ALL_OTHER,
    ALL_OTHER, ALL_OTHER, ALL_OTHER, ALL_OTHER, ALL_OTHER, ALL_OTHER, ALL_OTHER, ALL_OTHER,
    ALL_OTHER, ALL_OTHER, ALL_OTHER, ALL_OTHER, ALL_OTHER, ALL_OTHER, ALL_OTHER, ALL_OTHER,
    ALL_OTHER, ALL_OTHER, ALL_OTHER, ALL_OTHER, ALL_OTHER, ALL_OTHER, ALL_OTHER, ALL_OTHER,
    ALL_OTHER, ALL_OTHER, ALL_OTHER, ALL_OTHER, ALL_OTHER, ALL_OTHER, ALL_OTHER, ALL_OTHER,
];

#[verifier::opaque]
pub const GP_PLANE_5: [u16; 256] = [
    ALL_OTHER, ALL_OTHER, ALL_OTHER, ALL_OTHER, ALL_OTHER, ALL_OTHER, ALL_OTHER, ALL_OTHER,
    ALL_OTHER, ALL_OTHER, ALL_OTHER, ALL_OTHER, ALL_OTHER, ALL_OTHER, ALL_OTHER, ALL_OTHER,
    ALL_OTHER, ALL_OTHER, ALL_OTHER, ALL_OTHER, ALL_OTHER, ALL_OTHER, ALL_OTHER, ALL_OTHER,
    ALL_OTHER, ALL_OTHER, ALL_OTHER, ALL_OTHER, ALL_OTHER, ALL_OTHER, ALL_OTHER, ALL_OTHER,
    ALL_OTHER, ALL_OTHER, ALL_OTHER, ALL_OTHER, ALL_OTHER, ALL_OTHER, ALL_OTHER, ALL_OTHER,
    ALL_OTHER, ALL_OTHER, ALL_OTHER, ALL_OTHER, ALL_OTHER, ALL_OTHER, ALL_OTHER, ALL_OTHER,
    ALL_OTHER, ALL_OTHER, ALL_OTHER, ALL_OTHER, ALL_OTHER, ALL_OTHER, ALL_OTHER, ALL_OTHER,
    ALL_OTHER, ALL_OTHER, ALL_OTHER, ALL_OTHER, ALL_OTHER, ALL_OTHER, ALL_OTHER, ALL_OTHER,
    ALL_OTHER, ALL_OTHER, ALL_OTHER, ALL_OTHER, ALL_OTHER, ALL_OTHER, ALL_OTHER, ALL_OTHER,
    ALL_OTHER, ALL_OTHER, ALL_OTHER, ALL_OTHER, ALL_OTHER, ALL_OTHER, ALL_OTHER, ALL_OTHER,
    ALL_OTHER, ALL_OTHER, ALL_OTHER, ALL_OTHER, ALL_OTHER, ALL_OTHER, ALL_OTHER, ALL_OTHER,
    ALL_OTHER, ALL_OTHER, ALL_OTHER, ALL_OTHER, ALL_OTHER, ALL_OTHER, ALL_OTHER, ALL_OTHER,
    ALL_OTHER, ALL_OTHER, ALL_OTHER, ALL_OTHER, ALL_OTHER, ALL_OTHER, ALL_OTHER, ALL_OTHER,
    ALL_OTHER, ALL_OTHER, ALL_OTHER, ALL_OTHER, ALL_OTHER, ALL_OTHER, ALL_OTHER, ALL_OTHER,
    ALL_OTHER, ALL_OTHER, ALL_OTHER, ALL_OTHER, ALL_OTHER, ALL_OTHER, ALL_OTHER, ALL_OTHER,
    ALL_OTHER, ALL_OTHER, ALL_OTHER, ALL_OTHER, ALL_OTHER, ALL_OTHER, ALL_OTHER, ALL_OTHER,
    ALL_OTHER, ALL_OTHER, ALL_OTHER, ALL_OTHER, ALL_OTHER, ALL_OTHER, ALL_OTHER, ALL_OTHER,
    ALL_OTHER, ALL_OTHER, ALL_OTHER, ALL_OTHER, ALL_OTHER, ALL_OTHER, ALL_OTHER, ALL_OTHER,
    ALL_OTHER, ALL_OTHER, ALL_OTHER, ALL_OTHER, ALL_OTHER, ALL_OTHER, ALL_OTHER, ALL_OTHER,
    ALL_OTHER, ALL_OTHER, ALL_OTHER, ALL_OTHER, ALL_OTHER, ALL_OTHER, ALL_OTHER, ALL_OTHER,
    ALL_OTHER, ALL_OTHER, ALL_OTHER, ALL_OTHER, ALL_OTHER, ALL_OTHER, ALL_OTHER, ALL_OTHER,
    ALL_OTHER, ALL_OTHER, ALL_OTHER, ALL_OTHER, ALL_OTHER, ALL_OTHER, ALL_OTHER, ALL_OTHER,
    ALL_OTHER, ALL_OTHER, ALL_OTHER, ALL_OTHER, ALL_OTHER, ALL_OTHER, ALL_OTHER, ALL_OTHER,
    ALL_OTHER, ALL_OTHER, ALL_OTHER, ALL_OTHER, ALL_OTHER, ALL_OTHER, ALL_OTHER, ALL_OTHER,
    ALL_OTHER, ALL_OTHER, ALL_OTHER, ALL_OTHER, ALL_OTHER, ALL_OTHER, ALL_OTHER, ALL_OTHER,
    ALL_OTHER, ALL_OTHER, ALL_OTHER, ALL_OTHER, ALL_OTHER, ALL_OTHER, ALL_OTHER, ALL_OTHER,
    ALL_OTHER, ALL_OTHER, ALL_OTHER, ALL_OTHER, ALL_OTHER, ALL_OTHER, ALL_OTHER, ALL_OTHER,
    ALL_OTHER, ALL_OTHER, ALL_OTHER, ALL_OTHER, ALL_OTHER, ALL_OTHER, ALL_OTHER, ALL_OTHER,
    ALL_OTHER, ALL_OTHER, ALL_OTHER, ALL_OTHER, ALL_OTHER, ALL_OTHER, ALL_OTHER, ALL_OTHER,
    ALL_OTHER, ALL_OTHER, ALL_OTHER, ALL_OTHER, ALL_OTHER, ALL_OTHER, ALL_OTHER, ALL_OTHER,
    ALL_OTHER, ALL_OTHER, ALL_OTHER, ALL_OTHER, ALL_OTHER, ALL_OTHER, ALL_OTHER, ALL_OTHER,
    ALL_OTHER, ALL_OTHER, ALL_OTHER, ALL_OTHER, ALL_OTHER, ALL_OTHER, ALL_OTHER, ALL_OTHER,
];

#[verifier::opaque]
pub const GP_PLANE_6: [u16; 256] = [
    ALL_OTHER, ALL_OTHER, ALL_OTHER, ALL_OTHER, ALL_OTHER, ALL_OTHER, ALL_OTHER, ALL_OTHER,
    ALL_OTHER, ALL_OTHER, ALL_OTHER, ALL_OTHER, ALL_OTHER, ALL_OTHER, ALL_OTHER, ALL_OTHER,
    ALL_OTHER, ALL_OTHER, ALL_OTHER, ALL_OTHER, ALL_OTHER, ALL_OTHER, ALL_OTHER, ALL_OTHER,
    ALL_OTHER, ALL_OTHER, ALL_OTHER, ALL_OTHER, ALL_OTHER, ALL_OTHER, ALL_OTHER, ALL_OTHER,
    ALL_OTHER, ALL_OTHER, ALL_OTHER, ALL_OTHER, ALL_OTHER, ALL_OTHER, ALL_OTHER, ALL_OTHER,
    ALL_OTHER, ALL_OTHER, ALL_OTHER, ALL_OTHER, ALL_OTHER, ALL_OTHER, ALL_OTHER, ALL_OTHER,
    ALL_OTHER, ALL_OTHER, ALL_OTHER, ALL_OTHER, ALL_OTHER, ALL_OTHER, ALL_OTHER, ALL_OTHER,
    ALL_OTHER, ALL_OTHER, ALL_OTHER, ALL_OTHER, ALL_OTHER, ALL_OTHER, ALL_OTHER, ALL_OTHER,
    ALL_OTHER, ALL_OTHER, ALL_OTHER, ALL_OTHER, ALL_OTHER, ALL_OTHER, ALL_OTHER, ALL_OTHER,
    ALL_OTHER, ALL_OTHER, ALL_OTHER, ALL_OTHER, ALL_OTHER, ALL_OTHER, ALL_OTHER, ALL_OTHER,
    ALL_OTHER, ALL_OTHER, ALL_OTHER, ALL_OTHER, ALL_OTHER, ALL_OTHER, ALL_OTHER, ALL_OTHER,
    ALL_OTHER, ALL_OTHER, ALL_OTHER, ALL_OTHER, ALL_OTHER, ALL_OTHER, ALL_OTHER, ALL_OTHER,
    ALL_OTHER, ALL_OTHER, ALL_OTHER, ALL_OTHER, ALL_OTHER, ALL_OTHER, ALL_OTHER, ALL_OTHER,
    ALL_OTHER, ALL_OTHER, ALL_OTHER, ALL_OTHER, ALL_OTHER, ALL_OTHER, ALL_OTHER, ALL_OTHER,
    ALL_OTHER, ALL_OTHER, ALL_OTHER, ALL_OTHER, ALL_OTHER, ALL_OTHER, ALL_OTHER, ALL_OTHER,
    ALL_OTHER, ALL_OTHER, ALL_OTHER, ALL_OTHER, ALL_OTHER, ALL_OTHER, ALL_OTHER, ALL_OTHER,
    ALL_OTHER, ALL_OTHER, ALL_OTHER, ALL_OTHER, ALL_OTHER, ALL_OTHER, ALL_OTHER, ALL_OTHER,
    ALL_OTHER, ALL_OTHER, ALL_OTHER, ALL_OTHER, ALL_OTHER, ALL_OTHER, ALL_OTHER, ALL_OTHER,
    ALL_OTHER, ALL_OTHER, ALL_OTHER, ALL_OTHER, ALL_OTHER, ALL_OTHER, ALL_OTHER, ALL_OTHER,
    ALL_OTHER, ALL_OTHER, ALL_OTHER, ALL_OTHER, ALL_OTHER, ALL_OTHER, ALL_OTHER, ALL_OTHER,
    ALL_OTHER, ALL_OTHER, ALL_OTHER, ALL_OTHER, ALL_OTHER, ALL_OTHER, ALL_OTHER, ALL_OTHER,
    ALL_OTHER, ALL_OTHER, ALL_OTHER, ALL_OTHER, ALL_OTHER, ALL_OTHER, ALL_OTHER, ALL_OTHER,
    ALL_OTHER, ALL_OTHER, ALL_OTHER, ALL_OTHER, ALL_OTHER, ALL_OTHER, ALL_OTHER, ALL_OTHER,
    ALL_OTHER, ALL_OTHER, ALL_OTHER, ALL_OTHER, ALL_OTHER, ALL_OTHER, ALL_OTHER, ALL_OTHER,
    ALL_OTHER, ALL_OTHER, ALL_OTHER, ALL_OTHER, ALL_OTHER, ALL_OTHER, ALL_OTHER, ALL_OTHER,
    ALL_OTHER, ALL_OTHER, ALL_OTHER, ALL_OTHER, ALL_OTHER, ALL_OTHER, ALL_OTHER, ALL_OTHER,
    ALL_OTHER, ALL_OTHER, ALL_OTHER, ALL_OTHER, ALL_OTHER, ALL_OTHER, ALL_OTHER, ALL_OTHER,
    ALL_OTHER, ALL_OTHER, ALL_OTHER, ALL_OTHER, ALL_OTHER, ALL_OTHER, ALL_OTHER, ALL_OTHER,
    ALL_OTHER, ALL_OTHER, ALL_OTHER, ALL_OTHER, ALL_OTHER, ALL_OTHER, ALL_OTHER, ALL_OTHER,
    ALL_OTHER, ALL_OTHER, ALL_OTHER, ALL_OTHER, ALL_OTHER, ALL_OTHER, ALL_OTHER, ALL_OTHER,
    ALL_OTHER, ALL_OTHER, ALL_OTHER, ALL_OTHER, ALL_OTHER, ALL_OTHER, ALL_OTHER, ALL_OTHER,
    ALL_OTHER, ALL_OTHER, ALL_OTHER, ALL_OTHER, ALL_OTHER, ALL_OTHER, ALL_OTHER, ALL_OTHER,
];

#[verifier::opaque]
pub const GP_PLANE_7: [u16; 256] = [
    ALL_OTHER, ALL_OTHER, ALL_OTHER, ALL_OTHER, ALL_OTHER, ALL_OTHER, ALL_OTHER, ALL_OTHER,
    ALL_OTHER, ALL_OTHER, ALL_OTHER, ALL_OTHER, ALL_OTHER, ALL_OTHER, ALL_OTHER, ALL_OTHER,
    ALL_OTHER, ALL_OTHER, ALL_OTHER, ALL_OTHER, ALL_OTHER, ALL_OTHER, ALL_OTHER, ALL_OTHER,
    ALL_OTHER, ALL_OTHER, ALL_OTHER, ALL_OTHER, ALL_OTHER, ALL_OTHER, ALL_OTHER, ALL_OTHER,
    ALL_OTHER, ALL_OTHER, ALL_OTHER, ALL_OTHER, ALL_OTHER, ALL_OTHER, ALL_OTHER, ALL_OTHER,
    ALL_OTHER, ALL_OTHER, ALL_OTHER, ALL_OTHER, ALL_OTHER, ALL_OTHER, ALL_OTHER, ALL_OTHER,
    ALL_OTHER, ALL_OTHER, ALL_OTHER, ALL_OTHER, ALL_OTHER, ALL_OTHER, ALL_OTHER, ALL_OTHER,
    ALL_OTHER, ALL_OTHER, ALL_OTHER, ALL_OTHER, ALL_OTHER, ALL_OTHER, ALL_OTHER, ALL_OTHER,
    ALL_OTHER, ALL_OTHER, ALL_OTHER, ALL_OTHER, ALL_OTHER, ALL_OTHER, ALL_OTHER, ALL_OTHER,
    ALL_OTHER, ALL_OTHER, ALL_OTHER, ALL_OTHER, ALL_OTHER, ALL_OTHER, ALL_OTHER, ALL_OTHER,
    ALL_OTHER, ALL_OTHER, ALL_OTHER, ALL_OTHER, ALL_OTHER, ALL_OTHER, ALL_OTHER, ALL_OTHER,
    ALL_OTHER, ALL_OTHER, ALL_OTHER, ALL_OTHER, ALL_OTHER, ALL_OTHER, ALL_OTHER, ALL_OTHER,
    ALL_OTHER, ALL_OTHER, ALL_OTHER, ALL_OTHER, ALL_OTHER, ALL_OTHER, ALL_OTHER, ALL_OTHER,
    ALL_OTHER, ALL_OTHER, ALL_OTHER, ALL_OTHER, ALL_OTHER, ALL_OTHER, ALL_OTHER, ALL_OTHER,
    ALL_OTHER, ALL_OTHER, ALL_OTHER, ALL_OTHER, ALL_OTHER, ALL_OTHER, ALL_OTHER, ALL_OTHER,
    ALL_OTHER, ALL_OTHER, ALL_OTHER, ALL_OTHER, ALL_OTHER, ALL_OTHER, ALL_OTHER, ALL_OTHER,
    ALL_OTHER, ALL_OTHER, ALL_OTHER, ALL_OTHER, ALL_OTHER, ALL_OTHER, ALL_OTHER, ALL_OTHER,
    ALL_OTHER, ALL_OTHER, ALL_OTHER, ALL_OTHER, ALL_OTHER, ALL_OTHER, ALL_OTHER, ALL_OTHER,
    ALL_OTHER, ALL_OTHER, ALL_OTHER, ALL_OTHER, ALL_OTHER, ALL_OTHER, ALL_OTHER, ALL_OTHER,
    ALL_OTHER, ALL_OTHER, ALL_OTHER, ALL_OTHER, ALL_OTHER, ALL_OTHER, ALL_OTHER, ALL_OTHER,
    ALL_OTHER, ALL_OTHER, ALL_OTHER, ALL_OTHER, ALL_OTHER, ALL_OTHER, ALL_OTHER, ALL_OTHER,
    ALL_OTHER, ALL_OTHER, ALL_OTHER, ALL_OTHER, ALL_OTHER, ALL_OTHER, ALL_OTHER, ALL_OTHER,
    ALL_OTHER, ALL_OTHER, ALL_OTHER, ALL_OTHER, ALL_OTHER, ALL_OTHER, ALL_OTHER, ALL_OTHER,
    ALL_OTHER, ALL_OTHER, ALL_OTHER, ALL_OTHER, ALL_OTHER, ALL_OTHER, ALL_OTHER, ALL_OTHER,
    ALL_OTHER, ALL_OTHER, ALL_OTHER, ALL_OTHER, ALL_OTHER, ALL_OTHER, ALL_OTHER, ALL_OTHER,
    ALL_OTHER, ALL_OTHER, ALL_OTHER, ALL_OTHER, ALL_OTHER, ALL_OTHER, ALL_OTHER, ALL_OTHER,
    ALL_OTHER, ALL_OTHER, ALL_OTHER, ALL_OTHER, ALL_OTHER, ALL_OTHER, ALL_OTHER, ALL_OTHER,
    ALL_OTHER, ALL_OTHER, ALL_OTHER, ALL_OTHER, ALL_OTHER, ALL_OTHER, ALL_OTHER, ALL_OTHER,
    ALL_OTHER, ALL_OTHER, ALL_OTHER, ALL_OTHER, ALL_OTHER, ALL_OTHER, ALL_OTHER, ALL_OTHER,
    ALL_OTHER, ALL_OTHER, ALL_OTHER, ALL_OTHER, ALL_OTHER, ALL_OTHER, ALL_OTHER, ALL_OTHER,
    ALL_OTHER, ALL_OTHER, ALL_OTHER, ALL_OTHER, ALL_OTHER, ALL_OTHER, ALL_OTHER, ALL_OTHER,
    ALL_OTHER, ALL_OTHER, ALL_OTHER, ALL_OTHER, ALL_OTHER, ALL_OTHER, ALL_OTHER, ALL_OTHER,
];

#[verifier::opaque]
pub const GP_PLANE_8: [u16; 256] = [
    ALL_OTHER, ALL_OTHER, ALL_OTHER, ALL_OTHER, ALL_OTHER, ALL_OTHER, ALL_OTHER, ALL_OTHER,
    ALL_OTHER, ALL_OTHER, ALL_OTHER, ALL_OTHER, ALL_OTHER, ALL_OTHER, ALL_OTHER, ALL_OTHER,
    ALL_OTHER, ALL_OTHER, ALL_OTHER, ALL_OTHER, ALL_OTHER, ALL_OTHER, ALL_OTHER, ALL_OTHER,
    ALL_OTHER, ALL_OTHER, ALL_OTHER, ALL_OTHER, ALL_OTHER, ALL_OTHER, ALL_OTHER, ALL_OTHER,
    ALL_OTHER, ALL_OTHER, ALL_OTHER, ALL_OTHER, ALL_OTHER, ALL_OTHER, ALL_OTHER, ALL_OTHER,
    ALL_OTHER, ALL_OTHER, ALL_OTHER, ALL_OTHER, ALL_OTHER, ALL_OTHER, ALL_OTHER, ALL_OTHER,
    ALL_OTHER, ALL_OTHER, ALL_OTHER, ALL_OTHER, ALL_OTHER, ALL_OTHER, ALL_OTHER, ALL_OTHER,
    ALL_OTHER, ALL_OTHER, ALL_OTHER, ALL_OTHER, ALL_OTHER, ALL_OTHER, ALL_OTHER, ALL_OTHER,
    ALL_OTHER, ALL_OTHER, ALL_OTHER, ALL_OTHER, ALL_OTHER, ALL_OTHER, ALL_OTHER, ALL_OTHER,
    ALL_OTHER, ALL_OTHER, ALL_OTHER, ALL_OTHER, ALL_OTHER, ALL_OTHER, ALL_OTHER, ALL_OTHER,
    ALL_OTHER, ALL_OTHER, ALL_OTHER, ALL_OTHER, ALL_OTHER, ALL_OTHER, ALL_OTHER, ALL_OTHER,
    ALL_OTHER, ALL_OTHER, ALL_OTHER, ALL_OTHER, ALL_OTHER, ALL_OTHER, ALL_OTHER, ALL_OTHER,
    ALL_OTHER, ALL_OTHER, ALL_OTHER, ALL_OTHER, ALL_OTHER, ALL_OTHER, ALL_OTHER, ALL_OTHER,
    ALL_OTHER, ALL_OTHER, ALL_OTHER, ALL_OTHER, ALL_OTHER, ALL_OTHER, ALL_OTHER, ALL_OTHER,
    ALL_OTHER, ALL_OTHER, ALL_OTHER, ALL_OTHER, ALL_OTHER, ALL_OTHER, ALL_OTHER, ALL_OTHER,
    ALL_OTHER, ALL_OTHER, ALL_OTHER, ALL_OTHER, ALL_OTHER, ALL_OTHER, ALL_OTHER, ALL_OTHER,
    ALL_OTHER, ALL_OTHER, ALL_OTHER, ALL_OTHER, ALL_OTHER, ALL_OTHER, ALL_OTHER, ALL_OTHER,
    ALL_OTHER, ALL_OTHER, ALL_OTHER, ALL_OTHER, ALL_OTHER, ALL_OTHER, ALL_OTHER, ALL_OTHER,
    ALL_OTHER, ALL_OTHER, ALL_OTHER, ALL_OTHER, ALL_OTHER, ALL_OTHER, ALL_OTHER, ALL_OTHER,
    ALL_OTHER, ALL_OTHER, ALL_OTHER, ALL_OTHER, ALL_OTHER, ALL_OTHER, ALL_OTHER, ALL_OTHER,
    ALL_OTHER, ALL_OTHER, ALL_OTHER, ALL_OTHER, ALL_OTHER, ALL_OTHER, ALL_OTHER, ALL_OTHER,
    ALL_OTHER, ALL_OTHER, ALL_OTHER, ALL_OTHER, ALL_OTHER, ALL_OTHER, ALL_OTHER, ALL_OTHER,
    ALL_OTHER, ALL_OTHER, ALL_OTHER, ALL_OTHER, ALL_OTHER, ALL_OTHER, ALL_OTHER, ALL_OTHER,
    ALL_OTHER, ALL_OTHER, ALL_OTHER, ALL_OTHER, ALL_OTHER, ALL_OTHER, ALL_OTHER, ALL_OTHER,
    ALL_OTHER, ALL_OTHER, ALL_OTHER, ALL_OTHER, ALL_OTHER, ALL_OTHER, ALL_OTHER, ALL_OTHER,
    ALL_OTHER, ALL_OTHER, ALL_OTHER, ALL_OTHER, ALL_OTHER, ALL_OTHER, ALL_OTHER, ALL_OTHER,
    ALL_OTHER, ALL_OTHER, ALL_OTHER, ALL_OTHER, ALL_OTHER, ALL_OTHER, ALL_OTHER, ALL_OTHER,
    ALL_OTHER, ALL_OTHER, ALL_OTHER, ALL_OTHER, ALL_OTHER, ALL_OTHER, ALL_OTHER, ALL_OTHER,
    ALL_OTHER, ALL_OTHER, ALL_OTHER, ALL_OTHER, ALL_OTHER, ALL_OTHER, ALL_OTHER, ALL_OTHER,
    ALL_OTHER, ALL_OTHER, ALL_OTHER, ALL_OTHER, ALL_OTHER, ALL_OTHER, ALL_OTHER, ALL_OTHER,
    ALL_OTHER, ALL_OTHER, ALL_OTHER, ALL_OTHER, ALL_OTHER, ALL_OTHER, ALL_OTHER, ALL_OTHER,
    ALL_OTHER, ALL_OTHER, ALL_OTHER, ALL_OTHER, ALL_OTHER, ALL_OTHER, ALL_OTHER, ALL_OTHER,
];

#[verifier::opaque]
pub const GP_PLANE_9: [u16; 256] = [
    ALL_OTHER, ALL_OTHER, ALL_OTHER, ALL_OTHER, ALL_OTHER, ALL_OTHER, ALL_OTHER, ALL_OTHER,
    ALL_OTHER, ALL_OTHER, ALL_OTHER, ALL_OTHER, ALL_OTHER, ALL_OTHER, ALL_OTHER, ALL_OTHER,
    ALL_OTHER, ALL_OTHER, ALL_OTHER, ALL_OTHER, ALL_OTHER, ALL_OTHER, ALL_OTHER, ALL_OTHER,
    ALL_OTHER, ALL_OTHER, ALL_OTHER, ALL_OTHER, ALL_OTHER, ALL_OTHER, ALL_OTHER, ALL_OTHER,
    ALL_OTHER, ALL_OTHER, ALL_OTHER, ALL_OTHER, ALL_OTHER, ALL_OTHER, ALL_OTHER, ALL_OTHER,
    ALL_OTHER, ALL_OTHER, ALL_OTHER, ALL_OTHER, ALL_OTHER, ALL_OTHER, ALL_OTHER, ALL_OTHER,
    ALL_OTHER, ALL_OTHER, ALL_OTHER, ALL_OTHER, ALL_OTHER, ALL_OTHER, ALL_OTHER, ALL_OTHER,
    ALL_OTHER, ALL_OTHER, ALL_OTHER, ALL_OTHER, ALL_OTHER, ALL_OTHER, ALL_OTHER, ALL_OTHER,
    ALL_OTHER, ALL_OTHER, ALL_OTHER, ALL_OTHER, ALL_OTHER, ALL_OTHER, ALL_OTHER, ALL_OTHER,
    ALL_OTHER, ALL_OTHER, ALL_OTHER, ALL_OTHER, ALL_OTHER, ALL_OTHER, ALL_OTHER, ALL_OTHER,
    ALL_OTHER, ALL_OTHER, ALL_OTHER, ALL_OTHER, ALL_OTHER, ALL_OTHER, ALL_OTHER, ALL_OTHER,
    ALL_OTHER, ALL_OTHER, ALL_OTHER, ALL_OTHER, ALL_OTHER, ALL_OTHER, ALL_OTHER, ALL_OTHER,
    ALL_OTHER, ALL_OTHER, ALL_OTHER, ALL_OTHER, ALL_OTHER, ALL_OTHER, ALL_OTHER, ALL_OTHER,
    ALL_OTHER, ALL_OTHER, ALL_OTHER, ALL_OTHER, ALL_OTHER, ALL_OTHER, ALL_OTHER, ALL_OTHER,
    ALL_OTHER, ALL_OTHER, ALL_OTHER, ALL_OTHER, ALL_OTHER, ALL_OTHER, ALL_OTHER, ALL_OTHER,
    ALL_OTHER, ALL_OTHER, ALL_OTHER, ALL_OTHER, ALL_OTHER, ALL_OTHER, ALL_OTHER, ALL_OTHER,
    ALL_OTHER, ALL_OTHER, ALL_OTHER, ALL_OTHER, ALL_OTHER, ALL_OTHER, ALL_OTHER, ALL_OTHER,
    ALL_OTHER, ALL_OTHER, ALL_OTHER, ALL_OTHER, ALL_OTHER, ALL_OTHER, ALL_OTHER, ALL_OTHER,
    ALL_OTHER, ALL_OTHER, ALL_OTHER, ALL_OTHER, ALL_OTHER, ALL_OTHER, ALL_OTHER, ALL_OTHER,
    ALL_OTHER, ALL_OTHER, ALL_OTHER, ALL_OTHER, ALL_OTHER, ALL_OTHER, ALL_OTHER, ALL_OTHER,
    ALL_OTHER, ALL_OTHER, ALL_OTHER, ALL_OTHER, ALL_OTHER, ALL_OTHER, ALL_OTHER, ALL_OTHER,
    ALL_OTHER, ALL_OTHER, ALL_OTHER, ALL_OTHER, ALL_OTHER, ALL_OTHER, ALL_OTHER, ALL_OTHER,
    ALL_OTHER, ALL_OTHER, ALL_OTHER, ALL_OTHER, ALL_OTHER, ALL_OTHER, ALL_OTHER, ALL_OTHER,
    ALL_OTHER, ALL_OTHER, ALL_OTHER, ALL_OTHER, ALL_OTHER, ALL_OTHER, ALL_OTHER, ALL_OTHER,
    ALL_OTHER, ALL_OTHER, ALL_OTHER, ALL_OTHER, ALL_OTHER, ALL_OTHER, ALL_OTHER, ALL_OTHER,
    ALL_OTHER, ALL_OTHER, ALL_OTHER, ALL_OTHER, ALL_OTHER, ALL_OTHER, ALL_OTHER, ALL_OTHER,
    ALL_OTHER, ALL_OTHER, ALL_OTHER, ALL_OTHER, ALL_OTHER, ALL_OTHER, ALL_OTHER, ALL_OTHER,
    ALL_OTHER, ALL_OTHER, ALL_OTHER, ALL_OTHER, ALL_OTHER, ALL_OTHER, ALL_OTHER, ALL_OTHER,
    ALL_OTHER, ALL_OTHER, ALL_OTHER, ALL_OTHER, ALL_OTHER, ALL_OTHER, ALL_OTHER, ALL_OTHER,
    ALL_OTHER, ALL_OTHER, ALL_OTHER, ALL_OTHER, ALL_OTHER, ALL_OTHER, ALL_OTHER, ALL_OTHER,
    ALL_OTHER, ALL_OTHER, ALL_OTHER, ALL_OTHER, ALL_OTHER, ALL_OTHER, ALL_OTHER, ALL_OTHER,
    ALL_OTHER, ALL_OTHER, ALL_OTHER, ALL_OTHER, ALL_OTHER, ALL_OTHER, ALL_OTHER, ALL_OTHER,
];

#[verifier::opaque]
pub const GP_PLANE_10: [u16; 256] = [
    ALL_OTHER, ALL_OTHER, ALL_OTHER, ALL_OTHER, ALL_OTHER, ALL_OTHER, ALL_OTHER, ALL_OTHER,
    ALL_OTHER, ALL_OTHER, ALL_OTHER, ALL_OTHER, ALL_OTHER, ALL_OTHER, ALL_OTHER, ALL_OTHER,
    ALL_OTHER, ALL_OTHER, ALL_OTHER, ALL_OTHER, ALL_OTHER, ALL_OTHER, ALL_OTHER, ALL_OTHER,
    ALL_OTHER, ALL_OTHER, ALL_OTHER, ALL_OTHER, ALL_OTHER, ALL_OTHER, ALL_OTHER, ALL_OTHER,
    ALL_OTHER, ALL_OTHER, ALL_OTHER, ALL_OTHER, ALL_OTHER, ALL_OTHER, ALL_OTHER, ALL_OTHER,
    ALL_OTHER, ALL_OTHER, ALL_OTHER, ALL_OTHER, ALL_OTHER, ALL_OTHER, ALL_OTHER, ALL_OTHER,
    ALL_OTHER, ALL_OTHER, ALL_OTHER, ALL_OTHER, ALL_OTHER, ALL_OTHER, ALL_OTHER, ALL_OTHER,
    ALL_OTHER, ALL_OTHER, ALL_OTHER, ALL_OTHER, ALL_OTHER, ALL_OTHER, ALL_OTHER, ALL_OTHER,
    ALL_OTHER, ALL_OTHER, ALL_OTHER, ALL_OTHER, ALL_OTHER, ALL_OTHER, ALL_OTHER, ALL_OTHER,
    ALL_OTHER, ALL_OTHER, ALL_OTHER, ALL_OTHER, ALL_OTHER, ALL_OTHER, ALL_OTHER, ALL_OTHER,
    ALL_OTHER, ALL_OTHER, ALL_OTHER, ALL_OTHER, ALL_OTHER, ALL_OTHER, ALL_OTHER, ALL_OTHER,
    ALL_OTHER, ALL_OTHER, ALL_OTHER, ALL_OTHER, ALL_OTHER, ALL_OTHER, ALL_OTHER, ALL_OTHER,
    ALL_OTHER, ALL_OTHER, ALL_OTHER, ALL_OTHER, ALL_OTHER, ALL_OTHER, ALL_OTHER, ALL_OTHER,
    ALL_OTHER, ALL_OTHER, ALL_OTHER, ALL_OTHER, ALL_OTHER, ALL_OTHER, ALL_OTHER, ALL_OTHER,
    ALL_OTHER, ALL_OTHER, ALL_OTHER, ALL_OTHER, ALL_OTHER, ALL_OTHER, ALL_OTHER, ALL_OTHER,
    ALL_OTHER, ALL_OTHER, ALL_OTHER, ALL_OTHER, ALL_OTHER, ALL_OTHER, ALL_OTHER, ALL_OTHER,
    ALL_OTHER, ALL_OTHER, ALL_OTHER, ALL_OTHER, ALL_OTHER, ALL_OTHER, ALL_OTHER, ALL_OTHER,
    ALL_OTHER, ALL_OTHER, ALL_OTHER, ALL_OTHER, ALL_OTHER, ALL_OTHER, ALL_OTHER, ALL_OTHER,
    ALL_OTHER, ALL_OTHER, ALL_OTHER, ALL_OTHER, ALL_OTHER, ALL_OTHER, ALL_OTHER, ALL_OTHER,
    ALL_OTHER, ALL_OTHER, ALL_OTHER, ALL_OTHER, ALL_OTHER, ALL_OTHER, ALL_OTHER, ALL_OTHER,
    ALL_OTHER, ALL_OTHER, ALL_OTHER, ALL_OTHER, ALL_OTHER, ALL_OTHER, ALL_OTHER, ALL_OTHER,
    ALL_OTHER, ALL_OTHER, ALL_OTHER, ALL_OTHER, ALL_OTHER, ALL_OTHER, ALL_OTHER, ALL_OTHER,
    ALL_OTHER, ALL_OTHER, ALL_OTHER, ALL_OTHER, ALL_OTHER, ALL_OTHER, ALL_OTHER, ALL_OTHER,
    ALL_OTHER, ALL_OTHER, ALL_OTHER, ALL_OTHER, ALL_OTHER, ALL_OTHER, ALL_OTHER, ALL_OTHER,
    ALL_OTHER, ALL_OTHER, ALL_OTHER, ALL_OTHER, ALL_OTHER, ALL_OTHER, ALL_OTHER, ALL_OTHER,
    ALL_OTHER, ALL_OTHER, ALL_OTHER, ALL_OTHER, ALL_OTHER, ALL_OTHER, ALL_OTHER, ALL_OTHER,
    ALL_OTHER, ALL_OTHER, ALL_OTHER, ALL_OTHER, ALL_OTHER, ALL_OTHER, ALL_OTHER, ALL_OTHER,
    ALL_OTHER, ALL_OTHER, ALL_OTHER, ALL_OTHER, ALL_OTHER, ALL_OTHER, ALL_OTHER, ALL_OTHER,
    ALL_OTHER, ALL_OTHER, ALL_OTHER, ALL_OTHER, ALL_OTHER, ALL_OTHER, ALL_OTHER, ALL_OTHER,
    ALL_OTHER, ALL_OTHER, ALL_OTHER, ALL_OTHER, ALL_OTHER, ALL_OTHER, ALL_OTHER, ALL_OTHER,
    ALL_OTHER, ALL_OTHER, ALL_OTHER, ALL_OTHER, ALL_OTHER, ALL_OTHER, ALL_OTHER, ALL_OTHER,
    ALL_OTHER, ALL_OTHER, ALL_OTHER, ALL_OTHER, ALL_OTHER, ALL_OTHER, ALL_OTHER, ALL_OTHER,
];

#[verifier::opaque]
pub const GP_PLANE_11: [u16; 256] = [
    ALL_OTHER, ALL_OTHER, ALL_OTHER, ALL_OTHER, ALL_OTHER, ALL_OTHER, ALL_OTHER, ALL_OTHER,
    ALL_OTHER, ALL_OTHER, ALL_OTHER, ALL_OTHER, ALL_OTHER, ALL_OTHER, ALL_OTHER, ALL_OTHER,
    ALL_OTHER, ALL_OTHER, ALL_OTHER, ALL_OTHER, ALL_OTHER, ALL_OTHER, ALL_OTHER, ALL_OTHER,
    ALL_OTHER, ALL_OTHER, ALL_OTHER, ALL_OTHER, ALL_OTHER, ALL_OTHER, ALL_OTHER, ALL_OTHER,
    ALL_OTHER, ALL_OTHER, ALL_OTHER, ALL_OTHER, ALL_OTHER, ALL_OTHER, ALL_OTHER, ALL_OTHER,
    ALL_OTHER, ALL_OTHER, ALL_OTHER, ALL_OTHER, ALL_OTHER, ALL_OTHER, ALL_OTHER, ALL_OTHER,
    ALL_OTHER, ALL_OTHER, ALL_OTHER, ALL_OTHER, ALL_OTHER, ALL_OTHER, ALL_OTHER, ALL_OTHER,
    ALL_OTHER, ALL_OTHER, ALL_OTHER, ALL_OTHER, ALL_OTHER, ALL_OTHER, ALL_OTHER, ALL_OTHER,
    ALL_OTHER, ALL_OTHER, ALL_OTHER, ALL_OTHER, ALL_OTHER, ALL_OTHER, ALL_OTHER, ALL_OTHER,
    ALL_OTHER, ALL_OTHER, ALL_OTHER, ALL_OTHER, ALL_OTHER, ALL_OTHER, ALL_OTHER, ALL_OTHER,
    ALL_OTHER, ALL_OTHER, ALL_OTHER, ALL_OTHER, ALL_OTHER, ALL_OTHER, ALL_OTHER, ALL_OTHER,
    ALL_OTHER, ALL_OTHER, ALL_OTHER, ALL_OTHER, ALL_OTHER, ALL_OTHER, ALL_OTHER, ALL_OTHER,
    ALL_OTHER, ALL_OTHER, ALL_OTHER, ALL_OTHER, ALL_OTHER, ALL_OTHER, ALL_OTHER, ALL_OTHER,
    ALL_OTHER, ALL_OTHER, ALL_OTHER, ALL_OTHER, ALL_OTHER, ALL_OTHER, ALL_OTHER, ALL_OTHER,
    ALL_OTHER, ALL_OTHER, ALL_OTHER, ALL_OTHER, ALL_OTHER, ALL_OTHER, ALL_OTHER, ALL_OTHER,
    ALL_OTHER, ALL_OTHER, ALL_OTHER, ALL_OTHER, ALL_OTHER, ALL_OTHER, ALL_OTHER, ALL_OTHER,
    ALL_OTHER, ALL_OTHER, ALL_OTHER, ALL_OTHER, ALL_OTHER, ALL_OTHER, ALL_OTHER, ALL_OTHER,
    ALL_OTHER, ALL_OTHER, ALL_OTHER, ALL_OTHER, ALL_OTHER, ALL_OTHER, ALL_OTHER, ALL_OTHER,
    ALL_OTHER, ALL_OTHER, ALL_OTHER, ALL_OTHER, ALL_OTHER, ALL_OTHER, ALL_OTHER, ALL_OTHER,
    ALL_OTHER, ALL_OTHER, ALL_OTHER, ALL_OTHER, ALL_OTHER, ALL_OTHER, ALL_OTHER, ALL_OTHER,
    ALL_OTHER, ALL_OTHER, ALL_OTHER, ALL_OTHER, ALL_OTHER, ALL_OTHER, ALL_OTHER, ALL_OTHER,
    ALL_OTHER, ALL_OTHER, ALL_OTHER, ALL_OTHER, ALL_OTHER, ALL_OTHER, ALL_OTHER, ALL_OTHER,
    ALL_OTHER, ALL_OTHER, ALL_OTHER, ALL_OTHER, ALL_OTHER, ALL_OTHER, ALL_OTHER, ALL_OTHER,
    ALL_OTHER, ALL_OTHER, ALL_OTHER, ALL_OTHER, ALL_OTHER, ALL_OTHER, ALL_OTHER, ALL_OTHER,
    ALL_OTHER, ALL_OTHER, ALL_OTHER, ALL_OTHER, ALL_OTHER, ALL_OTHER, ALL_OTHER, ALL_OTHER,
    ALL_OTHER, ALL_OTHER, ALL_OTHER, ALL_OTHER, ALL_OTHER, ALL_OTHER, ALL_OTHER, ALL_OTHER,
    ALL_OTHER, ALL_OTHER, ALL_OTHER, ALL_OTHER, ALL_OTHER, ALL_OTHER, ALL_OTHER, ALL_OTHER,
    ALL_OTHER, ALL_OTHER, ALL_OTHER, ALL_OTHER, ALL_OTHER, ALL_OTHER, ALL_OTHER, ALL_OTHER,
    ALL_OTHER, ALL_OTHER, ALL_OTHER, ALL_OTHER, ALL_OTHER, ALL_OTHER, ALL_OTHER, ALL_OTHER,
    ALL_OTHER, ALL_OTHER, ALL_OTHER, ALL_OTHER, ALL_OTHER, ALL_OTHER, ALL_OTHER, ALL_OTHER,
    ALL_OTHER, ALL_OTHER, ALL_OTHER, ALL_OTHER, ALL_OTHER, ALL_OTHER, ALL_OTHER, ALL_OTHER,
    ALL_OTHER, ALL_OTHER, ALL_OTHER, ALL_OTHER, ALL_OTHER, ALL_OTHER, ALL_OTHER, ALL_OTHER,
];

#[verifier::opaque]
pub const GP_PLANE_12: [u16; 256] = [
    ALL_OTHER, ALL_OTHER, ALL_OTHER, ALL_OTHER, ALL_OTHER, ALL_OTHER, ALL_OTHER, ALL_OTHER,
    ALL_OTHER, ALL_OTHER, ALL_OTHER, ALL_OTHER, ALL_OTHER, ALL_OTHER, ALL_OTHER, ALL_OTHER,
    ALL_OTHER, ALL_OTHER, ALL_OTHER, ALL_OTHER, ALL_OTHER, ALL_OTHER, ALL_OTHER, ALL_OTHER,
    ALL_OTHER, ALL_OTHER, ALL_OTHER, ALL_OTHER, ALL_OTHER, ALL_OTHER, ALL_OTHER, ALL_OTHER,
    ALL_OTHER, ALL_OTHER, ALL_OTHER, ALL_OTHER, ALL_OTHER, ALL_OTHER, ALL_OTHER, ALL_OTHER,
    ALL_OTHER, ALL_OTHER, ALL_OTHER, ALL_OTHER, ALL_OTHER, ALL_OTHER, ALL_OTHER, ALL_OTHER,
    ALL_OTHER, ALL_OTHER, ALL_OTHER, ALL_OTHER, ALL_OTHER, ALL_OTHER, ALL_OTHER, ALL_OTHER,
    ALL_OTHER, ALL_OTHER, ALL_OTHER, ALL_OTHER, ALL_OTHER, ALL_OTHER, ALL_OTHER, ALL_OTHER,
    ALL_OTHER, ALL_OTHER, ALL_OTHER, ALL_OTHER, ALL_OTHER, ALL_OTHER, ALL_OTHER, ALL_OTHER,
    ALL_OTHER, ALL_OTHER, ALL_OTHER, ALL_OTHER, ALL_OTHER, ALL_OTHER, ALL_OTHER, ALL_OTHER,
    ALL_OTHER, ALL_OTHER, ALL_OTHER, ALL_OTHER, ALL_OTHER, ALL_OTHER, ALL_OTHER, ALL_OTHER,
    ALL_OTHER, ALL_OTHER, ALL_OTHER, ALL_OTHER, ALL_OTHER, ALL_OTHER, ALL_OTHER, ALL_OTHER,
    ALL_OTHER, ALL_OTHER, ALL_OTHER, ALL_OTHER, ALL_OTHER, ALL_OTHER, ALL_OTHER, ALL_OTHER,
    ALL_OTHER, ALL_OTHER, ALL_OTHER, ALL_OTHER, ALL_OTHER, ALL_OTHER, ALL_OTHER, ALL_OTHER,
    ALL_OTHER, ALL_OTHER, ALL_OTHER, ALL_OTHER, ALL_OTHER, ALL_OTHER, ALL_OTHER, ALL_OTHER,
    ALL_OTHER, ALL_OTHER, ALL_OTHER, ALL_OTHER, ALL_OTHER, ALL_OTHER, ALL_OTHER, ALL_OTHER,
    ALL_OTHER, ALL_OTHER, ALL_OTHER, ALL_OTHER, ALL_OTHER, ALL_OTHER, ALL_OTHER, ALL_OTHER,
    ALL_OTHER, ALL_OTHER, ALL_OTHER, ALL_OTHER, ALL_OTHER, ALL_OTHER, ALL_OTHER, ALL_OTHER,
    ALL_OTHER, ALL_OTHER, ALL_OTHER, ALL_OTHER, ALL_OTHER, ALL_OTHER, ALL_OTHER, ALL_OTHER,
    ALL_OTHER, ALL_OTHER, ALL_OTHER, ALL_OTHER, ALL_OTHER, ALL_OTHER, ALL_OTHER, ALL_OTHER,
    ALL_OTHER, ALL_OTHER, ALL_OTHER, ALL_OTHER, ALL_OTHER, ALL_OTHER, ALL_OTHER, ALL_OTHER,
    ALL_OTHER, ALL_OTHER, ALL_OTHER, ALL_OTHER, ALL_OTHER, ALL_OTHER, ALL_OTHER, ALL_OTHER,
    ALL_OTHER, ALL_OTHER, ALL_OTHER, ALL_OTHER, ALL_OTHER, ALL_OTHER, ALL_OTHER, ALL_OTHER,
    ALL_OTHER, ALL_OTHER, ALL_OTHER, ALL_OTHER, ALL_OTHER, ALL_OTHER, ALL_OTHER, ALL_OTHER,
    ALL_OTHER, ALL_OTHER, ALL_OTHER, ALL_OTHER, ALL_OTHER, ALL_OTHER, ALL_OTHER, ALL_OTHER,
    ALL_OTHER, ALL_OTHER, ALL_OTHER, ALL_OTHER, ALL_OTHER, ALL_OTHER, ALL_OTHER, ALL_OTHER,
    ALL_OTHER, ALL_OTHER, ALL_OTHER, ALL_OTHER, ALL_OTHER, ALL_OTHER, ALL_OTHER, ALL_OTHER,
    ALL_OTHER, ALL_OTHER, ALL_OTHER, ALL_OTHER, ALL_OTHER, ALL_OTHER, ALL_OTHER, ALL_OTHER,
    ALL_OTHER, ALL_OTHER, ALL_OTHER, ALL_OTHER, ALL_OTHER, ALL_OTHER, ALL_OTHER, ALL_OTHER,
    ALL_OTHER, ALL_OTHER, ALL_OTHER, ALL_OTHER, ALL_OTHER, ALL_OTHER, ALL_OTHER, ALL_OTHER,
    ALL_OTHER, ALL_OTHER, ALL_OTHER, ALL_OTHER, ALL_OTHER, ALL_OTHER, ALL_OTHER, ALL_OTHER,
    ALL_OTHER, ALL_OTHER, ALL_OTHER, ALL_OTHER, ALL_OTHER, ALL_OTHER, ALL_OTHER, ALL_OTHER,
];

#[verifier::opaque]
pub const GP_PLANE_13: [u16; 256] = [
    ALL_OTHER, ALL_OTHER, ALL_OTHER, ALL_OTHER, ALL_OTHER, ALL_OTHER, ALL_OTHER, ALL_OTHER,
    ALL_OTHER, ALL_OTHER, ALL_OTHER, ALL_OTHER, ALL_OTHER, ALL_OTHER, ALL_OTHER, ALL_OTHER,
    ALL_OTHER, ALL_OTHER, ALL_OTHER, ALL_OTHER, ALL_OTHER, ALL_OTHER, ALL_OTHER, ALL_OTHER,
    ALL_OTHER, ALL_OTHER, ALL_OTHER, ALL_OTHER, ALL_OTHER, ALL_OTHER, ALL_OTHER, ALL_OTHER,
    ALL_OTHER, ALL_OTHER, ALL_OTHER, ALL_OTHER, ALL_OTHER, ALL_OTHER, ALL_OTHER, ALL_OTHER,
    ALL_OTHER, ALL_OTHER, ALL_OTHER, ALL_OTHER, ALL_OTHER, ALL_OTHER, ALL_OTHER, ALL_OTHER,
    ALL_OTHER, ALL_OTHER, ALL_OTHER, ALL_OTHER, ALL_OTHER, ALL_OTHER, ALL_OTHER, ALL_OTHER,
    ALL_OTHER, ALL_OTHER, ALL_OTHER, ALL_OTHER, ALL_OTHER, ALL_OTHER, ALL_OTHER, ALL_OTHER,
    ALL_OTHER, ALL_OTHER, ALL_OTHER, ALL_OTHER, ALL_OTHER, ALL_OTHER, ALL_OTHER, ALL_OTHER,
    ALL_OTHER, ALL_OTHER, ALL_OTHER, ALL_OTHER, ALL_OTHER, ALL_OTHER, ALL_OTHER, ALL_OTHER,
    ALL_OTHER, ALL_OTHER, ALL_OTHER, ALL_OTHER, ALL_OTHER, ALL_OTHER, ALL_OTHER, ALL_OTHER,
    ALL_OTHER, ALL_OTHER, ALL_OTHER, ALL_OTHER, ALL_OTHER, ALL_OTHER, ALL_OTHER, ALL_OTHER,
    ALL_OTHER, ALL_OTHER, ALL_OTHER, ALL_OTHER, ALL_OTHER, ALL_OTHER, ALL_OTHER, ALL_OTHER,
    ALL_OTHER, ALL_OTHER, ALL_OTHER, ALL_OTHER, ALL_OTHER, ALL_OTHER, ALL_OTHER, ALL_OTHER,
    ALL_OTHER, ALL_OTHER, ALL_OTHER, ALL_OTHER, ALL_OTHER, ALL_OTHER, ALL_OTHER, ALL_OTHER,
    ALL_OTHER, ALL_OTHER, ALL_OTHER, ALL_OTHER, ALL_OTHER, ALL_OTHER, ALL_OTHER, ALL_OTHER,
    ALL_OTHER, ALL_OTHER, ALL_OTHER, ALL_OTHER, ALL_OTHER, ALL_OTHER, ALL_OTHER, ALL_OTHER,
    ALL_OTHER, ALL_OTHER, ALL_OTHER, ALL_OTHER, ALL_OTHER, ALL_OTHER, ALL_OTHER, ALL_OTHER,
    ALL_OTHER, ALL_OTHER, ALL_OTHER, ALL_OTHER, ALL_OTHER, ALL_OTHER, ALL_OTHER, ALL_OTHER,
    ALL_OTHER, ALL_OTHER, ALL_OTHER, ALL_OTHER, ALL_OTHER, ALL_OTHER, ALL_OTHER, ALL_OTHER,
    ALL_OTHER, ALL_OTHER, ALL_OTHER, ALL_OTHER, ALL_OTHER, ALL_OTHER, ALL_OTHER, ALL_OTHER,
    ALL_OTHER, ALL_OTHER, ALL_OTHER, ALL_OTHER, ALL_OTHER, ALL_OTHER, ALL_OTHER, ALL_OTHER,
    ALL_OTHER, ALL_OTHER, ALL_OTHER, ALL_OTHER, ALL_OTHER, ALL_OTHER, ALL_OTHER, ALL_OTHER,
    ALL_OTHER, ALL_OTHER, ALL_OTHER, ALL_OTHER, ALL_OTHER, ALL_OTHER, ALL_OTHER, ALL_OTHER,
    ALL_OTHER, ALL_OTHER, ALL_OTHER, ALL_OTHER, ALL_OTHER, ALL_OTHER, ALL_OTHER, ALL_OTHER,
    ALL_OTHER, ALL_OTHER, ALL_OTHER, ALL_OTHER, ALL_OTHER, ALL_OTHER, ALL_OTHER, ALL_OTHER,
    ALL_OTHER, ALL_OTHER, ALL_OTHER, ALL_OTHER, ALL_OTHER, ALL_OTHER, ALL_OTHER, ALL_OTHER,
    ALL_OTHER, ALL_OTHER, ALL_OTHER, ALL_OTHER, ALL_OTHER, ALL_OTHER, ALL_OTHER, ALL_OTHER,
    ALL_OTHER, ALL_OTHER, ALL_OTHER, ALL_OTHER, ALL_OTHER, ALL_OTHER, ALL_OTHER, ALL_OTHER,
    ALL_OTHER, ALL_OTHER, ALL_OTHER, ALL_OTHER, ALL_OTHER, ALL_OTHER, ALL_OTHER, ALL_OTHER,
    ALL_OTHER, ALL_OTHER, ALL_OTHER, ALL_OTHER, ALL_OTHER, ALL_OTHER, ALL_OTHER, ALL_OTHER,
    ALL_OTHER, ALL_OTHER, ALL_OTHER, ALL_OTHER, ALL_OTHER, ALL_OTHER, ALL_OTHER, ALL_OTHER,
];

#[verifier::opaque]
pub const GP_PLANE_14: [u16; 256] = [
    0x160, 0x161, ALL_CONTROL, ALL_CONTROL, ALL_CONTROL, ALL_CONTROL, ALL_CONTROL, ALL_CONTROL,
    ALL_CONTROL, ALL_CONTROL, ALL_CONTROL, ALL_CONTROL, ALL_CONTROL, ALL_CONTROL, ALL_CONTROL, ALL_CONTROL,
    ALL_OTHER, ALL_OTHER, ALL_OTHER, ALL_OTHER, ALL_OTHER, ALL_OTHER, ALL_OTHER, ALL_OTHER,
    ALL_OTHER, ALL_OTHER, ALL_OTHER, ALL_OTHER, ALL_OTHER, ALL_OTHER, ALL_OTHER, ALL_OTHER,
    ALL_OTHER, ALL_OTHER, ALL_OTHER, ALL_OTHER, ALL_OTHER, ALL_OTHER, ALL_OTHER, ALL_OTHER,
    ALL_OTHER, ALL_OTHER, ALL_OTHER, ALL_OTHER, ALL_OTHER, ALL_OTHER, ALL_OTHER, ALL_OTHER,
    ALL_OTHER, ALL_OTHER, ALL_OTHER, ALL_OTHER, ALL_OTHER, ALL_OTHER, ALL_OTHER, ALL_OTHER,
    ALL_OTHER, ALL_OTHER, ALL_OTHER, ALL_OTHER, ALL_OTHER, ALL_OTHER, ALL_OTHER, ALL_OTHER,
    ALL_OTHER, ALL_OTHER, ALL_OTHER, ALL_OTHER, ALL_OTHER, ALL_OTHER, ALL_OTHER, ALL_OTHER,
    ALL_OTHER, ALL_OTHER, ALL_OTHER, ALL_OTHER, ALL_OTHER, ALL_OTHER, ALL_OTHER, ALL_OTHER,
    ALL_OTHER, ALL_OTHER, ALL_OTHER, ALL_OTHER, ALL_OTHER, ALL_OTHER, ALL_OTHER, ALL_OTHER,
    ALL_OTHER, ALL_OTHER, ALL_OTHER, ALL_OTHER, ALL_OTHER, ALL_OTHER, ALL_OTHER, ALL_OTHER,
    ALL_OTHER, ALL_OTHER, ALL_OTHER, ALL_OTHER, ALL_OTHER, ALL_OTHER, ALL_OTHER, ALL_OTHER,
    ALL_OTHER, ALL_OTHER, ALL_OTHER, ALL_OTHER, ALL_OTHER, ALL_OTHER, ALL_OTHER, ALL_OTHER,
    ALL_OTHER, ALL_OTHER, ALL_OTHER, ALL_OTHER, ALL_OTHER, ALL_OTHER, ALL_OTHER, ALL_OTHER,
    ALL_OTHER, ALL_OTHER, ALL_OTHER, ALL_OTHER, ALL_OTHER, ALL_OTHER, ALL_OTHER, ALL_OTHER,
    ALL_OTHER, ALL_OTHER, ALL_OTHER, ALL_OTHER, ALL_OTHER, ALL_OTHER, ALL_OTHER, ALL_OTHER,
    ALL_OTHER, ALL_OTHER, ALL_OTHER, ALL_OTHER, ALL_OTHER, ALL_OTHER, ALL_OTHER, ALL_OTHER,
    ALL_OTHER, ALL_OTHER, ALL_OTHER, ALL_OTHER, ALL_OTHER, ALL_OTHER, ALL_OTHER, ALL_OTHER,
    ALL_OTHER, ALL_OTHER, ALL_OTHER, ALL_OTHER, ALL_OTHER, ALL_OTHER, ALL_OTHER, ALL_OTHER,
    ALL_OTHER, ALL_OTHER, ALL_OTHER, ALL_OTHER, ALL_OTHER, ALL_OTHER, ALL_OTHER, ALL_OTHER,
    ALL_OTHER, ALL_OTHER, ALL_OTHER, ALL_OTHER, ALL_OTHER, ALL_OTHER, ALL_OTHER, ALL_OTHER,
    ALL_OTHER, ALL_OTHER, ALL_OTHER, ALL_OTHER, ALL_OTHER, ALL_OTHER, ALL_OTHER, ALL_OTHER,
    ALL_OTHER, ALL_OTHER, ALL_OTHER, ALL_OTHER, ALL_OTHER, ALL_OTHER, ALL_OTHER, ALL_OTHER,
    ALL_OTHER, ALL_OTHER, ALL_OTHER, ALL_OTHER, ALL_OTHER, ALL_OTHER, ALL_OTHER, ALL_OTHER,
    ALL_OTHER, ALL_OTHER, ALL_OTHER, ALL_OTHER, ALL_OTHER, ALL_OTHER, ALL_OTHER, ALL_OTHER,
    ALL_OTHER, ALL_OTHER, ALL_OTHER, ALL_OTHER, ALL_OTHER, ALL_OTHER, ALL_OTHER, ALL_OTHER,
    ALL_OTHER, ALL_OTHER, ALL_OTHER, ALL_OTHER, ALL_OTHER, ALL_OTHER, ALL_OTHER, ALL_OTHER,
    ALL_OTHER, ALL_OTHER, ALL_OTHER, ALL_OTHER, ALL_OTHER, ALL_OTHER, ALL_OTHER, ALL_OTHER,
    ALL_OTHER, ALL_OTHER, ALL_OTHER, ALL_OTHER, ALL_OTHER, ALL_OTHER, ALL_OTHER, ALL_OTHER,
    ALL_OTHER, ALL_OTHER, ALL_OTHER, ALL_OTHER, ALL_OTHER, ALL_OTHER, ALL_OTHER, ALL_OTHER,
    ALL_OTHER, ALL_OTHER, ALL_OTHER, ALL_OTHER, ALL_OTHER, ALL_OTHER, ALL_OTHER, ALL_OTHER,
];

#[verifier::opaque]
pub const GP_PLANE_15: [u16; 256] = [
    ALL_OTHER, ALL_OTHER, ALL_OTHER, ALL_OTHER, ALL_OTHER, ALL_OTHER, ALL_OTHER, ALL_OTHER,
    ALL_OTHER, ALL_OTHER, ALL_OTHER, ALL_OTHER, ALL_OTHER, ALL_OTHER, ALL_OTHER, ALL_OTHER,
    ALL_OTHER, ALL_OTHER, ALL_OTHER, ALL_OTHER, ALL_OTHER, ALL_OTHER, ALL_OTHER, ALL_OTHER,
    ALL_OTHER, ALL_OTHER, ALL_OTHER, ALL_OTHER, ALL_OTHER, ALL_OTHER, ALL_OTHER, ALL_OTHER,
    ALL_OTHER, ALL_OTHER, ALL_OTHER, ALL_OTHER, ALL_OTHER, ALL_OTHER, ALL_OTHER, ALL_OTHER,
    ALL_OTHER, ALL_OTHER, ALL_OTHER, ALL_OTHER, ALL_OTHER, ALL_OTHER, ALL_OTHER, ALL_OTHER,
    ALL_OTHER, ALL_OTHER, ALL_OTHER, ALL_OTHER, ALL_OTHER, ALL_OTHER, ALL_OTHER, ALL_OTHER,
    ALL_OTHER, ALL_OTHER, ALL_OTHER, ALL_OTHER, ALL_OTHER, ALL_OTHER, ALL_OTHER, ALL_OTHER,
    ALL_OTHER, ALL_OTHER, ALL_OTHER, ALL_OTHER, ALL_OTHER, ALL_OTHER, ALL_OTHER, ALL_OTHER,
    ALL_OTHER, ALL_OTHER, ALL_OTHER, ALL_OTHER, ALL_OTHER, ALL_OTHER, ALL_OTHER, ALL_OTHER,
    ALL_OTHER, ALL_OTHER, ALL_OTHER, ALL_OTHER, ALL_OTHER, ALL_OTHER, ALL_OTHER, ALL_OTHER,
    ALL_OTHER, ALL_OTHER, ALL_OTHER, ALL_OTHER, ALL_OTHER, ALL_OTHER, ALL_OTHER, ALL_OTHER,
    ALL_OTHER, ALL_OTHER, ALL_OTHER, ALL_OTHER, ALL_OTHER, ALL_OTHER, ALL_OTHER, ALL_OTHER,
    ALL_OTHER, ALL_OTHER, ALL_OTHER, ALL_OTHER, ALL_OTHER, ALL_OTHER, ALL_OTHER, ALL_OTHER,
    ALL_OTHER, ALL_OTHER, ALL_OTHER, ALL_OTHER, ALL_OTHER, ALL_OTHER, ALL_OTHER, ALL_OTHER,
    ALL_OTHER, ALL_OTHER, ALL_OTHER, ALL_OTHER, ALL_OTHER, ALL_OTHER, ALL_OTHER, ALL_OTHER,
    ALL_OTHER, ALL_OTHER, ALL_OTHER, ALL_OTHER, ALL_OTHER, ALL_OTHER, ALL_OTHER, ALL_OTHER,
    ALL_OTHER, ALL_OTHER, ALL_OTHER, ALL_OTHER, ALL_OTHER, ALL_OTHER, ALL_OTHER, ALL_OTHER,
    ALL_OTHER, ALL_OTHER, ALL_OTHER, ALL_OTHER, ALL_OTHER, ALL_OTHER, ALL_OTHER, ALL_OTHER,
    ALL_OTHER, ALL_OTHER, ALL_OTHER, ALL_OTHER, ALL_OTHER, ALL_OTHER, ALL_OTHER, ALL_OTHER,
    ALL_OTHER, ALL_OTHER, ALL_OTHER, ALL_OTHER, ALL_OTHER, ALL_OTHER, ALL_OTHER, ALL_OTHER,
    ALL_OTHER, ALL_OTHER, ALL_OTHER, ALL_OTHER, ALL_OTHER, ALL_OTHER, ALL_OTHER, ALL_OTHER,
    ALL_OTHER, ALL_OTHER, ALL_OTHER, ALL_OTHER, ALL_OTHER, ALL_OTHER, ALL_OTHER, ALL_OTHER,
    ALL_OTHER, ALL_OTHER, ALL_OTHER, ALL_OTHER, ALL_OTHER, ALL_OTHER, ALL_OTHER, ALL_OTHER,
    ALL_OTHER, ALL_OTHER, ALL_OTHER, ALL_OTHER, ALL_OTHER, ALL_OTHER, ALL_OTHER, ALL_OTHER,
    ALL_OTHER, ALL_OTHER, ALL_OTHER, ALL_OTHER, ALL_OTHER, ALL_OTHER, ALL_OTHER, ALL_OTHER,
    ALL_OTHER, ALL_OTHER, ALL_OTHER, ALL_OTHER, ALL_OTHER, ALL_OTHER, ALL_OTHER, ALL_OTHER,
    ALL_OTHER, ALL_OTHER, ALL_OTHER, ALL_OTHER, ALL_OTHER, ALL_OTHER, ALL_OTHER, ALL_OTHER,
    ALL_OTHER, ALL_OTHER, ALL_OTHER, ALL_OTHER, ALL_OTHER, ALL_OTHER, ALL_OTHER, ALL_OTHER,
    ALL_OTHER, ALL_OTHER, ALL_OTHER, ALL_OTHER, ALL_OTHER, ALL_OTHER, ALL_OTHER, ALL_OTHER,
    ALL_OTHER, ALL_OTHER, ALL_OTHER, ALL_OTHER, ALL_OTHER, ALL_OTHER, ALL_OTHER, ALL_OTHER,
    ALL_OTHER, ALL_OTHER, ALL_OTHER, ALL_OTHER, ALL_OTHER, ALL_OTHER, ALL_OTHER, ALL_OTHER,
];

#[verifier::opaque]
pub const GP_PLANE_16: [u16; 256] = [
    ALL_OTHER, ALL_OTHER, ALL_OTHER, ALL_OTHER, ALL_OTHER, ALL_OTHER, ALL_OTHER, ALL_OTHER,
    ALL_OTHER, ALL_OTHER, ALL_OTHER, ALL_OTHER, ALL_OTHER, ALL_OTHER, ALL_OTHER, ALL_OTHER,
    ALL_OTHER, ALL_OTHER, ALL_OTHER, ALL_OTHER, ALL_OTHER, ALL_OTHER, ALL_OTHER, ALL_OTHER,
    ALL_OTHER, ALL_OTHER, ALL_OTHER, ALL_OTHER, ALL_OTHER, ALL_OTHER, ALL_OTHER, ALL_OTHER,
    ALL_OTHER, ALL_OTHER, ALL_OTHER, ALL_OTHER, ALL_OTHER, ALL_OTHER, ALL_OTHER, ALL_OTHER,
    ALL_OTHER, ALL_OTHER, ALL_OTHER, ALL_OTHER, ALL_OTHER, ALL_OTHER, ALL_OTHER, ALL_OTHER,
    ALL_OTHER, ALL_OTHER, ALL_OTHER, ALL_OTHER, ALL_OTHER, ALL_OTHER, ALL_OTHER, ALL_OTHER,
    ALL_OTHER, ALL_OTHER, ALL_OTHER, ALL_OTHER, ALL_OTHER, ALL_OTHER, ALL_OTHER, ALL_OTHER,
    ALL_OTHER, ALL_OTHER, ALL_OTHER, ALL_OTHER, ALL_OTHER, ALL_OTHER, ALL_OTHER, ALL_OTHER,
    ALL_OTHER, ALL_OTHER, ALL_OTHER, ALL_OTHER, ALL_OTHER, ALL_OTHER, ALL_OTHER, ALL_OTHER,
    ALL_OTHER, ALL_OTHER, ALL_OTHER, ALL_OTHER, ALL_OTHER, ALL_OTHER, ALL_OTHER, ALL_OTHER,
    ALL_OTHER, ALL_OTHER, ALL_OTHER, ALL_OTHER, ALL_OTHER, ALL_OTHER, ALL_OTHER, ALL_OTHER,
    ALL_OTHER, ALL_OTHER, ALL_OTHER, ALL_OTHER, ALL_OTHER, ALL_OTHER, ALL_OTHER, ALL_OTHER,
    ALL_OTHER, ALL_OTHER, ALL_OTHER, ALL_OTHER, ALL_OTHER, ALL_OTHER, ALL_OTHER, ALL_OTHER,
    ALL_OTHER, ALL_OTHER, ALL_OTHER, ALL_OTHER, ALL_OTHER, ALL_OTHER, ALL_OTHER, ALL_OTHER,
    ALL_OTHER, ALL_OTHER, ALL_OTHER, ALL_OTHER, ALL_OTHER, ALL_OTHER, ALL_OTHER, ALL_OTHER,
    ALL_OTHER, ALL_OTHER, ALL_OTHER, ALL_OTHER, ALL_OTHER, ALL_OTHER, ALL_OTHER, ALL_OTHER,
    ALL_OTHER, ALL_OTHER, ALL_OTHER, ALL_OTHER, ALL_OTHER, ALL_OTHER, ALL_OTHER, ALL_OTHER,
    ALL_OTHER, ALL_OTHER, ALL_OTHER, ALL_OTHER, ALL_OTHER, ALL_OTHER, ALL_OTHER, ALL_OTHER,
    ALL_OTHER, ALL_OTHER, ALL_OTHER, ALL_OTHER, ALL_OTHER, ALL_OTHER, ALL_OTHER, ALL_OTHER,
    ALL_OTHER, ALL_OTHER, ALL_OTHER, ALL_OTHER, ALL_OTHER, ALL_OTHER, ALL_OTHER, ALL_OTHER,
    ALL_OTHER, ALL_OTHER, ALL_OTHER, ALL_OTHER, ALL_OTHER, ALL_OTHER, ALL_OTHER, ALL_OTHER,
    ALL_OTHER, ALL_OTHER, ALL_OTHER, ALL_OTHER, ALL_OTHER, ALL_OTHER, ALL_OTHER, ALL_OTHER,
    ALL_OTHER, ALL_OTHER, ALL_OTHER, ALL_OTHER, ALL_OTHER, ALL_OTHER, ALL_OTHER, ALL_OTHER,
    ALL_OTHER, ALL_OTHER, ALL_OTHER, ALL_OTHER, ALL_OTHER, ALL_OTHER, ALL_OTHER, ALL_OTHER,
    ALL_OTHER, ALL_OTHER, ALL_OTHER, ALL_OTHER, ALL_OTHER, ALL_OTHER, ALL_OTHER, ALL_OTHER,
    ALL_OTHER, ALL_OTHER, ALL_OTHER, ALL_OTHER, ALL_OTHER, ALL_OTHER, ALL_OTHER, ALL_OTHER,
    ALL_OTHER, ALL_OTHER, ALL_OTHER, ALL_OTHER, ALL_OTHER, ALL_OTHER, ALL_OTHER, ALL_OTHER,
    ALL_OTHER, ALL_OTHER, ALL_OTHER, ALL_OTHER, ALL_OTHER, ALL_OTHER, ALL_OTHER, ALL_OTHER,
    ALL_OTHER, ALL_OTHER, ALL_OTHER, ALL_OTHER, ALL_OTHER, ALL_OTHER, ALL_OTHER, ALL_OTHER,
    ALL_OTHER, ALL_OTHER, ALL_OTHER, ALL_OTHER, ALL_OTHER, ALL_OTHER, ALL_OTHER, ALL_OTHER,
    ALL_OTHER, ALL_OTHER, ALL_OTHER, ALL_OTHER, ALL_OTHER, ALL_OTHER, ALL_OTHER, ALL_OTHER,
];

/// The distinct pages that `GP_TABLE` refers to.
#[verifier::opaque]
pub const GP_PAGES: [[u8; 256]; 98] = [
    GP_PAGE_0, GP_PAGE_1, GP_PAGE_2, GP_PAGE_3, GP_PAGE_4, GP_PAGE_5, GP_PAGE_6, GP_PAGE_7,
    GP_PAGE_8, GP_PAGE_9, GP_PAGE_10, GP_PAGE_11, GP_PAGE_12, GP_PAGE_13, GP_PAGE_14, GP_PAGE_15,
    GP_PAGE_16, GP_PAGE_17, GP_PAGE_18, GP_PAGE_19, GP_PAGE_20, GP_PAGE_21, GP_PAGE_22, GP_PAGE_23,
    GP_PAGE_24, GP_PAGE_25, GP_PAGE_26, GP_PAGE_27, GP_PAGE_28, GP_PAGE_29, GP_PAGE_30, GP_PAGE_31,
    GP_PAGE_32, GP_PAGE_33, GP_PAGE_34, GP_PAGE_35, GP_PAGE_36, GP_PAGE_37, GP_PAGE_38, GP_PAGE_39,
    GP_PAGE_40, GP_PAGE_41, GP_PAGE_42, GP_PAGE_43, GP_PAGE_44, GP_PAGE_45, GP_PAGE_46, GP_PAGE_47,
    GP_PAGE_48, GP_PAGE_49, GP_PAGE_50, GP_PAGE_51, GP_PAGE_52, GP_PAGE_53, GP_PAGE_54, GP_PAGE_55,
    GP_PAGE_56, GP_PAGE_57, GP_PAGE_58, GP_PAGE_59, GP_PAGE_60, GP_PAGE_61, GP_PAGE_62, GP_PAGE_63,
    GP_PAGE_64, GP_PAGE_65, GP_PAGE_66, GP_PAGE_67, GP_PAGE_68, GP_PAGE_69, GP_PAGE_70, GP_PAGE_71,
    GP_PAGE_72, GP_PAGE_73, GP_PAGE_74, GP_PAGE_75, GP_PAGE_76, GP_PAGE_77, GP_PAGE_78, GP_PAGE_79,
    GP_PAGE_80, GP_PAGE_81, GP_PAGE_82, GP_PAGE_83, GP_PAGE_84, GP_PAGE_85, GP_PAGE_86, GP_PAGE_87,
    GP_PAGE_88, GP_PAGE_89, GP_PAGE_90, GP_PAGE_91, GP_PAGE_92, GP_PAGE_93, GP_PAGE_94, GP_PAGE_95,
    GP_PAGE_96, GP_PAGE_97,
];

#[verifier::opaque]
pub const GP_PAGE_0: [u8; 256] = [
    CONTROL, CONTROL, CONTROL, CONTROL, CONTROL, CONTROL, CONTROL, CONTROL,
    CONTROL, CONTROL, CONTROL, CONTROL, CONTROL, CONTROL, CONTROL, CONTROL,
    CONTROL, CONTROL, CONTROL, CONTROL, CONTROL, CONTROL, CONTROL, CONTROL,
    CONTROL, CONTROL, CONTROL, CONTROL, CONTROL, CONTROL, CONTROL, CONTROL,
    OTHER, OTHER, OTHER, OTHER, OTHER, OTHER, OTHER, OTHER,
    OTHER, OTHER, OTHER, OTHER, OTHER, OTHER, OTHER, OTHER,
    OTHER, OTHER, OTHER, OTHER, OTHER, OTHER, OTHER, OTHER,
    OTHER, OTHER, OTHER, OTHER, OTHER, OTHER, OTHER, OTHER,
    OTHER, OTHER, OTHER, OTHER, OTHER, OTHER, OTHER, OTHER,
    OTHER, OTHER, OTHER, OTHER, OTHER, OTHER, OTHER, OTHER,
    OTHER, OTHER, OTHER, OTHER, OTHER, OTHER, OTHER, OTHER,
    OTHER, OTHER, OTHER, OTHER, OTHER, OTHER, OTHER, OTHER,
    OTHER, OTHER, OTHER, OTHER, OTHER, OTHER, OTHER, OTHER,
    OTHER, OTHER, OTHER, OTHER, OTHER, OTHER, OTHER, OTHER,
    OTHER, OTHER, OTHER, OTHER, OTHER, OTHER, OTHER, OTHER,
    OTHER, OTHER, OTHER, OTHER, OTHER, OTHER, OTHER, CONTROL,
    CONTROL, CONTROL, CONTROL, CONTROL, CONTROL, CONTROL, CONTROL, CONTROL,
    CONTROL, CONTROL, CONTROL, CONTROL, CONTROL, CONTROL, CONTROL, CONTROL,
    CONTROL, CONTROL, CONTROL, CONTROL, CONTROL, CONTROL, CONTROL, CONTROL,
    CONTROL, CONTROL, CONTROL, CONTROL, CONTROL, CONTROL, CONTROL, CONTROL,
    OTHER, OTHER, OTHER, OTHER, OTHER, OTHER, OTHER, OTHER,
    OTHER, EXTENDED_GRAPHEME, OTHER, OTHER, OTHER, CONTROL, EXTENDED_GRAPHEME, OTHER,
    OTHER, OTHER, OTHER, OTHER, OTHER, OTHER, OTHER, OTHER,
    OTHER, OTHER, OTHER, OTHER, OTHER, OTHER, OTHER, OTHER,
    OTHER, OTHER, OTHER, OTHER, OTHER, OTHER, OTHER, OTHER,
    OTHER, OTHER, OTHER, OTHER, OTHER, OTHER, OTHER, OTHER,
    OTHER, OTHER, OTHER, OTHER, OTHER, OTHER, OTHER, OTHER,
    OTHER, OTHER, OTHER, OTHER, OTHER, OTHER, OTHER, OTHER,
    OTHER, OTHER, OTHER, OTHER, OTHER, OTHER, OTHER, OTHER,
    OTHER, OTHER, OTHER, OTHER, OTHER, OTHER, OTHER, OTHER,
    OTHER, OTHER, OTHER, OTHER, OTHER, OTHER, OTHER, OTHER,
    OTHER, OTHER, OTHER, OTHER, OTHER, OTHER, OTHER, OTHER,
];

#[verifier::opaque]
pub const GP_PAGE_1: [u8; 256] = [
    EXTEND, EXTEND, EXTEND, EXTEND, EXTEND, EXTEND, EXTEND, EXTEND,
    EXTEND, EXTEND, EXTEND, EXTEND, EXTEND, EXTEND, EXTEND, EXTEND,
    EXTEND, EXTEND, EXTEND, EXTEND, EXTEND, EXTEND, EXTEND, EXTEND,
    EXTEND, EXTEND, EXTEND, EXTEND, EXTEND, EXTEND, EXTEND, EXTEND,
    EXTEND, EXTEND, EXTEND, EXTEND, EXTEND, EXTEND, EXTEND, EXTEND,
    EXTEND, EXTEND, EXTEND, EXTEND, EXTEND, EXTEND, EXTEND, EXTEND,
    EXTEND, EXTEND, EXTEND, EXTEND, EXTEND, EXTEND, EXTEND, EXTEND,
    EXTEND, EXTEND, EXTEND, EXTEND, EXTEND, EXTEND, EXTEND, EXTEND,
    EXTEND, EXTEND, EXTEND, EXTEND, EXTEND, EXTEND, EXTEND, EXTEND,
    EXTEND, EXTEND, EXTEND, EXTEND, EXTEND, EXTEND, EXTEND, EXTEND,
    EXTEND, EXTEND, EXTEND, EXTEND, EXTEND, EXTEND, EXTEND, EXTEND,
    EXTEND, EXTEND, EXTEND, EXTEND, EXTEND, EXTEND, EXTEND, EXTEND,
    EXTEND, EXTEND, EXTEND, EXTEND, EXTEND, EXTEND, EXTEND, EXTEND,
    EXTEND, EXTEND, EXTEND, EXTEND, EXTEND, EXTEND, EXTEND, EXTEND,
    OTHER, OTHER, OTHER, OTHER, OTHER, OTHER, OTHER, OTHER,
    OTHER, OTHER, OTHER, OTHER, OTHER, OTHER, OTHER, OTHER,
    OTHER, OTHER, OTHER, OTHER, OTHER, OTHER, OTHER, OTHER,
    OTHER, OTHER, OTHER, OTHER, OTHER, OTHER, OTHER, OTHER,
    OTHER, OTHER, OTHER, OTHER, OTHER, OTHER, OTHER, OTHER,
    OTHER, OTHER, OTHER, OTHER, OTHER, OTHER, OTHER, OTHER,
    OTHER, OTHER, OTHER, OTHER, OTHER, OTHER, OTHER, OTHER,
    OTHER, OTHER, OTHER, OTHER, OTHER, OTHER, OTHER, OTHER,
    OTHER, OTHER, OTHER, OTHER, OTHER, OTHER, OTHER, OTHER,
    OTHER, OTHER, OTHER, OTHER, OTHER, OTHER, OTHER, OTHER,
    OTHER, OTHER, OTHER, OTHER, OTHER, OTHER, OTHER, OTHER,
    OTHER, OTHER, OTHER, OTHER, OTHER, OTHER, OTHER, OTHER,
    OTHER, OTHER, OTHER, OTHER, OTHER, OTHER, OTHER, OTHER,
    OTHER, OTHER, OTHER, OTHER, OTHER, OTHER, OTHER, OTHER,
    OTHER, OTHER, OTHER, OTHER, OTHER, OTHER, OTHER, OTHER,
    OTHER, OTHER, OTHER, OTHER, OTHER, OTHER, OTHER, OTHER,
    OTHER, OTHER, OTHER, OTHER, OTHER, OTHER, OTHER, OTHER,
    OTHER, OTHER, OTHER, OTHER, OTHER, OTHER, OTHER, OTHER,
];

#[verifier::opaque]
pub const GP_PAGE_2: [u8; 256] = [
    OTHER, OTHER, OTHER, OTHER, OTHER, OTHER, OTHER, OTHER,
    OTHER, OTHER, OTHER, OTHER, OTHER, OTHER, OTHER, OTHER,
    OTHER, OTHER, OTHER, OTHER, OTHER, OTHER, OTHER, OTHER,
    OTHER, OTHER, OTHER, OTHER, OTHER, OTHER, OTHER, OTHER,
    OTHER, OTHER, OTHER, OTHER, OTHER, OTHER, OTHER, OTHER,
    OTHER, OTHER, OTHER, OTHER, OTHER, OTHER, OTHER, OTHER,
    OTHER, OTHER, OTHER, OTHER, OTHER, OTHER, OTHER, OTHER,
    OTHER, OTHER, OTHER, OTHER, OTHER, OTHER, OTHER, OTHER,
    OTHER, OTHER, OTHER, OTHER, OTHER, OTHER, OTHER, OTHER,
    OTHER, OTHER, OTHER, OTHER, OTHER, OTHER, OTHER, OTHER,
    OTHER, OTHER, OTHER, OTHER, OTHER, OTHER, OTHER, OTHER,
    OTHER, OTHER, OTHER, OTHER, OTHER, OTHER, OTHER, OTHER,
    OTHER, OTHER, OTHER, OTHER, OTHER, OTHER, OTHER, OTHER,
    OTHER, OTHER, OTHER, OTHER, OTHER, OTHER, OTHER, OTHER,
    OTHER, OTHER, OTHER, OTHER, OTHER, OTHER, OTHER, OTHER,
    OTHER, OTHER, OTHER, OTHER, OTHER, OTHER, OTHER, OTHER,
    OTHER, OTHER, OTHER, EXTEND, EXTEND, EXTEND, EXTEND, EXTEND,
    EXTEND, EXTEND, OTHER, OTHER, OTHER, OTHER, OTHER, OTHER,
    OTHER, OTHER, OTHER, OTHER, OTHER, OTHER, OTHER, OTHER,
    OTHER, OTHER, OTHER, OTHER, OTHER, OTHER, OTHER, OTHER,
    OTHER, OTHER, OTHER, OTHER, OTHER, OTHER, OTHER, OTHER,
    OTHER, OTHER, OTHER, OTHER, OTHER, OTHER, OTHER, OTHER,
    OTHER, OTHER, OTHER, OTHER, OTHER, OTHER, OTHER, OTHER,
    OTHER, OTHER, OTHER, OTHER, OTHER, OTHER, OTHER, OTHER,
    OTHER, OTHER, OTHER, OTHER, OTHER, OTHER, OTHER, OTHER,
    OTHER, OTHER, OTHER, OTHER, OTHER, OTHER, OTHER, OTHER,
    OTHER, OTHER, OTHER, OTHER, OTHER, OTHER, OTHER, OTHER,
    OTHER, OTHER, OTHER, OTHER, OTHER, OTHER, OTHER, OTHER,
    OTHER, OTHER, OTHER, OTHER, OTHER, OTHER, OTHER, OTHER,
    OTHER, OTHER, OTHER, OTHER, OTHER, OTHER, OTHER, OTHER,
    OTHER, OTHER, OTHER, OTHER, OTHER, OTHER, OTHER, OTHER,
    OTHER, OTHER, OTHER, OTHER, OTHER, OTHER, OTHER, OTHER,
];

#[verifier::opaque]
pub const GP_PAGE_3: [u8; 256] = [
    OTHER, OTHER, OTHER, OTHER, OTHER, OTHER, OTHER, OTHER,
    OTHER, OTHER, OTHER, OTHER, OTHER, OTHER, OTHER, OTHER,
    OTHER, OTHER, OTHER, OTHER, OTHER, OTHER, OTHER, OTHER,
    OTHER, OTHER, OTHER, OTHER, OTHER, OTHER, OTHER, OTHER,
    OTHER, OTHER, OTHER, OTHER, OTHER, OTHER, OTHER, OTHER,
    OTHER, OTHER, OTHER, OTHER, OTHER, OTHER, OTHER, OTHER,
    OTHER, OTHER, OTHER, OTHER, OTHER, OTHER, OTHER, OTHER,
    OTHER, OTHER, OTHER, OTHER, OTHER, OTHER, OTHER, OTHER,
    OTHER, OTHER, OTHER, OTHER, OTHER, OTHER, OTHER, OTHER,
    OTHER, OTHER, OTHER, OTHER, OTHER, OTHER, OTHER, OTHER,
    OTHER, OTHER, OTHER, OTHER, OTHER, OTHER, OTHER, OTHER,
    OTHER, OTHER, OTHER, OTHER, OTHER, OTHER, OTHER, OTHER,
    OTHER, OTHER, OTHER, OTHER, OTHER, OTHER, OTHER, OTHER,
    OTHER, OTHER, OTHER, OTHER, OTHER, OTHER, OTHER, OTHER,
    OTHER, OTHER, OTHER, OTHER, OTHER, OTHER, OTHER, OTHER,
    OTHER, OTHER, OTHER, OTHER, OTHER, OTHER, OTHER, OTHER,
    OTHER, OTHER, OTHER, OTHER, OTHER, OTHER, OTHER, OTHER,
    OTHER, OTHER, OTHER, OTHER, OTHER, OTHER, OTHER, OTHER,
    OTHER, EXTEND, EXTEND, EXTEND, EXTEND, EXTEND, EXTEND, EXTEND,
    EXTEND, EXTEND, EXTEND, EXTEND, EXTEND, EXTEND, EXTEND, EXTEND,
    EXTEND, EXTEND, EXTEND, EXTEND, EXTEND, EXTEND, EXTEND, EXTEND,
    EXTEND, EXTEND, EXTEND, EXTEND, EXTEND, EXTEND, EXTEND, EXTEND,
    EXTEND, EXTEND, EXTEND, EXTEND, EXTEND, EXTEND, EXTEND, EXTEND,
    EXTEND, EXTEND, EXTEND, EXTEND, EXTEND, EXTEND, OTHER, EXTEND,
    OTHER, EXTEND, EXTEND, OTHER, EXTEND, EXTEND, OTHER, EXTEND,
    OTHER, OTHER, OTHER, OTHER, OTHER, OTHER, OTHER, OTHER,
    OTHER, OTHER, OTHER, OTHER, OTHER, OTHER, OTHER, OTHER,
    OTHER, OTHER, OTHER, OTHER, OTHER, OTHER, OTHER, OTHER,
    OTHER, OTHER, OTHER, OTHER, OTHER, OTHER, OTHER, OTHER,
    OTHER, OTHER, OTHER, OTHER, OTHER, OTHER, OTHER, OTHER,
    OTHER, OTHER, OTHER, OTHER, OTHER, OTHER, OTHER, OTHER,
    OTHER, OTHER, OTHER, OTHER, OTHER, OTHER, OTHER, OTHER,
];

#[verifier::opaque]
pub const GP_PAGE_4: [u8; 256] = [
    PREPEND, PREPEND, PREPEND, PREPEND, PREPEND, PREPEND, OTHER, OTHER,
    OTHER, OTHER, OTHER, OTHER, OTHER, OTHER, OTHER, OTHER,
    EXTEND, EXTEND, EXTEND, EXTEND, EXTEND, EXTEND, EXTEND, EXTEND,
    EXTEND, EXTEND, EXTEND, OTHER, CONTROL, OTHER, OTHER, OTHER,
    OTHER, OTHER, OTHER, OTHER, OTHER, OTHER, OTHER, OTHER,
    OTHER, OTHER, OTHER, OTHER, OTHER, OTHER, OTHER, OTHER,
    OTHER, OTHER, OTHER, OTHER, OTHER, OTHER, OTHER, OTHER,
    OTHER, OTHER, OTHER, OTHER, OTHER, OTHER, OTHER, OTHER,
    OTHER, OTHER, OTHER, OTHER, OTHER, OTHER, OTHER, OTHER,
    OTHER, OTHER, OTHER, EXTEND, EXTEND, EXTEND, EXTEND, EXTEND,
    EXTEND, EXTEND, EXTEND, EXTEND, EXTEND, EXTEND, EXTEND, EXTEND,
    EXTEND, EXTEND, EXTEND, EXTEND, EXTEND, EXTEND, EXTEND, EXTEND,
    OTHER, OTHER, OTHER, OTHER, OTHER, OTHER, OTHER, OTHER,
    OTHER, OTHER, OTHER, OTHER, OTHER, OTHER, OTHER, OTHER,
    EXTEND, OTHER, OTHER, OTHER, OTHER, OTHER, OTHER, OTHER,
    OTHER, OTHER, OTHER, OTHER, OTHER, OTHER, OTHER, OTHER,
    OTHER, OTHER, OTHER, OTHER, OTHER, OTHER, OTHER, OTHER,
    OTHER, OTHER, OTHER, OTHER, OTHER, OTHER, OTHER, OTHER,
    OTHER, OTHER, OTHER, OTHER, OTHER, OTHER, OTHER, OTHER,
    OTHER, OTHER, OTHER, OTHER, OTHER, OTHER, OTHER, OTHER,
    OTHER, OTHER, OTHER, OTHER, OTHER, OTHER, OTHER, OTHER,
    OTHER, OTHER, OTHER, OTHER, OTHER, OTHER, OTHER, OTHER,
    OTHER, OTHER, OTHER, OTHER, OTHER, OTHER, OTHER, OTHER,
    OTHER, OTHER, OTHER, OTHER, OTHER, OTHER, OTHER, OTHER,
    OTHER, OTHER, OTHER, OTHER, OTHER, OTHER, OTHER, OTHER,
    OTHER, OTHER, OTHER, OTHER, OTHER, OTHER, OTHER, OTHER,
    OTHER, OTHER, OTHER, OTHER, OTHER, OTHER, EXTEND, EXTEND,
    EXTEND, EXTEND, EXTEND, EXTEND, EXTEND, PREPEND, OTHER, EXTEND,
    EXTEND, EXTEND, EXTEND, EXTEND, EXTEND, OTHER, OTHER, EXTEND,
    EXTEND, OTHER, EXTEND, EXTEND, EXTEND, EXTEND, OTHER, OTHER,
    OTHER, OTHER, OTHER, OTHER, OTHER, OTHER, OTHER, OTHER,
    OTHER, OTHER, OTHER, OTHER, OTHER, OTHER, OTHER, OTHER,
];

#[verifier::opaque]
pub const GP_PAGE_5: [u8; 256] = [
    OTHER, OTHER, OTHER, OTHER, OTHER, OTHER, OTHER, OTHER,
    OTHER, OTHER, OTHER, OTHER, OTHER, OTHER, OTHER, PREPEND,
    OTHER, EXTEND, OTHER, OTHER, OTHER, OTHER, OTHER, OTHER,
    OTHER, OTHER, OTHER, OTHER, OTHER, OTHER, OTHER, OTHER,
    OTHER, OTHER, OTHER, OTHER, OTHER, OTHER, OTHER, OTHER,
    OTHER, OTHER, OTHER, OTHER, OTHER, OTHER, OTHER, OTHER,
    EXTEND, EXTEND, EXTEND, EXTEND, EXTEND, EXTEND, EXTEND, EXTEND,
    EXTEND, EXTEND, EXTEND, EXTEND, EXTEND, EXTEND, EXTEND, EXTEND,
    EXTEND, EXTEND, EXTEND, EXTEND, EXTEND, EXTEND, EXTEND, EXTEND,
    EXTEND, EXTEND, EXTEND, OTHER, OTHER, OTHER, OTHER, OTHER,
    OTHER, OTHER, OTHER, OTHER, OTHER, OTHER, OTHER, OTHER,
    OTHER, OTHER, OTHER, OTHER, OTHER, OTHER, OTHER, OTHER,
    OTHER, OTHER, OTHER, OTHER, OTHER, OTHER, OTHER, OTHER,
    OTHER, OTHER, OTHER, OTHER, OTHER, OTHER, OTHER, OTHER,
    OTHER, OTHER, OTHER, OTHER, OTHER, OTHER, OTHER, OTHER,
    OTHER, OTHER, OTHER, OTHER, OTHER, OTHER, OTHER, OTHER,
    OTHER, OTHER, OTHER, OTHER, OTHER, OTHER, OTHER, OTHER,
    OTHER, OTHER, OTHER, OTHER, OTHER, OTHER, OTHER, OTHER,
    OTHER, OTHER, OTHER, OTHER, OTHER, OTHER, OTHER, OTHER,
    OTHER, OTHER, OTHER, OTHER, OTHER, OTHER, OTHER, OTHER,
    OTHER, OTHER, OTHER, OTHER, OTHER, OTHER, EXTEND, EXTEND,
    EXTEND, EXTEND, EXTEND, EXTEND, EXTEND, EXTEND, EXTEND, EXTEND,
    EXTEND, OTHER, OTHER, OTHER, OTHER, OTHER, OTHER, OTHER,
    OTHER, OTHER, OTHER, OTHER, OTHER, OTHER, OTHER, OTHER,
    OTHER, OTHER, OTHER, OTHER, OTHER, OTHER, OTHER, OTHER,
    OTHER, OTHER, OTHER, OTHER, OTHER, OTHER, OTHER, OTHER,
    OTHER, OTHER, OTHER, OTHER, OTHER, OTHER, OTHER, OTHER,
    OTHER, OTHER, OTHER, OTHER, OTHER, OTHER, OTHER, OTHER,
    OTHER, OTHER, OTHER, OTHER, OTHER, OTHER, OTHER, OTHER,
    OTHER, OTHER, OTHER, EXTEND, EXTEND, EXTEND, EXTEND, EXTEND,
    EXTEND, EXTEND, EXTEND, EXTEND, OTHER, OTHER, OTHER, OTHER,
    OTHER, OTHER, OTHER, OTHER, OTHER, EXTEND, OTHER, OTHER,
];

#[verifier::opaque]
pub const GP_PAGE_6: [u8; 256] = [
    OTHER, OTHER, OTHER, OTHER, OTHER, OTHER, OTHER, OTHER,
    OTHER, OTHER, OTHER, OTHER, OTHER, OTHER, OTHER, OTHER,
    OTHER, OTHER, OTHER, OTHER, OTHER, OTHER, EXTEND, EXTEND,
    EXTEND, EXTEND, OTHER, EXTEND, EXTEND, EXTEND, EXTEND, EXTEND,
    EXTEND, EXTEND, EXTEND, EXTEND, OTHER, EXTEND, EXTEND, EXTEND,
    OTHER, EXTEND, EXTEND, EXTEND, EXTEND, EXTEND, OTHER, OTHER,
    OTHER, OTHER, OTHER, OTHER, OTHER, OTHER, OTHER, OTHER,
    OTHER, OTHER, OTHER, OTHER, OTHER, OTHER, OTHER, OTHER,
    OTHER, OTHER, OTHER, OTHER, OTHER, OTHER, OTHER, OTHER,
    OTHER, OTHER, OTHER, OTHER, OTHER, OTHER, OTHER, OTHER,
    OTHER, OTHER, OTHER, OTHER, OTHER, OTHER, OTHER, OTHER,
    OTHER, EXTEND, EXTEND, EXTEND, OTHER, OTHER, OTHER, OTHER,
    OTHER, OTHER, OTHER, OTHER, OTHER, OTHER, OTHER, OTHER,
    OTHER, OTHER, OTHER, OTHER, OTHER, OTHER, OTHER, OTHER,
    OTHER, OTHER, OTHER, OTHER, OTHER, OTHER, OTHER, OTHER,
    OTHER, OTHER, OTHER, OTHER, OTHER, OTHER, OTHER, OTHER,
    OTHER, OTHER, OTHER, OTHER, OTHER, OTHER, OTHER, OTHER,
    OTHER, OTHER, OTHER, OTHER, OTHER, OTHER, OTHER, OTHER,
    PREPEND, PREPEND, OTHER, OTHER, OTHER, OTHER, OTHER, OTHER,
    EXTEND, EXTEND, EXTEND, EXTEND, EXTEND, EXTEND, EXTEND, EXTEND,
    OTHER, OTHER, OTHER, OTHER, OTHER, OTHER, OTHER, OTHER,
    OTHER, OTHER, OTHER, OTHER, OTHER, OTHER, OTHER, OTHER,
    OTHER, OTHER, OTHER, OTHER, OTHER, OTHER, OTHER, OTHER,
    OTHER, OTHER, OTHER, OTHER, OTHER, OTHER, OTHER, OTHER,
    OTHER, OTHER, OTHER, OTHER, OTHER, OTHER, OTHER, OTHER,
    OTHER, OTHER, EXTEND, EXTEND, EXTEND, EXTEND, EXTEND, EXTEND,
    EXTEND, EXTEND, EXTEND, EXTEND, EXTEND, EXTEND, EXTEND, EXTEND,
    EXTEND, EXTEND, EXTEND, EXTEND, EXTEND, EXTEND, EXTEND, EXTEND,
    EXTEND, EXTEND, PREPEND, EXTEND, EXTEND, EXTEND, EXTEND, EXTEND,
    EXTEND, EXTEND, EXTEND, EXTEND, EXTEND, EXTEND, EXTEND, EXTEND,
    EXTEND, EXTEND, EXTEND, EXTEND, EXTEND, EXTEND, EXTEND, EXTEND,
    EXTEND, EXTEND, EXTEND, EXTEND, EXTEND, EXTEND, EXTEND, EXTEND,
];

#[verifier::opaque]
pub const GP_PAGE_7: [u8; 256] = [
    EXTEND, EXTEND, EXTEND, SPACING_MARK, OTHER, OTHER, OTHER, OTHER,
    OTHER, OTHER, OTHER, OTHER, OTHER, OTHER, OTHER, OTHER,
    OTHER, OTHER, OTHER, OTHER, OTHER, OTHER, OTHER, OTHER,
    OTHER, OTHER, OTHER, OTHER, OTHER, OTHER, OTHER, OTHER,
    OTHER, OTHER, OTHER, OTHER, OTHER, OTHER, OTHER, OTHER,
    OTHER, OTHER, OTHER, OTHER, OTHER, OTHER, OTHER, OTHER,
    OTHER, OTHER, OTHER, OTHER, OTHER, OTHER, OTHER, OTHER,
    OTHER, OTHER, EXTEND, SPACING_MARK, EXTEND, OTHER, SPACING_MARK, SPACING_MARK,
    SPACING_MARK, EXTEND, EXTEND, EXTEND, EXTEND, EXTEND, EXTEND, EXTEND,
    EXTEND, SPACING_MARK, SPACING_MARK, SPACING_MARK, SPACING_MARK, EXTEND, SPACING_MARK, SPACING_MARK,
    OTHER, EXTEND, EXTEND, EXTEND, EXTEND, EXTEND, EXTEND, EXTEND,
    OTHER, OTHER, OTHER, OTHER, OTHER, OTHER, OTHER, OTHER,
    OTHER, OTHER, EXTEND, EXTEND, OTHER, OTHER, OTHER, OTHER,
    OTHER, OTHER, OTHER, OTHER, OTHER, OTHER, OTHER, OTHER,
    OTHER, OTHER, OTHER, OTHER, OTHER, OTHER, OTHER, OTHER,
    OTHER, OTHER, OTHER, OTHER, OTHER, OTHER, OTHER, OTHER,
    OTHER, EXTEND, SPACING_MARK, SPACING_MARK, OTHER, OTHER, OTHER, OTHER,
    OTHER, OTHER, OTHER, OTHER, OTHER, OTHER, OTHER, OTHER,
    OTHER, OTHER, OTHER, OTHER, OTHER, OTHER, OTHER, OTHER,
    OTHER, OTHER, OTHER, OTHER, OTHER, OTHER, OTHER, OTHER,
    OTHER, OTHER, OTHER, OTHER, OTHER, OTHER, OTHER, OTHER,
    OTHER, OTHER, OTHER, OTHER, OTHER, OTHER, OTHER, OTHER,
    OTHER, OTHER, OTHER, OTHER, OTHER, OTHER, OTHER, OTHER,
    OTHER, OTHER, OTHER, OTHER, EXTEND, OTHER, EXTEND, SPACING_MARK,
    SPACING_MARK, EXTEND, EXTEND, EXTEND, EXTEND, OTHER, OTHER, SPACING_MARK,
    SPACING_MARK, OTHER, OTHER, SPACING_MARK, SPACING_MARK, EXTEND, OTHER, OTHER,
    OTHER, OTHER, OTHER, OTHER, OTHER, OTHER, OTHER, EXTEND,
    OTHER, OTHER, OTHER, OTHER, OTHER, OTHER, OTHER, OTHER,
    OTHER, OTHER, EXTEND, EXTEND, OTHER, OTHER, OTHER, OTHER,
    OTHER, OTHER, OTHER, OTHER, OTHER, OTHER, OTHER, OTHER,
    OTHER, OTHER, OTHER, OTHER, OTHER, OTHER, OTHER, OTHER,
    OTHER, OTHER, OTHER, OTHER, OTHER, OTHER, EXTEND, OTHER,
];

#[verifier::opaque]
pub const GP_PAGE_8: [u8; 256] = [
    OTHER, EXTEND, EXTEND, SPACING_MARK, OTHER, OTHER, OTHER, OTHER,
    OTHER, OTHER, OTHER, OTHER, OTHER, OTHER, OTHER, OTHER,
    OTHER, OTHER, OTHER, OTHER, OTHER, OTHER, OTHER, OTHER,
    OTHER, OTHER, OTHER, OTHER, OTHER, OTHER, OTHER, OTHER,
    OTHER, OTHER, OTHER, OTHER, OTHER, OTHER, OTHER, OTHER,
    OTHER, OTHER, OTHER, OTHER, OTHER, OTHER, OTHER, OTHER,
    OTHER, OTHER, OTHER, OTHER, OTHER, OTHER, OTHER, OTHER,
    OTHER, OTHER, OTHER, OTHER, EXTEND, OTHER, SPACING_MARK, SPACING_MARK,
    SPACING_MARK, EXTEND, EXTEND, OTHER, OTHER, OTHER, OTHER, EXTEND,
    EXTEND, OTHER, OTHER, EXTEND, EXTEND, EXTEND, OTHER, OTHER,
    OTHER, EXTEND, OTHER, OTHER, OTHER, OTHER, OTHER, OTHER,
    OTHER, OTHER, OTHER, OTHER, OTHER, OTHER, OTHER, OTHER,
    OTHER, OTHER, OTHER, OTHER, OTHER, OTHER, OTHER, OTHER,
    OTHER, OTHER, OTHER, OTHER, OTHER, OTHER, OTHER, OTHER,
    EXTEND, EXTEND, OTHER, OTHER, OTHER, EXTEND, OTHER, OTHER,
    OTHER, OTHER, OTHER, OTHER, OTHER, OTHER, OTHER, OTHER,
    OTHER, EXTEND, EXTEND, SPACING_MARK, OTHER, OTHER, OTHER, OTHER,
    OTHER, OTHER, OTHER, OTHER, OTHER, OTHER, OTHER, OTHER,
    OTHER, OTHER, OTHER, OTHER, OTHER, OTHER, OTHER, OTHER,
    OTHER, OTHER, OTHER, OTHER, OTHER, OTHER, OTHER, OTHER,
    OTHER, OTHER, OTHER, OTHER, OTHER, OTHER, OTHER, OTHER,
    OTHER, OTHER, OTHER, OTHER, OTHER, OTHER, OTHER, OTHER,
    OTHER, OTHER, OTHER, OTHER, OTHER, OTHER, OTHER, OTHER,
    OTHER, OTHER, OTHER, OTHER, EXTEND, OTHER, SPACING_MARK, SPACING_MARK,
    SPACING_MARK, EXTEND, EXTEND, EXTEND, EXTEND, EXTEND, OTHER, EXTEND,
    EXTEND, SPACING_MARK, OTHER, SPACING_MARK, SPACING_MARK, EXTEND, OTHER, OTHER,
    OTHER, OTHER, OTHER, OTHER, OTHER, OTHER, OTHER, OTHER,
    OTHER, OTHER, OTHER, OTHER, OTHER, OTHER, OTHER, OTHER,
    OTHER, OTHER, EXTEND, EXTEND, OTHER, OTHER, OTHER, OTHER,
    OTHER, OTHER, OTHER, OTHER, OTHER, OTHER, OTHER, OTHER,
    OTHER, OTHER, OTHER, OTHER, OTHER, OTHER, OTHER, OTHER,
    OTHER, OTHER, EXTEND, EXTEND, EXTEND, EXTEND, EXTEND, EXTEND,
];

#[verifier::opaque]
pub const GP_PAGE_9: [u8; 256] = [
    OTHER, EXTEND, SPACING_MARK, SPACING_MARK, OTHER, OTHER, OTHER, OTHER,
    OTHER, OTHER, OTHER, OTHER, OTHER, OTHER, OTHER, OTHER,
    OTHER, OTHER, OTHER, OTHER, OTHER, OTHER, OTHER, OTHER,
    OTHER, OTHER, OTHER, OTHER, OTHER, OTHER, OTHER, OTHER,
    OTHER, OTHER, OTHER, OTHER, OTHER, OTHER, OTHER, OTHER,
    OTHER, OTHER, OTHER, OTHER, OTHER, OTHER, OTHER, OTHER,
    OTHER, OTHER, OTHER, OTHER, OTHER, OTHER, OTHER, OTHER,
    OTHER, OTHER, OTHER, OTHER, EXTEND, OTHER, EXTEND, EXTEND,
    SPACING_MARK, EXTEND, EXTEND, EXTEND, EXTEND, OTHER, OTHER, SPACING_MARK,
    SPACING_MARK, OTHER, OTHER, SPACING_MARK, SPACING_MARK, EXTEND, OTHER, OTHER,
    OTHER, OTHER, OTHER, OTHER, OTHER, EXTEND, EXTEND, EXTEND,
    OTHER, OTHER, OTHER, OTHER, OTHER, OTHER, OTHER, OTHER,
    OTHER, OTHER, EXTEND, EXTEND, OTHER, OTHER, OTHER, OTHER,
    OTHER, OTHER, OTHER, OTHER, OTHER, OTHER, OTHER, OTHER,
    OTHER, OTHER, OTHER, OTHER, OTHER, OTHER, OTHER, OTHER,
    OTHER, OTHER, OTHER, OTHER, OTHER, OTHER, OTHER, OTHER,
    OTHER, OTHER, EXTEND, OTHER, OTHER, OTHER, OTHER, OTHER,
    OTHER, OTHER, OTHER, OTHER, OTHER, OTHER, OTHER, OTHER,
    OTHER, OTHER, OTHER, OTHER, OTHER, OTHER, OTHER, OTHER,
    OTHER, OTHER, OTHER, OTHER, OTHER, OTHER, OTHER, OTHER,
    OTHER, OTHER, OTHER, OTHER, OTHER, OTHER, OTHER, OTHER,
    OTHER, OTHER, OTHER, OTHER, OTHER, OTHER, OTHER, OTHER,
    OTHER, OTHER, OTHER, OTHER, OTHER, OTHER, OTHER, OTHER,
    OTHER, OTHER, OTHER, OTHER, OTHER, OTHER, EXTEND, SPACING_MARK,
    EXTEND, SPACING_MARK, SPACING_MARK, OTHER, OTHER, OTHER, SPACING_MARK, SPACING_MARK,
    SPACING_MARK, OTHER, SPACING_MARK, SPACING_MARK, SPACING_MARK, EXTEND, OTHER, OTHER,
    OTHER, OTHER, OTHER, OTHER, OTHER, OTHER, OTHER, EXTEND,
    OTHER, OTHER, OTHER, OTHER, OTHER, OTHER, OTHER, OTHER,
    OTHER, OTHER, OTHER, OTHER, OTHER, OTHER, OTHER, OTHER,
    OTHER, OTHER, OTHER, OTHER, OTHER, OTHER, OTHER, OTHER,
    OTHER, OTHER, OTHER, OTHER, OTHER, OTHER, OTHER, OTHER,
    OTHER, OTHER, OTHER, OTHER, OTHER, OTHER, OTHER, OTHER,
];

#[verifier::opaque]
pub const GP_PAGE_10: [u8; 256] = [
    EXTEND, SPACING_MARK, SPACING_MARK, SPACING_MARK, EXTEND, OTHER, OTHER, OTHER,
    OTHER, OTHER, OTHER, OTHER, OTHER, OTHER, OTHER, OTHER,
    OTHER, OTHER, OTHER, OTHER, OTHER, OTHER, OTHER, OTHER,
    OTHER, OTHER, OTHER, OTHER, OTHER, OTHER, OTHER, OTHER,
    OTHER, OTHER, OTHER, OTHER, OTHER, OTHER, OTHER, OTHER,
    OTHER, OTHER, OTHER, OTHER, OTHER, OTHER, OTHER, OTHER,
    OTHER, OTHER, OTHER, OTHER, OTHER, OTHER, OTHER, OTHER,
    OTHER, OTHER, OTHER, OTHER, EXTEND, OTHER, EXTEND, EXTEND,
    EXTEND, SPACING_MARK, SPACING_MARK, SPACING_MARK, SPACING_MARK, OTHER, EXTEND, EXTEND,
    EXTEND, OTHER, EXTEND, EXTEND, EXTEND, EXTEND, OTHER, OTHER,
    OTHER, OTHER, OTHER, OTHER, OTHER, EXTEND, EXTEND, OTHER,
    OTHER, OTHER, OTHER, OTHER, OTHER, OTHER, OTHER, OTHER,
    OTHER, OTHER, EXTEND, EXTEND, OTHER, OTHER, OTHER, OTHER,
    OTHER, OTHER, OTHER, OTHER, OTHER, OTHER, OTHER, OTHER,
    OTHER, OTHER, OTHER, OTHER, OTHER, OTHER, OTHER, OTHER,
    OTHER, OTHER, OTHER, OTHER, OTHER, OTHER, OTHER, OTHER,
    OTHER, EXTEND, SPACING_MARK, SPACING_MARK, OTHER, OTHER, OTHER, OTHER,
    OTHER, OTHER, OTHER, OTHER, OTHER, OTHER, OTHER, OTHER,
    OTHER, OTHER, OTHER, OTHER, OTHER, OTHER, OTHER, OTHER,
    OTHER, OTHER, OTHER, OTHER, OTHER, OTHER, OTHER, OTHER,
    OTHER, OTHER, OTHER, OTHER, OTHER, OTHER, OTHER, OTHER,
    OTHER, OTHER, OTHER, OTHER, OTHER, OTHER, OTHER, OTHER,
    OTHER, OTHER, OTHER, OTHER, OTHER, OTHER, OTHER, OTHER,
    OTHER, OTHER, OTHER, OTHER, EXTEND, OTHER, SPACING_MARK, EXTEND,
    SPACING_MARK, SPACING_MARK, EXTEND, SPACING_MARK, SPACING_MARK, OTHER, EXTEND, SPACING_MARK,
    SPACING_MARK, OTHER, SPACING_MARK, SPACING_MARK, EXTEND, EXTEND, OTHER, OTHER,
    OTHER, OTHER, OTHER, OTHER, OTHER, EXTEND, EXTEND, OTHER,
    OTHER, OTHER, OTHER, OTHER, OTHER, OTHER, OTHER, OTHER,
    OTHER, OTHER, EXTEND, EXTEND, OTHER, OTHER, OTHER, OTHER,
    OTHER, OTHER, OTHER, OTHER, OTHER, OTHER, OTHER, OTHER,
    OTHER, OTHER, OTHER, OTHER, OTHER, OTHER, OTHER, OTHER,
    OTHER, OTHER, OTHER, OTHER, OTHER, OTHER, OTHER, OTHER,
];

#[verifier::opaque]
pub const GP_PAGE_11: [u8; 256] = [
    EXTEND, EXTEND, SPACING_MARK, SPACING_MARK, OTHER, OTHER, OTHER, OTHER,
    OTHER, OTHER, OTHER, OTHER, OTHER, OTHER, OTHER, OTHER,
    OTHER, OTHER, OTHER, OTHER, OTHER, OTHER, OTHER, OTHER,
    OTHER, OTHER, OTHER, OTHER, OTHER, OTHER, OTHER, OTHER,
    OTHER, OTHER, OTHER, OTHER, OTHER, OTHER, OTHER, OTHER,
    OTHER, OTHER, OTHER, OTHER, OTHER, OTHER, OTHER, OTHER,
    OTHER, OTHER, OTHER, OTHER, OTHER, OTHER, OTHER, OTHER,
    OTHER, OTHER, OTHER, EXTEND, EXTEND, OTHER, EXTEND, SPACING_MARK,
    SPACING_MARK, EXTEND, EXTEND, EXTEND, EXTEND, OTHER, SPACING_MARK, SPACING_MARK,
    SPACING_MARK, OTHER, SPACING_MARK, SPACING_MARK, SPACING_MARK, EXTEND, PREPEND, OTHER,
    OTHER, OTHER, OTHER, OTHER, OTHER, OTHER, OTHER, EXTEND,
    OTHER, OTHER, OTHER, OTHER, OTHER, OTHER, OTHER, OTHER,
    OTHER, OTHER, EXTEND, EXTEND, OTHER, OTHER, OTHER, OTHER,
    OTHER, OTHER, OTHER, OTHER, OTHER, OTHER, OTHER, OTHER,
    OTHER, OTHER, OTHER, OTHER, OTHER, OTHER, OTHER, OTHER,
    OTHER, OTHER, OTHER, OTHER, OTHER, OTHER, OTHER, OTHER,
    OTHER, EXTEND, SPACING_MARK, SPACING_MARK, OTHER, OTHER, OTHER, OTHER,
    OTHER, OTHER, OTHER, OTHER, OTHER, OTHER, OTHER, OTHER,
    OTHER, OTHER, OTHER, OTHER, OTHER, OTHER, OTHER, OTHER,
    OTHER, OTHER, OTHER, OTHER, OTHER, OTHER, OTHER, OTHER,
    OTHER, OTHER, OTHER, OTHER, OTHER, OTHER, OTHER, OTHER,
    OTHER, OTHER, OTHER, OTHER, OTHER, OTHER, OTHER, OTHER,
    OTHER, OTHER, OTHER, OTHER, OTHER, OTHER, OTHER, OTHER,
    OTHER, OTHER, OTHER, OTHER, OTHER, OTHER, OTHER, OTHER,
    OTHER, OTHER, OTHER, OTHER, OTHER, OTHER, OTHER, OTHER,
    OTHER, OTHER, EXTEND, OTHER, OTHER, OTHER, OTHER, EXTEND,
    SPACING_MARK, SPACING_MARK, EXTEND, EXTEND, EXTEND, OTHER, EXTEND, OTHER,
    SPACING_MARK, SPACING_MARK, SPACING_MARK, SPACING_MARK, SPACING_MARK, SPACING_MARK, SPACING_MARK, EXTEND,
    OTHER, OTHER, OTHER, OTHER, OTHER, OTHER, OTHER, OTHER,
    OTHER, OTHER, OTHER, OTHER, OTHER, OTHER, OTHER, OTHER,
    OTHER, OTHER, SPACING_MARK, SPACING_MARK, OTHER, OTHER, OTHER, OTHER,
    OTHER, OTHER, OTHER, OTHER, OTHER, OTHER, OTHER, OTHER,
];

#[verifier::opaque]
pub const GP_PAGE_12: [u8; 256] = [
    OTHER, OTHER, OTHER, OTHER, OTHER, OTHER, OTHER, OTHER,
    OTHER, OTHER, OTHER, OTHER, OTHER, OTHER, OTHER, OTHER,
    OTHER, OTHER, OTHER, OTHER, OTHER, OTHER, OTHER, OTHER,
    OTHER, OTHER, OTHER, OTHER, OTHER, OTHER, OTHER, OTHER,
    OTHER, OTHER, OTHER, OTHER, OTHER, OTHER, OTHER, OTHER,
    OTHER, OTHER, OTHER, OTHER, OTHER, OTHER, OTHER, OTHER,
    OTHER, EXTEND, OTHER, SPACING_MARK, EXTEND, EXTEND, EXTEND, EXTEND,
    EXTEND, EXTEND, EXTEND, OTHER, OTHER, OTHER, OTHER, OTHER,
    OTHER, OTHER, OTHER, OTHER, OTHER, OTHER, OTHER, EXTEND,
    EXTEND, EXTEND, EXTEND, EXTEND, EXTEND, EXTEND, EXTEND, OTHER,
    OTHER, OTHER, OTHER, OTHER, OTHER, OTHER, OTHER, OTHER,
    OTHER, OTHER, OTHER, OTHER, OTHER, OTHER, OTHER, OTHER,
    OTHER, OTHER, OTHER, OTHER, OTHER, OTHER, OTHER, OTHER,
    OTHER, OTHER, OTHER, OTHER, OTHER, OTHER, OTHER, OTHER,
    OTHER, OTHER, OTHER, OTHER, OTHER, OTHER, OTHER, OTHER,
    OTHER, OTHER, OTHER, OTHER, OTHER, OTHER, OTHER, OTHER,
    OTHER, OTHER, OTHER, OTHER, OTHER, OTHER, OTHER, OTHER,
    OTHER, OTHER, OTHER, OTHER, OTHER, OTHER, OTHER, OTHER,
    OTHER, OTHER, OTHER, OTHER, OTHER, OTHER, OTHER, OTHER,
    OTHER, OTHER, OTHER, OTHER, OTHER, OTHER, OTHER, OTHER,
    OTHER, OTHER, OTHER, OTHER, OTHER, OTHER, OTHER, OTHER,
    OTHER, OTHER, OTHER, OTHER, OTHER, OTHER, OTHER, OTHER,
    OTHER, EXTEND, OTHER, SPACING_MARK, EXTEND, EXTEND, EXTEND, EXTEND,
    EXTEND, EXTEND, EXTEND, EXTEND, EXTEND, OTHER, OTHER, OTHER,
    OTHER, OTHER, OTHER, OTHER, OTHER, OTHER, OTHER, OTHER,
    EXTEND, EXTEND, EXTEND, EXTEND, EXTEND, EXTEND, OTHER, OTHER,
    OTHER, OTHER, OTHER, OTHER, OTHER, OTHER, OTHER, OTHER,
    OTHER, OTHER, OTHER, OTHER, OTHER, OTHER, OTHER, OTHER,
    OTHER, OTHER, OTHER, OTHER, OTHER, OTHER, OTHER, OTHER,
    OTHER, OTHER, OTHER, OTHER, OTHER, OTHER, OTHER, OTHER,
    OTHER, OTHER, OTHER, OTHER, OTHER, OTHER, OTHER, OTHER,
    OTHER, OTHER, OTHER, OTHER, OTHER, OTHER, OTHER, OTHER,
];

#[verifier::opaque]
pub const GP_PAGE_13: [u8; 256] = [
    OTHER, OTHER, OTHER, OTHER, OTHER, OTHER, OTHER, OTHER,
    OTHER, OTHER, OTHER, OTHER, OTHER, OTHER, OTHER, OTHER,
    OTHER, OTHER, OTHER, OTHER, OTHER, OTHER, OTHER, OTHER,
    EXTEND, EXTEND, OTHER, OTHER, OTHER, OTHER, OTHER, OTHER,
    OTHER, OTHER, OTHER, OTHER, OTHER, OTHER, OTHER, OTHER,
    OTHER, OTHER, OTHER, OTHER, OTHER, OTHER, OTHER, OTHER,
    OTHER, OTHER, OTHER, OTHER, OTHER, EXTEND, OTHER, EXTEND,
    OTHER, EXTEND, OTHER, OTHER, OTHER, OTHER, SPACING_MARK, SPACING_MARK,
    OTHER, OTHER, OTHER, OTHER, OTHER, OTHER, OTHER, OTHER,
    OTHER, OTHER, OTHER, OTHER, OTHER, OTHER, OTHER, OTHER,
    OTHER, OTHER, OTHER, OTHER, OTHER, OTHER, OTHER, OTHER,
    OTHER, OTHER, OTHER, OTHER, OTHER, OTHER, OTHER, OTHER,
    OTHER, OTHER, OTHER, OTHER, OTHER, OTHER, OTHER, OTHER,
    OTHER, OTHER, OTHER, OTHER, OTHER, OTHER, OTHER, OTHER,
    OTHER, EXTEND, EXTEND, EXTEND, EXTEND, EXTEND, EXTEND, EXTEND,
    EXTEND, EXTEND, EXTEND, EXTEND, EXTEND, EXTEND, EXTEND, SPACING_MARK,
    EXTEND, EXTEND, EXTEND, EXTEND, EXTEND, OTHER, EXTEND, EXTEND,
    OTHER, OTHER, OTHER, OTHER, OTHER, EXTEND, EXTEND, EXTEND,
    EXTEND, EXTEND, EXTEND, EXTEND, EXTEND, EXTEND, EXTEND, EXTEND,
    OTHER, EXTEND, EXTEND, EXTEND, EXTEND, EXTEND, EXTEND, EXTEND,
    EXTEND, EXTEND, EXTEND, EXTEND, EXTEND, EXTEND, EXTEND, EXTEND,
    EXTEND, EXTEND, EXTEND, EXTEND, EXTEND, EXTEND, EXTEND, EXTEND,
    EXTEND, EXTEND, EXTEND, EXTEND, EXTEND, EXTEND, EXTEND, EXTEND,
    EXTEND, EXTEND, EXTEND, EXTEND, EXTEND, OTHER, OTHER, OTHER,
    OTHER, OTHER, OTHER, OTHER, OTHER, OTHER, EXTEND, OTHER,
    OTHER, OTHER, OTHER, OTHER, OTHER, OTHER, OTHER, OTHER,
    OTHER, OTHER, OTHER, OTHER, OTHER, OTHER, OTHER, OTHER,
    OTHER, OTHER, OTHER, OTHER, OTHER, OTHER, OTHER, OTHER,
    OTHER, OTHER, OTHER, OTHER, OTHER, OTHER, OTHER, OTHER,
    OTHER, OTHER, OTHER, OTHER, OTHER, OTHER, OTHER, OTHER,
    OTHER, OTHER, OTHER, OTHER, OTHER, OTHER, OTHER, OTHER,
    OTHER, OTHER, OTHER, OTHER, OTHER, OTHER, OTHER, OTHER,
];

#[verifier::opaque]
pub const GP_PAGE_14: [u8; 256] = [
    OTHER, OTHER, OTHER, OTHER, OTHER, OTHER, OTHER, OTHER,
    OTHER, OTHER, OTHER, OTHER, OTHER, OTHER, OTHER, OTHER,
    OTHER, OTHER, OTHER, OTHER, OTHER, OTHER, OTHER, OTHER,
    OTHER, OTHER, OTHER, OTHER, OTHER, OTHER, OTHER, OTHER,
    OTHER, OTHER, OTHER, OTHER, OTHER, OTHER, OTHER, OTHER,
    OTHER, OTHER, OTHER, OTHER, OTHER, EXTEND, EXTEND, EXTEND,
    EXTEND, SPACING_MARK, EXTEND, EXTEND, EXTEND, EXTEND, EXTEND, EXTEND,
    OTHER, EXTEND, EXTEND, SPACING_MARK, SPACING_MARK, EXTEND, EXTEND, OTHER,
    OTHER, OTHER, OTHER, OTHER, OTHER, OTHER, OTHER, OTHER,
    OTHER, OTHER, OTHER, OTHER, OTHER, OTHER, OTHER, OTHER,
    OTHER, OTHER, OTHER, OTHER, OTHER, OTHER, SPACING_MARK, SPACING_MARK,
    EXTEND, EXTEND, OTHER, OTHER, OTHER, OTHER, EXTEND, EXTEND,
    EXTEND, OTHER, OTHER, OTHER, OTHER, OTHER, OTHER, OTHER,
    OTHER, OTHER, OTHER, OTHER, OTHER, OTHER, OTHER, OTHER,
    OTHER, EXTEND, EXTEND, EXTEND, EXTEND, OTHER, OTHER, OTHER,
    OTHER, OTHER, OTHER, OTHER, OTHER, OTHER, OTHER, OTHER,
    OTHER, OTHER, EXTEND, OTHER, SPACING_MARK, EXTEND, EXTEND, OTHER,
    OTHER, OTHER, OTHER, OTHER, OTHER, EXTEND, OTHER, OTHER,
    OTHER, OTHER, OTHER, OTHER, OTHER, OTHER, OTHER, OTHER,
    OTHER, OTHER, OTHER, OTHER, OTHER, EXTEND, OTHER, OTHER,
    OTHER, OTHER, OTHER, OTHER, OTHER, OTHER, OTHER, OTHER,
    OTHER, OTHER, OTHER, OTHER, OTHER, OTHER, OTHER, OTHER,
    OTHER, OTHER, OTHER, OTHER, OTHER, OTHER, OTHER, OTHER,
    OTHER, OTHER, OTHER, OTHER, OTHER, OTHER, OTHER, OTHER,
    OTHER, OTHER, OTHER, OTHER, OTHER, OTHER, OTHER, OTHER,
    OTHER, OTHER, OTHER, OTHER, OTHER, OTHER, OTHER, OTHER,
    OTHER, OTHER, OTHER, OTHER, OTHER, OTHER, OTHER, OTHER,
    OTHER, OTHER, OTHER, OTHER, OTHER, OTHER, OTHER, OTHER,
    OTHER, OTHER, OTHER, OTHER, OTHER, OTHER, OTHER, OTHER,
    OTHER, OTHER, OTHER, OTHER, OTHER, OTHER, OTHER, OTHER,
    OTHER, OTHER, OTHER, OTHER, OTHER, OTHER, OTHER, OTHER,
    OTHER, OTHER, OTHER, OTHER, OTHER, OTHER, OTHER, OTHER,
];

#[verifier::opaque]
pub const GP_PAGE_15: [u8; 256] = [
    HANGUL_L, HANGUL_L, HANGUL_L, HANGUL_L, HANGUL_L, HANGUL_L, HANGUL_L, HANGUL_L,
    HANGUL_L, HANGUL_L, HANGUL_L, HANGUL_L, HANGUL_L, HANGUL_L, HANGUL_L, HANGUL_L,
    HANGUL_L, HANGUL_L, HANGUL_L, HANGUL_L, HANGUL_L, HANGUL_L, HANGUL_L, HANGUL_L,
    HANGUL_L, HANGUL_L, HANGUL_L, HANGUL_L, HANGUL_L, HANGUL_L, HANGUL_L, HANGUL_L,
    HANGUL_L, HANGUL_L, HANGUL_L, HANGUL_L, HANGUL_L, HANGUL_L, HANGUL_L, HANGUL_L,
    HANGUL_L, HANGUL_L, HANGUL_L, HANGUL_L, HANGUL_L, HANGUL_L, HANGUL_L, HANGUL_L,
    HANGUL_L, HANGUL_L, HANGUL_L, HANGUL_L, HANGUL_L, HANGUL_L, HANGUL_L, HANGUL_L,
    HANGUL_L, HANGUL_L, HANGUL_L, HANGUL_L, HANGUL_L, HANGUL_L, HANGUL_L, HANGUL_L,
    HANGUL_L, HANGUL_L, HANGUL_L, HANGUL_L, HANGUL_L, HANGUL_L, HANGUL_L, HANGUL_L,
    HANGUL_L, HANGUL_L, HANGUL_L, HANGUL_L, HANGUL_L, HANGUL_L, HANGUL_L, HANGUL_L,
    HANGUL_L, HANGUL_L, HANGUL_L, HANGUL_L, HANGUL_L, HANGUL_L, HANGUL_L, HANGUL_L,
    HANGUL_L, HANGUL_L, HANGUL_L, HANGUL_L, HANGUL_L, HANGUL_L, HANGUL_L, HANGUL_L,
    HANGUL_V, HANGUL_V, HANGUL_V, HANGUL_V, HANGUL_V, HANGUL_V, HANGUL_V, HANGUL_V,
    HANGUL_V, HANGUL_V, HANGUL_V, HANGUL_V, HANGUL_V, HANGUL_V, HANGUL_V, HANGUL_V,
    HANGUL_V, HANGUL_V, HANGUL_V, HANGUL_V, HANGUL_V, HANGUL_V, HANGUL_V, HANGUL_V,
    HANGUL_V, HANGUL_V, HANGUL_V, HANGUL_V, HANGUL_V, HANGUL_V, HANGUL_V, HANGUL_V,
    HANGUL_V, HANGUL_V, HANGUL_V, HANGUL_V, HANGUL_V, HANGUL_V, HANGUL_V, HANGUL_V,
    HANGUL_V, HANGUL_V, HANGUL_V, HANGUL_V, HANGUL_V, HANGUL_V, HANGUL_V, HANGUL_V,
    HANGUL_V, HANGUL_V, HANGUL_V, HANGUL_V, HANGUL_V, HANGUL_V, HANGUL_V, HANGUL_V,
    HANGUL_V, HANGUL_V, HANGUL_V, HANGUL_V, HANGUL_V, HANGUL_V, HANGUL_V, HANGUL_V,
    HANGUL_V, HANGUL_V, HANGUL_V, HANGUL_V, HANGUL_V, HANGUL_V, HANGUL_V, HANGUL_V,
    HANGUL_T, HANGUL_T, HANGUL_T, HANGUL_T, HANGUL_T, HANGUL_T, HANGUL_T, HANGUL_T,
    HANGUL_T, HANGUL_T, HANGUL_T, HANGUL_T, HANGUL_T, HANGUL_T, HANGUL_T, HANGUL_T,
    HANGUL_T, HANGUL_T, HANGUL_T, HANGUL_T, HANGUL_T, HANGUL_T, HANGUL_T, HANGUL_T,
    HANGUL_T, HANGUL_T, HANGUL_T, HANGUL_T, HANGUL_T, HANGUL_T, HANGUL_T, HANGUL_T,
    HANGUL_T, HANGUL_T, HANGUL_T, HANGUL_T, HANGUL_T, HANGUL_T, HANGUL_T, HANGUL_T,
    HANGUL_T, HANGUL_T, HANGUL_T, HANGUL_T, HANGUL_T, HANGUL_T, HANGUL_T, HANGUL_T,
    HANGUL_T, HANGUL_T, HANGUL_T, HANGUL_T, HANGUL_T, HANGUL_T, HANGUL_T, HANGUL_T,
    HANGUL_T, HANGUL_T, HANGUL_T, HANGUL_T, HANGUL_T, HANGUL_T, HANGUL_T, HANGUL_T,
    HANGUL_T, HANGUL_T, HANGUL_T, HANGUL_T, HANGUL_T, HANGUL_T, HANGUL_T, HANGUL_T,
    HANGUL_T, HANGUL_T, HANGUL_T, HANGUL_T, HANGUL_T, HANGUL_T, HANGUL_T, HANGUL_T,
    HANGUL_T, HANGUL_T, HANGUL_T, HANGUL_T, HANGUL_T, HANGUL_T, HANGUL_T, HANGUL_T,
];

#[verifier::opaque]
pub const GP_PAGE_16: [u8; 256] = [
    OTHER, OTHER, OTHER, OTHER, OTHER, OTHER, OTHER, OTHER,
    OTHER, OTHER, OTHER, OTHER, OTHER, OTHER, OTHER, OTHER,
    OTHER, OTHER, OTHER, OTHER, OTHER, OTHER, OTHER, OTHER,
    OTHER, OTHER, OTHER, OTHER, OTHER, OTHER, OTHER, OTHER,
    OTHER, OTHER, OTHER, OTHER, OTHER, OTHER, OTHER, OTHER,
    OTHER, OTHER, OTHER, OTHER, OTHER, OTHER, OTHER, OTHER,
    OTHER, OTHER, OTHER, OTHER, OTHER, OTHER, OTHER, OTHER,
    OTHER, OTHER, OTHER, OTHER, OTHER, OTHER, OTHER, OTHER,
    OTHER, OTHER, OTHER, OTHER, OTHER, OTHER, OTHER, OTHER,
    OTHER, OTHER, OTHER, OTHER, OTHER, OTHER, OTHER, OTHER,
    OTHER, OTHER, OTHER, OTHER, OTHER, OTHER, OTHER, OTHER,
    OTHER, OTHER, OTHER, OTHER, OTHER, EXTEND, EXTEND, EXTEND,
    OTHER, OTHER, OTHER, OTHER, OTHER, OTHER, OTHER, OTHER,
    OTHER, OTHER, OTHER, OTHER, OTHER, OTHER, OTHER, OTHER,
    OTHER, OTHER, OTHER, OTHER, OTHER, OTHER, OTHER, OTHER,
    OTHER, OTHER, OTHER, OTHER, OTHER, OTHER, OTHER, OTHER,
    OTHER, OTHER, OTHER, OTHER, OTHER, OTHER, OTHER, OTHER,
    OTHER, OTHER, OTHER, OTHER, OTHER, OTHER, OTHER, OTHER,
    OTHER, OTHER, OTHER, OTHER, OTHER, OTHER, OTHER, OTHER,
    OTHER, OTHER, OTHER, OTHER, OTHER, OTHER, OTHER, OTHER,
    OTHER, OTHER, OTHER, OTHER, OTHER, OTHER, OTHER, OTHER,
    OTHER, OTHER, OTHER, OTHER, OTHER, OTHER, OTHER, OTHER,
    OTHER, OTHER, OTHER, OTHER, OTHER, OTHER, OTHER, OTHER,
    OTHER, OTHER, OTHER, OTHER, OTHER, OTHER, OTHER, OTHER,
    OTHER, OTHER, OTHER, OTHER, OTHER, OTHER, OTHER, OTHER,
    OTHER, OTHER, OTHER, OTHER, OTHER, OTHER, OTHER, OTHER,
    OTHER, OTHER, OTHER, OTHER, OTHER, OTHER, OTHER, OTHER,
    OTHER, OTHER, OTHER, OTHER, OTHER, OTHER, OTHER, OTHER,
    OTHER, OTHER, OTHER, OTHER, OTHER, OTHER, OTHER, OTHER,
    OTHER, OTHER, OTHER, OTHER, OTHER, OTHER, OTHER, OTHER,
    OTHER, OTHER, OTHER, OTHER, OTHER, OTHER, OTHER, OTHER,
    OTHER, OTHER, OTHER, OTHER, OTHER, OTHER, OTHER, OTHER,
];

#[verifier::opaque]
pub const GP_PAGE_17: [u8; 256] = [
    OTHER, OTHER, OTHER, OTHER, OTHER, OTHER, OTHER, OTHER,
    OTHER, OTHER, OTHER, OTHER, OTHER, OTHER, OTHER, OTHER,
    OTHER, OTHER, EXTEND, EXTEND, EXTEND, SPACING_MARK, OTHER, OTHER,
    OTHER, OTHER, OTHER, OTHER, OTHER, OTHER, OTHER, OTHER,
    OTHER, OTHER, OTHER, OTHER, OTHER, OTHER, OTHER, OTHER,
    OTHER, OTHER, OTHER, OTHER, OTHER, OTHER, OTHER, OTHER,
    OTHER, OTHER, EXTEND, EXTEND, SPACING_MARK, OTHER, OTHER, OTHER,
    OTHER, OTHER, OTHER, OTHER, OTHER, OTHER, OTHER, OTHER,
    OTHER, OTHER, OTHER, OTHER, OTHER, OTHER, OTHER, OTHER,
    OTHER, OTHER, OTHER, OTHER, OTHER, OTHER, OTHER, OTHER,
    OTHER, OTHER, EXTEND, EXTEND, OTHER, OTHER, OTHER, OTHER,
    OTHER, OTHER, OTHER, OTHER, OTHER, OTHER, OTHER, OTHER,
    OTHER, OTHER, OTHER, OTHER, OTHER, OTHER, OTHER, OTHER,
    OTHER, OTHER, OTHER, OTHER, OTHER, OTHER, OTHER, OTHER,
    OTHER, OTHER, EXTEND, EXTEND, OTHER, OTHER, OTHER, OTHER,
    OTHER, OTHER, OTHER, OTHER, OTHER, OTHER, OTHER, OTHER,
    OTHER, OTHER, OTHER, OTHER, OTHER, OTHER, OTHER, OTHER,
    OTHER, OTHER, OTHER, OTHER, OTHER, OTHER, OTHER, OTHER,
    OTHER, OTHER, OTHER, OTHER, OTHER, OTHER, OTHER, OTHER,
    OTHER, OTHER, OTHER, OTHER, OTHER, OTHER, OTHER, OTHER,
    OTHER, OTHER, OTHER, OTHER, OTHER, OTHER, OTHER, OTHER,
    OTHER, OTHER, OTHER, OTHER, OTHER, OTHER, OTHER, OTHER,
    OTHER, OTHER, OTHER, OTHER, EXTEND, EXTEND, SPACING_MARK, EXTEND,
    EXTEND, EXTEND, EXTEND, EXTEND, EXTEND, EXTEND, SPACING_MARK, SPACING_MARK,
    SPACING_MARK, SPACING_MARK, SPACING_MARK, SPACING_MARK, SPACING_MARK, SPACING_MARK, EXTEND, SPACING_MARK,
    SPACING_MARK, EXTEND, EXTEND, EXTEND, EXTEND, EXTEND, EXTEND, EXTEND,
    EXTEND, EXTEND, EXTEND, EXTEND, OTHER, OTHER, OTHER, OTHER,
    OTHER, OTHER, OTHER, OTHER, OTHER, EXTEND, OTHER, OTHER,
    OTHER, OTHER, OTHER, OTHER, OTHER, OTHER, OTHER, OTHER,
    OTHER, OTHER, OTHER, OTHER, OTHER, OTHER, OTHER, OTHER,
    OTHER, OTHER, OTHER, OTHER, OTHER, OTHER, OTHER, OTHER,
    OTHER, OTHER, OTHER, OTHER, OTHER, OTHER, OTHER, OTHER,
];

#[verifier::opaque]
pub const GP_PAGE_18: [u8; 256] = [
    OTHER, OTHER, OTHER, OTHER, OTHER, OTHER, OTHER, OTHER,
    OTHER, OTHER, OTHER, EXTEND, EXTEND, EXTEND, CONTROL, EXTEND,
    OTHER, OTHER, OTHER, OTHER, OTHER, OTHER, OTHER, OTHER,
    OTHER, OTHER, OTHER, OTHER, OTHER, OTHER, OTHER, OTHER,
    OTHER, OTHER, OTHER, OTHER, OTHER, OTHER, OTHER, OTHER,
    OTHER, OTHER, OTHER, OTHER, OTHER, OTHER, OTHER, OTHER,
    OTHER, OTHER, OTHER, OTHER, OTHER, OTHER, OTHER, OTHER,
    OTHER, OTHER, OTHER, OTHER, OTHER, OTHER, OTHER, OTHER,
    OTHER, OTHER, OTHER, OTHER, OTHER, OTHER, OTHER, OTHER,
    OTHER, OTHER, OTHER, OTHER, OTHER, OTHER, OTHER, OTHER,
    OTHER, OTHER, OTHER, OTHER, OTHER, OTHER, OTHER, OTHER,
    OTHER, OTHER, OTHER, OTHER, OTHER, OTHER, OTHER, OTHER,
    OTHER, OTHER, OTHER, OTHER, OTHER, OTHER, OTHER, OTHER,
    OTHER, OTHER, OTHER, OTHER, OTHER, OTHER, OTHER, OTHER,
    OTHER, OTHER, OTHER, OTHER, OTHER, OTHER, OTHER, OTHER,
    OTHER, OTHER, OTHER, OTHER, OTHER, OTHER, OTHER, OTHER,
    OTHER, OTHER, OTHER, OTHER, OTHER, EXTEND, EXTEND, OTHER,
    OTHER, OTHER, OTHER, OTHER, OTHER, OTHER, OTHER, OTHER,
    OTHER, OTHER, OTHER, OTHER, OTHER, OTHER, OTHER, OTHER,
    OTHER, OTHER, OTHER, OTHER, OTHER, OTHER, OTHER, OTHER,
    OTHER, OTHER, OTHER, OTHER, OTHER, OTHER, OTHER, OTHER,
    OTHER, EXTEND, OTHER, OTHER, OTHER, OTHER, OTHER, OTHER,
    OTHER, OTHER, OTHER, OTHER, OTHER, OTHER, OTHER, OTHER,
    OTHER, OTHER, OTHER, OTHER, OTHER, OTHER, OTHER, OTHER,
    OTHER, OTHER, OTHER, OTHER, OTHER, OTHER, OTHER, OTHER,
    OTHER, OTHER, OTHER, OTHER, OTHER, OTHER, OTHER, OTHER,
    OTHER, OTHER, OTHER, OTHER, OTHER, OTHER, OTHER, OTHER,
    OTHER, OTHER, OTHER, OTHER, OTHER, OTHER, OTHER, OTHER,
    OTHER, OTHER, OTHER, OTHER, OTHER, OTHER, OTHER, OTHER,
    OTHER, OTHER, OTHER, OTHER, OTHER, OTHER, OTHER, OTHER,
    OTHER, OTHER, OTHER, OTHER, OTHER, OTHER, OTHER, OTHER,
    OTHER, OTHER, OTHER, OTHER, OTHER, OTHER, OTHER, OTHER,
];

#[verifier::opaque]
pub const GP_PAGE_19: [u8; 256] = [
    OTHER, OTHER, OTHER, OTHER, OTHER, OTHER, OTHER, OTHER,
    OTHER, OTHER, OTHER, OTHER, OTHER, OTHER, OTHER, OTHER,
    OTHER, OTHER, OTHER, OTHER, OTHER, OTHER, OTHER, OTHER,
    OTHER, OTHER, OTHER, OTHER, OTHER, OTHER, OTHER, OTHER,
    EXTEND, EXTEND, EXTEND, SPACING_MARK, SPACING_MARK, SPACING_MARK, SPACING_MARK, EXTEND,
    EXTEND, SPACING_MARK, SPACING_MARK, SPACING_MARK, OTHER, OTHER, OTHER, OTHER,
    SPACING_MARK, SPACING_MARK, EXTEND, SPACING_MARK, SPACING_MARK, SPACING_MARK, SPACING_MARK, SPACING_MARK,
    SPACING_MARK, EXTEND, EXTEND, EXTEND, OTHER, OTHER, OTHER, OTHER,
    OTHER, OTHER, OTHER, OTHER, OTHER, OTHER, OTHER, OTHER,
    OTHER, OTHER, OTHER, OTHER, OTHER, OTHER, OTHER, OTHER,
    OTHER, OTHER, OTHER, OTHER, OTHER, OTHER, OTHER, OTHER,
    OTHER, OTHER, OTHER, OTHER, OTHER, OTHER, OTHER, OTHER,
    OTHER, OTHER, OTHER, OTHER, OTHER, OTHER, OTHER, OTHER,
    OTHER, OTHER, OTHER, OTHER, OTHER, OTHER, OTHER, OTHER,
    OTHER, OTHER, OTHER, OTHER, OTHER, OTHER, OTHER, OTHER,
    OTHER, OTHER, OTHER, OTHER, OTHER, OTHER, OTHER, OTHER,
    OTHER, OTHER, OTHER, OTHER, OTHER, OTHER, OTHER, OTHER,
    OTHER, OTHER, OTHER, OTHER, OTHER, OTHER, OTHER, OTHER,
    OTHER, OTHER, OTHER, OTHER, OTHER, OTHER, OTHER, OTHER,
    OTHER, OTHER, OTHER, OTHER, OTHER, OTHER, OTHER, OTHER,
    OTHER, OTHER, OTHER, OTHER, OTHER, OTHER, OTHER, OTHER,
    OTHER, OTHER, OTHER, OTHER, OTHER, OTHER, OTHER, OTHER,
    OTHER, OTHER, OTHER, OTHER, OTHER, OTHER, OTHER, OTHER,
    OTHER, OTHER, OTHER, OTHER, OTHER, OTHER, OTHER, OTHER,
    OTHER, OTHER, OTHER, OTHER, OTHER, OTHER, OTHER, OTHER,
    OTHER, OTHER, OTHER, OTHER, OTHER, OTHER, OTHER, OTHER,
    OTHER, OTHER, OTHER, OTHER, OTHER, OTHER, OTHER, OTHER,
    OTHER, OTHER, OTHER, OTHER, OTHER, OTHER, OTHER, OTHER,
    OTHER, OTHER, OTHER, OTHER, OTHER, OTHER, OTHER, OTHER,
    OTHER, OTHER, OTHER, OTHER, OTHER, OTHER, OTHER, OTHER,
    OTHER, OTHER, OTHER, OTHER, OTHER, OTHER, OTHER, OTHER,
    OTHER, OTHER, OTHER, OTHER, OTHER, OTHER, OTHER, OTHER,
];

#[verifier::opaque]
pub const GP_PAGE_20: [u8; 256] = [
    OTHER, OTHER, OTHER, OTHER, OTHER, OTHER, OTHER, OTHER,
    OTHER, OTHER, OTHER, OTHER, OTHER, OTHER, OTHER, OTHER,
    OTHER, OTHER, OTHER, OTHER, OTHER, OTHER, OTHER, EXTEND,
    EXTEND, SPACING_MARK, SPACING_MARK, EXTEND, OTHER, OTHER, OTHER, OTHER,
    OTHER, OTHER, OTHER, OTHER, OTHER, OTHER, OTHER, OTHER,
    OTHER, OTHER, OTHER, OTHER, OTHER, OTHER, OTHER, OTHER,
    OTHER, OTHER, OTHER, OTHER, OTHER, OTHER, OTHER, OTHER,
    OTHER, OTHER, OTHER, OTHER, OTHER, OTHER, OTHER, OTHER,
    OTHER, OTHER, OTHER, OTHER, OTHER, OTHER, OTHER, OTHER,
    OTHER, OTHER, OTHER, OTHER, OTHER, OTHER, OTHER, OTHER,
    OTHER, OTHER, OTHER, OTHER, OTHER, SPACING_MARK, EXTEND, SPACING_MARK,
    EXTEND, EXTEND, EXTEND, EXTEND, EXTEND, EXTEND, EXTEND, OTHER,
    EXTEND, OTHER, EXTEND, OTHER, OTHER, EXTEND, EXTEND, EXTEND,
    EXTEND, EXTEND, EXTEND, EXTEND, EXTEND, SPACING_MARK, SPACING_MARK, SPACING_MARK,
    SPACING_MARK, SPACING_MARK, SPACING_MARK, EXTEND, EXTEND, EXTEND, EXTEND, EXTEND,
    EXTEND, EXTEND, EXTEND, EXTEND, EXTEND, OTHER, OTHER, EXTEND,
    OTHER, OTHER, OTHER, OTHER, OTHER, OTHER, OTHER, OTHER,
    OTHER, OTHER, OTHER, OTHER, OTHER, OTHER, OTHER, OTHER,
    OTHER, OTHER, OTHER, OTHER, OTHER, OTHER, OTHER, OTHER,
    OTHER, OTHER, OTHER, OTHER, OTHER, OTHER, OTHER, OTHER,
    OTHER, OTHER, OTHER, OTHER, OTHER, OTHER, OTHER, OTHER,
    OTHER, OTHER, OTHER, OTHER, OTHER, OTHER, OTHER, OTHER,
    EXTEND, EXTEND, EXTEND, EXTEND, EXTEND, EXTEND, EXTEND, EXTEND,
    EXTEND, EXTEND, EXTEND, EXTEND, EXTEND, EXTEND, EXTEND, EXTEND,
    EXTEND, EXTEND, EXTEND, EXTEND, EXTEND, EXTEND, EXTEND, EXTEND,
    EXTEND, EXTEND, EXTEND, EXTEND, EXTEND, EXTEND, EXTEND, OTHER,
    OTHER, OTHER, OTHER, OTHER, OTHER, OTHER, OTHER, OTHER,
    OTHER, OTHER, OTHER, OTHER, OTHER, OTHER, OTHER, OTHER,
    OTHER, OTHER, OTHER, OTHER, OTHER, OTHER, OTHER, OTHER,
    OTHER, OTHER, OTHER, OTHER, OTHER, OTHER, OTHER, OTHER,
    OTHER, OTHER, OTHER, OTHER, OTHER, OTHER, OTHER, OTHER,
    OTHER, OTHER, OTHER, OTHER, OTHER, OTHER, OTHER, OTHER,
];

#[verifier::opaque]
pub const GP_PAGE_21: [u8; 256] = [
    EXTEND, EXTEND, EXTEND, EXTEND, SPACING_MARK, OTHER, OTHER, OTHER,
    OTHER, OTHER, OTHER, OTHER, OTHER, OTHER, OTHER, OTHER,
    OTHER, OTHER, OTHER, OTHER, OTHER, OTHER, OTHER, OTHER,
    OTHER, OTHER, OTHER, OTHER, OTHER, OTHER, OTHER, OTHER,
    OTHER, OTHER, OTHER, OTHER, OTHER, OTHER, OTHER, OTHER,
    OTHER, OTHER, OTHER, OTHER, OTHER, OTHER, OTHER, OTHER,
    OTHER, OTHER, OTHER, OTHER, EXTEND, EXTEND, EXTEND, EXTEND,
    EXTEND, EXTEND, EXTEND, SPACING_MARK, EXTEND, SPACING_MARK, SPACING_MARK, SPACING_MARK,
    SPACING_MARK, SPACING_MARK, EXTEND, SPACING_MARK, SPACING_MARK, OTHER, OTHER, OTHER,
    OTHER, OTHER, OTHER, OTHER, OTHER, OTHER, OTHER, OTHER,
    OTHER, OTHER, OTHER, OTHER, OTHER, OTHER, OTHER, OTHER,
    OTHER, OTHER, OTHER, OTHER, OTHER, OTHER, OTHER, OTHER,
    OTHER, OTHER, OTHER, OTHER, OTHER, OTHER, OTHER, OTHER,
    OTHER, OTHER, OTHER, EXTEND, EXTEND, EXTEND, EXTEND, EXTEND,
    EXTEND, EXTEND, EXTEND, EXTEND, OTHER, OTHER, OTHER, OTHER,
    OTHER, OTHER, OTHER, OTHER, OTHER, OTHER, OTHER, OTHER,
    EXTEND, EXTEND, SPACING_MARK, OTHER, OTHER, OTHER, OTHER, OTHER,
    OTHER, OTHER, OTHER, OTHER, OTHER, OTHER, OTHER, OTHER,
    OTHER, OTHER, OTHER, OTHER, OTHER, OTHER, OTHER, OTHER,
    OTHER, OTHER, OTHER, OTHER, OTHER, OTHER, OTHER, OTHER,
    OTHER, SPACING_MARK, EXTEND, EXTEND, EXTEND, EXTEND, SPACING_MARK, SPACING_MARK,
    EXTEND, EXTEND, SPACING_MARK, EXTEND, EXTEND, EXTEND, OTHER, OTHER,
    OTHER, OTHER, OTHER, OTHER, OTHER, OTHER, OTHER, OTHER,
    OTHER, OTHER, OTHER, OTHER, OTHER, OTHER, OTHER, OTHER,
    OTHER, OTHER, OTHER, OTHER, OTHER, OTHER, OTHER, OTHER,
    OTHER, OTHER, OTHER, OTHER, OTHER, OTHER, OTHER, OTHER,
    OTHER, OTHER, OTHER, OTHER, OTHER, OTHER, OTHER, OTHER,
    OTHER, OTHER, OTHER, OTHER, OTHER, OTHER, OTHER, OTHER,
    OTHER, OTHER, OTHER, OTHER, OTHER, OTHER, EXTEND, SPACING_MARK,
    EXTEND, EXTEND, SPACING_MARK, SPACING_MARK, SPACING_MARK, EXTEND, SPACING_MARK, EXTEND,
    EXTEND, EXTEND, SPACING_MARK, SPACING_MARK, OTHER, OTHER, OTHER, OTHER,
    OTHER, OTHER, OTHER, OTHER, OTHER, OTHER, OTHER, OTHER,
];

#[verifier::opaque]
pub const GP_PAGE_22: [u8; 256] = [
    OTHER, OTHER, OTHER, OTHER, OTHER, OTHER, OTHER, OTHER,
    OTHER, OTHER, OTHER, OTHER, OTHER, OTHER, OTHER, OTHER,
    OTHER, OTHER, OTHER, OTHER, OTHER, OTHER, OTHER, OTHER,
    OTHER, OTHER, OTHER, OTHER, OTHER, OTHER, OTHER, OTHER,
    OTHER, OTHER, OTHER, OTHER, SPACING_MARK, SPACING_MARK, SPACING_MARK, SPACING_MARK,
    SPACING_MARK, SPACING_MARK, SPACING_MARK, SPACING_MARK, EXTEND, EXTEND, EXTEND, EXTEND,
    EXTEND, EXTEND, EXTEND, EXTEND, SPACING_MARK, SPACING_MARK, EXTEND, EXTEND,
    OTHER, OTHER, OTHER, OTHER, OTHER, OTHER, OTHER, OTHER,
    OTHER, OTHER, OTHER, OTHER, OTHER, OTHER, OTHER, OTHER,
    OTHER, OTHER, OTHER, OTHER, OTHER, OTHER, OTHER, OTHER,
    OTHER, OTHER, OTHER, OTHER, OTHER, OTHER, OTHER, OTHER,
    OTHER, OTHER, OTHER, OTHER, OTHER, OTHER, OTHER, OTHER,
    OTHER, OTHER, OTHER, OTHER, OTHER, OTHER, OTHER, OTHER,
    OTHER, OTHER, OTHER, OTHER, OTHER, OTHER, OTHER, OTHER,
    OTHER, OTHER, OTHER, OTHER, OTHER, OTHER, OTHER, OTHER,
    OTHER, OTHER, OTHER, OTHER, OTHER, OTHER, OTHER, OTHER,
    OTHER, OTHER, OTHER, OTHER, OTHER, OTHER, OTHER, OTHER,
    OTHER, OTHER, OTHER, OTHER, OTHER, OTHER, OTHER, OTHER,
    OTHER, OTHER, OTHER, OTHER, OTHER, OTHER, OTHER, OTHER,
    OTHER, OTHER, OTHER, OTHER, OTHER, OTHER, OTHER, OTHER,
    OTHER, OTHER, OTHER, OTHER, OTHER, OTHER, OTHER, OTHER,
    OTHER, OTHER, OTHER, OTHER, OTHER, OTHER, OTHER, OTHER,
    OTHER, OTHER, OTHER, OTHER, OTHER, OTHER, OTHER, OTHER,
    OTHER, OTHER, OTHER, OTHER, OTHER, OTHER, OTHER, OTHER,
    OTHER, OTHER, OTHER, OTHER, OTHER, OTHER, OTHER, OTHER,
    OTHER, OTHER, OTHER, OTHER, OTHER, OTHER, OTHER, OTHER,
    EXTEND, EXTEND, EXTEND, OTHER, EXTEND, EXTEND, EXTEND, EXTEND,
    EXTEND, EXTEND, EXTEND, EXTEND, EXTEND, EXTEND, EXTEND, EXTEND,
    EXTEND, SPACING_MARK, EXTEND, EXTEND, EXTEND, EXTEND, EXTEND, EXTEND,
    EXTEND, OTHER, OTHER, OTHER, OTHER, EXTEND, OTHER, OTHER,
    OTHER, OTHER, OTHER, OTHER, EXTEND, OTHER, OTHER, SPACING_MARK,
    EXTEND, EXTEND, OTHER, OTHER, OTHER, OTHER, OTHER, OTHER,
];

#[verifier::opaque]
pub const GP_PAGE_23: [u8; 256] = [
    OTHER, OTHER, OTHER, OTHER, OTHER, OTHER, OTHER, OTHER,
    OTHER, OTHER, OTHER, OTHER, OTHER, OTHER, OTHER, OTHER,
    OTHER, OTHER, OTHER, OTHER, OTHER, OTHER, OTHER, OTHER,
    OTHER, OTHER, OTHER, OTHER, OTHER, OTHER, OTHER, OTHER,
    OTHER, OTHER, OTHER, OTHER, OTHER, OTHER, OTHER, OTHER,
    OTHER, OTHER, OTHER, OTHER, OTHER, OTHER, OTHER, OTHER,
    OTHER, OTHER, OTHER, OTHER, OTHER, OTHER, OTHER, OTHER,
    OTHER, OTHER, OTHER, OTHER, OTHER, OTHER, OTHER, OTHER,
    OTHER, OTHER, OTHER, OTHER, OTHER, OTHER, OTHER, OTHER,
    OTHER, OTHER, OTHER, OTHER, OTHER, OTHER, OTHER, OTHER,
    OTHER, OTHER, OTHER, OTHER, OTHER, OTHER, OTHER, OTHER,
    OTHER, OTHER, OTHER, OTHER, OTHER, OTHER, OTHER, OTHER,
    OTHER, OTHER, OTHER, OTHER, OTHER, OTHER, OTHER, OTHER,
    OTHER, OTHER, OTHER, OTHER, OTHER, OTHER, OTHER, OTHER,
    OTHER, OTHER, OTHER, OTHER, OTHER, OTHER, OTHER, OTHER,
    OTHER, OTHER, OTHER, OTHER, OTHER, OTHER, OTHER, OTHER,
    OTHER, OTHER, OTHER, OTHER, OTHER, OTHER, OTHER, OTHER,
    OTHER, OTHER, OTHER, OTHER, OTHER, OTHER, OTHER, OTHER,
    OTHER, OTHER, OTHER, OTHER, OTHER, OTHER, OTHER, OTHER,
    OTHER, OTHER, OTHER, OTHER, OTHER, OTHER, OTHER, OTHER,
    OTHER, OTHER, OTHER, OTHER, OTHER, OTHER, OTHER, OTHER,
    OTHER, OTHER, OTHER, OTHER, OTHER, OTHER, OTHER, OTHER,
    OTHER, OTHER, OTHER, OTHER, OTHER, OTHER, OTHER, OTHER,
    OTHER, OTHER, OTHER, OTHER, OTHER, OTHER, OTHER, OTHER,
    EXTEND, EXTEND, EXTEND, EXTEND, EXTEND, EXTEND, EXTEND, EXTEND,
    EXTEND, EXTEND, EXTEND, EXTEND, EXTEND, EXTEND, EXTEND, EXTEND,
    EXTEND, EXTEND, EXTEND, EXTEND, EXTEND, EXTEND, EXTEND, EXTEND,
    EXTEND, EXTEND, EXTEND, EXTEND, EXTEND, EXTEND, EXTEND, EXTEND,
    EXTEND, EXTEND, EXTEND, EXTEND, EXTEND, EXTEND, EXTEND, EXTEND,
    EXTEND, EXTEND, EXTEND, EXTEND, EXTEND, EXTEND, EXTEND, EXTEND,
    EXTEND, EXTEND, EXTEND, EXTEND, EXTEND, EXTEND, EXTEND, EXTEND,
    EXTEND, EXTEND, EXTEND, EXTEND, EXTEND, EXTEND, EXTEND, EXTEND,
];

#[verifier::opaque]
pub const GP_PAGE_24: [u8; 256] = [
    OTHER, OTHER, OTHER, OTHER, OTHER, OTHER, OTHER, OTHER,
    OTHER, OTHER, OTHER, CONTROL, EXTEND, ZWJ, CONTROL, CONTROL,
    OTHER, OTHER, OTHER, OTHER, OTHER, OTHER, OTHER, OTHER,
    OTHER, OTHER, OTHER, OTHER, OTHER, OTHER, OTHER, OTHER,
    OTHER, OTHER, OTHER, OTHER, OTHER, OTHER, OTHER, OTHER,
    CONTROL, CONTROL, CONTROL, CONTROL, CONTROL, CONTROL, CONTROL, OTHER,
    OTHER, OTHER, OTHER, OTHER, OTHER, OTHER, OTHER, OTHER,
    OTHER, OTHER, OTHER, OTHER, EXTENDED_GRAPHEME, OTHER, OTHER, OTHER,
    OTHER, OTHER, OTHER, OTHER, OTHER, OTHER, OTHER, OTHER,
    OTHER, EXTENDED_GRAPHEME, OTHER, OTHER, OTHER, OTHER, OTHER, OTHER,
    OTHER, OTHER, OTHER, OTHER, OTHER, OTHER, OTHER, OTHER,
    OTHER, OTHER, OTHER, OTHER, OTHER, OTHER, OTHER, OTHER,
    CONTROL, CONTROL, CONTROL, CONTROL, CONTROL, CONTROL, CONTROL, CONTROL,
    CONTROL, CONTROL, CONTROL, CONTROL, CONTROL, CONTROL, CONTROL, CONTROL,
    OTHER, OTHER, OTHER, OTHER, OTHER, OTHER, OTHER, OTHER,
    OTHER, OTHER, OTHER, OTHER, OTHER, OTHER, OTHER, OTHER,
    OTHER, OTHER, OTHER, OTHER, OTHER, OTHER, OTHER, OTHER,
    OTHER, OTHER, OTHER, OTHER, OTHER, OTHER, OTHER, OTHER,
    OTHER, OTHER, OTHER, OTHER, OTHER, OTHER, OTHER, OTHER,
    OTHER, OTHER, OTHER, OTHER, OTHER, OTHER, OTHER, OTHER,
    OTHER, OTHER, OTHER, OTHER, OTHER, OTHER, OTHER, OTHER,
    OTHER, OTHER, OTHER, OTHER, OTHER, OTHER, OTHER, OTHER,
    OTHER, OTHER, OTHER, OTHER, OTHER, OTHER, OTHER, OTHER,
    OTHER, OTHER, OTHER, OTHER, OTHER, OTHER, OTHER, OTHER,
    OTHER, OTHER, OTHER, OTHER, OTHER, OTHER, OTHER, OTHER,
    OTHER, OTHER, OTHER, OTHER, OTHER, OTHER, OTHER, OTHER,
    EXTEND, EXTEND, EXTEND, EXTEND, EXTEND, EXTEND, EXTEND, EXTEND,
    EXTEND, EXTEND, EXTEND, EXTEND, EXTEND, EXTEND, EXTEND, EXTEND,
    EXTEND, EXTEND, EXTEND, EXTEND, EXTEND, EXTEND, EXTEND, EXTEND,
    EXTEND, EXTEND, EXTEND, EXTEND, EXTEND, EXTEND, EXTEND, EXTEND,
    EXTEND, OTHER, OTHER, OTHER, OTHER, OTHER, OTHER, OTHER,
    OTHER, OTHER, OTHER, OTHER, OTHER, OTHER, OTHER, OTHER,
];

#[verifier::opaque]
pub const GP_PAGE_25: [u8; 256] = [
    OTHER, OTHER, OTHER, OTHER, OTHER, OTHER, OTHER, OTHER,
    OTHER, OTHER, OTHER, OTHER, OTHER, OTHER, OTHER, OTHER,
    OTHER, OTHER, OTHER, OTHER, OTHER, OTHER, OTHER, OTHER,
    OTHER, OTHER, OTHER, OTHER, OTHER, OTHER, OTHER, OTHER,
    OTHER, OTHER, EXTENDED_GRAPHEME, OTHER, OTHER, OTHER, OTHER, OTHER,
    OTHER, OTHER, OTHER, OTHER, OTHER, OTHER, OTHER, OTHER,
    OTHER, OTHER, OTHER, OTHER, OTHER, OTHER, OTHER, OTHER,
    OTHER, EXTENDED_GRAPHEME, OTHER, OTHER, OTHER, OTHER, OTHER, OTHER,
    OTHER, OTHER, OTHER, OTHER, OTHER, OTHER, OTHER, OTHER,
    OTHER, OTHER, OTHER, OTHER, OTHER, OTHER, OTHER, OTHER,
    OTHER, OTHER, OTHER, OTHER, OTHER, OTHER, OTHER, OTHER,
    OTHER, OTHER, OTHER, OTHER, OTHER, OTHER, OTHER, OTHER,
    OTHER, OTHER, OTHER, OTHER, OTHER, OTHER, OTHER, OTHER,
    OTHER, OTHER, OTHER, OTHER, OTHER, OTHER, OTHER, OTHER,
    OTHER, OTHER, OTHER, OTHER, OTHER, OTHER, OTHER, OTHER,
    OTHER, OTHER, OTHER, OTHER, OTHER, OTHER, OTHER, OTHER,
    OTHER, OTHER, OTHER, OTHER, OTHER, OTHER, OTHER, OTHER,
    OTHER, OTHER, OTHER, OTHER, OTHER, OTHER, OTHER, OTHER,
    OTHER, OTHER, OTHER, OTHER, EXTENDED_GRAPHEME, EXTENDED_GRAPHEME, EXTENDED_GRAPHEME, EXTENDED_GRAPHEME,
    EXTENDED_GRAPHEME, EXTENDED_GRAPHEME, OTHER, OTHER, OTHER, OTHER, OTHER, OTHER,
    OTHER, OTHER, OTHER, OTHER, OTHER, OTHER, OTHER, OTHER,
    OTHER, EXTENDED_GRAPHEME, EXTENDED_GRAPHEME, OTHER, OTHER, OTHER, OTHER, OTHER,
    OTHER, OTHER, OTHER, OTHER, OTHER, OTHER, OTHER, OTHER,
    OTHER, OTHER, OTHER, OTHER, OTHER, OTHER, OTHER, OTHER,
    OTHER, OTHER, OTHER, OTHER, OTHER, OTHER, OTHER, OTHER,
    OTHER, OTHER, OTHER, OTHER, OTHER, OTHER, OTHER, OTHER,
    OTHER, OTHER, OTHER, OTHER, OTHER, OTHER, OTHER, OTHER,
    OTHER, OTHER, OTHER, OTHER, OTHER, OTHER, OTHER, OTHER,
    OTHER, OTHER, OTHER, OTHER, OTHER, OTHER, OTHER, OTHER,
    OTHER, OTHER, OTHER, OTHER, OTHER, OTHER, OTHER, OTHER,
    OTHER, OTHER, OTHER, OTHER, OTHER, OTHER, OTHER, OTHER,
    OTHER, OTHER, OTHER, OTHER, OTHER, OTHER, OTHER, OTHER,
];

#[verifier::opaque]
pub const GP_PAGE_26: [u8; 256] = [
    OTHER, OTHER, OTHER, OTHER, OTHER, OTHER, OTHER, OTHER,
    OTHER, OTHER, OTHER, OTHER, OTHER, OTHER, OTHER, OTHER,
    OTHER, OTHER, OTHER, OTHER, OTHER, OTHER, OTHER, OTHER,
    OTHER, OTHER, EXTENDED_GRAPHEME, EXTENDED_GRAPHEME, OTHER, OTHER, OTHER, OTHER,
    OTHER, OTHER, OTHER, OTHER, OTHER, OTHER, OTHER, OTHER,
    EXTENDED_GRAPHEME, OTHER, OTHER, OTHER, OTHER, OTHER, OTHER, OTHER,
    OTHER, OTHER, OTHER, OTHER, OTHER, OTHER, OTHER, OTHER,
    OTHER, OTHER, OTHER, OTHER, OTHER, OTHER, OTHER, OTHER,
    OTHER, OTHER, OTHER, OTHER, OTHER, OTHER, OTHER, OTHER,
    OTHER, OTHER, OTHER, OTHER, OTHER, OTHER, OTHER, OTHER,
    OTHER, OTHER, OTHER, OTHER, OTHER, OTHER, OTHER, OTHER,
    OTHER, OTHER, OTHER, OTHER, OTHER, OTHER, OTHER, OTHER,
    OTHER, OTHER, OTHER, OTHER, OTHER, OTHER, OTHER, OTHER,
    OTHER, OTHER, OTHER, OTHER, OTHER, OTHER, OTHER, OTHER,
    OTHER, OTHER, OTHER, OTHER, OTHER, OTHER, OTHER, OTHER,
    OTHER, OTHER, OTHER, OTHER, OTHER, OTHER, OTHER, OTHER,
    OTHER, OTHER, OTHER, OTHER, OTHER, OTHER, OTHER, OTHER,
    EXTENDED_GRAPHEME, OTHER, OTHER, OTHER, OTHER, OTHER, OTHER, OTHER,
    OTHER, OTHER, OTHER, OTHER, OTHER, OTHER, OTHER, OTHER,
    OTHER, OTHER, OTHER, OTHER, OTHER, OTHER, OTHER, OTHER,
    OTHER, OTHER, OTHER, OTHER, OTHER, OTHER, OTHER, OTHER,
    OTHER, OTHER, OTHER, OTHER, OTHER, OTHER, OTHER, OTHER,
    OTHER, OTHER, OTHER, OTHER, OTHER, OTHER, OTHER, OTHER,
    OTHER, OTHER, OTHER, OTHER, OTHER, OTHER, OTHER, OTHER,
    OTHER, OTHER, OTHER, OTHER, OTHER, OTHER, OTHER, OTHER,
    OTHER, OTHER, OTHER, OTHER, OTHER, OTHER, OTHER, EXTENDED_GRAPHEME,
    OTHER, OTHER, OTHER, OTHER, OTHER, OTHER, OTHER, OTHER,
    OTHER, OTHER, OTHER, OTHER, OTHER, OTHER, OTHER, OTHER,
    OTHER, OTHER, OTHER, OTHER, OTHER, OTHER, OTHER, OTHER,
    OTHER, EXTENDED_GRAPHEME, EXTENDED_GRAPHEME, EXTENDED_GRAPHEME, EXTENDED_GRAPHEME, EXTENDED_GRAPHEME, EXTENDED_GRAPHEME, EXTENDED_GRAPHEME,
    EXTENDED_GRAPHEME, EXTENDED_GRAPHEME, EXTENDED_GRAPHEME, EXTENDED_GRAPHEME, OTHER, OTHER, OTHER, OTHER,
    EXTENDED_GRAPHEME, EXTENDED_GRAPHEME, EXTENDED_GRAPHEME, OTHER, OTHER, OTHER, OTHER, OTHER,
];

#[verifier::opaque]
pub const GP_PAGE_27: [u8; 256] = [
    OTHER, OTHER, OTHER, OTHER, OTHER, OTHER, OTHER, OTHER,
    OTHER, OTHER, OTHER, OTHER, OTHER, OTHER, OTHER, OTHER,
    OTHER, OTHER, OTHER, OTHER, OTHER, OTHER, OTHER, OTHER,
    OTHER, OTHER, OTHER, OTHER, OTHER, OTHER, OTHER, OTHER,
    OTHER, OTHER, OTHER, OTHER, OTHER, OTHER, OTHER, OTHER,
    OTHER, OTHER, OTHER, OTHER, OTHER, OTHER, OTHER, OTHER,
    OTHER, OTHER, OTHER, OTHER, OTHER, OTHER, OTHER, OTHER,
    OTHER, OTHER, OTHER, OTHER, OTHER, OTHER, OTHER, OTHER,
    OTHER, OTHER, OTHER, OTHER, OTHER, OTHER, OTHER, OTHER,
    OTHER, OTHER, OTHER, OTHER, OTHER, OTHER, OTHER, OTHER,
    OTHER, OTHER, OTHER, OTHER, OTHER, OTHER, OTHER, OTHER,
    OTHER, OTHER, OTHER, OTHER, OTHER, OTHER, OTHER, OTHER,
    OTHER, OTHER, OTHER, OTHER, OTHER, OTHER, OTHER, OTHER,
    OTHER, OTHER, OTHER, OTHER, OTHER, OTHER, OTHER, OTHER,
    OTHER, OTHER, OTHER, OTHER, OTHER, OTHER, OTHER, OTHER,
    OTHER, OTHER, OTHER, OTHER, OTHER, OTHER, OTHER, OTHER,
    OTHER, OTHER, OTHER, OTHER, OTHER, OTHER, OTHER, OTHER,
    OTHER, OTHER, OTHER, OTHER, OTHER, OTHER, OTHER, OTHER,
    OTHER, OTHER, OTHER, OTHER, OTHER, OTHER, OTHER, OTHER,
    OTHER, OTHER, OTHER, OTHER, OTHER, OTHER, OTHER, OTHER,
    OTHER, OTHER, OTHER, OTHER, OTHER, OTHER, OTHER, OTHER,
    OTHER, OTHER, OTHER, OTHER, OTHER, OTHER, OTHER, OTHER,
    OTHER, OTHER, OTHER, OTHER, OTHER, OTHER, OTHER, OTHER,
    OTHER, OTHER, OTHER, OTHER, OTHER, OTHER, OTHER, OTHER,
    OTHER, OTHER, EXTENDED_GRAPHEME, OTHER, OTHER, OTHER, OTHER, OTHER,
    OTHER, OTHER, OTHER, OTHER, OTHER, OTHER, OTHER, OTHER,
    OTHER, OTHER, OTHER, OTHER, OTHER, OTHER, OTHER, OTHER,
    OTHER, OTHER, OTHER, OTHER, OTHER, OTHER, OTHER, OTHER,
    OTHER, OTHER, OTHER, OTHER, OTHER, OTHER, OTHER, OTHER,
    OTHER, OTHER, OTHER, OTHER, OTHER, OTHER, OTHER, OTHER,
    OTHER, OTHER, OTHER, OTHER, OTHER, OTHER, OTHER, OTHER,
    OTHER, OTHER, OTHER, OTHER, OTHER, OTHER, OTHER, OTHER,
];

#[verifier::opaque]
pub const GP_PAGE_28: [u8; 256] = [
    OTHER, OTHER, OTHER, OTHER, OTHER, OTHER, OTHER, OTHER,
    OTHER, OTHER, OTHER, OTHER, OTHER, OTHER, OTHER, OTHER,
    OTHER, OTHER, OTHER, OTHER, OTHER, OTHER, OTHER, OTHER,
    OTHER, OTHER, OTHER, OTHER, OTHER, OTHER, OTHER, OTHER,
    OTHER, OTHER, OTHER, OTHER, OTHER, OTHER, OTHER, OTHER,
    OTHER, OTHER, OTHER, OTHER, OTHER, OTHER, OTHER, OTHER,
    OTHER, OTHER, OTHER, OTHER, OTHER, OTHER, OTHER, OTHER,
    OTHER, OTHER, OTHER, OTHER, OTHER, OTHER, OTHER, OTHER,
    OTHER, OTHER, OTHER, OTHER, OTHER, OTHER, OTHER, OTHER,
    OTHER, OTHER, OTHER, OTHER, OTHER, OTHER, OTHER, OTHER,
    OTHER, OTHER, OTHER, OTHER, OTHER, OTHER, OTHER, OTHER,
    OTHER, OTHER, OTHER, OTHER, OTHER, OTHER, OTHER, OTHER,
    OTHER, OTHER, OTHER, OTHER, OTHER, OTHER, OTHER, OTHER,
    OTHER, OTHER, OTHER, OTHER, OTHER, OTHER, OTHER, OTHER,
    OTHER, OTHER, OTHER, OTHER, OTHER, OTHER, OTHER, OTHER,
    OTHER, OTHER, OTHER, OTHER, OTHER, OTHER, OTHER, OTHER,
    OTHER, OTHER, OTHER, OTHER, OTHER, OTHER, OTHER, OTHER,
    OTHER, OTHER, OTHER, OTHER, OTHER, OTHER, OTHER, OTHER,
    OTHER, OTHER, OTHER, OTHER, OTHER, OTHER, OTHER, OTHER,
    OTHER, OTHER, OTHER, OTHER, OTHER, OTHER, OTHER, OTHER,
    OTHER, OTHER, OTHER, OTHER, OTHER, OTHER, OTHER, OTHER,
    OTHER, OTHER, EXTENDED_GRAPHEME, EXTENDED_GRAPHEME, OTHER, OTHER, OTHER, OTHER,
    OTHER, OTHER, OTHER, OTHER, OTHER, OTHER, EXTENDED_GRAPHEME, OTHER,
    OTHER, OTHER, OTHER, OTHER, OTHER, OTHER, OTHER, OTHER,
    EXTENDED_GRAPHEME, OTHER, OTHER, OTHER, OTHER, OTHER, OTHER, OTHER,
    OTHER, OTHER, OTHER, OTHER, OTHER, OTHER, OTHER, OTHER,
    OTHER, OTHER, OTHER, OTHER, OTHER, OTHER, OTHER, OTHER,
    OTHER, OTHER, OTHER, OTHER, OTHER, OTHER, OTHER, OTHER,
    OTHER, OTHER, OTHER, OTHER, OTHER, OTHER, OTHER, OTHER,
    OTHER, OTHER, OTHER, OTHER, OTHER, OTHER, OTHER, OTHER,
    OTHER, OTHER, OTHER, OTHER, OTHER, OTHER, OTHER, OTHER,
    OTHER, OTHER, OTHER, EXTENDED_GRAPHEME, EXTENDED_GRAPHEME, EXTENDED_GRAPHEME, EXTENDED_GRAPHEME, OTHER,
];

#[verifier::opaque]
pub const GP_PAGE_29: [u8; 256] = [
    EXTENDED_GRAPHEME, EXTENDED_GRAPHEME, EXTENDED_GRAPHEME, EXTENDED_GRAPHEME, EXTENDED_GRAPHEME, EXTENDED_GRAPHEME, OTHER, EXTENDED_GRAPHEME,
    EXTENDED_GRAPHEME, EXTENDED_GRAPHEME, EXTENDED_GRAPHEME, EXTENDED_GRAPHEME, EXTENDED_GRAPHEME, EXTENDED_GRAPHEME, EXTENDED_GRAPHEME, EXTENDED_GRAPHEME,
    EXTENDED_GRAPHEME, EXTENDED_GRAPHEME, EXTENDED_GRAPHEME, OTHER, EXTENDED_GRAPHEME, EXTENDED_GRAPHEME, EXTENDED_GRAPHEME, EXTENDED_GRAPHEME,
    EXTENDED_GRAPHEME, EXTENDED_GRAPHEME, EXTENDED_GRAPHEME, EXTENDED_GRAPHEME, EXTENDED_GRAPHEME, EXTENDED_GRAPHEME, EXTENDED_GRAPHEME, EXTENDED_GRAPHEME,
    EXTENDED_GRAPHEME, EXTENDED_GRAPHEME, EXTENDED_GRAPHEME, EXTENDED_GRAPHEME, EXTENDED_GRAPHEME, EXTENDED_GRAPHEME, EXTENDED_GRAPHEME, EXTENDED_GRAPHEME,
    EXTENDED_GRAPHEME, EXTENDED_GRAPHEME, EXTENDED_GRAPHEME, EXTENDED_GRAPHEME, EXTENDED_GRAPHEME, EXTENDED_GRAPHEME, EXTENDED_GRAPHEME, EXTENDED_GRAPHEME,
    EXTENDED_GRAPHEME, EXTENDED_GRAPHEME, EXTENDED_GRAPHEME, EXTENDED_GRAPHEME, EXTENDED_GRAPHEME, EXTENDED_GRAPHEME, EXTENDED_GRAPHEME, EXTENDED_GRAPHEME,
    EXTENDED_GRAPHEME, EXTENDED_GRAPHEME, EXTENDED_GRAPHEME, EXTENDED_GRAPHEME, EXTENDED_GRAPHEME, EXTENDED_GRAPHEME, EXTENDED_GRAPHEME, EXTENDED_GRAPHEME,
    EXTENDED_GRAPHEME, EXTENDED_GRAPHEME, EXTENDED_GRAPHEME, EXTENDED_GRAPHEME, EXTENDED_GRAPHEME, EXTENDED_GRAPHEME, EXTENDED_GRAPHEME, EXTENDED_GRAPHEME,
    EXTENDED_GRAPHEME, EXTENDED_GRAPHEME, EXTENDED_GRAPHEME, EXTENDED_GRAPHEME, EXTENDED_GRAPHEME, EXTENDED_GRAPHEME, EXTENDED_GRAPHEME, EXTENDED_GRAPHEME,
    EXTENDED_GRAPHEME, EXTENDED_GRAPHEME, EXTENDED_GRAPHEME, EXTENDED_GRAPHEME, EXTENDED_GRAPHEME, EXTENDED_GRAPHEME, EXTENDED_GRAPHEME, EXTENDED_GRAPHEME,
    EXTENDED_GRAPHEME, EXTENDED_GRAPHEME, EXTENDED_GRAPHEME, EXTENDED_GRAPHEME, EXTENDED_GRAPHEME, EXTENDED_GRAPHEME, EXTENDED_GRAPHEME, EXTENDED_GRAPHEME,
    EXTENDED_GRAPHEME, EXTENDED_GRAPHEME, EXTENDED_GRAPHEME, EXTENDED_GRAPHEME, EXTENDED_GRAPHEME, EXTENDED_GRAPHEME, EXTENDED_GRAPHEME, EXTENDED_GRAPHEME,
    EXTENDED_GRAPHEME, EXTENDED_GRAPHEME, EXTENDED_GRAPHEME, EXTENDED_GRAPHEME, EXTENDED_GRAPHEME, EXTENDED_GRAPHEME, EXTENDED_GRAPHEME, EXTENDED_GRAPHEME,
    EXTENDED_GRAPHEME, EXTENDED_GRAPHEME, EXTENDED_GRAPHEME, EXTENDED_GRAPHEME, EXTENDED_GRAPHEME, EXTENDED_GRAPHEME, EXTENDED_GRAPHEME, EXTENDED_GRAPHEME,
    EXTENDED_GRAPHEME, EXTENDED_GRAPHEME, EXTENDED_GRAPHEME, EXTENDED_GRAPHEME, EXTENDED_GRAPHEME, EXTENDED_GRAPHEME, EXTENDED_GRAPHEME, EXTENDED_GRAPHEME,
    EXTENDED_GRAPHEME, EXTENDED_GRAPHEME, EXTENDED_GRAPHEME, EXTENDED_GRAPHEME, EXTENDED_GRAPHEME, EXTENDED_GRAPHEME, OTHER, OTHER,
    OTHER, OTHER, OTHER, OTHER, OTHER, OTHER, OTHER, OTHER,
    EXTENDED_GRAPHEME, EXTENDED_GRAPHEME, EXTENDED_GRAPHEME, EXTENDED_GRAPHEME, EXTENDED_GRAPHEME, EXTENDED_GRAPHEME, EXTENDED_GRAPHEME, EXTENDED_GRAPHEME,
    EXTENDED_GRAPHEME, EXTENDED_GRAPHEME, EXTENDED_GRAPHEME, EXTENDED_GRAPHEME, EXTENDED_GRAPHEME, EXTENDED_GRAPHEME, EXTENDED_GRAPHEME, EXTENDED_GRAPHEME,
    EXTENDED_GRAPHEME, EXTENDED_GRAPHEME, EXTENDED_GRAPHEME, EXTENDED_GRAPHEME, EXTENDED_GRAPHEME, EXTENDED_GRAPHEME, EXTENDED_GRAPHEME, EXTENDED_GRAPHEME,
    EXTENDED_GRAPHEME, EXTENDED_GRAPHEME, EXTENDED_GRAPHEME, EXTENDED_GRAPHEME, EXTENDED_GRAPHEME, EXTENDED_GRAPHEME, EXTENDED_GRAPHEME, EXTENDED_GRAPHEME,
    EXTENDED_GRAPHEME, EXTENDED_GRAPHEME, EXTENDED_GRAPHEME, EXTENDED_GRAPHEME, EXTENDED_GRAPHEME, EXTENDED_GRAPHEME, EXTENDED_GRAPHEME, EXTENDED_GRAPHEME,
    EXTENDED_GRAPHEME, EXTENDED_GRAPHEME, EXTENDED_GRAPHEME, EXTENDED_GRAPHEME, EXTENDED_GRAPHEME, EXTENDED_GRAPHEME, EXTENDED_GRAPHEME, EXTENDED_GRAPHEME,
    EXTENDED_GRAPHEME, EXTENDED_GRAPHEME, EXTENDED_GRAPHEME, EXTENDED_GRAPHEME, EXTENDED_GRAPHEME, EXTENDED_GRAPHEME, EXTENDED_GRAPHEME, EXTENDED_GRAPHEME,
    EXTENDED_GRAPHEME, EXTENDED_GRAPHEME, EXTENDED_GRAPHEME, EXTENDED_GRAPHEME, EXTENDED_GRAPHEME, EXTENDED_GRAPHEME, EXTENDED_GRAPHEME, EXTENDED_GRAPHEME,
    EXTENDED_GRAPHEME, EXTENDED_GRAPHEME, EXTENDED_GRAPHEME, EXTENDED_GRAPHEME, EXTENDED_GRAPHEME, EXTENDED_GRAPHEME, EXTENDED_GRAPHEME, EXTENDED_GRAPHEME,
    EXTENDED_GRAPHEME, EXTENDED_GRAPHEME, EXTENDED_GRAPHEME, EXTENDED_GRAPHEME, EXTENDED_GRAPHEME, EXTENDED_GRAPHEME, EXTENDED_GRAPHEME, EXTENDED_GRAPHEME,
    EXTENDED_GRAPHEME, EXTENDED_GRAPHEME, EXTENDED_GRAPHEME, EXTENDED_GRAPHEME, EXTENDED_GRAPHEME, EXTENDED_GRAPHEME, EXTENDED_GRAPHEME, EXTENDED_GRAPHEME,
    EXTENDED_GRAPHEME, EXTENDED_GRAPHEME, EXTENDED_GRAPHEME, EXTENDED_GRAPHEME, EXTENDED_GRAPHEME, EXTENDED_GRAPHEME, EXTENDED_GRAPHEME, EXTENDED_GRAPHEME,
    EXTENDED_GRAPHEME, EXTENDED_GRAPHEME, EXTENDED_GRAPHEME, EXTENDED_GRAPHEME, EXTENDED_GRAPHEME, EXTENDED_GRAPHEME, EXTENDED_GRAPHEME, EXTENDED_GRAPHEME,
    EXTENDED_GRAPHEME, EXTENDED_GRAPHEME, EXTENDED_GRAPHEME, EXTENDED_GRAPHEME, EXTENDED_GRAPHEME, EXTENDED_GRAPHEME, EXTENDED_GRAPHEME, EXTENDED_GRAPHEME,
];

#[verifier::opaque]
pub const GP_PAGE_30: [u8; 256] = [
    EXTENDED_GRAPHEME, EXTENDED_GRAPHEME, EXTENDED_GRAPHEME, EXTENDED_GRAPHEME, EXTENDED_GRAPHEME, EXTENDED_GRAPHEME, OTHER, OTHER,
    EXTENDED_GRAPHEME, EXTENDED_GRAPHEME, EXTENDED_GRAPHEME, EXTENDED_GRAPHEME, EXTENDED_GRAPHEME, EXTENDED_GRAPHEME, EXTENDED_GRAPHEME, EXTENDED_GRAPHEME,
    EXTENDED_GRAPHEME, EXTENDED_GRAPHEME, EXTENDED_GRAPHEME, OTHER, EXTENDED_GRAPHEME, OTHER, EXTENDED_GRAPHEME, OTHER,
    OTHER, OTHER, OTHER, OTHER, OTHER, EXTENDED_GRAPHEME, OTHER, OTHER,
    OTHER, EXTENDED_GRAPHEME, OTHER, OTHER, OTHER, OTHER, OTHER, OTHER,
    EXTENDED_GRAPHEME, OTHER, OTHER, OTHER, OTHER, OTHER, OTHER, OTHER,
    OTHER, OTHER, OTHER, EXTENDED_GRAPHEME, EXTENDED_GRAPHEME, OTHER, OTHER, OTHER,
    OTHER, OTHER, OTHER, OTHER, OTHER, OTHER, OTHER, OTHER,
    OTHER, OTHER, OTHER, OTHER, EXTENDED_GRAPHEME, OTHER, OTHER, EXTENDED_GRAPHEME,
    OTHER, OTHER, OTHER, OTHER, EXTENDED_GRAPHEME, OTHER, EXTENDED_GRAPHEME, OTHER,
    OTHER, OTHER, OTHER, EXTENDED_GRAPHEME, EXTENDED_GRAPHEME, EXTENDED_GRAPHEME, OTHER, EXTENDED_GRAPHEME,
    OTHER, OTHER, OTHER, OTHER, OTHER, OTHER, OTHER, OTHER,
    OTHER, OTHER, OTHER, EXTENDED_GRAPHEME, EXTENDED_GRAPHEME, EXTENDED_GRAPHEME, EXTENDED_GRAPHEME, EXTENDED_GRAPHEME,
    OTHER, OTHER, OTHER, OTHER, OTHER, OTHER, OTHER, OTHER,
    OTHER, OTHER, OTHER, OTHER, OTHER, OTHER, OTHER, OTHER,
    OTHER, OTHER, OTHER, OTHER, OTHER, OTHER, OTHER, OTHER,
    OTHER, OTHER, OTHER, OTHER, OTHER, OTHER, OTHER, OTHER,
    OTHER, OTHER, OTHER, OTHER, OTHER, OTHER, OTHER, OTHER,
    OTHER, OTHER, OTHER, OTHER, OTHER, EXTENDED_GRAPHEME, EXTENDED_GRAPHEME, EXTENDED_GRAPHEME,
    OTHER, OTHER, OTHER, OTHER, OTHER, OTHER, OTHER, OTHER,
    OTHER, EXTENDED_GRAPHEME, OTHER, OTHER, OTHER, OTHER, OTHER, OTHER,
    OTHER, OTHER, OTHER, OTHER, OTHER, OTHER, OTHER, OTHER,
    EXTENDED_GRAPHEME, OTHER, OTHER, OTHER, OTHER, OTHER, OTHER, OTHER,
    OTHER, OTHER, OTHER, OTHER, OTHER, OTHER, OTHER, EXTENDED_GRAPHEME,
    OTHER, OTHER, OTHER, OTHER, OTHER, OTHER, OTHER, OTHER,
    OTHER, OTHER, OTHER, OTHER, OTHER, OTHER, OTHER, OTHER,
    OTHER, OTHER, OTHER, OTHER, OTHER, OTHER, OTHER, OTHER,
    OTHER, OTHER, OTHER, OTHER, OTHER, OTHER, OTHER, OTHER,
    OTHER, OTHER, OTHER, OTHER, OTHER, OTHER, OTHER, OTHER,
    OTHER, OTHER, OTHER, OTHER, OTHER, OTHER, OTHER, OTHER,
    OTHER, OTHER, OTHER, OTHER, OTHER, OTHER, OTHER, OTHER,
    OTHER, OTHER, OTHER, OTHER, OTHER, OTHER, OTHER, OTHER,
];

#[verifier::opaque]
pub const GP_PAGE_31: [u8; 256] = [
    OTHER, OTHER, OTHER, OTHER, OTHER, OTHER, OTHER, OTHER,
    OTHER, OTHER, OTHER, OTHER, OTHER, OTHER, OTHER, OTHER,
    OTHER, OTHER, OTHER, OTHER, OTHER, OTHER, OTHER, OTHER,
    OTHER, OTHER, OTHER, OTHER, OTHER, OTHER, OTHER, OTHER,
    OTHER, OTHER, OTHER, OTHER, OTHER, OTHER, OTHER, OTHER,
    OTHER, OTHER, OTHER, OTHER, OTHER, OTHER, OTHER, OTHER,
    OTHER, OTHER, OTHER, OTHER, EXTENDED_GRAPHEME, EXTENDED_GRAPHEME, OTHER, OTHER,
    OTHER, OTHER, OTHER, OTHER, OTHER, OTHER, OTHER, OTHER,
    OTHER, OTHER, OTHER, OTHER, OTHER, OTHER, OTHER, OTHER,
    OTHER, OTHER, OTHER, OTHER, OTHER, OTHER, OTHER, OTHER,
    OTHER, OTHER, OTHER, OTHER, OTHER, OTHER, OTHER, OTHER,
    OTHER, OTHER, OTHER, OTHER, OTHER, OTHER, OTHER, OTHER,
    OTHER, OTHER, OTHER, OTHER, OTHER, OTHER, OTHER, OTHER,
    OTHER, OTHER, OTHER, OTHER, OTHER, OTHER, OTHER, OTHER,
    OTHER, OTHER, OTHER, OTHER, OTHER, OTHER, OTHER, OTHER,
    OTHER, OTHER, OTHER, OTHER, OTHER, OTHER, OTHER, OTHER,
    OTHER, OTHER, OTHER, OTHER, OTHER, OTHER, OTHER, OTHER,
    OTHER, OTHER, OTHER, OTHER, OTHER, OTHER, OTHER, OTHER,
    OTHER, OTHER, OTHER, OTHER, OTHER, OTHER, OTHER, OTHER,
    OTHER, OTHER, OTHER, OTHER, OTHER, OTHER, OTHER, OTHER,
    OTHER, OTHER, OTHER, OTHER, OTHER, OTHER, OTHER, OTHER,
    OTHER, OTHER, OTHER, OTHER, OTHER, OTHER, OTHER, OTHER,
    OTHER, OTHER, OTHER, OTHER, OTHER, OTHER, OTHER, OTHER,
    OTHER, OTHER, OTHER, OTHER, OTHER, OTHER, OTHER, OTHER,
    OTHER, OTHER, OTHER, OTHER, OTHER, OTHER, OTHER, OTHER,
    OTHER, OTHER, OTHER, OTHER, OTHER, OTHER, OTHER, OTHER,
    OTHER, OTHER, OTHER, OTHER, OTHER, OTHER, OTHER, OTHER,
    OTHER, OTHER, OTHER, OTHER, OTHER, OTHER, OTHER, OTHER,
    OTHER, OTHER, OTHER, OTHER, OTHER, OTHER, OTHER, OTHER,
    OTHER, OTHER, OTHER, OTHER, OTHER, OTHER, OTHER, OTHER,
    OTHER, OTHER, OTHER, OTHER, OTHER, OTHER, OTHER, OTHER,
    OTHER, OTHER, OTHER, OTHER, OTHER, OTHER, OTHER, OTHER,
];

#[verifier::opaque]
pub const GP_PAGE_32: [u8; 256] = [
    OTHER, OTHER, OTHER, OTHER, OTHER, EXTENDED_GRAPHEME, EXTENDED_GRAPHEME, EXTENDED_GRAPHEME,
    OTHER, OTHER, OTHER, OTHER, OTHER, OTHER, OTHER, OTHER,
    OTHER, OTHER, OTHER, OTHER, OTHER, OTHER, OTHER, OTHER,
    OTHER, OTHER, OTHER, EXTENDED_GRAPHEME, EXTENDED_GRAPHEME, OTHER, OTHER, OTHER,
    OTHER, OTHER, OTHER, OTHER, OTHER, OTHER, OTHER, OTHER,
    OTHER, OTHER, OTHER, OTHER, OTHER, OTHER, OTHER, OTHER,
    OTHER, OTHER, OTHER, OTHER, OTHER, OTHER, OTHER, OTHER,
    OTHER, OTHER, OTHER, OTHER, OTHER, OTHER, OTHER, OTHER,
    OTHER, OTHER, OTHER, OTHER, OTHER, OTHER, OTHER, OTHER,
    OTHER, OTHER, OTHER, OTHER, OTHER, OTHER, OTHER, OTHER,
    EXTENDED_GRAPHEME, OTHER, OTHER, OTHER, OTHER, EXTENDED_GRAPHEME, OTHER, OTHER,
    OTHER, OTHER, OTHER, OTHER, OTHER, OTHER, OTHER, OTHER,
    OTHER, OTHER, OTHER, OTHER, OTHER, OTHER, OTHER, OTHER,
    OTHER, OTHER, OTHER, OTHER, OTHER, OTHER, OTHER, OTHER,
    OTHER, OTHER, OTHER, OTHER, OTHER, OTHER, OTHER, OTHER,
    OTHER, OTHER, OTHER, OTHER, OTHER, OTHER, OTHER, OTHER,
    OTHER, OTHER, OTHER, OTHER, OTHER, OTHER, OTHER, OTHER,
    OTHER, OTHER, OTHER, OTHER, OTHER, OTHER, OTHER, OTHER,
    OTHER, OTHER, OTHER, OTHER, OTHER, OTHER, OTHER, OTHER,
    OTHER, OTHER, OTHER, OTHER, OTHER, OTHER, OTHER, OTHER,
    OTHER, OTHER, OTHER, OTHER, OTHER, OTHER, OTHER, OTHER,
    OTHER, OTHER, OTHER, OTHER, OTHER, OTHER, OTHER, OTHER,
    OTHER, OTHER, OTHER, OTHER, OTHER, OTHER, OTHER, OTHER,
    OTHER, OTHER, OTHER, OTHER, OTHER, OTHER, OTHER, OTHER,
    OTHER, OTHER, OTHER, OTHER, OTHER, OTHER, OTHER, OTHER,
    OTHER, OTHER, OTHER, OTHER, OTHER, OTHER, OTHER, OTHER,
    OTHER, OTHER, OTHER, OTHER, OTHER, OTHER, OTHER, OTHER,
    OTHER, OTHER, OTHER, OTHER, OTHER, OTHER, OTHER, OTHER,
    OTHER, OTHER, OTHER, OTHER, OTHER, OTHER, OTHER, OTHER,
    OTHER, OTHER, OTHER, OTHER, OTHER, OTHER, OTHER, OTHER,
    OTHER, OTHER, OTHER, OTHER, OTHER, OTHER, OTHER, OTHER,
    OTHER, OTHER, OTHER, OTHER, OTHER, OTHER, OTHER, OTHER,
];

#[verifier::opaque]
pub const GP_PAGE_33: [u8; 256] = [
    OTHER, OTHER, OTHER, OTHER, OTHER, OTHER, OTHER, OTHER,
    OTHER, OTHER, OTHER, OTHER, OTHER, OTHER, OTHER, OTHER,
    OTHER, OTHER, OTHER, OTHER, OTHER, OTHER, OTHER, OTHER,
    OTHER, OTHER, OTHER, OTHER, OTHER, OTHER, OTHER, OTHER,
    OTHER, OTHER, OTHER, OTHER, OTHER, OTHER, OTHER, OTHER,
    OTHER, OTHER, OTHER, OTHER, OTHER, OTHER, OTHER, OTHER,
    OTHER, OTHER, OTHER, OTHER, OTHER, OTHER, OTHER, OTHER,
    OTHER, OTHER, OTHER, OTHER, OTHER, OTHER, OTHER, OTHER,
    OTHER, OTHER, OTHER, OTHER, OTHER, OTHER, OTHER, OTHER,
    OTHER, OTHER, OTHER, OTHER, OTHER, OTHER, OTHER, OTHER,
    OTHER, OTHER, OTHER, OTHER, OTHER, OTHER, OTHER, OTHER,
    OTHER, OTHER, OTHER, OTHER, OTHER, OTHER, OTHER, OTHER,
    OTHER, OTHER, OTHER, OTHER, OTHER, OTHER, OTHER, OTHER,
    OTHER, OTHER, OTHER, OTHER, OTHER, OTHER, OTHER, OTHER,
    OTHER, OTHER, OTHER, OTHER, OTHER, OTHER, OTHER, OTHER,
    OTHER, OTHER, OTHER, OTHER, OTHER, OTHER, OTHER, OTHER,
    OTHER, OTHER, OTHER, OTHER, OTHER, OTHER, OTHER, OTHER,
    OTHER, OTHER, OTHER, OTHER, OTHER, OTHER, OTHER, OTHER,
    OTHER, OTHER, OTHER, OTHER, OTHER, OTHER, OTHER, OTHER,
    OTHER, OTHER, OTHER, OTHER, OTHER, OTHER, OTHER, OTHER,
    OTHER, OTHER, OTHER, OTHER, OTHER, OTHER, OTHER, OTHER,
    OTHER, OTHER, OTHER, OTHER, OTHER, OTHER, OTHER, OTHER,
    OTHER, OTHER, OTHER, OTHER, OTHER, OTHER, OTHER, OTHER,
    OTHER, OTHER, OTHER, OTHER, OTHER, OTHER, OTHER, OTHER,
    OTHER, OTHER, OTHER, OTHER, OTHER, OTHER, OTHER, OTHER,
    OTHER, OTHER, OTHER, OTHER, OTHER, OTHER, OTHER, OTHER,
    OTHER, OTHER, OTHER, OTHER, OTHER, OTHER, OTHER, OTHER,
    OTHER, OTHER, OTHER, OTHER, OTHER, OTHER, OTHER, OTHER,
    OTHER, OTHER, OTHER, OTHER, OTHER, OTHER, OTHER, OTHER,
    OTHER, OTHER, OTHER, OTHER, OTHER, OTHER, OTHER, EXTEND,
    EXTEND, EXTEND, OTHER, OTHER, OTHER, OTHER, OTHER, OTHER,
    OTHER, OTHER, OTHER, OTHER, OTHER, OTHER, OTHER, OTHER,
];

#[verifier::opaque]
pub const GP_PAGE_34: [u8; 256] = [
    OTHER, OTHER, OTHER, OTHER, OTHER, OTHER, OTHER, OTHER,
    OTHER, OTHER, OTHER, OTHER, OTHER, OTHER, OTHER, OTHER,
    OTHER, OTHER, OTHER, OTHER, OTHER, OTHER, OTHER, OTHER,
    OTHER, OTHER, OTHER, OTHER, OTHER, OTHER, OTHER, OTHER,
    OTHER, OTHER, OTHER, OTHER, OTHER, OTHER, OTHER, OTHER,
    OTHER, OTHER, OTHER, OTHER, OTHER, OTHER, OTHER, OTHER,
    OTHER, OTHER, OTHER, OTHER, OTHER, OTHER, OTHER, OTHER,
    OTHER, OTHER, OTHER, OTHER, OTHER, OTHER, OTHER, OTHER,
    OTHER, OTHER, OTHER, OTHER, OTHER, OTHER, OTHER, OTHER,
    OTHER, OTHER, OTHER, OTHER, OTHER, OTHER, OTHER, OTHER,
    OTHER, OTHER, OTHER, OTHER, OTHER, OTHER, OTHER, OTHER,
    OTHER, OTHER, OTHER, OTHER, OTHER, OTHER, OTHER, OTHER,
    OTHER, OTHER, OTHER, OTHER, OTHER, OTHER, OTHER, OTHER,
    OTHER, OTHER, OTHER, OTHER, OTHER, OTHER, OTHER, OTHER,
    OTHER, OTHER, OTHER, OTHER, OTHER, OTHER, OTHER, OTHER,
    OTHER, OTHER, OTHER, OTHER, OTHER, OTHER, OTHER, EXTEND,
    OTHER, OTHER, OTHER, OTHER, OTHER, OTHER, OTHER, OTHER,
    OTHER, OTHER, OTHER, OTHER, OTHER, OTHER, OTHER, OTHER,
    OTHER, OTHER, OTHER, OTHER, OTHER, OTHER, OTHER, OTHER,
    OTHER, OTHER, OTHER, OTHER, OTHER, OTHER, OTHER, OTHER,
    OTHER, OTHER, OTHER, OTHER, OTHER, OTHER, OTHER, OTHER,
    OTHER, OTHER, OTHER, OTHER, OTHER, OTHER, OTHER, OTHER,
    OTHER, OTHER, OTHER, OTHER, OTHER, OTHER, OTHER, OTHER,
    OTHER, OTHER, OTHER, OTHER, OTHER, OTHER, OTHER, OTHER,
    OTHER, OTHER, OTHER, OTHER, OTHER, OTHER, OTHER, OTHER,
    OTHER, OTHER, OTHER, OTHER, OTHER, OTHER, OTHER, OTHER,
    OTHER, OTHER, OTHER, OTHER, OTHER, OTHER, OTHER, OTHER,
    OTHER, OTHER, OTHER, OTHER, OTHER, OTHER, OTHER, OTHER,
    EXTEND, EXTEND, EXTEND, EXTEND, EXTEND, EXTEND, EXTEND, EXTEND,
    EXTEND, EXTEND, EXTEND, EXTEND, EXTEND, EXTEND, EXTEND, EXTEND,
    EXTEND, EXTEND, EXTEND, EXTEND, EXTEND, EXTEND, EXTEND, EXTEND,
    EXTEND, EXTEND, EXTEND, EXTEND, EXTEND, EXTEND, EXTEND, EXTEND,
];

#[verifier::opaque]
pub const GP_PAGE_35: [u8; 256] = [
    OTHER, OTHER, OTHER, OTHER, OTHER, OTHER, OTHER, OTHER,
    OTHER, OTHER, OTHER, OTHER, OTHER, OTHER, OTHER, OTHER,
    OTHER, OTHER, OTHER, OTHER, OTHER, OTHER, OTHER, OTHER,
    OTHER, OTHER, OTHER, OTHER, OTHER, OTHER, OTHER, OTHER,
    OTHER, OTHER, OTHER, OTHER, OTHER, OTHER, OTHER, OTHER,
    OTHER, OTHER, EXTEND, EXTEND, EXTEND, EXTEND, EXTEND, EXTEND,
    EXTENDED_GRAPHEME, OTHER, OTHER, OTHER, OTHER, OTHER, OTHER, OTHER,
    OTHER, OTHER, OTHER, OTHER, OTHER, EXTENDED_GRAPHEME, OTHER, OTHER,
    OTHER, OTHER, OTHER, OTHER, OTHER, OTHER, OTHER, OTHER,
    OTHER, OTHER, OTHER, OTHER, OTHER, OTHER, OTHER, OTHER,
    OTHER, OTHER, OTHER, OTHER, OTHER, OTHER, OTHER, OTHER,
    OTHER, OTHER, OTHER, OTHER, OTHER, OTHER, OTHER, OTHER,
    OTHER, OTHER, OTHER, OTHER, OTHER, OTHER, OTHER, OTHER,
    OTHER, OTHER, OTHER, OTHER, OTHER, OTHER, OTHER, OTHER,
    OTHER, OTHER, OTHER, OTHER, OTHER, OTHER, OTHER, OTHER,
    OTHER, OTHER, OTHER, OTHER, OTHER, OTHER, OTHER, OTHER,
    OTHER, OTHER, OTHER, OTHER, OTHER, OTHER, OTHER, OTHER,
    OTHER, OTHER, OTHER, OTHER, OTHER, OTHER, OTHER, OTHER,
    OTHER, OTHER, OTHER, OTHER, OTHER, OTHER, OTHER, OTHER,
    OTHER, EXTEND, EXTEND, OTHER, OTHER, OTHER, OTHER, OTHER,
    OTHER, OTHER, OTHER, OTHER, OTHER, OTHER, OTHER, OTHER,
    OTHER, OTHER, OTHER, OTHER, OTHER, OTHER, OTHER, OTHER,
    OTHER, OTHER, OTHER, OTHER, OTHER, OTHER, OTHER, OTHER,
    OTHER, OTHER, OTHER, OTHER, OTHER, OTHER, OTHER, OTHER,
    OTHER, OTHER, OTHER, OTHER, OTHER, OTHER, OTHER, OTHER,
    OTHER, OTHER, OTHER, OTHER, OTHER, OTHER, OTHER, OTHER,
    OTHER, OTHER, OTHER, OTHER, OTHER, OTHER, OTHER, OTHER,
    OTHER, OTHER, OTHER, OTHER, OTHER, OTHER, OTHER, OTHER,
    OTHER, OTHER, OTHER, OTHER, OTHER, OTHER, OTHER, OTHER,
    OTHER, OTHER, OTHER, OTHER, OTHER, OTHER, OTHER, OTHER,
    OTHER, OTHER, OTHER, OTHER, OTHER, OTHER, OTHER, OTHER,
    OTHER, OTHER, OTHER, OTHER, OTHER, OTHER, OTHER, OTHER,
];

#[verifier::opaque]
pub const GP_PAGE_36: [u8; 256] = [
    OTHER, OTHER, OTHER, OTHER, OTHER, OTHER, OTHER, OTHER,
    OTHER, OTHER, OTHER, OTHER, OTHER, OTHER, OTHER, OTHER,
    OTHER, OTHER, OTHER, OTHER, OTHER, OTHER, OTHER, OTHER,
    OTHER, OTHER, OTHER, OTHER, OTHER, OTHER, OTHER, OTHER,
    OTHER, OTHER, OTHER, OTHER, OTHER, OTHER, OTHER, OTHER,
    OTHER, OTHER, OTHER, OTHER, OTHER, OTHER, OTHER, OTHER,
    OTHER, OTHER, OTHER, OTHER, OTHER, OTHER, OTHER, OTHER,
    OTHER, OTHER, OTHER, OTHER, OTHER, OTHER, OTHER, OTHER,
    OTHER, OTHER, OTHER, OTHER, OTHER, OTHER, OTHER, OTHER,
    OTHER, OTHER, OTHER, OTHER, OTHER, OTHER, OTHER, OTHER,
    OTHER, OTHER, OTHER, OTHER, OTHER, OTHER, OTHER, OTHER,
    OTHER, OTHER, OTHER, OTHER, OTHER, OTHER, OTHER, OTHER,
    OTHER, OTHER, OTHER, OTHER, OTHER, OTHER, OTHER, OTHER,
    OTHER, OTHER, OTHER, OTHER, OTHER, OTHER, OTHER, OTHER,
    OTHER, OTHER, OTHER, OTHER, OTHER, OTHER, OTHER, OTHER,
    OTHER, OTHER, OTHER, OTHER, OTHER, OTHER, OTHER, OTHER,
    OTHER, OTHER, OTHER, OTHER, OTHER, OTHER, OTHER, OTHER,
    OTHER, OTHER, OTHER, OTHER, OTHER, OTHER, OTHER, OTHER,
    OTHER, OTHER, OTHER, OTHER, OTHER, OTHER, OTHER, EXTENDED_GRAPHEME,
    OTHER, EXTENDED_GRAPHEME, OTHER, OTHER, OTHER, OTHER, OTHER, OTHER,
    OTHER, OTHER, OTHER, OTHER, OTHER, OTHER, OTHER, OTHER,
    OTHER, OTHER, OTHER, OTHER, OTHER, OTHER, OTHER, OTHER,
    OTHER, OTHER, OTHER, OTHER, OTHER, OTHER, OTHER, OTHER,
    OTHER, OTHER, OTHER, OTHER, OTHER, OTHER, OTHER, OTHER,
    OTHER, OTHER, OTHER, OTHER, OTHER, OTHER, OTHER, OTHER,
    OTHER, OTHER, OTHER, OTHER, OTHER, OTHER, OTHER, OTHER,
    OTHER, OTHER, OTHER, OTHER, OTHER, OTHER, OTHER, OTHER,
    OTHER, OTHER, OTHER, OTHER, OTHER, OTHER, OTHER, OTHER,
    OTHER, OTHER, OTHER, OTHER, OTHER, OTHER, OTHER, OTHER,
    OTHER, OTHER, OTHER, OTHER, OTHER, OTHER, OTHER, OTHER,
    OTHER, OTHER, OTHER, OTHER, OTHER, OTHER, OTHER, OTHER,
    OTHER, OTHER, OTHER, OTHER, OTHER, OTHER, OTHER, OTHER,
];

#[verifier::opaque]
pub const GP_PAGE_37: [u8; 256] = [
    OTHER, OTHER, OTHER, OTHER, OTHER, OTHER, OTHER, OTHER,
    OTHER, OTHER, OTHER, OTHER, OTHER, OTHER, OTHER, OTHER,
    OTHER, OTHER, OTHER, OTHER, OTHER, OTHER, OTHER, OTHER,
    OTHER, OTHER, OTHER, OTHER, OTHER, OTHER, OTHER, OTHER,
    OTHER, OTHER, OTHER, OTHER, OTHER, OTHER, OTHER, OTHER,
    OTHER, OTHER, OTHER, OTHER, OTHER, OTHER, OTHER, OTHER,
    OTHER, OTHER, OTHER, OTHER, OTHER, OTHER, OTHER, OTHER,
    OTHER, OTHER, OTHER, OTHER, OTHER, OTHER, OTHER, OTHER,
    OTHER, OTHER, OTHER, OTHER, OTHER, OTHER, OTHER, OTHER,
    OTHER, OTHER, OTHER, OTHER, OTHER, OTHER, OTHER, OTHER,
    OTHER, OTHER, OTHER, OTHER, OTHER, OTHER, OTHER, OTHER,
    OTHER, OTHER, OTHER, OTHER, OTHER, OTHER, OTHER, OTHER,
    OTHER, OTHER, OTHER, OTHER, OTHER, OTHER, OTHER, OTHER,
    OTHER, OTHER, OTHER, OTHER, OTHER, OTHER, OTHER, EXTEND,
    EXTEND, EXTEND, EXTEND, OTHER, EXTEND, EXTEND, EXTEND, EXTEND,
    EXTEND, EXTEND, EXTEND, EXTEND, EXTEND, EXTEND, OTHER, OTHER,
    OTHER, OTHER, OTHER, OTHER, OTHER, OTHER, OTHER, OTHER,
    OTHER, OTHER, OTHER, OTHER, OTHER, OTHER, OTHER, OTHER,
    OTHER, OTHER, OTHER, OTHER, OTHER, OTHER, OTHER, OTHER,
    OTHER, OTHER, OTHER, OTHER, OTHER, OTHER, EXTEND, EXTEND,
    OTHER, OTHER, OTHER, OTHER, OTHER, OTHER, OTHER, OTHER,
    OTHER, OTHER, OTHER, OTHER, OTHER, OTHER, OTHER, OTHER,
    OTHER, OTHER, OTHER, OTHER, OTHER, OTHER, OTHER, OTHER,
    OTHER, OTHER, OTHER, OTHER, OTHER, OTHER, OTHER, OTHER,
    OTHER, OTHER, OTHER, OTHER, OTHER, OTHER, OTHER, OTHER,
    OTHER, OTHER, OTHER, OTHER, OTHER, OTHER, OTHER, OTHER,
    OTHER, OTHER, OTHER, OTHER, OTHER, OTHER, OTHER, OTHER,
    OTHER, OTHER, OTHER, OTHER, OTHER, OTHER, OTHER, OTHER,
    OTHER, OTHER, OTHER, OTHER, OTHER, OTHER, OTHER, OTHER,
    OTHER, OTHER, OTHER, OTHER, OTHER, OTHER, OTHER, OTHER,
    EXTEND, EXTEND, OTHER, OTHER, OTHER, OTHER, OTHER, OTHER,
    OTHER, OTHER, OTHER, OTHER, OTHER, OTHER, OTHER, OTHER,
];

#[verifier::opaque]
pub const GP_PAGE_38: [u8; 256] = [
    OTHER, OTHER, EXTEND, OTHER, OTHER, OTHER, EXTEND, OTHER,
    OTHER, OTHER, OTHER, EXTEND, OTHER, OTHER, OTHER, OTHER,
    OTHER, OTHER, OTHER, OTHER, OTHER, OTHER, OTHER, OTHER,
    OTHER, OTHER, OTHER, OTHER, OTHER, OTHER, OTHER, OTHER,
    OTHER, OTHER, OTHER, SPACING_MARK, SPACING_MARK, EXTEND, EXTEND, SPACING_MARK,
    OTHER, OTHER, OTHER, OTHER, EXTEND, OTHER, OTHER, OTHER,
    OTHER, OTHER, OTHER, OTHER, OTHER, OTHER, OTHER, OTHER,
    OTHER, OTHER, OTHER, OTHER, OTHER, OTHER, OTHER, OTHER,
    OTHER, OTHER, OTHER, OTHER, OTHER, OTHER, OTHER, OTHER,
    OTHER, OTHER, OTHER, OTHER, OTHER, OTHER, OTHER, OTHER,
    OTHER, OTHER, OTHER, OTHER, OTHER, OTHER, OTHER, OTHER,
    OTHER, OTHER, OTHER, OTHER, OTHER, OTHER, OTHER, OTHER,
    OTHER, OTHER, OTHER, OTHER, OTHER, OTHER, OTHER, OTHER,
    OTHER, OTHER, OTHER, OTHER, OTHER, OTHER, OTHER, OTHER,
    OTHER, OTHER, OTHER, OTHER, OTHER, OTHER, OTHER, OTHER,
    OTHER, OTHER, OTHER, OTHER, OTHER, OTHER, OTHER, OTHER,
    SPACING_MARK, SPACING_MARK, OTHER, OTHER, OTHER, OTHER, OTHER, OTHER,
    OTHER, OTHER, OTHER, OTHER, OTHER, OTHER, OTHER, OTHER,
    OTHER, OTHER, OTHER, OTHER, OTHER, OTHER, OTHER, OTHER,
    OTHER, OTHER, OTHER, OTHER, OTHER, OTHER, OTHER, OTHER,
    OTHER, OTHER, OTHER, OTHER, OTHER, OTHER, OTHER, OTHER,
    OTHER, OTHER, OTHER, OTHER, OTHER, OTHER, OTHER, OTHER,
    OTHER, OTHER, OTHER, OTHER, SPACING_MARK, SPACING_MARK, SPACING_MARK, SPACING_MARK,
    SPACING_MARK, SPACING_MARK, SPACING_MARK, SPACING_MARK, SPACING_MARK, SPACING_MARK, SPACING_MARK, SPACING_MARK,
    SPACING_MARK, SPACING_MARK, SPACING_MARK, SPACING_MARK, EXTEND, EXTEND, OTHER, OTHER,
    OTHER, OTHER, OTHER, OTHER, OTHER, OTHER, OTHER, OTHER,
    OTHER, OTHER, OTHER, OTHER, OTHER, OTHER, OTHER, OTHER,
    OTHER, OTHER, OTHER, OTHER, OTHER, OTHER, OTHER, OTHER,
    EXTEND, EXTEND, EXTEND, EXTEND, EXTEND, EXTEND, EXTEND, EXTEND,
    EXTEND, EXTEND, EXTEND, EXTEND, EXTEND, EXTEND, EXTEND, EXTEND,
    EXTEND, EXTEND, OTHER, OTHER, OTHER, OTHER, OTHER, OTHER,
    OTHER, OTHER, OTHER, OTHER, OTHER, OTHER, OTHER, EXTEND,
];

#[verifier::opaque]
pub const GP_PAGE_39: [u8; 256] = [
    OTHER, OTHER, OTHER, OTHER, OTHER, OTHER, OTHER, OTHER,
    OTHER, OTHER, OTHER, OTHER, OTHER, OTHER, OTHER, OTHER,
    OTHER, OTHER, OTHER, OTHER, OTHER, OTHER, OTHER, OTHER,
    OTHER, OTHER, OTHER, OTHER, OTHER, OTHER, OTHER, OTHER,
    OTHER, OTHER, OTHER, OTHER, OTHER, OTHER, EXTEND, EXTEND,
    EXTEND, EXTEND, EXTEND, EXTEND, EXTEND, EXTEND, OTHER, OTHER,
    OTHER, OTHER, OTHER, OTHER, OTHER, OTHER, OTHER, OTHER,
    OTHER, OTHER, OTHER, OTHER, OTHER, OTHER, OTHER, OTHER,
    OTHER, OTHER, OTHER, OTHER, OTHER, OTHER, OTHER, EXTEND,
    EXTEND, EXTEND, EXTEND, EXTEND, EXTEND, EXTEND, EXTEND, EXTEND,
    EXTEND, EXTEND, SPACING_MARK, SPACING_MARK, OTHER, OTHER, OTHER, OTHER,
    OTHER, OTHER, OTHER, OTHER, OTHER, OTHER, OTHER, OTHER,
    HANGUL_L, HANGUL_L, HANGUL_L, HANGUL_L, HANGUL_L, HANGUL_L, HANGUL_L, HANGUL_L,
    HANGUL_L, HANGUL_L, HANGUL_L, HANGUL_L, HANGUL_L, HANGUL_L, HANGUL_L, HANGUL_L,
    HANGUL_L, HANGUL_L, HANGUL_L, HANGUL_L, HANGUL_L, HANGUL_L, HANGUL_L, HANGUL_L,
    HANGUL_L, HANGUL_L, HANGUL_L, HANGUL_L, HANGUL_L, OTHER, OTHER, OTHER,
    EXTEND, EXTEND, EXTEND, SPACING_MARK, OTHER, OTHER, OTHER, OTHER,
    OTHER, OTHER, OTHER, OTHER, OTHER, OTHER, OTHER, OTHER,
    OTHER, OTHER, OTHER, OTHER, OTHER, OTHER, OTHER, OTHER,
    OTHER, OTHER, OTHER, OTHER, OTHER, OTHER, OTHER, OTHER,
    OTHER, OTHER, OTHER, OTHER, OTHER, OTHER, OTHER, OTHER,
    OTHER, OTHER, OTHER, OTHER, OTHER, OTHER, OTHER, OTHER,
    OTHER, OTHER, OTHER, EXTEND, SPACING_MARK, SPACING_MARK, EXTEND, EXTEND,
    EXTEND, EXTEND, SPACING_MARK, SPACING_MARK, EXTEND, EXTEND, SPACING_MARK, SPACING_MARK,
    SPACING_MARK, OTHER, OTHER, OTHER, OTHER, OTHER, OTHER, OTHER,
    OTHER, OTHER, OTHER, OTHER, OTHER, OTHER, OTHER, OTHER,
    OTHER, OTHER, OTHER, OTHER, OTHER, OTHER, OTHER, OTHER,
    OTHER, OTHER, OTHER, OTHER, OTHER, OTHER, OTHER, OTHER,
    OTHER, OTHER, OTHER, OTHER, OTHER, EXTEND, OTHER, OTHER,
    OTHER, OTHER, OTHER, OTHER, OTHER, OTHER, OTHER, OTHER,
    OTHER, OTHER, OTHER, OTHER, OTHER, OTHER, OTHER, OTHER,
    OTHER, OTHER, OTHER, OTHER, OTHER, OTHER, OTHER, OTHER,
];

#[verifier::opaque]
pub const GP_PAGE_40: [u8; 256] = [
    OTHER, OTHER, OTHER, OTHER, OTHER, OTHER, OTHER, OTHER,
    OTHER, OTHER, OTHER, OTHER, OTHER, OTHER, OTHER, OTHER,
    OTHER, OTHER, OTHER, OTHER, OTHER, OTHER, OTHER, OTHER,
    OTHER, OTHER, OTHER, OTHER, OTHER, OTHER, OTHER, OTHER,
    OTHER, OTHER, OTHER, OTHER, OTHER, OTHER, OTHER, OTHER,
    OTHER, EXTEND, EXTEND, EXTEND, EXTEND, EXTEND, EXTEND, SPACING_MARK,
    SPACING_MARK, EXTEND, EXTEND, SPACING_MARK, SPACING_MARK, EXTEND, EXTEND, OTHER,
    OTHER, OTHER, OTHER, OTHER, OTHER, OTHER, OTHER, OTHER,
    OTHER, OTHER, OTHER, EXTEND, OTHER, OTHER, OTHER, OTHER,
    OTHER, OTHER, OTHER, OTHER, EXTEND, SPACING_MARK, OTHER, OTHER,
    OTHER, OTHER, OTHER, OTHER, OTHER, OTHER, OTHER, OTHER,
    OTHER, OTHER, OTHER, OTHER, OTHER, OTHER, OTHER, OTHER,
    OTHER, OTHER, OTHER, OTHER, OTHER, OTHER, OTHER, OTHER,
    OTHER, OTHER, OTHER, OTHER, OTHER, OTHER, OTHER, OTHER,
    OTHER, OTHER, OTHER, OTHER, OTHER, OTHER, OTHER, OTHER,
    OTHER, OTHER, OTHER, OTHER, EXTEND, OTHER, OTHER, OTHER,
    OTHER, OTHER, OTHER, OTHER, OTHER, OTHER, OTHER, OTHER,
    OTHER, OTHER, OTHER, OTHER, OTHER, OTHER, OTHER, OTHER,
    OTHER, OTHER, OTHER, OTHER, OTHER, OTHER, OTHER, OTHER,
    OTHER, OTHER, OTHER, OTHER, OTHER, OTHER, OTHER, OTHER,
    OTHER, OTHER, OTHER, OTHER, OTHER, OTHER, OTHER, OTHER,
    OTHER, OTHER, OTHER, OTHER, OTHER, OTHER, OTHER, OTHER,
    EXTEND, OTHER, EXTEND, EXTEND, EXTEND, OTHER, OTHER, EXTEND,
    EXTEND, OTHER, OTHER, OTHER, OTHER, OTHER, EXTEND, EXTEND,
    OTHER, EXTEND, OTHER, OTHER, OTHER, OTHER, OTHER, OTHER,
    OTHER, OTHER, OTHER, OTHER, OTHER, OTHER, OTHER, OTHER,
    OTHER, OTHER, OTHER, OTHER, OTHER, OTHER, OTHER, OTHER,
    OTHER, OTHER, OTHER, OTHER, OTHER, OTHER, OTHER, OTHER,
    OTHER, OTHER, OTHER, OTHER, OTHER, OTHER, OTHER, OTHER,
    OTHER, OTHER, OTHER, SPACING_MARK, EXTEND, EXTEND, SPACING_MARK, SPACING_MARK,
    OTHER, OTHER, OTHER, OTHER, OTHER, SPACING_MARK, EXTEND, OTHER,
    OTHER, OTHER, OTHER, OTHER, OTHER, OTHER, OTHER, OTHER,
];

#[verifier::opaque]
pub const GP_PAGE_41: [u8; 256] = [
    OTHER, OTHER, OTHER, OTHER, OTHER, OTHER, OTHER, OTHER,
    OTHER, OTHER, OTHER, OTHER, OTHER, OTHER, OTHER, OTHER,
    OTHER, OTHER, OTHER, OTHER, OTHER, OTHER, OTHER, OTHER,
    OTHER, OTHER, OTHER, OTHER, OTHER, OTHER, OTHER, OTHER,
    OTHER, OTHER, OTHER, OTHER, OTHER, OTHER, OTHER, OTHER,
    OTHER, OTHER, OTHER, OTHER, OTHER, OTHER, OTHER, OTHER,
    OTHER, OTHER, OTHER, OTHER, OTHER, OTHER, OTHER, OTHER,
    OTHER, OTHER, OTHER, OTHER, OTHER, OTHER, OTHER, OTHER,
    OTHER, OTHER, OTHER, OTHER, OTHER, OTHER, OTHER, OTHER,
    OTHER, OTHER, OTHER, OTHER, OTHER, OTHER, OTHER, OTHER,
    OTHER, OTHER, OTHER, OTHER, OTHER, OTHER, OTHER, OTHER,
    OTHER, OTHER, OTHER, OTHER, OTHER, OTHER, OTHER, OTHER,
    OTHER, OTHER, OTHER, OTHER, OTHER, OTHER, OTHER, OTHER,
    OTHER, OTHER, OTHER, OTHER, OTHER, OTHER, OTHER, OTHER,
    OTHER, OTHER, OTHER, OTHER, OTHER, OTHER, OTHER, OTHER,
    OTHER, OTHER, OTHER, OTHER, OTHER, OTHER, OTHER, OTHER,
    OTHER, OTHER, OTHER, OTHER, OTHER, OTHER, OTHER, OTHER,
    OTHER, OTHER, OTHER, OTHER, OTHER, OTHER, OTHER, OTHER,
    OTHER, OTHER, OTHER, OTHER, OTHER, OTHER, OTHER, OTHER,
    OTHER, OTHER, OTHER, OTHER, OTHER, OTHER, OTHER, OTHER,
    OTHER, OTHER, OTHER, OTHER, OTHER, OTHER, OTHER, OTHER,
    OTHER, OTHER, OTHER, OTHER, OTHER, OTHER, OTHER, OTHER,
    OTHER, OTHER, OTHER, OTHER, OTHER, OTHER, OTHER, OTHER,
    OTHER, OTHER, OTHER, OTHER, OTHER, OTHER, OTHER, OTHER,
    OTHER, OTHER, OTHER, OTHER, OTHER, OTHER, OTHER, OTHER,
    OTHER, OTHER, OTHER, OTHER, OTHER, OTHER, OTHER, OTHER,
    OTHER, OTHER, OTHER, OTHER, OTHER, OTHER, OTHER, OTHER,
    OTHER, OTHER, OTHER, OTHER, OTHER, OTHER, OTHER, OTHER,
    OTHER, OTHER, OTHER, SPACING_MARK, SPACING_MARK, EXTEND, SPACING_MARK, SPACING_MARK,
    EXTEND, SPACING_MARK, SPACING_MARK, OTHER, SPACING_MARK, EXTEND, OTHER, OTHER,
    OTHER, OTHER, OTHER, OTHER, OTHER, OTHER, OTHER, OTHER,
    OTHER, OTHER, OTHER, OTHER, OTHER, OTHER, OTHER, OTHER,
];

#[verifier::opaque]
pub const GP_PAGE_42: [u8; 256] = [
    HANGUL_LV, HANGUL_LVT, HANGUL_LVT, HANGUL_LVT, HANGUL_LVT, HANGUL_LVT, HANGUL_LVT, HANGUL_LVT,
    HANGUL_LVT, HANGUL_LVT, HANGUL_LVT, HANGUL_LVT, HANGUL_LVT, HANGUL_LVT, HANGUL_LVT, HANGUL_LVT,
    HANGUL_LVT, HANGUL_LVT, HANGUL_LVT, HANGUL_LVT, HANGUL_LVT, HANGUL_LVT, HANGUL_LVT, HANGUL_LVT,
    HANGUL_LVT, HANGUL_LVT, HANGUL_LVT, HANGUL_LVT, HANGUL_LV, HANGUL_LVT, HANGUL_LVT, HANGUL_LVT,
    HANGUL_LVT, HANGUL_LVT, HANGUL_LVT, HANGUL_LVT, HANGUL_LVT, HANGUL_LVT, HANGUL_LVT, HANGUL_LVT,
    HANGUL_LVT, HANGUL_LVT, HANGUL_LVT, HANGUL_LVT, HANGUL_LVT, HANGUL_LVT, HANGUL_LVT, HANGUL_LVT,
    HANGUL_LVT, HANGUL_LVT, HANGUL_LVT, HANGUL_LVT, HANGUL_LVT, HANGUL_LVT, HANGUL_LVT, HANGUL_LVT,
    HANGUL_LV, HANGUL_LVT, HANGUL_LVT, HANGUL_LVT, HANGUL_LVT, HANGUL_LVT, HANGUL_LVT, HANGUL_LVT,
    HANGUL_LVT, HANGUL_LVT, HANGUL_LVT, HANGUL_LVT, HANGUL_LVT, HANGUL_LVT, HANGUL_LVT, HANGUL_LVT,
    HANGUL_LVT, HANGUL_LVT, HANGUL_LVT, HANGUL_LVT, HANGUL_LVT, HANGUL_LVT, HANGUL_LVT, HANGUL_LVT,
    HANGUL_LVT, HANGUL_LVT, HANGUL_LVT, HANGUL_LVT, HANGUL_LV, HANGUL_LVT, HANGUL_LVT, HANGUL_LVT,
    HANGUL_LVT, HANGUL_LVT, HANGUL_LVT, HANGUL_LVT, HANGUL_LVT, HANGUL_LVT, HANGUL_LVT, HANGUL_LVT,
    HANGUL_LVT, HANGUL_LVT, HANGUL_LVT, HANGUL_LVT, HANGUL_LVT, HANGUL_LVT, HANGUL_LVT, HANGUL_LVT,
    HANGUL_LVT, HANGUL_LVT, HANGUL_LVT, HANGUL_LVT, HANGUL_LVT, HANGUL_LVT, HANGUL_LVT, HANGUL_LVT,
    HANGUL_LV, HANGUL_LVT, HANGUL_LVT, HANGUL_LVT, HANGUL_LVT, HANGUL_LVT, HANGUL_LVT, HANGUL_LVT,
    HANGUL_LVT, HANGUL_LVT, HANGUL_LVT, HANGUL_LVT, HANGUL_LVT, HANGUL_LVT, HANGUL_LVT, HANGUL_LVT,
    HANGUL_LVT, HANGUL_LVT, HANGUL_LVT, HANGUL_LVT, HANGUL_LVT, HANGUL_LVT, HANGUL_LVT, HANGUL_LVT,
    HANGUL_LVT, HANGUL_LVT, HANGUL_LVT, HANGUL_LVT, HANGUL_LV, HANGUL_LVT, HANGUL_LVT, HANGUL_LVT,
    HANGUL_LVT, HANGUL_LVT, HANGUL_LVT, HANGUL_LVT, HANGUL_LVT, HANGUL_LVT, HANGUL_LVT, HANGUL_LVT,
    HANGUL_LVT, HANGUL_LVT, HANGUL_LVT, HANGUL_LVT, HANGUL_LVT, HANGUL_LVT, HANGUL_LVT, HANGUL_LVT,
    HANGUL_LVT, HANGUL_LVT, HANGUL_LVT, HANGUL_LVT, HANGUL_LVT, HANGUL_LVT, HANGUL_LVT, HANGUL_LVT,
    HANGUL_LV, HANGUL_LVT, HANGUL_LVT, HANGUL_LVT, HANGUL_LVT, HANGUL_LVT, HANGUL_LVT, HANGUL_LVT,
    HANGUL_LVT, HANGUL_LVT, HANGUL_LVT, HANGUL_LVT, HANGUL_LVT, HANGUL_LVT, HANGUL_LVT, HANGUL_LVT,
    HANGUL_LVT, HANGUL_LVT, HANGUL_LVT, HANGUL_LVT, HANGUL_LVT, HANGUL_LVT, HANGUL_LVT, HANGUL_LVT,
    HANGUL_LVT, HANGUL_LVT, HANGUL_LVT, HANGUL_LVT, HANGUL_LV, HANGUL_LVT, HANGUL_LVT, HANGUL_LVT,
    HANGUL_LVT, HANGUL_LVT, HANGUL_LVT, HANGUL_LVT, HANGUL_LVT, HANGUL_LVT, HANGUL_LVT, HANGUL_LVT,
    HANGUL_LVT, HANGUL_LVT, HANGUL_LVT, HANGUL_LVT, HANGUL_LVT, HANGUL_LVT, HANGUL_LVT, HANGUL_LVT,
    HANGUL_LVT, HANGUL_LVT, HANGUL_LVT, HANGUL_LVT, HANGUL_LVT, HANGUL_LVT, HANGUL_LVT, HANGUL_LVT,
    HANGUL_LV, HANGUL_LVT, HANGUL_LVT, HANGUL_LVT, HANGUL_LVT, HANGUL_LVT, HANGUL_LVT, HANGUL_LVT,
    HANGUL_LVT, HANGUL_LVT, HANGUL_LVT, HANGUL_LVT, HANGUL_LVT, HANGUL_LVT, HANGUL_LVT, HANGUL_LVT,
    HANGUL_LVT, HANGUL_LVT, HANGUL_LVT, HANGUL_LVT, HANGUL_LVT, HANGUL_LVT, HANGUL_LVT, HANGUL_LVT,
    HANGUL_LVT, HANGUL_LVT, HANGUL_LVT, HANGUL_LVT, HANGUL_LV, HANGUL_LVT, HANGUL_LVT, HANGUL_LVT,
];

#[verifier::opaque]
pub const GP_PAGE_43: [u8; 256] = [
    HANGUL_LVT, HANGUL_LVT, HANGUL_LVT, HANGUL_LVT, HANGUL_LVT, HANGUL_LVT, HANGUL_LVT, HANGUL_LVT,
    HANGUL_LVT, HANGUL_LVT, HANGUL_LVT, HANGUL_LVT, HANGUL_LVT, HANGUL_LVT, HANGUL_LVT, HANGUL_LVT,
    HANGUL_LVT, HANGUL_LVT, HANGUL_LVT, HANGUL_LVT, HANGUL_LVT, HANGUL_LVT, HANGUL_LVT, HANGUL_LVT,
    HANGUL_LV, HANGUL_LVT, HANGUL_LVT, HANGUL_LVT, HANGUL_LVT, HANGUL_LVT, HANGUL_LVT, HANGUL_LVT,
    HANGUL_LVT, HANGUL_LVT, HANGUL_LVT, HANGUL_LVT, HANGUL_LVT, HANGUL_LVT, HANGUL_LVT, HANGUL_LVT,
    HANGUL_LVT, HANGUL_LVT, HANGUL_LVT, HANGUL_LVT, HANGUL_LVT, HANGUL_LVT, HANGUL_LVT, HANGUL_LVT,
    HANGUL_LVT, HANGUL_LVT, HANGUL_LVT, HANGUL_LVT, HANGUL_LV, HANGUL_LVT, HANGUL_LVT, HANGUL_LVT,
    HANGUL_LVT, HANGUL_LVT, HANGUL_LVT, HANGUL_LVT, HANGUL_LVT, HANGUL_LVT, HANGUL_LVT, HANGUL_LVT,
    HANGUL_LVT, HANGUL_LVT, HANGUL_LVT, HANGUL_LVT, HANGUL_LVT, HANGUL_LVT, HANGUL_LVT, HANGUL_LVT,
    HANGUL_LVT, HANGUL_LVT, HANGUL_LVT, HANGUL_LVT, HANGUL_LVT, HANGUL_LVT, HANGUL_LVT, HANGUL_LVT,
    HANGUL_LV, HANGUL_LVT, HANGUL_LVT, HANGUL_LVT, HANGUL_LVT, HANGUL_LVT, HANGUL_LVT, HANGUL_LVT,
    HANGUL_LVT, HANGUL_LVT, HANGUL_LVT, HANGUL_LVT, HANGUL_LVT, HANGUL_LVT, HANGUL_LVT, HANGUL_LVT,
    HANGUL_LVT, HANGUL_LVT, HANGUL_LVT, HANGUL_LVT, HANGUL_LVT, HANGUL_LVT, HANGUL_LVT, HANGUL_LVT,
    HANGUL_LVT, HANGUL_LVT, HANGUL_LVT, HANGUL_LVT, HANGUL_LV, HANGUL_LVT, HANGUL_LVT, HANGUL_LVT,
    HANGUL_LVT, HANGUL_LVT, HANGUL_LVT, HANGUL_LVT, HANGUL_LVT, HANGUL_LVT, HANGUL_LVT, HANGUL_LVT,
    HANGUL_LVT, HANGUL_LVT, HANGUL_LVT, HANGUL_LVT, HANGUL_LVT, HANGUL_LVT, HANGUL_LVT, HANGUL_LVT,
    HANGUL_LVT, HANGUL_LVT, HANGUL_LVT, HANGUL_LVT, HANGUL_LVT, HANGUL_LVT, HANGUL_LVT, HANGUL_LVT,
    HANGUL_LV, HANGUL_LVT, HANGUL_LVT, HANGUL_LVT, HANGUL_LVT, HANGUL_LVT, HANGUL_LVT, HANGUL_LVT,
    HANGUL_LVT, HANGUL_LVT, HANGUL_LVT, HANGUL_LVT, HANGUL_LVT, HANGUL_LVT, HANGUL_LVT, HANGUL_LVT,
    HANGUL_LVT, HANGUL_LVT, HANGUL_LVT, HANGUL_LVT, HANGUL_LVT, HANGUL_LVT, HANGUL_LVT, HANGUL_LVT,
    HANGUL_LVT, HANGUL_LVT, HANGUL_LVT, HANGUL_LVT, HANGUL_LV, HANGUL_LVT, HANGUL_LVT, HANGUL_LVT,
    HANGUL_LVT, HANGUL_LVT, HANGUL_LVT, HANGUL_LVT, HANGUL_LVT, HANGUL_LVT, HANGUL_LVT, HANGUL_LVT,
    HANGUL_LVT, HANGUL_LVT, HANGUL_LVT, HANGUL_LVT, HANGUL_LVT, HANGUL_LVT, HANGUL_LVT, HANGUL_LVT,
    HANGUL_LVT, HANGUL_LVT, HANGUL_LVT, HANGUL_LVT, HANGUL_LVT, HANGUL_LVT, HANGUL_LVT, HANGUL_LVT,
    HANGUL_LV, HANGUL_LVT, HANGUL_LVT, HANGUL_LVT, HANGUL_LVT, HANGUL_LVT, HANGUL_LVT, HANGUL_LVT,
    HANGUL_LVT, HANGUL_LVT, HANGUL_LVT, HANGUL_LVT, HANGUL_LVT, HANGUL_LVT, HANGUL_LVT, HANGUL_LVT,
    HANGUL_LVT, HANGUL_LVT, HANGUL_LVT, HANGUL_LVT, HANGUL_LVT, HANGUL_LVT, HANGUL_LVT, HANGUL_LVT,
    HANGUL_LVT, HANGUL_LVT, HANGUL_LVT, HANGUL_LVT, HANGUL_LV, HANGUL_LVT, HANGUL_LVT, HANGUL_LVT,
    HANGUL_LVT, HANGUL_LVT, HANGUL_LVT, HANGUL_LVT, HANGUL_LVT, HANGUL_LVT, HANGUL_LVT, HANGUL_LVT,
    HANGUL_LVT, HANGUL_LVT, HANGUL_LVT, HANGUL_LVT, HANGUL_LVT, HANGUL_LVT, HANGUL_LVT, HANGUL_LVT,
    HANGUL_LVT, HANGUL_LVT, HANGUL_LVT, HANGUL_LVT, HANGUL_LVT, HANGUL_LVT, HANGUL_LVT, HANGUL_LVT,
    HANGUL_LV, HANGUL_LVT, HANGUL_LVT, HANGUL_LVT, HANGUL_LVT, HANGUL_LVT, HANGUL_LVT, HANGUL_LVT,
];

#[verifier::opaque]
pub const GP_PAGE_44: [u8; 256] = [
    HANGUL_LVT, HANGUL_LVT, HANGUL_LVT, HANGUL_LVT, HANGUL_LVT, HANGUL_LVT, HANGUL_LVT, HANGUL_LVT,
    HANGUL_LVT, HANGUL_LVT, HANGUL_LVT, HANGUL_LVT, HANGUL_LVT, HANGUL_LVT, HANGUL_LVT, HANGUL_LVT,
    HANGUL_LVT, HANGUL_LVT, HANGUL_LVT, HANGUL_LVT, HANGUL_LV, HANGUL_LVT, HANGUL_LVT, HANGUL_LVT,
    HANGUL_LVT, HANGUL_LVT, HANGUL_LVT, HANGUL_LVT, HANGUL_LVT, HANGUL_LVT, HANGUL_LVT, HANGUL_LVT,
    HANGUL_LVT, HANGUL_LVT, HANGUL_LVT, HANGUL_LVT, HANGUL_LVT, HANGUL_LVT, HANGUL_LVT, HANGUL_LVT,
    HANGUL_LVT, HANGUL_LVT, HANGUL_LVT, HANGUL_LVT, HANGUL_LVT, HANGUL_LVT, HANGUL_LVT, HANGUL_LVT,
    HANGUL_LV, HANGUL_LVT, HANGUL_LVT, HANGUL_LVT, HANGUL_LVT, HANGUL_LVT, HANGUL_LVT, HANGUL_LVT,
    HANGUL_LVT, HANGUL_LVT, HANGUL_LVT, HANGUL_LVT, HANGUL_LVT, HANGUL_LVT, HANGUL_LVT, HANGUL_LVT,
    HANGUL_LVT, HANGUL_LVT, HANGUL_LVT, HANGUL_LVT, HANGUL_LVT, HANGUL_LVT, HANGUL_LVT, HANGUL_LVT,
    HANGUL_LVT, HANGUL_LVT, HANGUL_LVT, HANGUL_LVT, HANGUL_LV, HANGUL_LVT, HANGUL_LVT, HANGUL_LVT,
    HANGUL_LVT, HANGUL_LVT, HANGUL_LVT, HANGUL_LVT, HANGUL_LVT, HANGUL_LVT, HANGUL_LVT, HANGUL_LVT,
    HANGUL_LVT, HANGUL_LVT, HANGUL_LVT, HANGUL_LVT, HANGUL_LVT, HANGUL_LVT, HANGUL_LVT, HANGUL_LVT,
    HANGUL_LVT, HANGUL_LVT, HANGUL_LVT, HANGUL_LVT, HANGUL_LVT, HANGUL_LVT, HANGUL_LVT, HANGUL_LVT,
    HANGUL_LV, HANGUL_LVT, HANGUL_LVT, HANGUL_LVT, HANGUL_LVT, HANGUL_LVT, HANGUL_LVT, HANGUL_LVT,
    HANGUL_LVT, HANGUL_LVT, HANGUL_LVT, HANGUL_LVT, HANGUL_LVT, HANGUL_LVT, HANGUL_LVT, HANGUL_LVT,
    HANGUL_LVT, HANGUL_LVT, HANGUL_LVT, HANGUL_LVT, HANGUL_LVT, HANGUL_LVT, HANGUL_LVT, HANGUL_LVT,
    HANGUL_LVT, HANGUL_LVT, HANGUL_LVT, HANGUL_LVT, HANGUL_LV, HANGUL_LVT, HANGUL_LVT, HANGUL_LVT,
    HANGUL_LVT, HANGUL_LVT, HANGUL_LVT, HANGUL_LVT, HANGUL_LVT, HANGUL_LVT, HANGUL_LVT, HANGUL_LVT,
    HANGUL_LVT, HANGUL_LVT, HANGUL_LVT, HANGUL_LVT, HANGUL_LVT, HANGUL_LVT, HANGUL_LVT, HANGUL_LVT,
    HANGUL_LVT, HANGUL_LVT, HANGUL_LVT, HANGUL_LVT, HANGUL_LVT, HANGUL_LVT, HANGUL_LVT, HANGUL_LVT,
    HANGUL_LV, HANGUL_LVT, HANGUL_LVT, HANGUL_LVT, HANGUL_LVT, HANGUL_LVT, HANGUL_LVT, HANGUL_LVT,
    HANGUL_LVT, HANGUL_LVT, HANGUL_LVT, HANGUL_LVT, HANGUL_LVT, HANGUL_LVT, HANGUL_LVT, HANGUL_LVT,
    HANGUL_LVT, HANGUL_LVT, HANGUL_LVT, HANGUL_LVT, HANGUL_LVT, HANGUL_LVT, HANGUL_LVT, HANGUL_LVT,
    HANGUL_LVT, HANGUL_LVT, HANGUL_LVT, HANGUL_LVT, HANGUL_LV, HANGUL_LVT, HANGUL_LVT, HANGUL_LVT,
    HANGUL_LVT, HANGUL_LVT, HANGUL_LVT, HANGUL_LVT, HANGUL_LVT, HANGUL_LVT, HANGUL_LVT, HANGUL_LVT,
    HANGUL_LVT, HANGUL_LVT, HANGUL_LVT, HANGUL_LVT, HANGUL_LVT, HANGUL_LVT, HANGUL_LVT, HANGUL_LVT,
    HANGUL_LVT, HANGUL_LVT, HANGUL_LVT, HANGUL_LVT, HANGUL_LVT, HANGUL_LVT, HANGUL_LVT, HANGUL_LVT,
    HANGUL_LV, HANGUL_LVT, HANGUL_LVT, HANGUL_LVT, HANGUL_LVT, HANGUL_LVT, HANGUL_LVT, HANGUL_LVT,
    HANGUL_LVT, HANGUL_LVT, HANGUL_LVT, HANGUL_LVT, HANGUL_LVT, HANGUL_LVT, HANGUL_LVT, HANGUL_LVT,
    HANGUL_LVT, HANGUL_LVT, HANGUL_LVT, HANGUL_LVT, HANGUL_LVT, HANGUL_LVT, HANGUL_LVT, HANGUL_LVT,
    HANGUL_LVT, HANGUL_LVT, HANGUL_LVT, HANGUL_LVT, HANGUL_LV, HANGUL_LVT, HANGUL_LVT, HANGUL_LVT,
    HANGUL_LVT, HANGUL_LVT, HANGUL_LVT, HANGUL_LVT, HANGUL_LVT, HANGUL_LVT, HANGUL_LVT, HANGUL_LVT,
];

#[verifier::opaque]
pub const GP_PAGE_45: [u8; 256] = [
    HANGUL_LVT, HANGUL_LVT, HANGUL_LVT, HANGUL_LVT, HANGUL_LVT, HANGUL_LVT, HANGUL_LVT, HANGUL_LVT,
    HANGUL_LVT, HANGUL_LVT, HANGUL_LVT, HANGUL_LVT, HANGUL_LVT, HANGUL_LVT, HANGUL_LVT, HANGUL_LVT,
    HANGUL_LV, HANGUL_LVT, HANGUL_LVT, HANGUL_LVT, HANGUL_LVT, HANGUL_LVT, HANGUL_LVT, HANGUL_LVT,
    HANGUL_LVT, HANGUL_LVT, HANGUL_LVT, HANGUL_LVT, HANGUL_LVT, HANGUL_LVT, HANGUL_LVT, HANGUL_LVT,
    HANGUL_LVT, HANGUL_LVT, HANGUL_LVT, HANGUL_LVT, HANGUL_LVT, HANGUL_LVT, HANGUL_LVT, HANGUL_LVT,
    HANGUL_LVT, HANGUL_LVT, HANGUL_LVT, HANGUL_LVT, HANGUL_LV, HANGUL_LVT, HANGUL_LVT, HANGUL_LVT,
    HANGUL_LVT, HANGUL_LVT, HANGUL_LVT, HANGUL_LVT, HANGUL_LVT, HANGUL_LVT, HANGUL_LVT, HANGUL_LVT,
    HANGUL_LVT, HANGUL_LVT, HANGUL_LVT, HANGUL_LVT, HANGUL_LVT, HANGUL_LVT, HANGUL_LVT, HANGUL_LVT,
    HANGUL_LVT, HANGUL_LVT, HANGUL_LVT, HANGUL_LVT, HANGUL_LVT, HANGUL_LVT, HANGUL_LVT, HANGUL_LVT,
    HANGUL_LV, HANGUL_LVT, HANGUL_LVT, HANGUL_LVT, HANGUL_LVT, HANGUL_LVT, HANGUL_LVT, HANGUL_LVT,
    HANGUL_LVT, HANGUL_LVT, HANGUL_LVT, HANGUL_LVT, HANGUL_LVT, HANGUL_LVT, HANGUL_LVT, HANGUL_LVT,
    HANGUL_LVT, HANGUL_LVT, HANGUL_LVT, HANGUL_LVT, HANGUL_LVT, HANGUL_LVT, HANGUL_LVT, HANGUL_LVT,
    HANGUL_LVT, HANGUL_LVT, HANGUL_LVT, HANGUL_LVT, HANGUL_LV, HANGUL_LVT, HANGUL_LVT, HANGUL_LVT,
    HANGUL_LVT, HANGUL_LVT, HANGUL_LVT, HANGUL_LVT, HANGUL_LVT, HANGUL_LVT, HANGUL_LVT, HANGUL_LVT,
    HANGUL_LVT, HANGUL_LVT, HANGUL_LVT, HANGUL_LVT, HANGUL_LVT, HANGUL_LVT, HANGUL_LVT, HANGUL_LVT,
    HANGUL_LVT, HANGUL_LVT, HANGUL_LVT, HANGUL_LVT, HANGUL_LVT, HANGUL_LVT, HANGUL_LVT, HANGUL_LVT,
    HANGUL_LV, HANGUL_LVT, HANGUL_LVT, HANGUL_LVT, HANGUL_LVT, HANGUL_LVT, HANGUL_LVT, HANGUL_LVT,
    HANGUL_LVT, HANGUL_LVT, HANGUL_LVT, HANGUL_LVT, HANGUL_LVT, HANGUL_LVT, HANGUL_LVT, HANGUL_LVT,
    HANGUL_LVT, HANGUL_LVT, HANGUL_LVT, HANGUL_LVT, HANGUL_LVT, HANGUL_LVT, HANGUL_LVT, HANGUL_LVT,
    HANGUL_LVT, HANGUL_LVT, HANGUL_LVT, HANGUL_LVT, HANGUL_LV, HANGUL_LVT, HANGUL_LVT, HANGUL_LVT,
    HANGUL_LVT, HANGUL_LVT, HANGUL_LVT, HANGUL_LVT, HANGUL_LVT, HANGUL_LVT, HANGUL_LVT, HANGUL_LVT,
    HANGUL_LVT, HANGUL_LVT, HANGUL_LVT, HANGUL_LVT, HANGUL_LVT, HANGUL_LVT, HANGUL_LVT, HANGUL_LVT,
    HANGUL_LVT, HANGUL_LVT, HANGUL_LVT, HANGUL_LVT, HANGUL_LVT, HANGUL_LVT, HANGUL_LVT, HANGUL_LVT,
    HANGUL_LV, HANGUL_LVT, HANGUL_LVT, HANGUL_LVT, HANGUL_LVT, HANGUL_LVT, HANGUL_LVT, HANGUL_LVT,
    HANGUL_LVT, HANGUL_LVT, HANGUL_LVT, HANGUL_LVT, HANGUL_LVT, HANGUL_LVT, HANGUL_LVT, HANGUL_LVT,
    HANGUL_LVT, HANGUL_LVT, HANGUL_LVT, HANGUL_LVT, HANGUL_LVT, HANGUL_LVT, HANGUL_LVT, HANGUL_LVT,
    HANGUL_LVT, HANGUL_LVT, HANGUL_LVT, HANGUL_LVT, HANGUL_LV, HANGUL_LVT, HANGUL_LVT, HANGUL_LVT,
    HANGUL_LVT, HANGUL_LVT, HANGUL_LVT, HANGUL_LVT, HANGUL_LVT, HANGUL_LVT, HANGUL_LVT, HANGUL_LVT,
    HANGUL_LVT, HANGUL_LVT, HANGUL_LVT, HANGUL_LVT, HANGUL_LVT, HANGUL_LVT, HANGUL_LVT, HANGUL_LVT,
    HANGUL_LVT, HANGUL_LVT, HANGUL_LVT, HANGUL_LVT, HANGUL_LVT, HANGUL_LVT, HANGUL_LVT, HANGUL_LVT,
    HANGUL_LV, HANGUL_LVT, HANGUL_LVT, HANGUL_LVT, HANGUL_LVT, HANGUL_LVT, HANGUL_LVT, HANGUL_LVT,
    HANGUL_LVT, HANGUL_LVT, HANGUL_LVT, HANGUL_LVT, HANGUL_LVT, HANGUL_LVT, HANGUL_LVT, HANGUL_LVT,
];

#[verifier::opaque]
pub const GP_PAGE_46: [u8; 256] = [
    HANGUL_LVT, HANGUL_LVT, HANGUL_LVT, HANGUL_LVT, HANGUL_LVT, HANGUL_LVT, HANGUL_LVT, HANGUL_LVT,
    HANGUL_LVT, HANGUL_LVT, HANGUL_LVT, HANGUL_LVT, HANGUL_LV, HANGUL_LVT, HANGUL_LVT, HANGUL_LVT,
    HANGUL_LVT, HANGUL_LVT, HANGUL_LVT, HANGUL_LVT, HANGUL_LVT, HANGUL_LVT, HANGUL_LVT, HANGUL_LVT,
    HANGUL_LVT, HANGUL_LVT, HANGUL_LVT, HANGUL_LVT, HANGUL_LVT, HANGUL_LVT, HANGUL_LVT, HANGUL_LVT,
    HANGUL_LVT, HANGUL_LVT, HANGUL_LVT, HANGUL_LVT, HANGUL_LVT, HANGUL_LVT, HANGUL_LVT, HANGUL_LVT,
    HANGUL_LV, HANGUL_LVT, HANGUL_LVT, HANGUL_LVT, HANGUL_LVT, HANGUL_LVT, HANGUL_LVT, HANGUL_LVT,
    HANGUL_LVT, HANGUL_LVT, HANGUL_LVT, HANGUL_LVT, HANGUL_LVT, HANGUL_LVT, HANGUL_LVT, HANGUL_LVT,
    HANGUL_LVT, HANGUL_LVT, HANGUL_LVT, HANGUL_LVT, HANGUL_LVT, HANGUL_LVT, HANGUL_LVT, HANGUL_LVT,
    HANGUL_LVT, HANGUL_LVT, HANGUL_LVT, HANGUL_LVT, HANGUL_LV, HANGUL_LVT, HANGUL_LVT, HANGUL_LVT,
    HANGUL_LVT, HANGUL_LVT, HANGUL_LVT, HANGUL_LVT, HANGUL_LVT, HANGUL_LVT, HANGUL_LVT, HANGUL_LVT,
    HANGUL_LVT, HANGUL_LVT, HANGUL_LVT, HANGUL_LVT, HANGUL_LVT, HANGUL_LVT, HANGUL_LVT, HANGUL_LVT,
    HANGUL_LVT, HANGUL_LVT, HANGUL_LVT, HANGUL_LVT, HANGUL_LVT, HANGUL_LVT, HANGUL_LVT, HANGUL_LVT,
    HANGUL_LV, HANGUL_LVT, HANGUL_LVT, HANGUL_LVT, HANGUL_LVT, HANGUL_LVT, HANGUL_LVT, HANGUL_LVT,
    HANGUL_LVT, HANGUL_LVT, HANGUL_LVT, HANGUL_LVT, HANGUL_LVT, HANGUL_LVT, HANGUL_LVT, HANGUL_LVT,
    HANGUL_LVT, HANGUL_LVT, HANGUL_LVT, HANGUL_LVT, HANGUL_LVT, HANGUL_LVT, HANGUL_LVT, HANGUL_LVT,
    HANGUL_LVT, HANGUL_LVT, HANGUL_LVT, HANGUL_LVT, HANGUL_LV, HANGUL_LVT, HANGUL_LVT, HANGUL_LVT,
    HANGUL_LVT, HANGUL_LVT, HANGUL_LVT, HANGUL_LVT, HANGUL_LVT, HANGUL_LVT, HANGUL_LVT, HANGUL_LVT,
    HANGUL_LVT, HANGUL_LVT, HANGUL_LVT, HANGUL_LVT, HANGUL_LVT, HANGUL_LVT, HANGUL_LVT, HANGUL_LVT,
    HANGUL_LVT, HANGUL_LVT, HANGUL_LVT, HANGUL_LVT, HANGUL_LVT, HANGUL_LVT, HANGUL_LVT, HANGUL_LVT,
    HANGUL_LV, HANGUL_LVT, HANGUL_LVT, HANGUL_LVT, HANGUL_LVT, HANGUL_LVT, HANGUL_LVT, HANGUL_LVT,
    HANGUL_LVT, HANGUL_LVT, HANGUL_LVT, HANGUL_LVT, HANGUL_LVT, HANGUL_LVT, HANGUL_LVT, HANGUL_LVT,
    HANGUL_LVT, HANGUL_LVT, HANGUL_LVT, HANGUL_LVT, HANGUL_LVT, HANGUL_LVT, HANGUL_LVT, HANGUL_LVT,
    HANGUL_LVT, HANGUL_LVT, HANGUL_LVT, HANGUL_LVT, HANGUL_LV, HANGUL_LVT, HANGUL_LVT, HANGUL_LVT,
    HANGUL_LVT, HANGUL_LVT, HANGUL_LVT, HANGUL_LVT, HANGUL_LVT, HANGUL_LVT, HANGUL_LVT, HANGUL_LVT,
    HANGUL_LVT, HANGUL_LVT, HANGUL_LVT, HANGUL_LVT, HANGUL_LVT, HANGUL_LVT, HANGUL_LVT, HANGUL_LVT,
    HANGUL_LVT, HANGUL_LVT, HANGUL_LVT, HANGUL_LVT, HANGUL_LVT, HANGUL_LVT, HANGUL_LVT, HANGUL_LVT,
    HANGUL_LV, HANGUL_LVT, HANGUL_LVT, HANGUL_LVT, HANGUL_LVT, HANGUL_LVT, HANGUL_LVT, HANGUL_LVT,
    HANGUL_LVT, HANGUL_LVT, HANGUL_LVT, HANGUL_LVT, HANGUL_LVT, HANGUL_LVT, HANGUL_LVT, HANGUL_LVT,
    HANGUL_LVT, HANGUL_LVT, HANGUL_LVT, HANGUL_LVT, HANGUL_LVT, HANGUL_LVT, HANGUL_LVT, HANGUL_LVT,
    HANGUL_LVT, HANGUL_LVT, HANGUL_LVT, HANGUL_LVT, HANGUL_LV, HANGUL_LVT, HANGUL_LVT, HANGUL_LVT,
    HANGUL_LVT, HANGUL_LVT, HANGUL_LVT, HANGUL_LVT, HANGUL_LVT, HANGUL_LVT, HANGUL_LVT, HANGUL_LVT,
    HANGUL_LVT, HANGUL_LVT, HANGUL_LVT, HANGUL_LVT, HANGUL_LVT, HANGUL_LVT, HANGUL_LVT, HANGUL_LVT,
];

#[verifier::opaque]
pub const GP_PAGE_47: [u8; 256] = [
    HANGUL_LVT, HANGUL_LVT, HANGUL_LVT, HANGUL_LVT, HANGUL_LVT, HANGUL_LVT, HANGUL_LVT, HANGUL_LVT,
    HANGUL_LV, HANGUL_LVT, HANGUL_LVT, HANGUL_LVT, HANGUL_LVT, HANGUL_LVT, HANGUL_LVT, HANGUL_LVT,
    HANGUL_LVT, HANGUL_LVT, HANGUL_LVT, HANGUL_LVT, HANGUL_LVT, HANGUL_LVT, HANGUL_LVT, HANGUL_LVT,
    HANGUL_LVT, HANGUL_LVT, HANGUL_LVT, HANGUL_LVT, HANGUL_LVT, HANGUL_LVT, HANGUL_LVT, HANGUL_LVT,
    HANGUL_LVT, HANGUL_LVT, HANGUL_LVT, HANGUL_LVT, HANGUL_LV, HANGUL_LVT, HANGUL_LVT, HANGUL_LVT,
    HANGUL_LVT, HANGUL_LVT, HANGUL_LVT, HANGUL_LVT, HANGUL_LVT, HANGUL_LVT, HANGUL_LVT, HANGUL_LVT,
    HANGUL_LVT, HANGUL_LVT, HANGUL_LVT, HANGUL_LVT, HANGUL_LVT, HANGUL_LVT, HANGUL_LVT, HANGUL_LVT,
    HANGUL_LVT, HANGUL_LVT, HANGUL_LVT, HANGUL_LVT, HANGUL_LVT, HANGUL_LVT, HANGUL_LVT, HANGUL_LVT,
    HANGUL_LV, HANGUL_LVT, HANGUL_LVT, HANGUL_LVT, HANGUL_LVT, HANGUL_LVT, HANGUL_LVT, HANGUL_LVT,
    HANGUL_LVT, HANGUL_LVT, HANGUL_LVT, HANGUL_LVT, HANGUL_LVT, HANGUL_LVT, HANGUL_LVT, HANGUL_LVT,
    HANGUL_LVT, HANGUL_LVT, HANGUL_LVT, HANGUL_LVT, HANGUL_LVT, HANGUL_LVT, HANGUL_LVT, HANGUL_LVT,
    HANGUL_LVT, HANGUL_LVT, HANGUL_LVT, HANGUL_LVT, HANGUL_LV, HANGUL_LVT, HANGUL_LVT, HANGUL_LVT,
    HANGUL_LVT, HANGUL_LVT, HANGUL_LVT, HANGUL_LVT, HANGUL_LVT, HANGUL_LVT, HANGUL_LVT, HANGUL_LVT,
    HANGUL_LVT, HANGUL_LVT, HANGUL_LVT, HANGUL_LVT, HANGUL_LVT, HANGUL_LVT, HANGUL_LVT, HANGUL_LVT,
    HANGUL_LVT, HANGUL_LVT, HANGUL_LVT, HANGUL_LVT, HANGUL_LVT, HANGUL_LVT, HANGUL_LVT, HANGUL_LVT,
    HANGUL_LV, HANGUL_LVT, HANGUL_LVT, HANGUL_LVT, HANGUL_LVT, HANGUL_LVT, HANGUL_LVT, HANGUL_LVT,
    HANGUL_LVT, HANGUL_LVT, HANGUL_LVT, HANGUL_LVT, HANGUL_LVT, HANGUL_LVT, HANGUL_LVT, HANGUL_LVT,
    HANGUL_LVT, HANGUL_LVT, HANGUL_LVT, HANGUL_LVT, HANGUL_LVT, HANGUL_LVT, HANGUL_LVT, HANGUL_LVT,
    HANGUL_LVT, HANGUL_LVT, HANGUL_LVT, HANGUL_LVT, HANGUL_LV, HANGUL_LVT, HANGUL_LVT, HANGUL_LVT,
    HANGUL_LVT, HANGUL_LVT, HANGUL_LVT, HANGUL_LVT, HANGUL_LVT, HANGUL_LVT, HANGUL_LVT, HANGUL_LVT,
    HANGUL_LVT, HANGUL_LVT, HANGUL_LVT, HANGUL_LVT, HANGUL_LVT, HANGUL_LVT, HANGUL_LVT, HANGUL_LVT,
    HANGUL_LVT, HANGUL_LVT, HANGUL_LVT, HANGUL_LVT, HANGUL_LVT, HANGUL_LVT, HANGUL_LVT, HANGUL_LVT,
    HANGUL_LV, HANGUL_LVT, HANGUL_LVT, HANGUL_LVT, HANGUL_LVT, HANGUL_LVT, HANGUL_LVT, HANGUL_LVT,
    HANGUL_LVT, HANGUL_LVT, HANGUL_LVT, HANGUL_LVT, HANGUL_LVT, HANGUL_LVT, HANGUL_LVT, HANGUL_LVT,
    HANGUL_LVT, HANGUL_LVT, HANGUL_LVT, HANGUL_LVT, HANGUL_LVT, HANGUL_LVT, HANGUL_LVT, HANGUL_LVT,
    HANGUL_LVT, HANGUL_LVT, HANGUL_LVT, HANGUL_LVT, HANGUL_LV, HANGUL_LVT, HANGUL_LVT, HANGUL_LVT,
    HANGUL_LVT, HANGUL_LVT, HANGUL_LVT, HANGUL_LVT, HANGUL_LVT, HANGUL_LVT, HANGUL_LVT, HANGUL_LVT,
    HANGUL_LVT, HANGUL_LVT, HANGUL_LVT, HANGUL_LVT, HANGUL_LVT, HANGUL_LVT, HANGUL_LVT, HANGUL_LVT,
    HANGUL_LVT, HANGUL_LVT, HANGUL_LVT, HANGUL_LVT, HANGUL_LVT, HANGUL_LVT, HANGUL_LVT, HANGUL_LVT,
    HANGUL_LV, HANGUL_LVT, HANGUL_LVT, HANGUL_LVT, HANGUL_LVT, HANGUL_LVT, HANGUL_LVT, HANGUL_LVT,
    HANGUL_LVT, HANGUL_LVT, HANGUL_LVT, HANGUL_LVT, HANGUL_LVT, HANGUL_LVT, HANGUL_LVT, HANGUL_LVT,
    HANGUL_LVT, HANGUL_LVT, HANGUL_LVT, HANGUL_LVT, HANGUL_LVT, HANGUL_LVT, HANGUL_LVT, HANGUL_LVT,
];

#[verifier::opaque]
pub const GP_PAGE_48: [u8; 256] = [
    HANGUL_LVT, HANGUL_LVT, HANGUL_LVT, HANGUL_LVT, HANGUL_LV, HANGUL_LVT, HANGUL_LVT, HANGUL_LVT,
    HANGUL_LVT, HANGUL_LVT, HANGUL_LVT, HANGUL_LVT, HANGUL_LVT, HANGUL_LVT, HANGUL_LVT, HANGUL_LVT,
    HANGUL_LVT, HANGUL_LVT, HANGUL_LVT, HANGUL_LVT, HANGUL_LVT, HANGUL_LVT, HANGUL_LVT, HANGUL_LVT,
    HANGUL_LVT, HANGUL_LVT, HANGUL_LVT, HANGUL_LVT, HANGUL_LVT, HANGUL_LVT, HANGUL_LVT, HANGUL_LVT,
    HANGUL_LV, HANGUL_LVT, HANGUL_LVT, HANGUL_LVT, HANGUL_LVT, HANGUL_LVT, HANGUL_LVT, HANGUL_LVT,
    HANGUL_LVT, HANGUL_LVT, HANGUL_LVT, HANGUL_LVT, HANGUL_LVT, HANGUL_LVT, HANGUL_LVT, HANGUL_LVT,
    HANGUL_LVT, HANGUL_LVT, HANGUL_LVT, HANGUL_LVT, HANGUL_LVT, HANGUL_LVT, HANGUL_LVT, HANGUL_LVT,
    HANGUL_LVT, HANGUL_LVT, HANGUL_LVT, HANGUL_LVT, HANGUL_LV, HANGUL_LVT, HANGUL_LVT, HANGUL_LVT,
    HANGUL_LVT, HANGUL_LVT, HANGUL_LVT, HANGUL_LVT, HANGUL_LVT, HANGUL_LVT, HANGUL_LVT, HANGUL_LVT,
    HANGUL_LVT, HANGUL_LVT, HANGUL_LVT, HANGUL_LVT, HANGUL_LVT, HANGUL_LVT, HANGUL_LVT, HANGUL_LVT,
    HANGUL_LVT, HANGUL_LVT, HANGUL_LVT, HANGUL_LVT, HANGUL_LVT, HANGUL_LVT, HANGUL_LVT, HANGUL_LVT,
    HANGUL_LV, HANGUL_LVT, HANGUL_LVT, HANGUL_LVT, HANGUL_LVT, HANGUL_LVT, HANGUL_LVT, HANGUL_LVT,
    HANGUL_LVT, HANGUL_LVT, HANGUL_LVT, HANGUL_LVT, HANGUL_LVT, HANGUL_LVT, HANGUL_LVT, HANGUL_LVT,
    HANGUL_LVT, HANGUL_LVT, HANGUL_LVT, HANGUL_LVT, HANGUL_LVT, HANGUL_LVT, HANGUL_LVT, HANGUL_LVT,
    HANGUL_LVT, HANGUL_LVT, HANGUL_LVT, HANGUL_LVT, HANGUL_LV, HANGUL_LVT, HANGUL_LVT, HANGUL_LVT,
    HANGUL_LVT, HANGUL_LVT, HANGUL_LVT, HANGUL_LVT, HANGUL_LVT, HANGUL_LVT, HANGUL_LVT, HANGUL_LVT,
    HANGUL_LVT, HANGUL_LVT, HANGUL_LVT, HANGUL_LVT, HANGUL_LVT, HANGUL_LVT, HANGUL_LVT, HANGUL_LVT,
    HANGUL_LVT, HANGUL_LVT, HANGUL_LVT, HANGUL_LVT, HANGUL_LVT, HANGUL_LVT, HANGUL_LVT, HANGUL_LVT,
    HANGUL_LV, HANGUL_LVT, HANGUL_LVT, HANGUL_LVT, HANGUL_LVT, HANGUL_LVT, HANGUL_LVT, HANGUL_LVT,
    HANGUL_LVT, HANGUL_LVT, HANGUL_LVT, HANGUL_LVT, HANGUL_LVT, HANGUL_LVT, HANGUL_LVT, HANGUL_LVT,
    HANGUL_LVT, HANGUL_LVT, HANGUL_LVT, HANGUL_LVT, HANGUL_LVT, HANGUL_LVT, HANGUL_LVT, HANGUL_LVT,
    HANGUL_LVT, HANGUL_LVT, HANGUL_LVT, HANGUL_LVT, HANGUL_LV, HANGUL_LVT, HANGUL_LVT, HANGUL_LVT,
    HANGUL_LVT, HANGUL_LVT, HANGUL_LVT, HANGUL_LVT, HANGUL_LVT, HANGUL_LVT, HANGUL_LVT, HANGUL_LVT,
    HANGUL_LVT, HANGUL_LVT, HANGUL_LVT, HANGUL_LVT, HANGUL_LVT, HANGUL_LVT, HANGUL_LVT, HANGUL_LVT,
    HANGUL_LVT, HANGUL_LVT, HANGUL_LVT, HANGUL_LVT, HANGUL_LVT, HANGUL_LVT, HANGUL_LVT, HANGUL_LVT,
    HANGUL_LV, HANGUL_LVT, HANGUL_LVT, HANGUL_LVT, HANGUL_LVT, HANGUL_LVT, HANGUL_LVT, HANGUL_LVT,
    HANGUL_LVT, HANGUL_LVT, HANGUL_LVT, HANGUL_LVT, HANGUL_LVT, HANGUL_LVT, HANGUL_LVT, HANGUL_LVT,
    HANGUL_LVT, HANGUL_LVT, HANGUL_LVT, HANGUL_LVT, HANGUL_LVT, HANGUL_LVT, HANGUL_LVT, HANGUL_LVT,
    HANGUL_LVT, HANGUL_LVT, HANGUL_LVT, HANGUL_LVT, HANGUL_LV, HANGUL_LVT, HANGUL_LVT, HANGUL_LVT,
    HANGUL_LVT, HANGUL_LVT, HANGUL_LVT, HANGUL_LVT, HANGUL_LVT, HANGUL_LVT, HANGUL_LVT, HANGUL_LVT,
    HANGUL_LVT, HANGUL_LVT, HANGUL_LVT, HANGUL_LVT, HANGUL_LVT, HANGUL_LVT, HANGUL_LVT, HANGUL_LVT,
    HANGUL_LVT, HANGUL_LVT, HANGUL_LVT, HANGUL_LVT, HANGUL_LVT, HANGUL_LVT, HANGUL_LVT, HANGUL_LVT,
];

#[verifier::opaque]
pub const GP_PAGE_49: [u8; 256] = [
    HANGUL_LVT, HANGUL_LVT, HANGUL_LVT, HANGUL_LVT, HANGUL_LVT, HANGUL_LVT, HANGUL_LVT, HANGUL_LVT,
    HANGUL_LVT, HANGUL_LVT, HANGUL_LVT, HANGUL_LVT, HANGUL_LVT, HANGUL_LVT, HANGUL_LVT, HANGUL_LVT,
    HANGUL_LVT, HANGUL_LVT, HANGUL_LVT, HANGUL_LVT, HANGUL_LVT, HANGUL_LVT, HANGUL_LVT, HANGUL_LVT,
    HANGUL_LV, HANGUL_LVT, HANGUL_LVT, HANGUL_LVT, HANGUL_LVT, HANGUL_LVT, HANGUL_LVT, HANGUL_LVT,
    HANGUL_LVT, HANGUL_LVT, HANGUL_LVT, HANGUL_LVT, HANGUL_LVT, HANGUL_LVT, HANGUL_LVT, HANGUL_LVT,
    HANGUL_LVT, HANGUL_LVT, HANGUL_LVT, HANGUL_LVT, HANGUL_LVT, HANGUL_LVT, HANGUL_LVT, HANGUL_LVT,
    HANGUL_LVT, HANGUL_LVT, HANGUL_LVT, HANGUL_LVT, HANGUL_LV, HANGUL_LVT, HANGUL_LVT, HANGUL_LVT,
    HANGUL_LVT, HANGUL_LVT, HANGUL_LVT, HANGUL_LVT, HANGUL_LVT, HANGUL_LVT, HANGUL_LVT, HANGUL_LVT,
    HANGUL_LVT, HANGUL_LVT, HANGUL_LVT, HANGUL_LVT, HANGUL_LVT, HANGUL_LVT, HANGUL_LVT, HANGUL_LVT,
    HANGUL_LVT, HANGUL_LVT, HANGUL_LVT, HANGUL_LVT, HANGUL_LVT, HANGUL_LVT, HANGUL_LVT, HANGUL_LVT,
    HANGUL_LV, HANGUL_LVT, HANGUL_LVT, HANGUL_LVT, HANGUL_LVT, HANGUL_LVT, HANGUL_LVT, HANGUL_LVT,
    HANGUL_LVT, HANGUL_LVT, HANGUL_LVT, HANGUL_LVT, HANGUL_LVT, HANGUL_LVT, HANGUL_LVT, HANGUL_LVT,
    HANGUL_LVT, HANGUL_LVT, HANGUL_LVT, HANGUL_LVT, HANGUL_LVT, HANGUL_LVT, HANGUL_LVT, HANGUL_LVT,
    HANGUL_LVT, HANGUL_LVT, HANGUL_LVT, HANGUL_LVT, HANGUL_LV, HANGUL_LVT, HANGUL_LVT, HANGUL_LVT,
    HANGUL_LVT, HANGUL_LVT, HANGUL_LVT, HANGUL_LVT, HANGUL_LVT, HANGUL_LVT, HANGUL_LVT, HANGUL_LVT,
    HANGUL_LVT, HANGUL_LVT, HANGUL_LVT, HANGUL_LVT, HANGUL_LVT, HANGUL_LVT, HANGUL_LVT, HANGUL_LVT,
    HANGUL_LVT, HANGUL_LVT, HANGUL_LVT, HANGUL_LVT, HANGUL_LVT, HANGUL_LVT, HANGUL_LVT, HANGUL_LVT,
    HANGUL_LV, HANGUL_LVT, HANGUL_LVT, HANGUL_LVT, HANGUL_LVT, HANGUL_LVT, HANGUL_LVT, HANGUL_LVT,
    HANGUL_LVT, HANGUL_LVT, HANGUL_LVT, HANGUL_LVT, HANGUL_LVT, HANGUL_LVT, HANGUL_LVT, HANGUL_LVT,
    HANGUL_LVT, HANGUL_LVT, HANGUL_LVT, HANGUL_LVT, HANGUL_LVT, HANGUL_LVT, HANGUL_LVT, HANGUL_LVT,
    HANGUL_LVT, HANGUL_LVT, HANGUL_LVT, HANGUL_LVT, OTHER, OTHER, OTHER, OTHER,
    OTHER, OTHER, OTHER, OTHER, OTHER, OTHER, OTHER, OTHER,
    HANGUL_V, HANGUL_V, HANGUL_V, HANGUL_V, HANGUL_V, HANGUL_V, HANGUL_V, HANGUL_V,
    HANGUL_V, HANGUL_V, HANGUL_V, HANGUL_V, HANGUL_V, HANGUL_V, HANGUL_V, HANGUL_V,
    HANGUL_V, HANGUL_V, HANGUL_V, HANGUL_V, HANGUL_V, HANGUL_V, HANGUL_V, OTHER,
    OTHER, OTHER, OTHER, HANGUL_T, HANGUL_T, HANGUL_T, HANGUL_T, HANGUL_T,
    HANGUL_T, HANGUL_T, HANGUL_T, HANGUL_T, HANGUL_T, HANGUL_T, HANGUL_T, HANGUL_T,
    HANGUL_T, HANGUL_T, HANGUL_T, HANGUL_T, HANGUL_T, HANGUL_T, HANGUL_T, HANGUL_T,
    HANGUL_T, HANGUL_T, HANGUL_T, HANGUL_T, HANGUL_T, HANGUL_T, HANGUL_T, HANGUL_T,
    HANGUL_T, HANGUL_T, HANGUL_T, HANGUL_T, HANGUL_T, HANGUL_T, HANGUL_T, HANGUL_T,
    HANGUL_T, HANGUL_T, HANGUL_T, HANGUL_T, HANGUL_T, HANGUL_T, HANGUL_T, HANGUL_T,
    HANGUL_T, HANGUL_T, HANGUL_T, HANGUL_T, OTHER, OTHER, OTHER, OTHER,
];

#[verifier::opaque]
pub const GP_PAGE_50: [u8; 256] = [
    OTHER, OTHER, OTHER, OTHER, OTHER, OTHER, OTHER, OTHER,
    OTHER, OTHER, OTHER, OTHER, OTHER, OTHER, OTHER, OTHER,
    OTHER, OTHER, OTHER, OTHER, OTHER, OTHER, OTHER, OTHER,
    OTHER, OTHER, OTHER, OTHER, OTHER, OTHER, EXTEND, OTHER,
    OTHER, OTHER, OTHER, OTHER, OTHER, OTHER, OTHER, OTHER,
    OTHER, OTHER, OTHER, OTHER, OTHER, OTHER, OTHER, OTHER,
    OTHER, OTHER, OTHER, OTHER, OTHER, OTHER, OTHER, OTHER,
    OTHER, OTHER, OTHER, OTHER, OTHER, OTHER, OTHER, OTHER,
    OTHER, OTHER, OTHER, OTHER, OTHER, OTHER, OTHER, OTHER,
    OTHER, OTHER, OTHER, OTHER, OTHER, OTHER, OTHER, OTHER,
    OTHER, OTHER, OTHER, OTHER, OTHER, OTHER, OTHER, OTHER,
    OTHER, OTHER, OTHER, OTHER, OTHER, OTHER, OTHER, OTHER,
    OTHER, OTHER, OTHER, OTHER, OTHER, OTHER, OTHER, OTHER,
    OTHER, OTHER, OTHER, OTHER, OTHER, OTHER, OTHER, OTHER,
    OTHER, OTHER, OTHER, OTHER, OTHER, OTHER, OTHER, OTHER,
    OTHER, OTHER, OTHER, OTHER, OTHER, OTHER, OTHER, OTHER,
    OTHER, OTHER, OTHER, OTHER, OTHER, OTHER, OTHER, OTHER,
    OTHER, OTHER, OTHER, OTHER, OTHER, OTHER, OTHER, OTHER,
    OTHER, OTHER, OTHER, OTHER, OTHER, OTHER, OTHER, OTHER,
    OTHER, OTHER, OTHER, OTHER, OTHER, OTHER, OTHER, OTHER,
    OTHER, OTHER, OTHER, OTHER, OTHER, OTHER, OTHER, OTHER,
    OTHER, OTHER, OTHER, OTHER, OTHER, OTHER, OTHER, OTHER,
    OTHER, OTHER, OTHER, OTHER, OTHER, OTHER, OTHER, OTHER,
    OTHER, OTHER, OTHER, OTHER, OTHER, OTHER, OTHER, OTHER,
    OTHER, OTHER, OTHER, OTHER, OTHER, OTHER, OTHER, OTHER,
    OTHER, OTHER, OTHER, OTHER, OTHER, OTHER, OTHER, OTHER,
    OTHER, OTHER, OTHER, OTHER, OTHER, OTHER, OTHER, OTHER,
    OTHER, OTHER, OTHER, OTHER, OTHER, OTHER, OTHER, OTHER,
    OTHER, OTHER, OTHER, OTHER, OTHER, OTHER, OTHER, OTHER,
    OTHER, OTHER, OTHER, OTHER, OTHER, OTHER, OTHER, OTHER,
    OTHER, OTHER, OTHER, OTHER, OTHER, OTHER, OTHER, OTHER,
    OTHER, OTHER, OTHER, OTHER, OTHER, OTHER, OTHER, OTHER,
];

#[verifier::opaque]
pub const GP_PAGE_51: [u8; 256] = [
    EXTEND, EXTEND, EXTEND, EXTEND, EXTEND, EXTEND, EXTEND, EXTEND,
    EXTEND, EXTEND, EXTEND, EXTEND, EXTEND, EXTEND, EXTEND, EXTEND,
    OTHER, OTHER, OTHER, OTHER, OTHER, OTHER, OTHER, OTHER,
    OTHER, OTHER, OTHER, OTHER, OTHER, OTHER, OTHER, OTHER,
    EXTEND, EXTEND, EXTEND, EXTEND, EXTEND, EXTEND, EXTEND, EXTEND,
    EXTEND, EXTEND, EXTEND, EXTEND, EXTEND, EXTEND, EXTEND, EXTEND,
    OTHER, OTHER, OTHER, OTHER, OTHER, OTHER, OTHER, OTHER,
    OTHER, OTHER, OTHER, OTHER, OTHER, OTHER, OTHER, OTHER,
    OTHER, OTHER, OTHER, OTHER, OTHER, OTHER, OTHER, OTHER,
    OTHER, OTHER, OTHER, OTHER, OTHER, OTHER, OTHER, OTHER,
    OTHER, OTHER, OTHER, OTHER, OTHER, OTHER, OTHER, OTHER,
    OTHER, OTHER, OTHER, OTHER, OTHER, OTHER, OTHER, OTHER,
    OTHER, OTHER, OTHER, OTHER, OTHER, OTHER, OTHER, OTHER,
    OTHER, OTHER, OTHER, OTHER, OTHER, OTHER, OTHER, OTHER,
    OTHER, OTHER, OTHER, OTHER, OTHER, OTHER, OTHER, OTHER,
    OTHER, OTHER, OTHER, OTHER, OTHER, OTHER, OTHER, OTHER,
    OTHER, OTHER, OTHER, OTHER, OTHER, OTHER, OTHER, OTHER,
    OTHER, OTHER, OTHER, OTHER, OTHER, OTHER, OTHER, OTHER,
    OTHER, OTHER, OTHER, OTHER, OTHER, OTHER, OTHER, OTHER,
    OTHER, OTHER, OTHER, OTHER, OTHER, OTHER, OTHER, OTHER,
    OTHER, OTHER, OTHER, OTHER, OTHER, OTHER, OTHER, OTHER,
    OTHER, OTHER, OTHER, OTHER, OTHER, OTHER, OTHER, OTHER,
    OTHER, OTHER, OTHER, OTHER, OTHER, OTHER, OTHER, OTHER,
    OTHER, OTHER, OTHER, OTHER, OTHER, OTHER, OTHER, OTHER,
    OTHER, OTHER, OTHER, OTHER, OTHER, OTHER, OTHER, OTHER,
    OTHER, OTHER, OTHER, OTHER, OTHER, OTHER, OTHER, OTHER,
    OTHER, OTHER, OTHER, OTHER, OTHER, OTHER, OTHER, OTHER,
    OTHER, OTHER, OTHER, OTHER, OTHER, OTHER, OTHER, OTHER,
    OTHER, OTHER, OTHER, OTHER, OTHER, OTHER, OTHER, OTHER,
    OTHER, OTHER, OTHER, OTHER, OTHER, OTHER, OTHER, OTHER,
    OTHER, OTHER, OTHER, OTHER, OTHER, OTHER, OTHER, OTHER,
    OTHER, OTHER, OTHER, OTHER, OTHER, OTHER, OTHER, CONTROL,
];

#[verifier::opaque]
pub const GP_PAGE_52: [u8; 256] = [
    OTHER, OTHER, OTHER, OTHER, OTHER, OTHER, OTHER, OTHER,
    OTHER, OTHER, OTHER, OTHER, OTHER, OTHER, OTHER, OTHER,
    OTHER, OTHER, OTHER, OTHER, OTHER, OTHER, OTHER, OTHER,
    OTHER, OTHER, OTHER, OTHER, OTHER, OTHER, OTHER, OTHER,
    OTHER, OTHER, OTHER, OTHER, OTHER, OTHER, OTHER, OTHER,
    OTHER, OTHER, OTHER, OTHER, OTHER, OTHER, OTHER, OTHER,
    OTHER, OTHER, OTHER, OTHER, OTHER, OTHER, OTHER, OTHER,
    OTHER, OTHER, OTHER, OTHER, OTHER, OTHER, OTHER, OTHER,
    OTHER, OTHER, OTHER, OTHER, OTHER, OTHER, OTHER, OTHER,
    OTHER, OTHER, OTHER, OTHER, OTHER, OTHER, OTHER, OTHER,
    OTHER, OTHER, OTHER, OTHER, OTHER, OTHER, OTHER, OTHER,
    OTHER, OTHER, OTHER, OTHER, OTHER, OTHER, OTHER, OTHER,
    OTHER, OTHER, OTHER, OTHER, OTHER, OTHER, OTHER, OTHER,
    OTHER, OTHER, OTHER, OTHER, OTHER, OTHER, OTHER, OTHER,
    OTHER, OTHER, OTHER, OTHER, OTHER, OTHER, OTHER, OTHER,
    OTHER, OTHER, OTHER, OTHER, OTHER, OTHER, OTHER, OTHER,
    OTHER, OTHER, OTHER, OTHER, OTHER, OTHER, OTHER, OTHER,
    OTHER, OTHER, OTHER, OTHER, OTHER, OTHER, OTHER, OTHER,
    OTHER, OTHER, OTHER, OTHER, OTHER, OTHER, OTHER, OTHER,
    OTHER, OTHER, OTHER, OTHER, OTHER, OTHER, EXTEND, EXTEND,
    OTHER, OTHER, OTHER, OTHER, OTHER, OTHER, OTHER, OTHER,
    OTHER, OTHER, OTHER, OTHER, OTHER, OTHER, OTHER, OTHER,
    OTHER, OTHER, OTHER, OTHER, OTHER, OTHER, OTHER, OTHER,
    OTHER, OTHER, OTHER, OTHER, OTHER, OTHER, OTHER, OTHER,
    OTHER, OTHER, OTHER, OTHER, OTHER, OTHER, OTHER, OTHER,
    OTHER, OTHER, OTHER, OTHER, OTHER, OTHER, OTHER, OTHER,
    OTHER, OTHER, OTHER, OTHER, OTHER, OTHER, OTHER, OTHER,
    OTHER, OTHER, OTHER, OTHER, OTHER, OTHER, OTHER, OTHER,
    OTHER, OTHER, OTHER, OTHER, OTHER, OTHER, OTHER, OTHER,
    OTHER, OTHER, OTHER, OTHER, OTHER, OTHER, OTHER, OTHER,
    CONTROL, CONTROL, CONTROL, CONTROL, CONTROL, CONTROL, CONTROL, CONTROL,
    CONTROL, CONTROL, CONTROL, CONTROL, OTHER, OTHER, OTHER, OTHER,
];

#[verifier::opaque]
pub const GP_PAGE_53: [u8; 256] = [
    OTHER, OTHER, OTHER, OTHER, OTHER, OTHER, OTHER, OTHER,
    OTHER, OTHER, OTHER, OTHER, OTHER, OTHER, OTHER, OTHER,
    OTHER, OTHER, OTHER, OTHER, OTHER, OTHER, OTHER, OTHER,
    OTHER, OTHER, OTHER, OTHER, OTHER, OTHER, OTHER, OTHER,
    OTHER, OTHER, OTHER, OTHER, OTHER, OTHER, OTHER, OTHER,
    OTHER, OTHER, OTHER, OTHER, OTHER, OTHER, OTHER, OTHER,
    OTHER, OTHER, OTHER, OTHER, OTHER, OTHER, OTHER, OTHER,
    OTHER, OTHER, OTHER, OTHER, OTHER, OTHER, OTHER, OTHER,
    OTHER, OTHER, OTHER, OTHER, OTHER, OTHER, OTHER, OTHER,
    OTHER, OTHER, OTHER, OTHER, OTHER, OTHER, OTHER, OTHER,
    OTHER, OTHER, OTHER, OTHER, OTHER, OTHER, OTHER, OTHER,
    OTHER, OTHER, OTHER, OTHER, OTHER, OTHER, OTHER, OTHER,
    OTHER, OTHER, OTHER, OTHER, OTHER, OTHER, OTHER, OTHER,
    OTHER, OTHER, OTHER, OTHER, OTHER, OTHER, OTHER, OTHER,
    OTHER, OTHER, OTHER, OTHER, OTHER, OTHER, OTHER, OTHER,
    OTHER, OTHER, OTHER, OTHER, OTHER, OTHER, OTHER, OTHER,
    OTHER, OTHER, OTHER, OTHER, OTHER, OTHER, OTHER, OTHER,
    OTHER, OTHER, OTHER, OTHER, OTHER, OTHER, OTHER, OTHER,
    OTHER, OTHER, OTHER, OTHER, OTHER, OTHER, OTHER, OTHER,
    OTHER, OTHER, OTHER, OTHER, OTHER, OTHER, OTHER, OTHER,
    OTHER, OTHER, OTHER, OTHER, OTHER, OTHER, OTHER, OTHER,
    OTHER, OTHER, OTHER, OTHER, OTHER, OTHER, OTHER, OTHER,
    OTHER, OTHER, OTHER, OTHER, OTHER, OTHER, OTHER, OTHER,
    OTHER, OTHER, OTHER, OTHER, OTHER, OTHER, OTHER, OTHER,
    OTHER, OTHER, OTHER, OTHER, OTHER, OTHER, OTHER, OTHER,
    OTHER, OTHER, OTHER, OTHER, OTHER, OTHER, OTHER, OTHER,
    OTHER, OTHER, OTHER, OTHER, OTHER, OTHER, OTHER, OTHER,
    OTHER, OTHER, OTHER, OTHER, OTHER, OTHER, OTHER, OTHER,
    OTHER, OTHER, OTHER, OTHER, OTHER, OTHER, OTHER, OTHER,
    OTHER, OTHER, OTHER, OTHER, OTHER, OTHER, OTHER, OTHER,
    OTHER, OTHER, OTHER, OTHER, OTHER, OTHER, OTHER, OTHER,
    OTHER, OTHER, OTHER, OTHER, OTHER, EXTEND, OTHER, OTHER,
];

#[verifier::opaque]
pub const GP_PAGE_54: [u8; 256] = [
    OTHER, OTHER, OTHER, OTHER, OTHER, OTHER, OTHER, OTHER,
    OTHER, OTHER, OTHER, OTHER, OTHER, OTHER, OTHER, OTHER,
    OTHER, OTHER, OTHER, OTHER, OTHER, OTHER, OTHER, OTHER,
    OTHER, OTHER, OTHER, OTHER, OTHER, OTHER, OTHER, OTHER,
    OTHER, OTHER, OTHER, OTHER, OTHER, OTHER, OTHER, OTHER,
    OTHER, OTHER, OTHER, OTHER, OTHER, OTHER, OTHER, OTHER,
    OTHER, OTHER, OTHER, OTHER, OTHER, OTHER, OTHER, OTHER,
    OTHER, OTHER, OTHER, OTHER, OTHER, OTHER, OTHER, OTHER,
    OTHER, OTHER, OTHER, OTHER, OTHER, OTHER, OTHER, OTHER,
    OTHER, OTHER, OTHER, OTHER, OTHER, OTHER, OTHER, OTHER,
    OTHER, OTHER, OTHER, OTHER, OTHER, OTHER, OTHER, OTHER,
    OTHER, OTHER, OTHER, OTHER, OTHER, OTHER, OTHER, OTHER,
    OTHER, OTHER, OTHER, OTHER, OTHER, OTHER, OTHER, OTHER,
    OTHER, OTHER, OTHER, OTHER, OTHER, OTHER, OTHER, OTHER,
    OTHER, OTHER, OTHER, OTHER, OTHER, OTHER, OTHER, OTHER,
    OTHER, OTHER, OTHER, OTHER, OTHER, OTHER, OTHER, OTHER,
    OTHER, OTHER, OTHER, OTHER, OTHER, OTHER, OTHER, OTHER,
    OTHER, OTHER, OTHER, OTHER, OTHER, OTHER, OTHER, OTHER,
    OTHER, OTHER, OTHER, OTHER, OTHER, OTHER, OTHER, OTHER,
    OTHER, OTHER, OTHER, OTHER, OTHER, OTHER, OTHER, OTHER,
    OTHER, OTHER, OTHER, OTHER, OTHER, OTHER, OTHER, OTHER,
    OTHER, OTHER, OTHER, OTHER, OTHER, OTHER, OTHER, OTHER,
    OTHER, OTHER, OTHER, OTHER, OTHER, OTHER, OTHER, OTHER,
    OTHER, OTHER, OTHER, OTHER, OTHER, OTHER, OTHER, OTHER,
    OTHER, OTHER, OTHER, OTHER, OTHER, OTHER, OTHER, OTHER,
    OTHER, OTHER, OTHER, OTHER, OTHER, OTHER, OTHER, OTHER,
    OTHER, OTHER, OTHER, OTHER, OTHER, OTHER, OTHER, OTHER,
    OTHER, OTHER, OTHER, OTHER, OTHER, OTHER, OTHER, OTHER,
    EXTEND, OTHER, OTHER, OTHER, OTHER, OTHER, OTHER, OTHER,
    OTHER, OTHER, OTHER, OTHER, OTHER, OTHER, OTHER, OTHER,
    OTHER, OTHER, OTHER, OTHER, OTHER, OTHER, OTHER, OTHER,
    OTHER, OTHER, OTHER, OTHER, OTHER, OTHER, OTHER, OTHER,
];

#[verifier::opaque]
pub const GP_PAGE_55: [u8; 256] = [
    OTHER, OTHER, OTHER, OTHER, OTHER, OTHER, OTHER, OTHER,
    OTHER, OTHER, OTHER, OTHER, OTHER, OTHER, OTHER, OTHER,
    OTHER, OTHER, OTHER, OTHER, OTHER, OTHER, OTHER, OTHER,
    OTHER, OTHER, OTHER, OTHER, OTHER, OTHER, OTHER, OTHER,
    OTHER, OTHER, OTHER, OTHER, OTHER, OTHER, OTHER, OTHER,
    OTHER, OTHER, OTHER, OTHER, OTHER, OTHER, OTHER, OTHER,
    OTHER, OTHER, OTHER, OTHER, OTHER, OTHER, OTHER, OTHER,
    OTHER, OTHER, OTHER, OTHER, OTHER, OTHER, OTHER, OTHER,
    OTHER, OTHER, OTHER, OTHER, OTHER, OTHER, OTHER, OTHER,
    OTHER, OTHER, OTHER, OTHER, OTHER, OTHER, OTHER, OTHER,
    OTHER, OTHER, OTHER, OTHER, OTHER, OTHER, OTHER, OTHER,
    OTHER, OTHER, OTHER, OTHER, OTHER, OTHER, OTHER, OTHER,
    OTHER, OTHER, OTHER, OTHER, OTHER, OTHER, OTHER, OTHER,
    OTHER, OTHER, OTHER, OTHER, OTHER, OTHER, OTHER, OTHER,
    OTHER, OTHER, OTHER, OTHER, OTHER, OTHER, EXTEND, EXTEND,
    EXTEND, EXTEND, EXTEND, OTHER, OTHER, OTHER, OTHER, OTHER,
    OTHER, OTHER, OTHER, OTHER, OTHER, OTHER, OTHER, OTHER,
    OTHER, OTHER, OTHER, OTHER, OTHER, OTHER, OTHER, OTHER,
    OTHER, OTHER, OTHER, OTHER, OTHER, OTHER, OTHER, OTHER,
    OTHER, OTHER, OTHER, OTHER, OTHER, OTHER, OTHER, OTHER,
    OTHER, OTHER, OTHER, OTHER, OTHER, OTHER, OTHER, OTHER,
    OTHER, OTHER, OTHER, OTHER, OTHER, OTHER, OTHER, OTHER,
    OTHER, OTHER, OTHER, OTHER, OTHER, OTHER, OTHER, OTHER,
    OTHER, OTHER, OTHER, OTHER, OTHER, OTHER, OTHER, OTHER,
    OTHER, OTHER, OTHER, OTHER, OTHER, OTHER, OTHER, OTHER,
    OTHER, OTHER, OTHER, OTHER, OTHER, OTHER, OTHER, OTHER,
    OTHER, OTHER, OTHER, OTHER, OTHER, OTHER, OTHER, OTHER,
    OTHER, OTHER, OTHER, OTHER, OTHER, OTHER, OTHER, OTHER,
    OTHER, OTHER, OTHER, OTHER, OTHER, OTHER, OTHER, OTHER,
    OTHER, OTHER, OTHER, OTHER, OTHER, OTHER, OTHER, OTHER,
    OTHER, OTHER, OTHER, OTHER, OTHER, OTHER, OTHER, OTHER,
    OTHER, OTHER, OTHER, OTHER, OTHER, OTHER, OTHER, OTHER,
];

#[verifier::opaque]
pub const GP_PAGE_56: [u8; 256] = [
    OTHER, EXTEND, EXTEND, EXTEND, OTHER, EXTEND, EXTEND, OTHER,
    OTHER, OTHER, OTHER, OTHER, EXTEND, EXTEND, EXTEND, EXTEND,
    OTHER, OTHER, OTHER, OTHER, OTHER, OTHER, OTHER, OTHER,
    OTHER, OTHER, OTHER, OTHER, OTHER, OTHER, OTHER, OTHER,
    OTHER, OTHER, OTHER, OTHER, OTHER, OTHER, OTHER, OTHER,
    OTHER, OTHER, OTHER, OTHER, OTHER, OTHER, OTHER, OTHER,
    OTHER, OTHER, OTHER, OTHER, OTHER, OTHER, OTHER, OTHER,
    EXTEND, EXTEND, EXTEND, OTHER, OTHER, OTHER, OTHER, EXTEND,
    OTHER, OTHER, OTHER, OTHER, OTHER, OTHER, OTHER, OTHER,
    OTHER, OTHER, OTHER, OTHER, OTHER, OTHER, OTHER, OTHER,
    OTHER, OTHER, OTHER, OTHER, OTHER, OTHER, OTHER, OTHER,
    OTHER, OTHER, OTHER, OTHER, OTHER, OTHER, OTHER, OTHER,
    OTHER, OTHER, OTHER, OTHER, OTHER, OTHER, OTHER, OTHER,
    OTHER, OTHER, OTHER, OTHER, OTHER, OTHER, OTHER, OTHER,
    OTHER, OTHER, OTHER, OTHER, OTHER, OTHER, OTHER, OTHER,
    OTHER, OTHER, OTHER, OTHER, OTHER, OTHER, OTHER, OTHER,
    OTHER, OTHER, OTHER, OTHER, OTHER, OTHER, OTHER, OTHER,
    OTHER, OTHER, OTHER, OTHER, OTHER, OTHER, OTHER, OTHER,
    OTHER, OTHER, OTHER, OTHER, OTHER, OTHER, OTHER, OTHER,
    OTHER, OTHER, OTHER, OTHER, OTHER, OTHER, OTHER, OTHER,
    OTHER, OTHER, OTHER, OTHER, OTHER, OTHER, OTHER, OTHER,
    OTHER, OTHER, OTHER, OTHER, OTHER, OTHER, OTHER, OTHER,
    OTHER, OTHER, OTHER, OTHER, OTHER, OTHER, OTHER, OTHER,
    OTHER, OTHER, OTHER, OTHER, OTHER, OTHER, OTHER, OTHER,
    OTHER, OTHER, OTHER, OTHER, OTHER, OTHER, OTHER, OTHER,
    OTHER, OTHER, OTHER, OTHER, OTHER, OTHER, OTHER, OTHER,
    OTHER, OTHER, OTHER, OTHER, OTHER, OTHER, OTHER, OTHER,
    OTHER, OTHER, OTHER, OTHER, OTHER, OTHER, OTHER, OTHER,
    OTHER, OTHER, OTHER, OTHER, OTHER, EXTEND, EXTEND, OTHER,
    OTHER, OTHER, OTHER, OTHER, OTHER, OTHER, OTHER, OTHER,
    OTHER, OTHER, OTHER, OTHER, OTHER, OTHER, OTHER, OTHER,
    OTHER, OTHER, OTHER, OTHER, OTHER, OTHER, OTHER, OTHER,
];

#[verifier::opaque]
pub const GP_PAGE_57: [u8; 256] = [
    OTHER, OTHER, OTHER, OTHER, OTHER, OTHER, OTHER, OTHER,
    OTHER, OTHER, OTHER, OTHER, OTHER, OTHER, OTHER, OTHER,
    OTHER, OTHER, OTHER, OTHER, OTHER, OTHER, OTHER, OTHER,
    OTHER, OTHER, OTHER, OTHER, OTHER, OTHER, OTHER, OTHER,
    OTHER, OTHER, OTHER, OTHER, EXTEND, EXTEND, EXTEND, EXTEND,
    OTHER, OTHER, OTHER, OTHER, OTHER, OTHER, OTHER, OTHER,
    OTHER, OTHER, OTHER, OTHER, OTHER, OTHER, OTHER, OTHER,
    OTHER, OTHER, OTHER, OTHER, OTHER, OTHER, OTHER, OTHER,
    OTHER, OTHER, OTHER, OTHER, OTHER, OTHER, OTHER, OTHER,
    OTHER, OTHER, OTHER, OTHER, OTHER, OTHER, OTHER, OTHER,
    OTHER, OTHER, OTHER, OTHER, OTHER, OTHER, OTHER, OTHER,
    OTHER, OTHER, OTHER, OTHER, OTHER, OTHER, OTHER, OTHER,
    OTHER, OTHER, OTHER, OTHER, OTHER, OTHER, OTHER, OTHER,
    OTHER, OTHER, OTHER, OTHER, OTHER, OTHER, OTHER, OTHER,
    OTHER, OTHER, OTHER, OTHER, OTHER, OTHER, OTHER, OTHER,
    OTHER, OTHER, OTHER, OTHER, OTHER, OTHER, OTHER, OTHER,
    OTHER, OTHER, OTHER, OTHER, OTHER, OTHER, OTHER, OTHER,
    OTHER, OTHER, OTHER, OTHER, OTHER, OTHER, OTHER, OTHER,
    OTHER, OTHER, OTHER, OTHER, OTHER, OTHER, OTHER, OTHER,
    OTHER, OTHER, OTHER, OTHER, OTHER, OTHER, OTHER, OTHER,
    OTHER, OTHER, OTHER, OTHER, OTHER, OTHER, OTHER, OTHER,
    OTHER, OTHER, OTHER, OTHER, OTHER, OTHER, OTHER, OTHER,
    OTHER, OTHER, OTHER, OTHER, OTHER, OTHER, OTHER, OTHER,
    OTHER, OTHER, OTHER, OTHER, OTHER, OTHER, OTHER, OTHER,
    OTHER, OTHER, OTHER, OTHER, OTHER, OTHER, OTHER, OTHER,
    OTHER, OTHER, OTHER, OTHER, OTHER, OTHER, OTHER, OTHER,
    OTHER, OTHER, OTHER, OTHER, OTHER, OTHER, OTHER, OTHER,
    OTHER, OTHER, OTHER, OTHER, OTHER, OTHER, OTHER, OTHER,
    OTHER, OTHER, OTHER, OTHER, OTHER, OTHER, OTHER, OTHER,
    OTHER, OTHER, OTHER, OTHER, OTHER, OTHER, OTHER, OTHER,
    OTHER, OTHER, OTHER, OTHER, OTHER, OTHER, OTHER, OTHER,
    OTHER, OTHER, OTHER, OTHER, OTHER, OTHER, OTHER, OTHER,
];

#[verifier::opaque]
pub const GP_PAGE_58: [u8; 256] = [
    OTHER, OTHER, OTHER, OTHER, OTHER, OTHER, OTHER, OTHER,
    OTHER, OTHER, OTHER, OTHER, OTHER, OTHER, OTHER, OTHER,
    OTHER, OTHER, OTHER, OTHER, OTHER, OTHER, OTHER, OTHER,
    OTHER, OTHER, OTHER, OTHER, OTHER, OTHER, OTHER, OTHER,
    OTHER, OTHER, OTHER, OTHER, OTHER, OTHER, OTHER, OTHER,
    OTHER, OTHER, OTHER, OTHER, OTHER, OTHER, OTHER, OTHER,
    OTHER, OTHER, OTHER, OTHER, OTHER, OTHER, OTHER, OTHER,
    OTHER, OTHER, OTHER, OTHER, OTHER, OTHER, OTHER, OTHER,
    OTHER, OTHER, OTHER, OTHER, OTHER, OTHER, OTHER, OTHER,
    OTHER, OTHER, OTHER, OTHER, OTHER, OTHER, OTHER, OTHER,
    OTHER, OTHER, OTHER, OTHER, OTHER, OTHER, OTHER, OTHER,
    OTHER, OTHER, OTHER, OTHER, OTHER, OTHER, OTHER, OTHER,
    OTHER, OTHER, OTHER, OTHER, OTHER, OTHER, OTHER, OTHER,
    OTHER, OTHER, OTHER, OTHER, OTHER, OTHER, OTHER, OTHER,
    OTHER, OTHER, OTHER, OTHER, OTHER, OTHER, OTHER, OTHER,
    OTHER, OTHER, OTHER, OTHER, OTHER, OTHER, OTHER, OTHER,
    OTHER, OTHER, OTHER, OTHER, OTHER, OTHER, OTHER, OTHER,
    OTHER, OTHER, OTHER, OTHER, OTHER, OTHER, OTHER, OTHER,
    OTHER, OTHER, OTHER, OTHER, OTHER, OTHER, OTHER, OTHER,
    OTHER, OTHER, OTHER, OTHER, OTHER, OTHER, OTHER, OTHER,
    OTHER, OTHER, OTHER, OTHER, OTHER, OTHER, OTHER, OTHER,
    OTHER, OTHER, OTHER, EXTEND, EXTEND, OTHER, OTHER, OTHER,
    OTHER, OTHER, OTHER, OTHER, OTHER, OTHER, OTHER, OTHER,
    OTHER, OTHER, OTHER, OTHER, OTHER, OTHER, OTHER, OTHER,
    OTHER, OTHER, OTHER, OTHER, OTHER, OTHER, OTHER, OTHER,
    OTHER, OTHER, OTHER, OTHER, OTHER, OTHER, OTHER, OTHER,
    OTHER, OTHER, OTHER, OTHER, OTHER, OTHER, OTHER, OTHER,
    OTHER, OTHER, OTHER, OTHER, OTHER, OTHER, OTHER, OTHER,
    OTHER, OTHER, OTHER, OTHER, OTHER, OTHER, OTHER, OTHER,
    OTHER, OTHER, OTHER, OTHER, OTHER, OTHER, OTHER, OTHER,
    OTHER, OTHER, OTHER, OTHER, OTHER, OTHER, OTHER, OTHER,
    OTHER, OTHER, OTHER, OTHER, OTHER, OTHER, OTHER, OTHER,
];

#[verifier::opaque]
pub const GP_PAGE_59: [u8; 256] = [
    OTHER, OTHER, OTHER, OTHER, OTHER, OTHER, OTHER, OTHER,
    OTHER, OTHER, OTHER, OTHER, OTHER, OTHER, OTHER, OTHER,
    OTHER, OTHER, OTHER, OTHER, OTHER, OTHER, OTHER, OTHER,
    OTHER, OTHER, OTHER, OTHER, OTHER, OTHER, OTHER, OTHER,
    OTHER, OTHER, OTHER, OTHER, OTHER, OTHER, OTHER, OTHER,
    OTHER, OTHER, OTHER, OTHER, OTHER, OTHER, OTHER, OTHER,
    OTHER, OTHER, OTHER, OTHER, OTHER, OTHER, OTHER, OTHER,
    OTHER, OTHER, OTHER, OTHER, OTHER, OTHER, OTHER, OTHER,
    OTHER, OTHER, OTHER, OTHER, OTHER, OTHER, EXTEND, EXTEND,
    EXTEND, EXTEND, EXTEND, EXTEND, EXTEND, EXTEND, EXTEND, EXTEND,
    EXTEND, OTHER, OTHER, OTHER, OTHER, OTHER, OTHER, OTHER,
    OTHER, OTHER, OTHER, OTHER, OTHER, OTHER, OTHER, OTHER,
    OTHER, OTHER, OTHER, OTHER, OTHER, OTHER, OTHER, OTHER,
    OTHER, OTHER, OTHER, OTHER, OTHER, OTHER, OTHER, OTHER,
    OTHER, OTHER, OTHER, OTHER, OTHER, OTHER, OTHER, OTHER,
    OTHER, OTHER, OTHER, OTHER, OTHER, OTHER, OTHER, OTHER,
    OTHER, OTHER, EXTEND, EXTEND, EXTEND, EXTEND, OTHER, OTHER,
    OTHER, OTHER, OTHER, OTHER, OTHER, OTHER, OTHER, OTHER,
    OTHER, OTHER, OTHER, OTHER, OTHER, OTHER, OTHER, OTHER,
    OTHER, OTHER, OTHER, OTHER, OTHER, OTHER, OTHER, OTHER,
    OTHER, OTHER, OTHER, OTHER, OTHER, OTHER, OTHER, OTHER,
    OTHER, OTHER, OTHER, OTHER, OTHER, OTHER, OTHER, OTHER,
    OTHER, OTHER, OTHER, OTHER, OTHER, OTHER, OTHER, OTHER,
    OTHER, OTHER, OTHER, OTHER, OTHER, OTHER, OTHER, OTHER,
    OTHER, OTHER, OTHER, OTHER, OTHER, OTHER, OTHER, OTHER,
    OTHER, OTHER, OTHER, OTHER, OTHER, OTHER, OTHER, OTHER,
    OTHER, OTHER, OTHER, OTHER, OTHER, OTHER, OTHER, OTHER,
    OTHER, OTHER, OTHER, OTHER, OTHER, OTHER, OTHER, OTHER,
    OTHER, OTHER, OTHER, OTHER, OTHER, OTHER, OTHER, OTHER,
    OTHER, OTHER, OTHER, OTHER, OTHER, OTHER, OTHER, OTHER,
    OTHER, OTHER, OTHER, OTHER, OTHER, OTHER, OTHER, OTHER,
    OTHER, OTHER, OTHER, OTHER, OTHER, OTHER, OTHER, OTHER,
];

#[verifier::opaque]
pub const GP_PAGE_60: [u8; 256] = [
    SPACING_MARK, EXTEND, SPACING_MARK, OTHER, OTHER, OTHER, OTHER, OTHER,
    OTHER, OTHER, OTHER, OTHER, OTHER, OTHER, OTHER, OTHER,
    OTHER, OTHER, OTHER, OTHER, OTHER, OTHER, OTHER, OTHER,
    OTHER, OTHER, OTHER, OTHER, OTHER, OTHER, OTHER, OTHER,
    OTHER, OTHER, OTHER, OTHER, OTHER, OTHER, OTHER, OTHER,
    OTHER, OTHER, OTHER, OTHER, OTHER, OTHER, OTHER, OTHER,
    OTHER, OTHER, OTHER, OTHER, OTHER, OTHER, OTHER, OTHER,
    EXTEND, EXTEND, EXTEND, EXTEND, EXTEND, EXTEND, EXTEND, EXTEND,
    EXTEND, EXTEND, EXTEND, EXTEND, EXTEND, EXTEND, EXTEND, OTHER,
    OTHER, OTHER, OTHER, OTHER, OTHER, OTHER, OTHER, OTHER,
    OTHER, OTHER, OTHER, OTHER, OTHER, OTHER, OTHER, OTHER,
    OTHER, OTHER, OTHER, OTHER, OTHER, OTHER, OTHER, OTHER,
    OTHER, OTHER, OTHER, OTHER, OTHER, OTHER, OTHER, OTHER,
    OTHER, OTHER, OTHER, OTHER, OTHER, OTHER, OTHER, OTHER,
    EXTEND, OTHER, OTHER, EXTEND, EXTEND, OTHER, OTHER, OTHER,
    OTHER, OTHER, OTHER, OTHER, OTHER, OTHER, OTHER, EXTEND,
    EXTEND, EXTEND, SPACING_MARK, OTHER, OTHER, OTHER, OTHER, OTHER,
    OTHER, OTHER, OTHER, OTHER, OTHER, OTHER, OTHER, OTHER,
    OTHER, OTHER, OTHER, OTHER, OTHER, OTHER, OTHER, OTHER,
    OTHER, OTHER, OTHER, OTHER, OTHER, OTHER, OTHER, OTHER,
    OTHER, OTHER, OTHER, OTHER, OTHER, OTHER, OTHER, OTHER,
    OTHER, OTHER, OTHER, OTHER, OTHER, OTHER, OTHER, OTHER,
    SPACING_MARK, SPACING_MARK, SPACING_MARK, EXTEND, EXTEND, EXTEND, EXTEND, SPACING_MARK,
    SPACING_MARK, EXTEND, EXTEND, OTHER, OTHER, PREPEND, OTHER, OTHER,
    OTHER, OTHER, EXTEND, OTHER, OTHER, OTHER, OTHER, OTHER,
    OTHER, OTHER, OTHER, OTHER, OTHER, PREPEND, OTHER, OTHER,
    OTHER, OTHER, OTHER, OTHER, OTHER, OTHER, OTHER, OTHER,
    OTHER, OTHER, OTHER, OTHER, OTHER, OTHER, OTHER, OTHER,
    OTHER, OTHER, OTHER, OTHER, OTHER, OTHER, OTHER, OTHER,
    OTHER, OTHER, OTHER, OTHER, OTHER, OTHER, OTHER, OTHER,
    OTHER, OTHER, OTHER, OTHER, OTHER, OTHER, OTHER, OTHER,
    OTHER, OTHER, OTHER, OTHER, OTHER, OTHER, OTHER, OTHER,
];

#[verifier::opaque]
pub const GP_PAGE_61: [u8; 256] = [
    EXTEND, EXTEND, EXTEND, OTHER, OTHER, OTHER, OTHER, OTHER,
    OTHER, OTHER, OTHER, OTHER, OTHER, OTHER, OTHER, OTHER,
    OTHER, OTHER, OTHER, OTHER, OTHER, OTHER, OTHER, OTHER,
    OTHER, OTHER, OTHER, OTHER, OTHER, OTHER, OTHER, OTHER,
    OTHER, OTHER, OTHER, OTHER, OTHER, OTHER, OTHER, EXTEND,
    EXTEND, EXTEND, EXTEND, EXTEND, SPACING_MARK, EXTEND, EXTEND, EXTEND,
    EXTEND, EXTEND, EXTEND, EXTEND, EXTEND, OTHER, OTHER, OTHER,
    OTHER, OTHER, OTHER, OTHER, OTHER, OTHER, OTHER, OTHER,
    OTHER, OTHER, OTHER, OTHER, OTHER, SPACING_MARK, SPACING_MARK, OTHER,
    OTHER, OTHER, OTHER, OTHER, OTHER, OTHER, OTHER, OTHER,
    OTHER, OTHER, OTHER, OTHER, OTHER, OTHER, OTHER, OTHER,
    OTHER, OTHER, OTHER, OTHER, OTHER, OTHER, OTHER, OTHER,
    OTHER, OTHER, OTHER, OTHER, OTHER, OTHER, OTHER, OTHER,
    OTHER, OTHER, OTHER, OTHER, OTHER, OTHER, OTHER, OTHER,
    OTHER, OTHER, OTHER, EXTEND, OTHER, OTHER, OTHER, OTHER,
    OTHER, OTHER, OTHER, OTHER, OTHER, OTHER, OTHER, OTHER,
    EXTEND, EXTEND, SPACING_MARK, OTHER, OTHER, OTHER, OTHER, OTHER,
    OTHER, OTHER, OTHER, OTHER, OTHER, OTHER, OTHER, OTHER,
    OTHER, OTHER, OTHER, OTHER, OTHER, OTHER, OTHER, OTHER,
    OTHER, OTHER, OTHER, OTHER, OTHER, OTHER, OTHER, OTHER,
    OTHER, OTHER, OTHER, OTHER, OTHER, OTHER, OTHER, OTHER,
    OTHER, OTHER, OTHER, OTHER, OTHER, OTHER, OTHER, OTHER,
    OTHER, OTHER, OTHER, SPACING_MARK, SPACING_MARK, SPACING_MARK, EXTEND, EXTEND,
    EXTEND, EXTEND, EXTEND, EXTEND, EXTEND, EXTEND, EXTEND, SPACING_MARK,
    SPACING_MARK, OTHER, PREPEND, PREPEND, OTHER, OTHER, OTHER, OTHER,
    OTHER, EXTEND, EXTEND, EXTEND, EXTEND, OTHER, SPACING_MARK, EXTEND,
    OTHER, OTHER, OTHER, OTHER, OTHER, OTHER, OTHER, OTHER,
    OTHER, OTHER, OTHER, OTHER, OTHER, OTHER, OTHER, OTHER,
    OTHER, OTHER, OTHER, OTHER, OTHER, OTHER, OTHER, OTHER,
    OTHER, OTHER, OTHER, OTHER, OTHER, OTHER, OTHER, OTHER,
    OTHER, OTHER, OTHER, OTHER, OTHER, OTHER, OTHER, OTHER,
    OTHER, OTHER, OTHER, OTHER, OTHER, OTHER, OTHER, OTHER,
];

#[verifier::opaque]
pub const GP_PAGE_62: [u8; 256] = [
    OTHER, OTHER, OTHER, OTHER, OTHER, OTHER, OTHER, OTHER,
    OTHER, OTHER, OTHER, OTHER, OTHER, OTHER, OTHER, OTHER,
    OTHER, OTHER, OTHER, OTHER, OTHER, OTHER, OTHER, OTHER,
    OTHER, OTHER, OTHER, OTHER, OTHER, OTHER, OTHER, OTHER,
    OTHER, OTHER, OTHER, OTHER, OTHER, OTHER, OTHER, OTHER,
    OTHER, OTHER, OTHER, OTHER, SPACING_MARK, SPACING_MARK, SPACING_MARK, EXTEND,
    EXTEND, EXTEND, SPACING_MARK, SPACING_MARK, EXTEND, SPACING_MARK, EXTEND, EXTEND,
    OTHER, OTHER, OTHER, OTHER, OTHER, OTHER, EXTEND, OTHER,
    OTHER, OTHER, OTHER, OTHER, OTHER, OTHER, OTHER, OTHER,
    OTHER, OTHER, OTHER, OTHER, OTHER, OTHER, OTHER, OTHER,
    OTHER, OTHER, OTHER, OTHER, OTHER, OTHER, OTHER, OTHER,
    OTHER, OTHER, OTHER, OTHER, OTHER, OTHER, OTHER, OTHER,
    OTHER, OTHER, OTHER, OTHER, OTHER, OTHER, OTHER, OTHER,
    OTHER, OTHER, OTHER, OTHER, OTHER, OTHER, OTHER, OTHER,
    OTHER, OTHER, OTHER, OTHER, OTHER, OTHER, OTHER, OTHER,
    OTHER, OTHER, OTHER, OTHER, OTHER, OTHER, OTHER, OTHER,
    OTHER, OTHER, OTHER, OTHER, OTHER, OTHER, OTHER, OTHER,
    OTHER, OTHER, OTHER, OTHER, OTHER, OTHER, OTHER, OTHER,
    OTHER, OTHER, OTHER, OTHER, OTHER, OTHER, OTHER, OTHER,
    OTHER, OTHER, OTHER, OTHER, OTHER, OTHER, OTHER, OTHER,
    OTHER, OTHER, OTHER, OTHER, OTHER, OTHER, OTHER, OTHER,
    OTHER, OTHER, OTHER, OTHER, OTHER, OTHER, OTHER, OTHER,
    OTHER, OTHER, OTHER, OTHER, OTHER, OTHER, OTHER, OTHER,
    OTHER, OTHER, OTHER, OTHER, OTHER, OTHER, OTHER, OTHER,
    OTHER, OTHER, OTHER, OTHER, OTHER, OTHER, OTHER, OTHER,
    OTHER, OTHER, OTHER, OTHER, OTHER, OTHER, OTHER, OTHER,
    OTHER, OTHER, OTHER, OTHER, OTHER, OTHER, OTHER, OTHER,
    OTHER, OTHER, OTHER, OTHER, OTHER, OTHER, OTHER, EXTEND,
    SPACING_MARK, SPACING_MARK, SPACING_MARK, EXTEND, EXTEND, EXTEND, EXTEND, EXTEND,
    EXTEND, EXTEND, EXTEND, OTHER, OTHER, OTHER, OTHER, OTHER,
    OTHER, OTHER, OTHER, OTHER, OTHER, OTHER, OTHER, OTHER,
    OTHER, OTHER, OTHER, OTHER, OTHER, OTHER, OTHER, OTHER,
];

#[verifier::opaque]
pub const GP_PAGE_63: [u8; 256] = [
    EXTEND, EXTEND, SPACING_MARK, SPACING_MARK, OTHER, OTHER, OTHER, OTHER,
    OTHER, OTHER, OTHER, OTHER, OTHER, OTHER, OTHER, OTHER,
    OTHER, OTHER, OTHER, OTHER, OTHER, OTHER, OTHER, OTHER,
    OTHER, OTHER, OTHER, OTHER, OTHER, OTHER, OTHER, OTHER,
    OTHER, OTHER, OTHER, OTHER, OTHER, OTHER, OTHER, OTHER,
    OTHER, OTHER, OTHER, OTHER, OTHER, OTHER, OTHER, OTHER,
    OTHER, OTHER, OTHER, OTHER, OTHER, OTHER, OTHER, OTHER,
    OTHER, OTHER, OTHER, EXTEND, EXTEND, OTHER, EXTEND, SPACING_MARK,
    EXTEND, SPACING_MARK, SPACING_MARK, SPACING_MARK, SPACING_MARK, OTHER, OTHER, SPACING_MARK,
    SPACING_MARK, OTHER, OTHER, SPACING_MARK, SPACING_MARK, SPACING_MARK, OTHER, OTHER,
    OTHER, OTHER, OTHER, OTHER, OTHER, OTHER, OTHER, EXTEND,
    OTHER, OTHER, OTHER, OTHER, OTHER, OTHER, OTHER, OTHER,
    OTHER, OTHER, SPACING_MARK, SPACING_MARK, OTHER, OTHER, EXTEND, EXTEND,
    EXTEND, EXTEND, EXTEND, EXTEND, EXTEND, OTHER, OTHER, OTHER,
    EXTEND, EXTEND, EXTEND, EXTEND, EXTEND, OTHER, OTHER, OTHER,
    OTHER, OTHER, OTHER, OTHER, OTHER, OTHER, OTHER, OTHER,
    OTHER, OTHER, OTHER, OTHER, OTHER, OTHER, OTHER, OTHER,
    OTHER, OTHER, OTHER, OTHER, OTHER, OTHER, OTHER, OTHER,
    OTHER, OTHER, OTHER, OTHER, OTHER, OTHER, OTHER, OTHER,
    OTHER, OTHER, OTHER, OTHER, OTHER, OTHER, OTHER, OTHER,
    OTHER, OTHER, OTHER, OTHER, OTHER, OTHER, OTHER, OTHER,
    OTHER, OTHER, OTHER, OTHER, OTHER, OTHER, OTHER, OTHER,
    OTHER, OTHER, OTHER, OTHER, OTHER, OTHER, OTHER, OTHER,
    OTHER, OTHER, OTHER, OTHER, OTHER, OTHER, OTHER, OTHER,
    OTHER, OTHER, OTHER, OTHER, OTHER, OTHER, OTHER, OTHER,
    OTHER, OTHER, OTHER, OTHER, OTHER, OTHER, OTHER, OTHER,
    OTHER, OTHER, OTHER, OTHER, OTHER, OTHER, OTHER, OTHER,
    OTHER, OTHER, OTHER, OTHER, OTHER, OTHER, OTHER, OTHER,
    OTHER, OTHER, OTHER, OTHER, OTHER, OTHER, OTHER, OTHER,
    OTHER, OTHER, OTHER, OTHER, OTHER, OTHER, OTHER, OTHER,
    OTHER, OTHER, OTHER, OTHER, OTHER, OTHER, OTHER, OTHER,
    OTHER, OTHER, OTHER, OTHER, OTHER, OTHER, OTHER, OTHER,
];

#[verifier::opaque]
pub const GP_PAGE_64: [u8; 256] = [
    OTHER, OTHER, OTHER, OTHER, OTHER, OTHER, OTHER, OTHER,
    OTHER, OTHER, OTHER, OTHER, OTHER, OTHER, OTHER, OTHER,
    OTHER, OTHER, OTHER, OTHER, OTHER, OTHER, OTHER, OTHER,
    OTHER, OTHER, OTHER, OTHER, OTHER, OTHER, OTHER, OTHER,
    OTHER, OTHER, OTHER, OTHER, OTHER, OTHER, OTHER, OTHER,
    OTHER, OTHER, OTHER, OTHER, OTHER, OTHER, OTHER, OTHER,
    OTHER, OTHER, OTHER, OTHER, OTHER, SPACING_MARK, SPACING_MARK, SPACING_MARK,
    EXTEND, EXTEND, EXTEND, EXTEND, EXTEND, EXTEND, EXTEND, EXTEND,
    SPACING_MARK, SPACING_MARK, EXTEND, EXTEND, EXTEND, SPACING_MARK, EXTEND, OTHER,
    OTHER, OTHER, OTHER, OTHER, OTHER, OTHER, OTHER, OTHER,
    OTHER, OTHER, OTHER, OTHER, OTHER, OTHER, OTHER, OTHER,
    OTHER, OTHER, OTHER, OTHER, OTHER, OTHER, EXTEND, OTHER,
    OTHER, OTHER, OTHER, OTHER, OTHER, OTHER, OTHER, OTHER,
    OTHER, OTHER, OTHER, OTHER, OTHER, OTHER, OTHER, OTHER,
    OTHER, OTHER, OTHER, OTHER, OTHER, OTHER, OTHER, OTHER,
    OTHER, OTHER, OTHER, OTHER, OTHER, OTHER, OTHER, OTHER,
    OTHER, OTHER, OTHER, OTHER, OTHER, OTHER, OTHER, OTHER,
    OTHER, OTHER, OTHER, OTHER, OTHER, OTHER, OTHER, OTHER,
    OTHER, OTHER, OTHER, OTHER, OTHER, OTHER, OTHER, OTHER,
    OTHER, OTHER, OTHER, OTHER, OTHER, OTHER, OTHER, OTHER,
    OTHER, OTHER, OTHER, OTHER, OTHER, OTHER, OTHER, OTHER,
    OTHER, OTHER, OTHER, OTHER, OTHER, OTHER, OTHER, OTHER,
    EXTEND, SPACING_MARK, SPACING_MARK, EXTEND, EXTEND, EXTEND, EXTEND, EXTEND,
    EXTEND, SPACING_MARK, EXTEND, SPACING_MARK, SPACING_MARK, EXTEND, SPACING_MARK, EXTEND,
    EXTEND, SPACING_MARK, EXTEND, EXTEND, OTHER, OTHER, OTHER, OTHER,
    OTHER, OTHER, OTHER, OTHER, OTHER, OTHER, OTHER, OTHER,
    OTHER, OTHER, OTHER, OTHER, OTHER, OTHER, OTHER, OTHER,
    OTHER, OTHER, OTHER, OTHER, OTHER, OTHER, OTHER, OTHER,
    OTHER, OTHER, OTHER, OTHER, OTHER, OTHER, OTHER, OTHER,
    OTHER, OTHER, OTHER, OTHER, OTHER, OTHER, OTHER, OTHER,
    OTHER, OTHER, OTHER, OTHER, OTHER, OTHER, OTHER, OTHER,
    OTHER, OTHER, OTHER, OTHER, OTHER, OTHER, OTHER, OTHER,
];

#[verifier::opaque]
pub const GP_PAGE_65: [u8; 256] = [
    OTHER, OTHER, OTHER, OTHER, OTHER, OTHER, OTHER, OTHER,
    OTHER, OTHER, OTHER, OTHER, OTHER, OTHER, OTHER, OTHER,
    OTHER, OTHER, OTHER, OTHER, OTHER, OTHER, OTHER, OTHER,
    OTHER, OTHER, OTHER, OTHER, OTHER, OTHER, OTHER, OTHER,
    OTHER, OTHER, OTHER, OTHER, OTHER, OTHER, OTHER, OTHER,
    OTHER, OTHER, OTHER, OTHER, OTHER, OTHER, OTHER, OTHER,
    OTHER, OTHER, OTHER, OTHER, OTHER, OTHER, OTHER, OTHER,
    OTHER, OTHER, OTHER, OTHER, OTHER, OTHER, OTHER, OTHER,
    OTHER, OTHER, OTHER, OTHER, OTHER, OTHER, OTHER, OTHER,
    OTHER, OTHER, OTHER, OTHER, OTHER, OTHER, OTHER, OTHER,
    OTHER, OTHER, OTHER, OTHER, OTHER, OTHER, OTHER, OTHER,
    OTHER, OTHER, OTHER, OTHER, OTHER, OTHER, OTHER, OTHER,
    OTHER, OTHER, OTHER, OTHER, OTHER, OTHER, OTHER, OTHER,
    OTHER, OTHER, OTHER, OTHER, OTHER, OTHER, OTHER, OTHER,
    OTHER, OTHER, OTHER, OTHER, OTHER, OTHER, OTHER, OTHER,
    OTHER, OTHER, OTHER, OTHER, OTHER, OTHER, OTHER, OTHER,
    OTHER, OTHER, OTHER, OTHER, OTHER, OTHER, OTHER, OTHER,
    OTHER, OTHER, OTHER, OTHER, OTHER, OTHER, OTHER, OTHER,
    OTHER, OTHER, OTHER, OTHER, OTHER, OTHER, OTHER, OTHER,
    OTHER, OTHER, OTHER, OTHER, OTHER, OTHER, OTHER, OTHER,
    OTHER, OTHER, OTHER, OTHER, OTHER, OTHER, OTHER, OTHER,
    OTHER, OTHER, OTHER, OTHER, OTHER, OTHER, OTHER, EXTEND,
    SPACING_MARK, SPACING_MARK, EXTEND, EXTEND, EXTEND, EXTEND, OTHER, OTHER,
    SPACING_MARK, SPACING_MARK, SPACING_MARK, SPACING_MARK, EXTEND, EXTEND, SPACING_MARK, EXTEND,
    EXTEND, OTHER, OTHER, OTHER, OTHER, OTHER, OTHER, OTHER,
    OTHER, OTHER, OTHER, OTHER, OTHER, OTHER, OTHER, OTHER,
    OTHER, OTHER, OTHER, OTHER, OTHER, OTHER, OTHER, OTHER,
    OTHER, OTHER, OTHER, OTHER, EXTEND, EXTEND, OTHER, OTHER,
    OTHER, OTHER, OTHER, OTHER, OTHER, OTHER, OTHER, OTHER,
    OTHER, OTHER, OTHER, OTHER, OTHER, OTHER, OTHER, OTHER,
    OTHER, OTHER, OTHER, OTHER, OTHER, OTHER, OTHER, OTHER,
    OTHER, OTHER, OTHER, OTHER, OTHER, OTHER, OTHER, OTHER,
];

#[verifier::opaque]
pub const GP_PAGE_66: [u8; 256] = [
    OTHER, OTHER, OTHER, OTHER, OTHER, OTHER, OTHER, OTHER,
    OTHER, OTHER, OTHER, OTHER, OTHER, OTHER, OTHER, OTHER,
    OTHER, OTHER, OTHER, OTHER, OTHER, OTHER, OTHER, OTHER,
    OTHER, OTHER, OTHER, OTHER, OTHER, OTHER, OTHER, OTHER,
    OTHER, OTHER, OTHER, OTHER, OTHER, OTHER, OTHER, OTHER,
    OTHER, OTHER, OTHER, OTHER, OTHER, OTHER, OTHER, OTHER,
    SPACING_MARK, SPACING_MARK, SPACING_MARK, EXTEND, EXTEND, EXTEND, EXTEND, EXTEND,
    EXTEND, EXTEND, EXTEND, SPACING_MARK, SPACING_MARK, EXTEND, SPACING_MARK, EXTEND,
    EXTEND, OTHER, OTHER, OTHER, OTHER, OTHER, OTHER, OTHER,
    OTHER, OTHER, OTHER, OTHER, OTHER, OTHER, OTHER, OTHER,
    OTHER, OTHER, OTHER, OTHER, OTHER, OTHER, OTHER, OTHER,
    OTHER, OTHER, OTHER, OTHER, OTHER, OTHER, OTHER, OTHER,
    OTHER, OTHER, OTHER, OTHER, OTHER, OTHER, OTHER, OTHER,
    OTHER, OTHER, OTHER, OTHER, OTHER, OTHER, OTHER, OTHER,
    OTHER, OTHER, OTHER, OTHER, OTHER, OTHER, OTHER, OTHER,
    OTHER, OTHER, OTHER, OTHER, OTHER, OTHER, OTHER, OTHER,
    OTHER, OTHER, OTHER, OTHER, OTHER, OTHER, OTHER, OTHER,
    OTHER, OTHER, OTHER, OTHER, OTHER, OTHER, OTHER, OTHER,
    OTHER, OTHER, OTHER, OTHER, OTHER, OTHER, OTHER, OTHER,
    OTHER, OTHER, OTHER, OTHER, OTHER, OTHER, OTHER, OTHER,
    OTHER, OTHER, OTHER, OTHER, OTHER, OTHER, OTHER, OTHER,
    OTHER, OTHER, OTHER, EXTEND, SPACING_MARK, EXTEND, SPACING_MARK, SPACING_MARK,
    EXTEND, EXTEND, EXTEND, EXTEND, EXTEND, EXTEND, SPACING_MARK, EXTEND,
    OTHER, OTHER, OTHER, OTHER, OTHER, OTHER, OTHER, OTHER,
    OTHER, OTHER, OTHER, OTHER, OTHER, OTHER, OTHER, OTHER,
    OTHER, OTHER, OTHER, OTHER, OTHER, OTHER, OTHER, OTHER,
    OTHER, OTHER, OTHER, OTHER, OTHER, OTHER, OTHER, OTHER,
    OTHER, OTHER, OTHER, OTHER, OTHER, OTHER, OTHER, OTHER,
    OTHER, OTHER, OTHER, OTHER, OTHER, OTHER, OTHER, OTHER,
    OTHER, OTHER, OTHER, OTHER, OTHER, OTHER, OTHER, OTHER,
    OTHER, OTHER, OTHER, OTHER, OTHER, OTHER, OTHER, OTHER,
    OTHER, OTHER, OTHER, OTHER, OTHER, OTHER, OTHER, OTHER,
];

#[verifier::opaque]
pub const GP_PAGE_67: [u8; 256] = [
    OTHER, OTHER, OTHER, OTHER, OTHER, OTHER, OTHER, OTHER,
    OTHER, OTHER, OTHER, OTHER, OTHER, OTHER, OTHER, OTHER,
    OTHER, OTHER, OTHER, OTHER, OTHER, OTHER, OTHER, OTHER,
    OTHER, OTHER, OTHER, OTHER, OTHER, EXTEND, EXTEND, EXTEND,
    OTHER, OTHER, EXTEND, EXTEND, EXTEND, EXTEND, SPACING_MARK, EXTEND,
    EXTEND, EXTEND, EXTEND, EXTEND, OTHER, OTHER, OTHER, OTHER,
    OTHER, OTHER, OTHER, OTHER, OTHER, OTHER, OTHER, OTHER,
    OTHER, OTHER, OTHER, OTHER, OTHER, OTHER, OTHER, OTHER,
    OTHER, OTHER, OTHER, OTHER, OTHER, OTHER, OTHER, OTHER,
    OTHER, OTHER, OTHER, OTHER, OTHER, OTHER, OTHER, OTHER,
    OTHER, OTHER, OTHER, OTHER, OTHER, OTHER, OTHER, OTHER,
    OTHER, OTHER, OTHER, OTHER, OTHER, OTHER, OTHER, OTHER,
    OTHER, OTHER, OTHER, OTHER, OTHER, OTHER, OTHER, OTHER,
    OTHER, OTHER, OTHER, OTHER, OTHER, OTHER, OTHER, OTHER,
    OTHER, OTHER, OTHER, OTHER, OTHER, OTHER, OTHER, OTHER,
    OTHER, OTHER, OTHER, OTHER, OTHER, OTHER, OTHER, OTHER,
    OTHER, OTHER, OTHER, OTHER, OTHER, OTHER, OTHER, OTHER,
    OTHER, OTHER, OTHER, OTHER, OTHER, OTHER, OTHER, OTHER,
    OTHER, OTHER, OTHER, OTHER, OTHER, OTHER, OTHER, OTHER,
    OTHER, OTHER, OTHER, OTHER, OTHER, OTHER, OTHER, OTHER,
    OTHER, OTHER, OTHER, OTHER, OTHER, OTHER, OTHER, OTHER,
    OTHER, OTHER, OTHER, OTHER, OTHER, OTHER, OTHER, OTHER,
    OTHER, OTHER, OTHER, OTHER, OTHER, OTHER, OTHER, OTHER,
    OTHER, OTHER, OTHER, OTHER, OTHER, OTHER, OTHER, OTHER,
    OTHER, OTHER, OTHER, OTHER, OTHER, OTHER, OTHER, OTHER,
    OTHER, OTHER, OTHER, OTHER, OTHER, OTHER, OTHER, OTHER,
    OTHER, OTHER, OTHER, OTHER, OTHER, OTHER, OTHER, OTHER,
    OTHER, OTHER, OTHER, OTHER, OTHER, OTHER, OTHER, OTHER,
    OTHER, OTHER, OTHER, OTHER, OTHER, OTHER, OTHER, OTHER,
    OTHER, OTHER, OTHER, OTHER, OTHER, OTHER, OTHER, OTHER,
    OTHER, OTHER, OTHER, OTHER, OTHER, OTHER, OTHER, OTHER,
    OTHER, OTHER, OTHER, OTHER, OTHER, OTHER, OTHER, OTHER,
];

#[verifier::opaque]
pub const GP_PAGE_68: [u8; 256] = [
    OTHER, OTHER, OTHER, OTHER, OTHER, OTHER, OTHER, OTHER,
    OTHER, OTHER, OTHER, OTHER, OTHER, OTHER, OTHER, OTHER,
    OTHER, OTHER, OTHER, OTHER, OTHER, OTHER, OTHER, OTHER,
    OTHER, OTHER, OTHER, OTHER, OTHER, OTHER, OTHER, OTHER,
    OTHER, OTHER, OTHER, OTHER, OTHER, OTHER, OTHER, OTHER,
    OTHER, OTHER, OTHER, OTHER, SPACING_MARK, SPACING_MARK, SPACING_MARK, EXTEND,
    EXTEND, EXTEND, EXTEND, EXTEND, EXTEND, EXTEND, EXTEND, EXTEND,
    SPACING_MARK, EXTEND, EXTEND, OTHER, OTHER, OTHER, OTHER, OTHER,
    OTHER, OTHER, OTHER, OTHER, OTHER, OTHER, OTHER, OTHER,
    OTHER, OTHER, OTHER, OTHER, OTHER, OTHER, OTHER, OTHER,
    OTHER, OTHER, OTHER, OTHER, OTHER, OTHER, OTHER, OTHER,
    OTHER, OTHER, OTHER, OTHER, OTHER, OTHER, OTHER, OTHER,
    OTHER, OTHER, OTHER, OTHER, OTHER, OTHER, OTHER, OTHER,
    OTHER, OTHER, OTHER, OTHER, OTHER, OTHER, OTHER, OTHER,
    OTHER, OTHER, OTHER, OTHER, OTHER, OTHER, OTHER, OTHER,
    OTHER, OTHER, OTHER, OTHER, OTHER, OTHER, OTHER, OTHER,
    OTHER, OTHER, OTHER, OTHER, OTHER, OTHER, OTHER, OTHER,
    OTHER, OTHER, OTHER, OTHER, OTHER, OTHER, OTHER, OTHER,
    OTHER, OTHER, OTHER, OTHER, OTHER, OTHER, OTHER, OTHER,
    OTHER, OTHER, OTHER, OTHER, OTHER, OTHER, OTHER, OTHER,
    OTHER, OTHER, OTHER, OTHER, OTHER, OTHER, OTHER, OTHER,
    OTHER, OTHER, OTHER, OTHER, OTHER, OTHER, OTHER, OTHER,
    OTHER, OTHER, OTHER, OTHER, OTHER, OTHER, OTHER, OTHER,
    OTHER, OTHER, OTHER, OTHER, OTHER, OTHER, OTHER, OTHER,
    OTHER, OTHER, OTHER, OTHER, OTHER, OTHER, OTHER, OTHER,
    OTHER, OTHER, OTHER, OTHER, OTHER, OTHER, OTHER, OTHER,
    OTHER, OTHER, OTHER, OTHER, OTHER, OTHER, OTHER, OTHER,
    OTHER, OTHER, OTHER, OTHER, OTHER, OTHER, OTHER, OTHER,
    OTHER, OTHER, OTHER, OTHER, OTHER, OTHER, OTHER, OTHER,
    OTHER, OTHER, OTHER, OTHER, OTHER, OTHER, OTHER, OTHER,
    OTHER, OTHER, OTHER, OTHER, OTHER, OTHER, OTHER, OTHER,
    OTHER, OTHER, OTHER, OTHER, OTHER, OTHER, OTHER, OTHER,
];

#[verifier::opaque]
pub const GP_PAGE_69: [u8; 256] = [
    OTHER, OTHER, OTHER, OTHER, OTHER, OTHER, OTHER, OTHER,
    OTHER, OTHER, OTHER, OTHER, OTHER, OTHER, OTHER, OTHER,
    OTHER, OTHER, OTHER, OTHER, OTHER, OTHER, OTHER, OTHER,
    OTHER, OTHER, OTHER, OTHER, OTHER, OTHER, OTHER, OTHER,
    OTHER, OTHER, OTHER, OTHER, OTHER, OTHER, OTHER, OTHER,
    OTHER, OTHER, OTHER, OTHER, OTHER, OTHER, OTHER, OTHER,
    EXTEND, SPACING_MARK, SPACING_MARK, SPACING_MARK, SPACING_MARK, SPACING_MARK, OTHER, SPACING_MARK,
    SPACING_MARK, OTHER, OTHER, EXTEND, EXTEND, SPACING_MARK, EXTEND, PREPEND,
    SPACING_MARK, PREPEND, SPACING_MARK, EXTEND, OTHER, OTHER, OTHER, OTHER,
    OTHER, OTHER, OTHER, OTHER, OTHER, OTHER, OTHER, OTHER,
    OTHER, OTHER, OTHER, OTHER, OTHER, OTHER, OTHER, OTHER,
    OTHER, OTHER, OTHER, OTHER, OTHER, OTHER, OTHER, OTHER,
    OTHER, OTHER, OTHER, OTHER, OTHER, OTHER, OTHER, OTHER,
    OTHER, OTHER, OTHER, OTHER, OTHER, OTHER, OTHER, OTHER,
    OTHER, OTHER, OTHER, OTHER, OTHER, OTHER, OTHER, OTHER,
    OTHER, OTHER, OTHER, OTHER, OTHER, OTHER, OTHER, OTHER,
    OTHER, OTHER, OTHER, OTHER, OTHER, OTHER, OTHER, OTHER,
    OTHER, OTHER, OTHER, OTHER, OTHER, OTHER, OTHER, OTHER,
    OTHER, OTHER, OTHER, OTHER, OTHER, OTHER, OTHER, OTHER,
    OTHER, OTHER, OTHER, OTHER, OTHER, OTHER, OTHER, OTHER,
    OTHER, OTHER, OTHER, OTHER, OTHER, OTHER, OTHER, OTHER,
    OTHER, OTHER, OTHER, OTHER, OTHER, OTHER, OTHER, OTHER,
    OTHER, OTHER, OTHER, OTHER, OTHER, OTHER, OTHER, OTHER,
    OTHER, OTHER, OTHER, OTHER, OTHER, OTHER, OTHER, OTHER,
    OTHER, OTHER, OTHER, OTHER, OTHER, OTHER, OTHER, OTHER,
    OTHER, OTHER, OTHER, OTHER, OTHER, OTHER, OTHER, OTHER,
    OTHER, SPACING_MARK, SPACING_MARK, SPACING_MARK, EXTEND, EXTEND, EXTEND, EXTEND,
    OTHER, OTHER, EXTEND, EXTEND, SPACING_MARK, SPACING_MARK, SPACING_MARK, SPACING_MARK,
    EXTEND, OTHER, OTHER, OTHER, SPACING_MARK, OTHER, OTHER, OTHER,
    OTHER, OTHER, OTHER, OTHER, OTHER, OTHER, OTHER, OTHER,
    OTHER, OTHER, OTHER, OTHER, OTHER, OTHER, OTHER, OTHER,
    OTHER, OTHER, OTHER, OTHER, OTHER, OTHER, OTHER, OTHER,
];

#[verifier::opaque]
pub const GP_PAGE_70: [u8; 256] = [
    OTHER, EXTEND, EXTEND, EXTEND, EXTEND, EXTEND, EXTEND, EXTEND,
    EXTEND, EXTEND, EXTEND, OTHER, OTHER, OTHER, OTHER, OTHER,
    OTHER, OTHER, OTHER, OTHER, OTHER, OTHER, OTHER, OTHER,
    OTHER, OTHER, OTHER, OTHER, OTHER, OTHER, OTHER, OTHER,
    OTHER, OTHER, OTHER, OTHER, OTHER, OTHER, OTHER, OTHER,
    OTHER, OTHER, OTHER, OTHER, OTHER, OTHER, OTHER, OTHER,
    OTHER, OTHER, OTHER, EXTEND, EXTEND, EXTEND, EXTEND, EXTEND,
    EXTEND, SPACING_MARK, PREPEND, EXTEND, EXTEND, EXTEND, EXTEND, OTHER,
    OTHER, OTHER, OTHER, OTHER, OTHER, OTHER, OTHER, EXTEND,
    OTHER, OTHER, OTHER, OTHER, OTHER, OTHER, OTHER, OTHER,
    OTHER, EXTEND, EXTEND, EXTEND, EXTEND, EXTEND, EXTEND, SPACING_MARK,
    SPACING_MARK, EXTEND, EXTEND, EXTEND, OTHER, OTHER, OTHER, OTHER,
    OTHER, OTHER, OTHER, OTHER, OTHER, OTHER, OTHER, OTHER,
    OTHER, OTHER, OTHER, OTHER, OTHER, OTHER, OTHER, OTHER,
    OTHER, OTHER, OTHER, OTHER, OTHER, OTHER, OTHER, OTHER,
    OTHER, OTHER, OTHER, OTHER, OTHER, OTHER, OTHER, OTHER,
    OTHER, OTHER, OTHER, OTHER, PREPEND, PREPEND, PREPEND, PREPEND,
    PREPEND, PREPEND, EXTEND, EXTEND, EXTEND, EXTEND, EXTEND, EXTEND,
    EXTEND, EXTEND, EXTEND, EXTEND, EXTEND, EXTEND, EXTEND, SPACING_MARK,
    EXTEND, EXTEND, OTHER, OTHER, OTHER, OTHER, OTHER, OTHER,
    OTHER, OTHER, OTHER, OTHER, OTHER, OTHER, OTHER, OTHER,
    OTHER, OTHER, OTHER, OTHER, OTHER, OTHER, OTHER, OTHER,
    OTHER, OTHER, OTHER, OTHER, OTHER, OTHER, OTHER, OTHER,
    OTHER, OTHER, OTHER, OTHER, OTHER, OTHER, OTHER, OTHER,
    OTHER, OTHER, OTHER, OTHER, OTHER, OTHER, OTHER, OTHER,
    OTHER, OTHER, OTHER, OTHER, OTHER, OTHER, OTHER, OTHER,
    OTHER, OTHER, OTHER, OTHER, OTHER, OTHER, OTHER, OTHER,
    OTHER, OTHER, OTHER, OTHER, OTHER, OTHER, OTHER, OTHER,
    OTHER, OTHER, OTHER, OTHER, OTHER, OTHER, OTHER, OTHER,
    OTHER, OTHER, OTHER, OTHER, OTHER, OTHER, OTHER, OTHER,
    OTHER, OTHER, OTHER, OTHER, OTHER, OTHER, OTHER, OTHER,
    OTHER, OTHER, OTHER, OTHER, OTHER, OTHER, OTHER, OTHER,
];

#[verifier::opaque]
pub const GP_PAGE_71: [u8; 256] = [
    OTHER, OTHER, OTHER, OTHER, OTHER, OTHER, OTHER, OTHER,
    OTHER, OTHER, OTHER, OTHER, OTHER, OTHER, OTHER, OTHER,
    OTHER, OTHER, OTHER, OTHER, OTHER, OTHER, OTHER, OTHER,
    OTHER, OTHER, OTHER, OTHER, OTHER, OTHER, OTHER, OTHER,
    OTHER, OTHER, OTHER, OTHER, OTHER, OTHER, OTHER, OTHER,
    OTHER, OTHER, OTHER, OTHER, OTHER, OTHER, OTHER, SPACING_MARK,
    EXTEND, EXTEND, EXTEND, EXTEND, EXTEND, EXTEND, EXTEND, OTHER,
    EXTEND, EXTEND, EXTEND, EXTEND, EXTEND, EXTEND, SPACING_MARK, EXTEND,
    OTHER, OTHER, OTHER, OTHER, OTHER, OTHER, OTHER, OTHER,
    OTHER, OTHER, OTHER, OTHER, OTHER, OTHER, OTHER, OTHER,
    OTHER, OTHER, OTHER, OTHER, OTHER, OTHER, OTHER, OTHER,
    OTHER, OTHER, OTHER, OTHER, OTHER, OTHER, OTHER, OTHER,
    OTHER, OTHER, OTHER, OTHER, OTHER, OTHER, OTHER, OTHER,
    OTHER, OTHER, OTHER, OTHER, OTHER, OTHER, OTHER, OTHER,
    OTHER, OTHER, OTHER, OTHER, OTHER, OTHER, OTHER, OTHER,
    OTHER, OTHER, OTHER, OTHER, OTHER, OTHER, OTHER, OTHER,
    OTHER, OTHER, OTHER, OTHER, OTHER, OTHER, OTHER, OTHER,
    OTHER, OTHER, OTHER, OTHER, OTHER, OTHER, OTHER, OTHER,
    OTHER, OTHER, EXTEND, EXTEND, EXTEND, EXTEND, EXTEND, EXTEND,
    EXTEND, EXTEND, EXTEND, EXTEND, EXTEND, EXTEND, EXTEND, EXTEND,
    EXTEND, EXTEND, EXTEND, EXTEND, EXTEND, EXTEND, EXTEND, EXTEND,
    OTHER, SPACING_MARK, EXTEND, EXTEND, EXTEND, EXTEND, EXTEND, EXTEND,
    EXTEND, SPACING_MARK, EXTEND, EXTEND, SPACING_MARK, EXTEND, EXTEND, OTHER,
    OTHER, OTHER, OTHER, OTHER, OTHER, OTHER, OTHER, OTHER,
    OTHER, OTHER, OTHER, OTHER, OTHER, OTHER, OTHER, OTHER,
    OTHER, OTHER, OTHER, OTHER, OTHER, OTHER, OTHER, OTHER,
    OTHER, OTHER, OTHER, OTHER, OTHER, OTHER, OTHER, OTHER,
    OTHER, OTHER, OTHER, OTHER, OTHER, OTHER, OTHER, OTHER,
    OTHER, OTHER, OTHER, OTHER, OTHER, OTHER, OTHER, OTHER,
    OTHER, OTHER, OTHER, OTHER, OTHER, OTHER, OTHER, OTHER,
    OTHER, OTHER, OTHER, OTHER, OTHER, OTHER, OTHER, OTHER,
    OTHER, OTHER, OTHER, OTHER, OTHER, OTHER, OTHER, OTHER,
];

#[verifier::opaque]
pub const GP_PAGE_72: [u8; 256] = [
    OTHER, OTHER, OTHER, OTHER, OTHER, OTHER, OTHER, OTHER,
    OTHER, OTHER, OTHER, OTHER, OTHER, OTHER, OTHER, OTHER,
    OTHER, OTHER, OTHER, OTHER, OTHER, OTHER, OTHER, OTHER,
    OTHER, OTHER, OTHER, OTHER, OTHER, OTHER, OTHER, OTHER,
    OTHER, OTHER, OTHER, OTHER, OTHER, OTHER, OTHER, OTHER,
    OTHER, OTHER, OTHER, OTHER, OTHER, OTHER, OTHER, OTHER,
    OTHER, EXTEND, EXTEND, EXTEND, EXTEND, EXTEND, EXTEND, OTHER,
    OTHER, OTHER, EXTEND, OTHER, EXTEND, EXTEND, OTHER, EXTEND,
    EXTEND, EXTEND, EXTEND, EXTEND, EXTEND, EXTEND, PREPEND, EXTEND,
    OTHER, OTHER, OTHER, OTHER, OTHER, OTHER, OTHER, OTHER,
    OTHER, OTHER, OTHER, OTHER, OTHER, OTHER, OTHER, OTHER,
    OTHER, OTHER, OTHER, OTHER, OTHER, OTHER, OTHER, OTHER,
    OTHER, OTHER, OTHER, OTHER, OTHER, OTHER, OTHER, OTHER,
    OTHER, OTHER, OTHER, OTHER, OTHER, OTHER, OTHER, OTHER,
    OTHER, OTHER, OTHER, OTHER, OTHER, OTHER, OTHER, OTHER,
    OTHER, OTHER, OTHER, OTHER, OTHER, OTHER, OTHER, OTHER,
    OTHER, OTHER, OTHER, OTHER, OTHER, OTHER, OTHER, OTHER,
    OTHER, OTHER, SPACING_MARK, SPACING_MARK, SPACING_MARK, SPACING_MARK, SPACING_MARK, OTHER,
    EXTEND, EXTEND, OTHER, SPACING_MARK, SPACING_MARK, EXTEND, SPACING_MARK, EXTEND,
    OTHER, OTHER, OTHER, OTHER, OTHER, OTHER, OTHER, OTHER,
    OTHER, OTHER, OTHER, OTHER, OTHER, OTHER, OTHER, OTHER,
    OTHER, OTHER, OTHER, OTHER, OTHER, OTHER, OTHER, OTHER,
    OTHER, OTHER, OTHER, OTHER, OTHER, OTHER, OTHER, OTHER,
    OTHER, OTHER, OTHER, OTHER, OTHER, OTHER, OTHER, OTHER,
    OTHER, OTHER, OTHER, OTHER, OTHER, OTHER, OTHER, OTHER,
    OTHER, OTHER, OTHER, OTHER, OTHER, OTHER, OTHER, OTHER,
    OTHER, OTHER, OTHER, OTHER, OTHER, OTHER, OTHER, OTHER,
    OTHER, OTHER, OTHER, OTHER, OTHER, OTHER, OTHER, OTHER,
    OTHER, OTHER, OTHER, OTHER, OTHER, OTHER, OTHER, OTHER,
    OTHER, OTHER, OTHER, OTHER, OTHER, OTHER, OTHER, OTHER,
    OTHER, OTHER, OTHER, OTHER, OTHER, OTHER, OTHER, OTHER,
    OTHER, OTHER, OTHER, OTHER, OTHER, OTHER, OTHER, OTHER,
];

#[verifier::opaque]
pub const GP_PAGE_73: [u8; 256] = [
    OTHER, OTHER, OTHER, OTHER, OTHER, OTHER, OTHER, OTHER,
    OTHER, OTHER, OTHER, OTHER, OTHER, OTHER, OTHER, OTHER,
    OTHER, OTHER, OTHER, OTHER, OTHER, OTHER, OTHER, OTHER,
    OTHER, OTHER, OTHER, OTHER, OTHER, OTHER, OTHER, OTHER,
    OTHER, OTHER, OTHER, OTHER, OTHER, OTHER, OTHER, OTHER,
    OTHER, OTHER, OTHER, OTHER, OTHER, OTHER, OTHER, OTHER,
    OTHER, OTHER, OTHER, OTHER, OTHER, OTHER, OTHER, OTHER,
    OTHER, OTHER, OTHER, OTHER, OTHER, OTHER, OTHER, OTHER,
    OTHER, OTHER, OTHER, OTHER, OTHER, OTHER, OTHER, OTHER,
    OTHER, OTHER, OTHER, OTHER, OTHER, OTHER, OTHER, OTHER,
    OTHER, OTHER, OTHER, OTHER, OTHER, OTHER, OTHER, OTHER,
    OTHER, OTHER, OTHER, OTHER, OTHER, OTHER, OTHER, OTHER,
    OTHER, OTHER, OTHER, OTHER, OTHER, OTHER, OTHER, OTHER,
    OTHER, OTHER, OTHER, OTHER, OTHER, OTHER, OTHER, OTHER,
    OTHER, OTHER, OTHER, OTHER, OTHER, OTHER, OTHER, OTHER,
    OTHER, OTHER, OTHER, OTHER, OTHER, OTHER, OTHER, OTHER,
    OTHER, OTHER, OTHER, OTHER, OTHER, OTHER, OTHER, OTHER,
    OTHER, OTHER, OTHER, OTHER, OTHER, OTHER, OTHER, OTHER,
    OTHER, OTHER, OTHER, OTHER, OTHER, OTHER, OTHER, OTHER,
    OTHER, OTHER, OTHER, OTHER, OTHER, OTHER, OTHER, OTHER,
    OTHER, OTHER, OTHER, OTHER, OTHER, OTHER, OTHER, OTHER,
    OTHER, OTHER, OTHER, OTHER, OTHER, OTHER, OTHER, OTHER,
    OTHER, OTHER, OTHER, OTHER, OTHER, OTHER, OTHER, OTHER,
    OTHER, OTHER, OTHER, OTHER, OTHER, OTHER, OTHER, OTHER,
    OTHER, OTHER, OTHER, OTHER, OTHER, OTHER, OTHER, OTHER,
    OTHER, OTHER, OTHER, OTHER, OTHER, OTHER, OTHER, OTHER,
    OTHER, OTHER, OTHER, OTHER, OTHER, OTHER, OTHER, OTHER,
    OTHER, OTHER, OTHER, OTHER, OTHER, OTHER, OTHER, OTHER,
    OTHER, OTHER, OTHER, OTHER, OTHER, OTHER, OTHER, OTHER,
    OTHER, OTHER, OTHER, OTHER, OTHER, OTHER, OTHER, OTHER,
    OTHER, OTHER, OTHER, EXTEND, EXTEND, SPACING_MARK, SPACING_MARK, OTHER,
    OTHER, OTHER, OTHER, OTHER, OTHER, OTHER, OTHER, OTHER,
];

#[verifier::opaque]
pub const GP_PAGE_74: [u8; 256] = [
    OTHER, OTHER, OTHER, OTHER, OTHER, OTHER, OTHER, OTHER,
    OTHER, OTHER, OTHER, OTHER, OTHER, OTHER, OTHER, OTHER,
    OTHER, OTHER, OTHER, OTHER, OTHER, OTHER, OTHER, OTHER,
    OTHER, OTHER, OTHER, OTHER, OTHER, OTHER, OTHER, OTHER,
    OTHER, OTHER, OTHER, OTHER, OTHER, OTHER, OTHER, OTHER,
    OTHER, OTHER, OTHER, OTHER, OTHER, OTHER, OTHER, OTHER,
    CONTROL, CONTROL, CONTROL, CONTROL, CONTROL, CONTROL, CONTROL, CONTROL,
    CONTROL, OTHER, OTHER, OTHER, OTHER, OTHER, OTHER, OTHER,
    OTHER, OTHER, OTHER, OTHER, OTHER, OTHER, OTHER, OTHER,
    OTHER, OTHER, OTHER, OTHER, OTHER, OTHER, OTHER, OTHER,
    OTHER, OTHER, OTHER, OTHER, OTHER, OTHER, OTHER, OTHER,
    OTHER, OTHER, OTHER, OTHER, OTHER, OTHER, OTHER, OTHER,
    OTHER, OTHER, OTHER, OTHER, OTHER, OTHER, OTHER, OTHER,
    OTHER, OTHER, OTHER, OTHER, OTHER, OTHER, OTHER, OTHER,
    OTHER, OTHER, OTHER, OTHER, OTHER, OTHER, OTHER, OTHER,
    OTHER, OTHER, OTHER, OTHER, OTHER, OTHER, OTHER, OTHER,
    OTHER, OTHER, OTHER, OTHER, OTHER, OTHER, OTHER, OTHER,
    OTHER, OTHER, OTHER, OTHER, OTHER, OTHER, OTHER, OTHER,
    OTHER, OTHER, OTHER, OTHER, OTHER, OTHER, OTHER, OTHER,
    OTHER, OTHER, OTHER, OTHER, OTHER, OTHER, OTHER, OTHER,
    OTHER, OTHER, OTHER, OTHER, OTHER, OTHER, OTHER, OTHER,
    OTHER, OTHER, OTHER, OTHER, OTHER, OTHER, OTHER, OTHER,
    OTHER, OTHER, OTHER, OTHER, OTHER, OTHER, OTHER, OTHER,
    OTHER, OTHER, OTHER, OTHER, OTHER, OTHER, OTHER, OTHER,
    OTHER, OTHER, OTHER, OTHER, OTHER, OTHER, OTHER, OTHER,
    OTHER, OTHER, OTHER, OTHER, OTHER, OTHER, OTHER, OTHER,
    OTHER, OTHER, OTHER, OTHER, OTHER, OTHER, OTHER, OTHER,
    OTHER, OTHER, OTHER, OTHER, OTHER, OTHER, OTHER, OTHER,
    OTHER, OTHER, OTHER, OTHER, OTHER, OTHER, OTHER, OTHER,
    OTHER, OTHER, OTHER, OTHER, OTHER, OTHER, OTHER, OTHER,
    OTHER, OTHER, OTHER, OTHER, OTHER, OTHER, OTHER, OTHER,
    OTHER, OTHER, OTHER, OTHER, OTHER, OTHER, OTHER, OTHER,
];

#[verifier::opaque]
pub const GP_PAGE_75: [u8; 256] = [
    OTHER, OTHER, OTHER, OTHER, OTHER, OTHER, OTHER, OTHER,
    OTHER, OTHER, OTHER, OTHER, OTHER, OTHER, OTHER, OTHER,
    OTHER, OTHER, OTHER, OTHER, OTHER, OTHER, OTHER, OTHER,
    OTHER, OTHER, OTHER, OTHER, OTHER, OTHER, OTHER, OTHER,
    OTHER, OTHER, OTHER, OTHER, OTHER, OTHER, OTHER, OTHER,
    OTHER, OTHER, OTHER, OTHER, OTHER, OTHER, OTHER, OTHER,
    OTHER, OTHER, OTHER, OTHER, OTHER, OTHER, OTHER, OTHER,
    OTHER, OTHER, OTHER, OTHER, OTHER, OTHER, OTHER, OTHER,
    OTHER, OTHER, OTHER, OTHER, OTHER, OTHER, OTHER, OTHER,
    OTHER, OTHER, OTHER, OTHER, OTHER, OTHER, OTHER, OTHER,
    OTHER, OTHER, OTHER, OTHER, OTHER, OTHER, OTHER, OTHER,
    OTHER, OTHER, OTHER, OTHER, OTHER, OTHER, OTHER, OTHER,
    OTHER, OTHER, OTHER, OTHER, OTHER, OTHER, OTHER, OTHER,
    OTHER, OTHER, OTHER, OTHER, OTHER, OTHER, OTHER, OTHER,
    OTHER, OTHER, OTHER, OTHER, OTHER, OTHER, OTHER, OTHER,
    OTHER, OTHER, OTHER, OTHER, OTHER, OTHER, OTHER, OTHER,
    OTHER, OTHER, OTHER, OTHER, OTHER, OTHER, OTHER, OTHER,
    OTHER, OTHER, OTHER, OTHER, OTHER, OTHER, OTHER, OTHER,
    OTHER, OTHER, OTHER, OTHER, OTHER, OTHER, OTHER, OTHER,
    OTHER, OTHER, OTHER, OTHER, OTHER, OTHER, OTHER, OTHER,
    OTHER, OTHER, OTHER, OTHER, OTHER, OTHER, OTHER, OTHER,
    OTHER, OTHER, OTHER, OTHER, OTHER, OTHER, OTHER, OTHER,
    OTHER, OTHER, OTHER, OTHER, OTHER, OTHER, OTHER, OTHER,
    OTHER, OTHER, OTHER, OTHER, OTHER, OTHER, OTHER, OTHER,
    OTHER, OTHER, OTHER, OTHER, OTHER, OTHER, OTHER, OTHER,
    OTHER, OTHER, OTHER, OTHER, OTHER, OTHER, OTHER, OTHER,
    OTHER, OTHER, OTHER, OTHER, OTHER, OTHER, OTHER, OTHER,
    OTHER, OTHER, OTHER, OTHER, OTHER, OTHER, OTHER, OTHER,
    OTHER, OTHER, OTHER, OTHER, OTHER, OTHER, OTHER, OTHER,
    OTHER, OTHER, OTHER, OTHER, OTHER, OTHER, OTHER, OTHER,
    EXTEND, EXTEND, EXTEND, EXTEND, EXTEND, OTHER, OTHER, OTHER,
    OTHER, OTHER, OTHER, OTHER, OTHER, OTHER, OTHER, OTHER,
];

#[verifier::opaque]
pub const GP_PAGE_76: [u8; 256] = [
    OTHER, OTHER, OTHER, OTHER, OTHER, OTHER, OTHER, OTHER,
    OTHER, OTHER, OTHER, OTHER, OTHER, OTHER, OTHER, OTHER,
    OTHER, OTHER, OTHER, OTHER, OTHER, OTHER, OTHER, OTHER,
    OTHER, OTHER, OTHER, OTHER, OTHER, OTHER, OTHER, OTHER,
    OTHER, OTHER, OTHER, OTHER, OTHER, OTHER, OTHER, OTHER,
    OTHER, OTHER, OTHER, OTHER, OTHER, OTHER, OTHER, OTHER,
    EXTEND, EXTEND, EXTEND, EXTEND, EXTEND, EXTEND, EXTEND, OTHER,
    OTHER, OTHER, OTHER, OTHER, OTHER, OTHER, OTHER, OTHER,
    OTHER, OTHER, OTHER, OTHER, OTHER, OTHER, OTHER, OTHER,
    OTHER, OTHER, OTHER, OTHER, OTHER, OTHER, OTHER, OTHER,
    OTHER, OTHER, OTHER, OTHER, OTHER, OTHER, OTHER, OTHER,
    OTHER, OTHER, OTHER, OTHER, OTHER, OTHER, OTHER, OTHER,
    OTHER, OTHER, OTHER, OTHER, OTHER, OTHER, OTHER, OTHER,
    OTHER, OTHER, OTHER, OTHER, OTHER, OTHER, OTHER, OTHER,
    OTHER, OTHER, OTHER, OTHER, OTHER, OTHER, OTHER, OTHER,
    OTHER, OTHER, OTHER, OTHER, OTHER, OTHER, OTHER, OTHER,
    OTHER, OTHER, OTHER, OTHER, OTHER, OTHER, OTHER, OTHER,
    OTHER, OTHER, OTHER, OTHER, OTHER, OTHER, OTHER, OTHER,
    OTHER, OTHER, OTHER, OTHER, OTHER, OTHER, OTHER, OTHER,
    OTHER, OTHER, OTHER, OTHER, OTHER, OTHER, OTHER, OTHER,
    OTHER, OTHER, OTHER, OTHER, OTHER, OTHER, OTHER, OTHER,
    OTHER, OTHER, OTHER, OTHER, OTHER, OTHER, OTHER, OTHER,
    OTHER, OTHER, OTHER, OTHER, OTHER, OTHER, OTHER, OTHER,
    OTHER, OTHER, OTHER, OTHER, OTHER, OTHER, OTHER, OTHER,
    OTHER, OTHER, OTHER, OTHER, OTHER, OTHER, OTHER, OTHER,
    OTHER, OTHER, OTHER, OTHER, OTHER, OTHER, OTHER, OTHER,
    OTHER, OTHER, OTHER, OTHER, OTHER, OTHER, OTHER, OTHER,
    OTHER, OTHER, OTHER, OTHER, OTHER, OTHER, OTHER, OTHER,
    OTHER, OTHER, OTHER, OTHER, OTHER, OTHER, OTHER, OTHER,
    OTHER, OTHER, OTHER, OTHER, OTHER, OTHER, OTHER, OTHER,
    OTHER, OTHER, OTHER, OTHER, OTHER, OTHER, OTHER, OTHER,
    OTHER, OTHER, OTHER, OTHER, OTHER, OTHER, OTHER, OTHER,
];

#[verifier::opaque]
pub const GP_PAGE_77: [u8; 256] = [
    OTHER, OTHER, OTHER, OTHER, OTHER, OTHER, OTHER, OTHER,
    OTHER, OTHER, OTHER, OTHER, OTHER, OTHER, OTHER, OTHER,
    OTHER, OTHER, OTHER, OTHER, OTHER, OTHER, OTHER, OTHER,
    OTHER, OTHER, OTHER, OTHER, OTHER, OTHER, OTHER, OTHER,
    OTHER, OTHER, OTHER, OTHER, OTHER, OTHER, OTHER, OTHER,
    OTHER, OTHER, OTHER, OTHER, OTHER, OTHER, OTHER, OTHER,
    OTHER, OTHER, OTHER, OTHER, OTHER, OTHER, OTHER, OTHER,
    OTHER, OTHER, OTHER, OTHER, OTHER, OTHER, OTHER, OTHER,
    OTHER, OTHER, OTHER, OTHER, OTHER, OTHER, OTHER, OTHER,
    OTHER, OTHER, OTHER, OTHER, OTHER, OTHER, OTHER, EXTEND,
    OTHER, SPACING_MARK, SPACING_MARK, SPACING_MARK, SPACING_MARK, SPACING_MARK, SPACING_MARK, SPACING_MARK,
    SPACING_MARK, SPACING_MARK, SPACING_MARK, SPACING_MARK, SPACING_MARK, SPACING_MARK, SPACING_MARK, SPACING_MARK,
    SPACING_MARK, SPACING_MARK, SPACING_MARK, SPACING_MARK, SPACING_MARK, SPACING_MARK, SPACING_MARK, SPACING_MARK,
    SPACING_MARK, SPACING_MARK, SPACING_MARK, SPACING_MARK, SPACING_MARK, SPACING_MARK, SPACING_MARK, SPACING_MARK,
    SPACING_MARK, SPACING_MARK, SPACING_MARK, SPACING_MARK, SPACING_MARK, SPACING_MARK, SPACING_MARK, SPACING_MARK,
    SPACING_MARK, SPACING_MARK, SPACING_MARK, SPACING_MARK, SPACING_MARK, SPACING_MARK, SPACING_MARK, SPACING_MARK,
    SPACING_MARK, SPACING_MARK, SPACING_MARK, SPACING_MARK, SPACING_MARK, SPACING_MARK, SPACING_MARK, SPACING_MARK,
    OTHER, OTHER, OTHER, OTHER, OTHER, OTHER, OTHER, EXTEND,
    EXTEND, EXTEND, EXTEND, OTHER, OTHER, OTHER, OTHER, OTHER,
    OTHER, OTHER, OTHER, OTHER, OTHER, OTHER, OTHER, OTHER,
    OTHER, OTHER, OTHER, OTHER, OTHER, OTHER, OTHER, OTHER,
    OTHER, OTHER, OTHER, OTHER, OTHER, OTHER, OTHER, OTHER,
    OTHER, OTHER, OTHER, OTHER, OTHER, OTHER, OTHER, OTHER,
    OTHER, OTHER, OTHER, OTHER, OTHER, OTHER, OTHER, OTHER,
    OTHER, OTHER, OTHER, OTHER, OTHER, OTHER, OTHER, OTHER,
    OTHER, OTHER, OTHER, OTHER, OTHER, OTHER, OTHER, OTHER,
    OTHER, OTHER, OTHER, OTHER, OTHER, OTHER, OTHER, OTHER,
    OTHER, OTHER, OTHER, OTHER, OTHER, OTHER, OTHER, OTHER,
    OTHER, OTHER, OTHER, OTHER, EXTEND, OTHER, OTHER, OTHER,
    OTHER, OTHER, OTHER, OTHER, OTHER, OTHER, OTHER, OTHER,
    SPACING_MARK, SPACING_MARK, OTHER, OTHER, OTHER, OTHER, OTHER, OTHER,
    OTHER, OTHER, OTHER, OTHER, OTHER, OTHER, OTHER, OTHER,
];

#[verifier::opaque]
pub const GP_PAGE_78: [u8; 256] = [
    OTHER, OTHER, OTHER, OTHER, OTHER, OTHER, OTHER, OTHER,
    OTHER, OTHER, OTHER, OTHER, OTHER, OTHER, OTHER, OTHER,
    OTHER, OTHER, OTHER, OTHER, OTHER, OTHER, OTHER, OTHER,
    OTHER, OTHER, OTHER, OTHER, OTHER, OTHER, OTHER, OTHER,
    OTHER, OTHER, OTHER, OTHER, OTHER, OTHER, OTHER, OTHER,
    OTHER, OTHER, OTHER, OTHER, OTHER, OTHER, OTHER, OTHER,
    OTHER, OTHER, OTHER, OTHER, OTHER, OTHER, OTHER, OTHER,
    OTHER, OTHER, OTHER, OTHER, OTHER, OTHER, OTHER, OTHER,
    OTHER, OTHER, OTHER, OTHER, OTHER, OTHER, OTHER, OTHER,
    OTHER, OTHER, OTHER, OTHER, OTHER, OTHER, OTHER, OTHER,
    OTHER, OTHER, OTHER, OTHER, OTHER, OTHER, OTHER, OTHER,
    OTHER, OTHER, OTHER, OTHER, OTHER, OTHER, OTHER, OTHER,
    OTHER, OTHER, OTHER, OTHER, OTHER, OTHER, OTHER, OTHER,
    OTHER, OTHER, OTHER, OTHER, OTHER, OTHER, OTHER, OTHER,
    OTHER, OTHER, OTHER, OTHER, OTHER, OTHER, OTHER, OTHER,
    OTHER, OTHER, OTHER, OTHER, OTHER, OTHER, OTHER, OTHER,
    OTHER, OTHER, OTHER, OTHER, OTHER, OTHER, OTHER, OTHER,
    OTHER, OTHER, OTHER, OTHER, OTHER, OTHER, OTHER, OTHER,
    OTHER, OTHER, OTHER, OTHER, OTHER, OTHER, OTHER, OTHER,
    OTHER, OTHER, OTHER, OTHER, OTHER, EXTEND, EXTEND, OTHER,
    CONTROL, CONTROL, CONTROL, CONTROL, OTHER, OTHER, OTHER, OTHER,
    OTHER, OTHER, OTHER, OTHER, OTHER, OTHER, OTHER, OTHER,
    OTHER, OTHER, OTHER, OTHER, OTHER, OTHER, OTHER, OTHER,
    OTHER, OTHER, OTHER, OTHER, OTHER, OTHER, OTHER, OTHER,
    OTHER, OTHER, OTHER, OTHER, OTHER, OTHER, OTHER, OTHER,
    OTHER, OTHER, OTHER, OTHER, OTHER, OTHER, OTHER, OTHER,
    OTHER, OTHER, OTHER, OTHER, OTHER, OTHER, OTHER, OTHER,
    OTHER, OTHER, OTHER, OTHER, OTHER, OTHER, OTHER, OTHER,
    OTHER, OTHER, OTHER, OTHER, OTHER, OTHER, OTHER, OTHER,
    OTHER, OTHER, OTHER, OTHER, OTHER, OTHER, OTHER, OTHER,
    OTHER, OTHER, OTHER, OTHER, OTHER, OTHER, OTHER, OTHER,
    OTHER, OTHER, OTHER, OTHER, OTHER, OTHER, OTHER, OTHER,
];

#[verifier::opaque]
pub const GP_PAGE_79: [u8; 256] = [
    EXTEND, EXTEND, EXTEND, EXTEND, EXTEND, EXTEND, EXTEND, EXTEND,
    EXTEND, EXTEND, EXTEND, EXTEND, EXTEND, EXTEND, EXTEND, EXTEND,
    EXTEND, EXTEND, EXTEND, EXTEND, EXTEND, EXTEND, EXTEND, EXTEND,
    EXTEND, EXTEND, EXTEND, EXTEND, EXTEND, EXTEND, EXTEND, EXTEND,
    EXTEND, EXTEND, EXTEND, EXTEND, EXTEND, EXTEND, EXTEND, EXTEND,
    EXTEND, EXTEND, EXTEND, EXTEND, EXTEND, EXTEND, OTHER, OTHER,
    EXTEND, EXTEND, EXTEND, EXTEND, EXTEND, EXTEND, EXTEND, EXTEND,
    EXTEND, EXTEND, EXTEND, EXTEND, EXTEND, EXTEND, EXTEND, EXTEND,
    EXTEND, EXTEND, EXTEND, EXTEND, EXTEND, EXTEND, EXTEND, OTHER,
    OTHER, OTHER, OTHER, OTHER, OTHER, OTHER, OTHER, OTHER,
    OTHER, OTHER, OTHER, OTHER, OTHER, OTHER, OTHER, OTHER,
    OTHER, OTHER, OTHER, OTHER, OTHER, OTHER, OTHER, OTHER,
    OTHER, OTHER, OTHER, OTHER, OTHER, OTHER, OTHER, OTHER,
    OTHER, OTHER, OTHER, OTHER, OTHER, OTHER, OTHER, OTHER,
    OTHER, OTHER, OTHER, OTHER, OTHER, OTHER, OTHER, OTHER,
    OTHER, OTHER, OTHER, OTHER, OTHER, OTHER, OTHER, OTHER,
    OTHER, OTHER, OTHER, OTHER, OTHER, OTHER, OTHER, OTHER,
    OTHER, OTHER, OTHER, OTHER, OTHER, OTHER, OTHER, OTHER,
    OTHER, OTHER, OTHER, OTHER, OTHER, OTHER, OTHER, OTHER,
    OTHER, OTHER, OTHER, OTHER, OTHER, OTHER, OTHER, OTHER,
    OTHER, OTHER, OTHER, OTHER, OTHER, OTHER, OTHER, OTHER,
    OTHER, OTHER, OTHER, OTHER, OTHER, OTHER, OTHER, OTHER,
    OTHER, OTHER, OTHER, OTHER, OTHER, OTHER, OTHER, OTHER,
    OTHER, OTHER, OTHER, OTHER, OTHER, OTHER, OTHER, OTHER,
    OTHER, OTHER, OTHER, OTHER, OTHER, OTHER, OTHER, OTHER,
    OTHER, OTHER, OTHER, OTHER, OTHER, OTHER, OTHER, OTHER,
    OTHER, OTHER, OTHER, OTHER, OTHER, OTHER, OTHER, OTHER,
    OTHER, OTHER, OTHER, OTHER, OTHER, OTHER, OTHER, OTHER,
    OTHER, OTHER, OTHER, OTHER, OTHER, OTHER, OTHER, OTHER,
    OTHER, OTHER, OTHER, OTHER, OTHER, OTHER, OTHER, OTHER,
    OTHER, OTHER, OTHER, OTHER, OTHER, OTHER, OTHER, OTHER,
    OTHER, OTHER, OTHER, OTHER, OTHER, OTHER, OTHER, OTHER,
];

#[verifier::opaque]
pub const GP_PAGE_80: [u8; 256] = [
    OTHER, OTHER, OTHER, OTHER, OTHER, OTHER, OTHER, OTHER,
    OTHER, OTHER, OTHER, OTHER, OTHER, OTHER, OTHER, OTHER,
    OTHER, OTHER, OTHER, OTHER, OTHER, OTHER, OTHER, OTHER,
    OTHER, OTHER, OTHER, OTHER, OTHER, OTHER, OTHER, OTHER,
    OTHER, OTHER, OTHER, OTHER, OTHER, OTHER, OTHER, OTHER,
    OTHER, OTHER, OTHER, OTHER, OTHER, OTHER, OTHER, OTHER,
    OTHER, OTHER, OTHER, OTHER, OTHER, OTHER, OTHER, OTHER,
    OTHER, OTHER, OTHER, OTHER, OTHER, OTHER, OTHER, OTHER,
    OTHER, OTHER, OTHER, OTHER, OTHER, OTHER, OTHER, OTHER,
    OTHER, OTHER, OTHER, OTHER, OTHER, OTHER, OTHER, OTHER,
    OTHER, OTHER, OTHER, OTHER, OTHER, OTHER, OTHER, OTHER,
    OTHER, OTHER, OTHER, OTHER, OTHER, OTHER, OTHER, OTHER,
    OTHER, OTHER, OTHER, OTHER, OTHER, EXTEND, SPACING_MARK, EXTEND,
    EXTEND, EXTEND, OTHER, OTHER, OTHER, SPACING_MARK, EXTEND, EXTEND,
    EXTEND, EXTEND, EXTEND, CONTROL, CONTROL, CONTROL, CONTROL, CONTROL,
    CONTROL, CONTROL, CONTROL, EXTEND, EXTEND, EXTEND, EXTEND, EXTEND,
    EXTEND, EXTEND, EXTEND, OTHER, OTHER, EXTEND, EXTEND, EXTEND,
    EXTEND, EXTEND, EXTEND, EXTEND, OTHER, OTHER, OTHER, OTHER,
    OTHER, OTHER, OTHER, OTHER, OTHER, OTHER, OTHER, OTHER,
    OTHER, OTHER, OTHER, OTHER, OTHER, OTHER, OTHER, OTHER,
    OTHER, OTHER, OTHER, OTHER, OTHER, OTHER, OTHER, OTHER,
    OTHER, OTHER, EXTEND, EXTEND, EXTEND, EXTEND, OTHER, OTHER,
    OTHER, OTHER, OTHER, OTHER, OTHER, OTHER, OTHER, OTHER,
    OTHER, OTHER, OTHER, OTHER, OTHER, OTHER, OTHER, OTHER,
    OTHER, OTHER, OTHER, OTHER, OTHER, OTHER, OTHER, OTHER,
    OTHER, OTHER, OTHER, OTHER, OTHER, OTHER, OTHER, OTHER,
    OTHER, OTHER, OTHER, OTHER, OTHER, OTHER, OTHER, OTHER,
    OTHER, OTHER, OTHER, OTHER, OTHER, OTHER, OTHER, OTHER,
    OTHER, OTHER, OTHER, OTHER, OTHER, OTHER, OTHER, OTHER,
    OTHER, OTHER, OTHER, OTHER, OTHER, OTHER, OTHER, OTHER,
    OTHER, OTHER, OTHER, OTHER, OTHER, OTHER, OTHER, OTHER,
    OTHER, OTHER, OTHER, OTHER, OTHER, OTHER, OTHER, OTHER,
];

#[verifier::opaque]
pub const GP_PAGE_81: [u8; 256] = [
    OTHER, OTHER, OTHER, OTHER, OTHER, OTHER, OTHER, OTHER,
    OTHER, OTHER, OTHER, OTHER, OTHER, OTHER, OTHER, OTHER,
    OTHER, OTHER, OTHER, OTHER, OTHER, OTHER, OTHER, OTHER,
    OTHER, OTHER, OTHER, OTHER, OTHER, OTHER, OTHER, OTHER,
    OTHER, OTHER, OTHER, OTHER, OTHER, OTHER, OTHER, OTHER,
    OTHER, OTHER, OTHER, OTHER, OTHER, OTHER, OTHER, OTHER,
    OTHER, OTHER, OTHER, OTHER, OTHER, OTHER, OTHER, OTHER,
    OTHER, OTHER, OTHER, OTHER, OTHER, OTHER, OTHER, OTHER,
    OTHER, OTHER, EXTEND, EXTEND, EXTEND, OTHER, OTHER, OTHER,
    OTHER, OTHER, OTHER, OTHER, OTHER, OTHER, OTHER, OTHER,
    OTHER, OTHER, OTHER, OTHER, OTHER, OTHER, OTHER, OTHER,
    OTHER, OTHER, OTHER, OTHER, OTHER, OTHER, OTHER, OTHER,
    OTHER, OTHER, OTHER, OTHER, OTHER, OTHER, OTHER, OTHER,
    OTHER, OTHER, OTHER, OTHER, OTHER, OTHER, OTHER, OTHER,
    OTHER, OTHER, OTHER, OTHER, OTHER, OTHER, OTHER, OTHER,
    OTHER, OTHER, OTHER, OTHER, OTHER, OTHER, OTHER, OTHER,
    OTHER, OTHER, OTHER, OTHER, OTHER, OTHER, OTHER, OTHER,
    OTHER, OTHER, OTHER, OTHER, OTHER, OTHER, OTHER, OTHER,
    OTHER, OTHER, OTHER, OTHER, OTHER, OTHER, OTHER, OTHER,
    OTHER, OTHER, OTHER, OTHER, OTHER, OTHER, OTHER, OTHER,
    OTHER, OTHER, OTHER, OTHER, OTHER, OTHER, OTHER, OTHER,
    OTHER, OTHER, OTHER, OTHER, OTHER, OTHER, OTHER, OTHER,
    OTHER, OTHER, OTHER, OTHER, OTHER, OTHER, OTHER, OTHER,
    OTHER, OTHER, OTHER, OTHER, OTHER, OTHER, OTHER, OTHER,
    OTHER, OTHER, OTHER, OTHER, OTHER, OTHER, OTHER, OTHER,
    OTHER, OTHER, OTHER, OTHER, OTHER, OTHER, OTHER, OTHER,
    OTHER, OTHER, OTHER, OTHER, OTHER, OTHER, OTHER, OTHER,
    OTHER, OTHER, OTHER, OTHER, OTHER, OTHER, OTHER, OTHER,
    OTHER, OTHER, OTHER, OTHER, OTHER, OTHER, OTHER, OTHER,
    OTHER, OTHER, OTHER, OTHER, OTHER, OTHER, OTHER, OTHER,
    OTHER, OTHER, OTHER, OTHER, OTHER, OTHER, OTHER, OTHER,
    OTHER, OTHER, OTHER, OTHER, OTHER, OTHER, OTHER, OTHER,
];

#[verifier::opaque]
pub const GP_PAGE_82: [u8; 256] = [
    EXTEND, EXTEND, EXTEND, EXTEND, EXTEND, EXTEND, EXTEND, EXTEND,
    EXTEND, EXTEND, EXTEND, EXTEND, EXTEND, EXTEND, EXTEND, EXTEND,
    EXTEND, EXTEND, EXTEND, EXTEND, EXTEND, EXTEND, EXTEND, EXTEND,
    EXTEND, EXTEND, EXTEND, EXTEND, EXTEND, EXTEND, EXTEND, EXTEND,
    EXTEND, EXTEND, EXTEND, EXTEND, EXTEND, EXTEND, EXTEND, EXTEND,
    EXTEND, EXTEND, EXTEND, EXTEND, EXTEND, EXTEND, EXTEND, EXTEND,
    EXTEND, EXTEND, EXTEND, EXTEND, EXTEND, EXTEND, EXTEND, OTHER,
    OTHER, OTHER, OTHER, EXTEND, EXTEND, EXTEND, EXTEND, EXTEND,
    EXTEND, EXTEND, EXTEND, EXTEND, EXTEND, EXTEND, EXTEND, EXTEND,
    EXTEND, EXTEND, EXTEND, EXTEND, EXTEND, EXTEND, EXTEND, EXTEND,
    EXTEND, EXTEND, EXTEND, EXTEND, EXTEND, EXTEND, EXTEND, EXTEND,
    EXTEND, EXTEND, EXTEND, EXTEND, EXTEND, EXTEND, EXTEND, EXTEND,
    EXTEND, EXTEND, EXTEND, EXTEND, EXTEND, EXTEND, EXTEND, EXTEND,
    EXTEND, EXTEND, EXTEND, EXTEND, EXTEND, OTHER, OTHER, OTHER,
    OTHER, OTHER, OTHER, OTHER, OTHER, EXTEND, OTHER, OTHER,
    OTHER, OTHER, OTHER, OTHER, OTHER, OTHER, OTHER, OTHER,
    OTHER, OTHER, OTHER, OTHER, EXTEND, OTHER, OTHER, OTHER,
    OTHER, OTHER, OTHER, OTHER, OTHER, OTHER, OTHER, OTHER,
    OTHER, OTHER, OTHER, OTHER, OTHER, OTHER, OTHER, OTHER,
    OTHER, OTHER, OTHER, EXTEND, EXTEND, EXTEND, EXTEND, EXTEND,
    OTHER, EXTEND, EXTEND, EXTEND, EXTEND, EXTEND, EXTEND, EXTEND,
    EXTEND, EXTEND, EXTEND, EXTEND, EXTEND, EXTEND, EXTEND, EXTEND,
    OTHER, OTHER, OTHER, OTHER, OTHER, OTHER, OTHER, OTHER,
    OTHER, OTHER, OTHER, OTHER, OTHER, OTHER, OTHER, OTHER,
    OTHER, OTHER, OTHER, OTHER, OTHER, OTHER, OTHER, OTHER,
    OTHER, OTHER, OTHER, OTHER, OTHER, OTHER, OTHER, OTHER,
    OTHER, OTHER, OTHER, OTHER, OTHER, OTHER, OTHER, OTHER,
    OTHER, OTHER, OTHER, OTHER, OTHER, OTHER, OTHER, OTHER,
    OTHER, OTHER, OTHER, OTHER, OTHER, OTHER, OTHER, OTHER,
    OTHER, OTHER, OTHER, OTHER, OTHER, OTHER, OTHER, OTHER,
    OTHER, OTHER, OTHER, OTHER, OTHER, OTHER, OTHER, OTHER,
    OTHER, OTHER, OTHER, OTHER, OTHER, OTHER, OTHER, OTHER,
];

#[verifier::opaque]
pub const GP_PAGE_83: [u8; 256] = [
    EXTEND, EXTEND, EXTEND, EXTEND, EXTEND, EXTEND, EXTEND, OTHER,
    EXTEND, EXTEND, EXTEND, EXTEND, EXTEND, EXTEND, EXTEND, EXTEND,
    EXTEND, EXTEND, EXTEND, EXTEND, EXTEND, EXTEND, EXTEND, EXTEND,
    EXTEND, OTHER, OTHER, EXTEND, EXTEND, EXTEND, EXTEND, EXTEND,
    EXTEND, EXTEND, OTHER, EXTEND, EXTEND, OTHER, EXTEND, EXTEND,
    EXTEND, EXTEND, EXTEND, OTHER, OTHER, OTHER, OTHER, OTHER,
    OTHER, OTHER, OTHER, OTHER, OTHER, OTHER, OTHER, OTHER,
    OTHER, OTHER, OTHER, OTHER, OTHER, OTHER, OTHER, OTHER,
    OTHER, OTHER, OTHER, OTHER, OTHER, OTHER, OTHER, OTHER,
    OTHER, OTHER, OTHER, OTHER, OTHER, OTHER, OTHER, OTHER,
    OTHER, OTHER, OTHER, OTHER, OTHER, OTHER, OTHER, OTHER,
    OTHER, OTHER, OTHER, OTHER, OTHER, OTHER, OTHER, OTHER,
    OTHER, OTHER, OTHER, OTHER, OTHER, OTHER, OTHER, OTHER,
    OTHER, OTHER, OTHER, OTHER, OTHER, OTHER, OTHER, OTHER,
    OTHER, OTHER, OTHER, OTHER, OTHER, OTHER, OTHER, OTHER,
    OTHER, OTHER, OTHER, OTHER, OTHER, OTHER, OTHER, OTHER,
    OTHER, OTHER, OTHER, OTHER, OTHER, OTHER, OTHER, OTHER,
    OTHER, OTHER, OTHER, OTHER, OTHER, OTHER, OTHER, OTHER,
    OTHER, OTHER, OTHER, OTHER, OTHER, OTHER, OTHER, OTHER,
    OTHER, OTHER, OTHER, OTHER, OTHER, OTHER, OTHER, OTHER,
    OTHER, OTHER, OTHER, OTHER, OTHER, OTHER, OTHER, OTHER,
    OTHER, OTHER, OTHER, OTHER, OTHER, OTHER, OTHER, OTHER,
    OTHER, OTHER, OTHER, OTHER, OTHER, OTHER, OTHER, OTHER,
    OTHER, OTHER, OTHER, OTHER, OTHER, OTHER, OTHER, OTHER,
    OTHER, OTHER, OTHER, OTHER, OTHER, OTHER, OTHER, OTHER,
    OTHER, OTHER, OTHER, OTHER, OTHER, OTHER, OTHER, OTHER,
    OTHER, OTHER, OTHER, OTHER, OTHER, OTHER, OTHER, OTHER,
    OTHER, OTHER, OTHER, OTHER, OTHER, OTHER, OTHER, OTHER,
    OTHER, OTHER, OTHER, OTHER, OTHER, OTHER, OTHER, OTHER,
    OTHER, OTHER, OTHER, OTHER, OTHER, OTHER, OTHER, OTHER,
    OTHER, OTHER, OTHER, OTHER, OTHER, OTHER, OTHER, OTHER,
    OTHER, OTHER, OTHER, OTHER, OTHER, OTHER, OTHER, OTHER,
];

#[verifier::opaque]
pub const GP_PAGE_84: [u8; 256] = [
    OTHER, OTHER, OTHER, OTHER, OTHER, OTHER, OTHER, OTHER,
    OTHER, OTHER, OTHER, OTHER, OTHER, OTHER, OTHER, OTHER,
    OTHER, OTHER, OTHER, OTHER, OTHER, OTHER, OTHER, OTHER,
    OTHER, OTHER, OTHER, OTHER, OTHER, OTHER, OTHER, OTHER,
    OTHER, OTHER, OTHER, OTHER, OTHER, OTHER, OTHER, OTHER,
    OTHER, OTHER, OTHER, OTHER, OTHER, OTHER, OTHER, OTHER,
    OTHER, OTHER, OTHER, OTHER, OTHER, OTHER, OTHER, OTHER,
    OTHER, OTHER, OTHER, OTHER, OTHER, OTHER, OTHER, OTHER,
    OTHER, OTHER, OTHER, OTHER, OTHER, OTHER, OTHER, OTHER,
    OTHER, OTHER, OTHER, OTHER, OTHER, OTHER, OTHER, OTHER,
    OTHER, OTHER, OTHER, OTHER, OTHER, OTHER, OTHER, OTHER,
    OTHER, OTHER, OTHER, OTHER, OTHER, OTHER, OTHER, OTHER,
    OTHER, OTHER, OTHER, OTHER, OTHER, OTHER, OTHER, OTHER,
    OTHER, OTHER, OTHER, OTHER, OTHER, OTHER, OTHER, OTHER,
    OTHER, OTHER, OTHER, OTHER, OTHER, OTHER, OTHER, OTHER,
    OTHER, OTHER, OTHER, OTHER, OTHER, OTHER, OTHER, OTHER,
    OTHER, OTHER, OTHER, OTHER, OTHER, OTHER, OTHER, OTHER,
    OTHER, OTHER, OTHER, OTHER, OTHER, OTHER, OTHER, OTHER,
    OTHER, OTHER, OTHER, OTHER, OTHER, OTHER, OTHER, OTHER,
    OTHER, OTHER, OTHER, OTHER, OTHER, OTHER, OTHER, OTHER,
    OTHER, OTHER, OTHER, OTHER, OTHER, OTHER, OTHER, OTHER,
    OTHER, OTHER, OTHER, OTHER, OTHER, OTHER, EXTEND, OTHER,
    OTHER, OTHER, OTHER, OTHER, OTHER, OTHER, OTHER, OTHER,
    OTHER, OTHER, OTHER, OTHER, OTHER, OTHER, OTHER, OTHER,
    OTHER, OTHER, OTHER, OTHER, OTHER, OTHER, OTHER, OTHER,
    OTHER, OTHER, OTHER, OTHER, OTHER, OTHER, OTHER, OTHER,
    OTHER, OTHER, OTHER, OTHER, OTHER, OTHER, OTHER, OTHER,
    OTHER, OTHER, OTHER, OTHER, OTHER, OTHER, OTHER, OTHER,
    OTHER, OTHER, OTHER, OTHER, OTHER, OTHER, OTHER, OTHER,
    OTHER, OTHER, OTHER, OTHER, EXTEND, EXTEND, EXTEND, EXTEND,
    OTHER, OTHER, OTHER, OTHER, OTHER, OTHER, OTHER, OTHER,
    OTHER, OTHER, OTHER, OTHER, OTHER, OTHER, OTHER, OTHER,
];

#[verifier::opaque]
pub const GP_PAGE_85: [u8; 256] = [
    OTHER, OTHER, OTHER, OTHER, OTHER, OTHER, OTHER, OTHER,
    OTHER, OTHER, OTHER, OTHER, OTHER, OTHER, OTHER, OTHER,
    OTHER, OTHER, OTHER, OTHER, OTHER, OTHER, OTHER, OTHER,
    OTHER, OTHER, OTHER, OTHER, OTHER, OTHER, OTHER, OTHER,
    OTHER, OTHER, OTHER, OTHER, OTHER, OTHER, OTHER, OTHER,
    OTHER, OTHER, OTHER, OTHER, OTHER, OTHER, OTHER, OTHER,
    OTHER, OTHER, OTHER, OTHER, OTHER, OTHER, OTHER, OTHER,
    OTHER, OTHER, OTHER, OTHER, OTHER, OTHER, OTHER, OTHER,
    OTHER, OTHER, OTHER, OTHER, OTHER, OTHER, OTHER, OTHER,
    OTHER, OTHER, OTHER, OTHER, OTHER, OTHER, OTHER, OTHER,
    OTHER, OTHER, OTHER, OTHER, OTHER, OTHER, OTHER, OTHER,
    OTHER, OTHER, OTHER, OTHER, OTHER, OTHER, OTHER, OTHER,
    OTHER, OTHER, OTHER, OTHER, OTHER, OTHER, OTHER, OTHER,
    OTHER, OTHER, OTHER, OTHER, OTHER, OTHER, OTHER, OTHER,
    OTHER, OTHER, OTHER, OTHER, OTHER, OTHER, OTHER, OTHER,
    OTHER, OTHER, OTHER, OTHER, OTHER, OTHER, OTHER, OTHER,
    OTHER, OTHER, OTHER, OTHER, OTHER, OTHER, OTHER, OTHER,
    OTHER, OTHER, OTHER, OTHER, OTHER, OTHER, OTHER, OTHER,
    OTHER, OTHER, OTHER, OTHER, OTHER, OTHER, OTHER, OTHER,
    OTHER, OTHER, OTHER, OTHER, OTHER, OTHER, OTHER, OTHER,
    OTHER, OTHER, OTHER, OTHER, OTHER, OTHER, OTHER, OTHER,
    OTHER, OTHER, OTHER, OTHER, OTHER, OTHER, OTHER, OTHER,
    OTHER, OTHER, OTHER, OTHER, OTHER, OTHER, OTHER, OTHER,
    OTHER, OTHER, OTHER, OTHER, OTHER, OTHER, OTHER, OTHER,
    OTHER, OTHER, OTHER, OTHER, OTHER, OTHER, OTHER, OTHER,
    OTHER, OTHER, OTHER, OTHER, OTHER, OTHER, OTHER, OTHER,
    EXTEND, EXTEND, EXTEND, EXTEND, EXTEND, EXTEND, EXTEND, OTHER,
    OTHER, OTHER, OTHER, OTHER, OTHER, OTHER, OTHER, OTHER,
    OTHER, OTHER, OTHER, OTHER, OTHER, OTHER, OTHER, OTHER,
    OTHER, OTHER, OTHER, OTHER, OTHER, OTHER, OTHER, OTHER,
    OTHER, OTHER, OTHER, OTHER, OTHER, OTHER, OTHER, OTHER,
    OTHER, OTHER, OTHER, OTHER, OTHER, OTHER, OTHER, OTHER,
];

#[verifier::opaque]
pub const GP_PAGE_86: [u8; 256] = [
    OTHER, OTHER, OTHER, OTHER, OTHER, OTHER, OTHER, OTHER,
    OTHER, OTHER, OTHER, OTHER, OTHER, OTHER, OTHER, OTHER,
    OTHER, OTHER, OTHER, OTHER, OTHER, OTHER, OTHER, OTHER,
    OTHER, OTHER, OTHER, OTHER, OTHER, OTHER, OTHER, OTHER,
    OTHER, OTHER, OTHER, OTHER, OTHER, OTHER, OTHER, OTHER,
    OTHER, OTHER, OTHER, OTHER, OTHER, OTHER, OTHER, OTHER,
    OTHER, OTHER, OTHER, OTHER, OTHER, OTHER, OTHER, OTHER,
    OTHER, OTHER, OTHER, OTHER, OTHER, OTHER, OTHER, OTHER,
    OTHER, OTHER, OTHER, OTHER, EXTEND, EXTEND, EXTEND, EXTEND,
    EXTEND, EXTEND, EXTEND, OTHER, OTHER, OTHER, OTHER, OTHER,
    OTHER, OTHER, OTHER, OTHER, OTHER, OTHER, OTHER, OTHER,
    OTHER, OTHER, OTHER, OTHER, OTHER, OTHER, OTHER, OTHER,
    OTHER, OTHER, OTHER, OTHER, OTHER, OTHER, OTHER, OTHER,
    OTHER, OTHER, OTHER, OTHER, OTHER, OTHER, OTHER, OTHER,
    OTHER, OTHER, OTHER, OTHER, OTHER, OTHER, OTHER, OTHER,
    OTHER, OTHER, OTHER, OTHER, OTHER, OTHER, OTHER, OTHER,
    OTHER, OTHER, OTHER, OTHER, OTHER, OTHER, OTHER, OTHER,
    OTHER, OTHER, OTHER, OTHER, OTHER, OTHER, OTHER, OTHER,
    OTHER, OTHER, OTHER, OTHER, OTHER, OTHER, OTHER, OTHER,
    OTHER, OTHER, OTHER, OTHER, OTHER, OTHER, OTHER, OTHER,
    OTHER, OTHER, OTHER, OTHER, OTHER, OTHER, OTHER, OTHER,
    OTHER, OTHER, OTHER, OTHER, OTHER, OTHER, OTHER, OTHER,
    OTHER, OTHER, OTHER, OTHER, OTHER, OTHER, OTHER, OTHER,
    OTHER, OTHER, OTHER, OTHER, OTHER, OTHER, OTHER, OTHER,
    OTHER, OTHER, OTHER, OTHER, OTHER, OTHER, OTHER, OTHER,
    OTHER, OTHER, OTHER, OTHER, OTHER, OTHER, OTHER, OTHER,
    OTHER, OTHER, OTHER, OTHER, OTHER, OTHER, OTHER, OTHER,
    OTHER, OTHER, OTHER, OTHER, OTHER, OTHER, OTHER, OTHER,
    OTHER, OTHER, OTHER, OTHER, OTHER, OTHER, OTHER, OTHER,
    OTHER, OTHER, OTHER, OTHER, OTHER, OTHER, OTHER, OTHER,
    OTHER, OTHER, OTHER, OTHER, OTHER, OTHER, OTHER, OTHER,
    OTHER, OTHER, OTHER, OTHER, OTHER, OTHER, OTHER, OTHER,
];

#[verifier::opaque]
pub const GP_PAGE_87: [u8; 256] = [
    OTHER, OTHER, OTHER, OTHER, OTHER, OTHER, OTHER, OTHER,
    OTHER, OTHER, OTHER, OTHER, OTHER, EXTENDED_GRAPHEME, EXTENDED_GRAPHEME, EXTENDED_GRAPHEME,
    OTHER, OTHER, OTHER, OTHER, OTHER, OTHER, OTHER, OTHER,
    OTHER, OTHER, OTHER, OTHER, OTHER, OTHER, OTHER, OTHER,
    OTHER, OTHER, OTHER, OTHER, OTHER, OTHER, OTHER, OTHER,
    OTHER, OTHER, OTHER, OTHER, OTHER, OTHER, OTHER, EXTENDED_GRAPHEME,
    OTHER, OTHER, OTHER, OTHER, OTHER, OTHER, OTHER, OTHER,
    OTHER, OTHER, OTHER, OTHER, OTHER, OTHER, OTHER, OTHER,
    OTHER, OTHER, OTHER, OTHER, OTHER, OTHER, OTHER, OTHER,
    OTHER, OTHER, OTHER, OTHER, OTHER, OTHER, OTHER, OTHER,
    OTHER, OTHER, OTHER, OTHER, OTHER, OTHER, OTHER, OTHER,
    OTHER, OTHER, OTHER, OTHER, OTHER, OTHER, OTHER, OTHER,
    OTHER, OTHER, OTHER, OTHER, OTHER, OTHER, OTHER, OTHER,
    OTHER, OTHER, OTHER, OTHER, EXTENDED_GRAPHEME, EXTENDED_GRAPHEME, EXTENDED_GRAPHEME, EXTENDED_GRAPHEME,
    EXTENDED_GRAPHEME, EXTENDED_GRAPHEME, OTHER, OTHER, OTHER, OTHER, OTHER, OTHER,
    OTHER, OTHER, OTHER, OTHER, OTHER, OTHER, EXTENDED_GRAPHEME, EXTENDED_GRAPHEME,
    OTHER, OTHER, OTHER, OTHER, OTHER, OTHER, OTHER, OTHER,
    OTHER, OTHER, OTHER, OTHER, OTHER, OTHER, EXTENDED_GRAPHEME, OTHER,
    OTHER, EXTENDED_GRAPHEME, EXTENDED_GRAPHEME, EXTENDED_GRAPHEME, EXTENDED_GRAPHEME, EXTENDED_GRAPHEME, EXTENDED_GRAPHEME, EXTENDED_GRAPHEME,
    EXTENDED_GRAPHEME, EXTENDED_GRAPHEME, EXTENDED_GRAPHEME, OTHER, OTHER, OTHER, OTHER, OTHER,
    OTHER, OTHER, OTHER, OTHER, OTHER, OTHER, OTHER, OTHER,
    OTHER, OTHER, OTHER, OTHER, OTHER, EXTENDED_GRAPHEME, EXTENDED_GRAPHEME, EXTENDED_GRAPHEME,
    EXTENDED_GRAPHEME, EXTENDED_GRAPHEME, EXTENDED_GRAPHEME, EXTENDED_GRAPHEME, EXTENDED_GRAPHEME, EXTENDED_GRAPHEME, EXTENDED_GRAPHEME, EXTENDED_GRAPHEME,
    EXTENDED_GRAPHEME, EXTENDED_GRAPHEME, EXTENDED_GRAPHEME, EXTENDED_GRAPHEME, EXTENDED_GRAPHEME, EXTENDED_GRAPHEME, EXTENDED_GRAPHEME, EXTENDED_GRAPHEME,
    EXTENDED_GRAPHEME, EXTENDED_GRAPHEME, EXTENDED_GRAPHEME, EXTENDED_GRAPHEME, EXTENDED_GRAPHEME, EXTENDED_GRAPHEME, EXTENDED_GRAPHEME, EXTENDED_GRAPHEME,
    EXTENDED_GRAPHEME, EXTENDED_GRAPHEME, EXTENDED_GRAPHEME, EXTENDED_GRAPHEME, EXTENDED_GRAPHEME, EXTENDED_GRAPHEME, EXTENDED_GRAPHEME, EXTENDED_GRAPHEME,
    EXTENDED_GRAPHEME, EXTENDED_GRAPHEME, EXTENDED_GRAPHEME, EXTENDED_GRAPHEME, EXTENDED_GRAPHEME, EXTENDED_GRAPHEME, EXTENDED_GRAPHEME, EXTENDED_GRAPHEME,
    EXTENDED_GRAPHEME, EXTENDED_GRAPHEME, EXTENDED_GRAPHEME, EXTENDED_GRAPHEME, EXTENDED_GRAPHEME, EXTENDED_GRAPHEME, EXTENDED_GRAPHEME, EXTENDED_GRAPHEME,
    EXTENDED_GRAPHEME, EXTENDED_GRAPHEME, EXTENDED_GRAPHEME, EXTENDED_GRAPHEME, EXTENDED_GRAPHEME, EXTENDED_GRAPHEME, REGIONAL_INDICATOR, REGIONAL_INDICATOR,
    REGIONAL_INDICATOR, REGIONAL_INDICATOR, REGIONAL_INDICATOR, REGIONAL_INDICATOR, REGIONAL_INDICATOR, REGIONAL_INDICATOR, REGIONAL_INDICATOR, REGIONAL_INDICATOR,
    REGIONAL_INDICATOR, REGIONAL_INDICATOR, REGIONAL_INDICATOR, REGIONAL_INDICATOR, REGIONAL_INDICATOR, REGIONAL_INDICATOR, REGIONAL_INDICATOR, REGIONAL_INDICATOR,
    REGIONAL_INDICATOR, REGIONAL_INDICATOR, REGIONAL_INDICATOR, REGIONAL_INDICATOR, REGIONAL_INDICATOR, REGIONAL_INDICATOR, REGIONAL_INDICATOR, REGIONAL_INDICATOR,
];

#[verifier::opaque]
pub const GP_PAGE_88: [u8; 256] = [
    OTHER, EXTENDED_GRAPHEME, EXTENDED_GRAPHEME, EXTENDED_GRAPHEME, EXTENDED_GRAPHEME, EXTENDED_GRAPHEME, EXTENDED_GRAPHEME, EXTENDED_GRAPHEME,
    EXTENDED_GRAPHEME, EXTENDED_GRAPHEME, EXTENDED_GRAPHEME, EXTENDED_GRAPHEME, EXTENDED_GRAPHEME, EXTENDED_GRAPHEME, EXTENDED_GRAPHEME, EXTENDED_GRAPHEME,
    OTHER, OTHER, OTHER, OTHER, OTHER, OTHER, OTHER, OTHER,
    OTHER, OTHER, EXTENDED_GRAPHEME, OTHER, OTHER, OTHER, OTHER, OTHER,
    OTHER, OTHER, OTHER, OTHER, OTHER, OTHER, OTHER, OTHER,
    OTHER, OTHER, OTHER, OTHER, OTHER, OTHER, OTHER, EXTENDED_GRAPHEME,
    OTHER, OTHER, EXTENDED_GRAPHEME, EXTENDED_GRAPHEME, EXTENDED_GRAPHEME, EXTENDED_GRAPHEME, EXTENDED_GRAPHEME, EXTENDED_GRAPHEME,
    EXTENDED_GRAPHEME, EXTENDED_GRAPHEME, EXTENDED_GRAPHEME, OTHER, EXTENDED_GRAPHEME, EXTENDED_GRAPHEME, EXTENDED_GRAPHEME, EXTENDED_GRAPHEME,
    OTHER, OTHER, OTHER, OTHER, OTHER, OTHER, OTHER, OTHER,
    OTHER, EXTENDED_GRAPHEME, EXTENDED_GRAPHEME, EXTENDED_GRAPHEME, EXTENDED_GRAPHEME, EXTENDED_GRAPHEME, EXTENDED_GRAPHEME, EXTENDED_GRAPHEME,
    EXTENDED_GRAPHEME, EXTENDED_GRAPHEME, EXTENDED_GRAPHEME, EXTENDED_GRAPHEME, EXTENDED_GRAPHEME, EXTENDED_GRAPHEME, EXTENDED_GRAPHEME, EXTENDED_GRAPHEME,
    EXTENDED_GRAPHEME, EXTENDED_GRAPHEME, EXTENDED_GRAPHEME, EXTENDED_GRAPHEME, EXTENDED_GRAPHEME, EXTENDED_GRAPHEME, EXTENDED_GRAPHEME, EXTENDED_GRAPHEME,
    EXTENDED_GRAPHEME, EXTENDED_GRAPHEME, EXTENDED_GRAPHEME, EXTENDED_GRAPHEME, EXTENDED_GRAPHEME, EXTENDED_GRAPHEME, EXTENDED_GRAPHEME, EXTENDED_GRAPHEME,
    EXTENDED_GRAPHEME, EXTENDED_GRAPHEME, EXTENDED_GRAPHEME, EXTENDED_GRAPHEME, EXTENDED_GRAPHEME, EXTENDED_GRAPHEME, EXTENDED_GRAPHEME, EXTENDED_GRAPHEME,
    EXTENDED_GRAPHEME, EXTENDED_GRAPHEME, EXTENDED_GRAPHEME, EXTENDED_GRAPHEME, EXTENDED_GRAPHEME, EXTENDED_GRAPHEME, EXTENDED_GRAPHEME, EXTENDED_GRAPHEME,
    EXTENDED_GRAPHEME, EXTENDED_GRAPHEME, EXTENDED_GRAPHEME, EXTENDED_GRAPHEME, EXTENDED_GRAPHEME, EXTENDED_GRAPHEME, EXTENDED_GRAPHEME, EXTENDED_GRAPHEME,
    EXTENDED_GRAPHEME, EXTENDED_GRAPHEME, EXTENDED_GRAPHEME, EXTENDED_GRAPHEME, EXTENDED_GRAPHEME, EXTENDED_GRAPHEME, EXTENDED_GRAPHEME, EXTENDED_GRAPHEME,
    EXTENDED_GRAPHEME, EXTENDED_GRAPHEME, EXTENDED_GRAPHEME, EXTENDED_GRAPHEME, EXTENDED_GRAPHEME, EXTENDED_GRAPHEME, EXTENDED_GRAPHEME, EXTENDED_GRAPHEME,
    EXTENDED_GRAPHEME, EXTENDED_GRAPHEME, EXTENDED_GRAPHEME, EXTENDED_GRAPHEME, EXTENDED_GRAPHEME, EXTENDED_GRAPHEME, EXTENDED_GRAPHEME, EXTENDED_GRAPHEME,
    EXTENDED_GRAPHEME, EXTENDED_GRAPHEME, EXTENDED_GRAPHEME, EXTENDED_GRAPHEME, EXTENDED_GRAPHEME, EXTENDED_GRAPHEME, EXTENDED_GRAPHEME, EXTENDED_GRAPHEME,
    EXTENDED_GRAPHEME, EXTENDED_GRAPHEME, EXTENDED_GRAPHEME, EXTENDED_GRAPHEME, EXTENDED_GRAPHEME, EXTENDED_GRAPHEME, EXTENDED_GRAPHEME, EXTENDED_GRAPHEME,
    EXTENDED_GRAPHEME, EXTENDED_GRAPHEME, EXTENDED_GRAPHEME, EXTENDED_GRAPHEME, EXTENDED_GRAPHEME, EXTENDED_GRAPHEME, EXTENDED_GRAPHEME, EXTENDED_GRAPHEME,
    EXTENDED_GRAPHEME, EXTENDED_GRAPHEME, EXTENDED_GRAPHEME, EXTENDED_GRAPHEME, EXTENDED_GRAPHEME, EXTENDED_GRAPHEME, EXTENDED_GRAPHEME, EXTENDED_GRAPHEME,
    EXTENDED_GRAPHEME, EXTENDED_GRAPHEME, EXTENDED_GRAPHEME, EXTENDED_GRAPHEME, EXTENDED_GRAPHEME, EXTENDED_GRAPHEME, EXTENDED_GRAPHEME, EXTENDED_GRAPHEME,
    EXTENDED_GRAPHEME, EXTENDED_GRAPHEME, EXTENDED_GRAPHEME, EXTENDED_GRAPHEME, EXTENDED_GRAPHEME, EXTENDED_GRAPHEME, EXTENDED_GRAPHEME, EXTENDED_GRAPHEME,
    EXTENDED_GRAPHEME, EXTENDED_GRAPHEME, EXTENDED_GRAPHEME, EXTENDED_GRAPHEME, EXTENDED_GRAPHEME, EXTENDED_GRAPHEME, EXTENDED_GRAPHEME, EXTENDED_GRAPHEME,
    EXTENDED_GRAPHEME, EXTENDED_GRAPHEME, EXTENDED_GRAPHEME, EXTENDED_GRAPHEME, EXTENDED_GRAPHEME, EXTENDED_GRAPHEME, EXTENDED_GRAPHEME, EXTENDED_GRAPHEME,
    EXTENDED_GRAPHEME, EXTENDED_GRAPHEME, EXTENDED_GRAPHEME, EXTENDED_GRAPHEME, EXTENDED_GRAPHEME, EXTENDED_GRAPHEME, EXTENDED_GRAPHEME, EXTENDED_GRAPHEME,
    EXTENDED_GRAPHEME, EXTENDED_GRAPHEME, EXTENDED_GRAPHEME, EXTENDED_GRAPHEME, EXTENDED_GRAPHEME, EXTENDED_GRAPHEME, EXTENDED_GRAPHEME, EXTENDED_GRAPHEME,
    EXTENDED_GRAPHEME, EXTENDED_GRAPHEME, EXTENDED_GRAPHEME, EXTENDED_GRAPHEME, EXTENDED_GRAPHEME, EXTENDED_GRAPHEME, EXTENDED_GRAPHEME, EXTENDED_GRAPHEME,
    EXTENDED_GRAPHEME, EXTENDED_GRAPHEME, EXTENDED_GRAPHEME, EXTENDED_GRAPHEME, EXTENDED_GRAPHEME, EXTENDED_GRAPHEME, EXTENDED_GRAPHEME, EXTENDED_GRAPHEME,
    EXTENDED_GRAPHEME, EXTENDED_GRAPHEME, EXTENDED_GRAPHEME, EXTENDED_GRAPHEME, EXTENDED_GRAPHEME, EXTENDED_GRAPHEME, EXTENDED_GRAPHEME, EXTENDED_GRAPHEME,
];

#[verifier::opaque]
pub const GP_PAGE_89: [u8; 256] = [
    EXTENDED_GRAPHEME, EXTENDED_GRAPHEME, EXTENDED_GRAPHEME, EXTENDED_GRAPHEME, EXTENDED_GRAPHEME, EXTENDED_GRAPHEME, EXTENDED_GRAPHEME, EXTENDED_GRAPHEME,
    EXTENDED_GRAPHEME, EXTENDED_GRAPHEME, EXTENDED_GRAPHEME, EXTENDED_GRAPHEME, EXTENDED_GRAPHEME, EXTENDED_GRAPHEME, EXTENDED_GRAPHEME, EXTENDED_GRAPHEME,
    EXTENDED_GRAPHEME, EXTENDED_GRAPHEME, EXTENDED_GRAPHEME, EXTENDED_GRAPHEME, EXTENDED_GRAPHEME, EXTENDED_GRAPHEME, EXTENDED_GRAPHEME, EXTENDED_GRAPHEME,
    EXTENDED_GRAPHEME, EXTENDED_GRAPHEME, EXTENDED_GRAPHEME, EXTENDED_GRAPHEME, EXTENDED_GRAPHEME, EXTENDED_GRAPHEME, EXTENDED_GRAPHEME, EXTENDED_GRAPHEME,
    EXTENDED_GRAPHEME, EXTENDED_GRAPHEME, EXTENDED_GRAPHEME, EXTENDED_GRAPHEME, EXTENDED_GRAPHEME, EXTENDED_GRAPHEME, EXTENDED_GRAPHEME, EXTENDED_GRAPHEME,
    EXTENDED_GRAPHEME, EXTENDED_GRAPHEME, EXTENDED_GRAPHEME, EXTENDED_GRAPHEME, EXTENDED_GRAPHEME, EXTENDED_GRAPHEME, EXTENDED_GRAPHEME, EXTENDED_GRAPHEME,
    EXTENDED_GRAPHEME, EXTENDED_GRAPHEME, EXTENDED_GRAPHEME, EXTENDED_GRAPHEME, EXTENDED_GRAPHEME, EXTENDED_GRAPHEME, EXTENDED_GRAPHEME, EXTENDED_GRAPHEME,
    EXTENDED_GRAPHEME, EXTENDED_GRAPHEME, EXTENDED_GRAPHEME, EXTENDED_GRAPHEME, EXTENDED_GRAPHEME, EXTENDED_GRAPHEME, EXTENDED_GRAPHEME, EXTENDED_GRAPHEME,
    EXTENDED_GRAPHEME, EXTENDED_GRAPHEME, EXTENDED_GRAPHEME, EXTENDED_GRAPHEME, EXTENDED_GRAPHEME, EXTENDED_GRAPHEME, EXTENDED_GRAPHEME, EXTENDED_GRAPHEME,
    EXTENDED_GRAPHEME, EXTENDED_GRAPHEME, EXTENDED_GRAPHEME, EXTENDED_GRAPHEME, EXTENDED_GRAPHEME, EXTENDED_GRAPHEME, EXTENDED_GRAPHEME, EXTENDED_GRAPHEME,
    EXTENDED_GRAPHEME, EXTENDED_GRAPHEME, EXTENDED_GRAPHEME, EXTENDED_GRAPHEME, EXTENDED_GRAPHEME, EXTENDED_GRAPHEME, EXTENDED_GRAPHEME, EXTENDED_GRAPHEME,
    EXTENDED_GRAPHEME, EXTENDED_GRAPHEME, EXTENDED_GRAPHEME, EXTENDED_GRAPHEME, EXTENDED_GRAPHEME, EXTENDED_GRAPHEME, EXTENDED_GRAPHEME, EXTENDED_GRAPHEME,
    EXTENDED_GRAPHEME, EXTENDED_GRAPHEME, EXTENDED_GRAPHEME, EXTENDED_GRAPHEME, EXTENDED_GRAPHEME, EXTENDED_GRAPHEME, EXTENDED_GRAPHEME, EXTENDED_GRAPHEME,
    EXTENDED_GRAPHEME, EXTENDED_GRAPHEME, EXTENDED_GRAPHEME, EXTENDED_GRAPHEME, EXTENDED_GRAPHEME, EXTENDED_GRAPHEME, EXTENDED_GRAPHEME, EXTENDED_GRAPHEME,
    EXTENDED_GRAPHEME, EXTENDED_GRAPHEME, EXTENDED_GRAPHEME, EXTENDED_GRAPHEME, EXTENDED_GRAPHEME, EXTENDED_GRAPHEME, EXTENDED_GRAPHEME, EXTENDED_GRAPHEME,
    EXTENDED_GRAPHEME, EXTENDED_GRAPHEME, EXTENDED_GRAPHEME, EXTENDED_GRAPHEME, EXTENDED_GRAPHEME, EXTENDED_GRAPHEME, EXTENDED_GRAPHEME, EXTENDED_GRAPHEME,
    EXTENDED_GRAPHEME, EXTENDED_GRAPHEME, EXTENDED_GRAPHEME, EXTENDED_GRAPHEME, EXTENDED_GRAPHEME, EXTENDED_GRAPHEME, EXTENDED_GRAPHEME, EXTENDED_GRAPHEME,
    EXTENDED_GRAPHEME, EXTENDED_GRAPHEME, EXTENDED_GRAPHEME, EXTENDED_GRAPHEME, EXTENDED_GRAPHEME, EXTENDED_GRAPHEME, EXTENDED_GRAPHEME, EXTENDED_GRAPHEME,
    EXTENDED_GRAPHEME, EXTENDED_GRAPHEME, EXTENDED_GRAPHEME, EXTENDED_GRAPHEME, EXTENDED_GRAPHEME, EXTENDED_GRAPHEME, EXTENDED_GRAPHEME, EXTENDED_GRAPHEME,
    EXTENDED_GRAPHEME, EXTENDED_GRAPHEME, EXTENDED_GRAPHEME, EXTENDED_GRAPHEME, EXTENDED_GRAPHEME, EXTENDED_GRAPHEME, EXTENDED_GRAPHEME, EXTENDED_GRAPHEME,
    EXTENDED_GRAPHEME, EXTENDED_GRAPHEME, EXTENDED_GRAPHEME, EXTENDED_GRAPHEME, EXTENDED_GRAPHEME, EXTENDED_GRAPHEME, EXTENDED_GRAPHEME, EXTENDED_GRAPHEME,
    EXTENDED_GRAPHEME, EXTENDED_GRAPHEME, EXTENDED_GRAPHEME, EXTENDED_GRAPHEME, EXTENDED_GRAPHEME, EXTENDED_GRAPHEME, EXTENDED_GRAPHEME, EXTENDED_GRAPHEME,
    EXTENDED_GRAPHEME, EXTENDED_GRAPHEME, EXTENDED_GRAPHEME, EXTENDED_GRAPHEME, EXTENDED_GRAPHEME, EXTENDED_GRAPHEME, EXTENDED_GRAPHEME, EXTENDED_GRAPHEME,
    EXTENDED_GRAPHEME, EXTENDED_GRAPHEME, EXTENDED_GRAPHEME, EXTENDED_GRAPHEME, EXTENDED_GRAPHEME, EXTENDED_GRAPHEME, EXTENDED_GRAPHEME, EXTENDED_GRAPHEME,
    EXTENDED_GRAPHEME, EXTENDED_GRAPHEME, EXTENDED_GRAPHEME, EXTENDED_GRAPHEME, EXTENDED_GRAPHEME, EXTENDED_GRAPHEME, EXTENDED_GRAPHEME, EXTENDED_GRAPHEME,
    EXTENDED_GRAPHEME, EXTENDED_GRAPHEME, EXTENDED_GRAPHEME, EXTENDED_GRAPHEME, EXTENDED_GRAPHEME, EXTENDED_GRAPHEME, EXTENDED_GRAPHEME, EXTENDED_GRAPHEME,
    EXTENDED_GRAPHEME, EXTENDED_GRAPHEME, EXTENDED_GRAPHEME, EXTENDED_GRAPHEME, EXTENDED_GRAPHEME, EXTENDED_GRAPHEME, EXTENDED_GRAPHEME, EXTENDED_GRAPHEME,
    EXTENDED_GRAPHEME, EXTENDED_GRAPHEME, EXTENDED_GRAPHEME, EXTENDED_GRAPHEME, EXTENDED_GRAPHEME, EXTENDED_GRAPHEME, EXTENDED_GRAPHEME, EXTENDED_GRAPHEME,
    EXTENDED_GRAPHEME, EXTENDED_GRAPHEME, EXTENDED_GRAPHEME, EXTENDED_GRAPHEME, EXTENDED_GRAPHEME, EXTENDED_GRAPHEME, EXTENDED_GRAPHEME, EXTENDED_GRAPHEME,
    EXTENDED_GRAPHEME, EXTENDED_GRAPHEME, EXTENDED_GRAPHEME, EXTENDED_GRAPHEME, EXTENDED_GRAPHEME, EXTENDED_GRAPHEME, EXTENDED_GRAPHEME, EXTENDED_GRAPHEME,
    EXTENDED_GRAPHEME, EXTENDED_GRAPHEME, EXTENDED_GRAPHEME, EXTENDED_GRAPHEME, EXTENDED_GRAPHEME, EXTENDED_GRAPHEME, EXTENDED_GRAPHEME, EXTENDED_GRAPHEME,
    EXTENDED_GRAPHEME, EXTENDED_GRAPHEME, EXTENDED_GRAPHEME, EXTEND, EXTEND, EXTEND, EXTEND, EXTEND,
];

#[verifier::opaque]
pub const GP_PAGE_90: [u8; 256] = [
    EXTENDED_GRAPHEME, EXTENDED_GRAPHEME, EXTENDED_GRAPHEME, EXTENDED_GRAPHEME, EXTENDED_GRAPHEME, EXTENDED_GRAPHEME, EXTENDED_GRAPHEME, EXTENDED_GRAPHEME,
    EXTENDED_GRAPHEME, EXTENDED_GRAPHEME, EXTENDED_GRAPHEME, EXTENDED_GRAPHEME, EXTENDED_GRAPHEME, EXTENDED_GRAPHEME, EXTENDED_GRAPHEME, EXTENDED_GRAPHEME,
    EXTENDED_GRAPHEME, EXTENDED_GRAPHEME, EXTENDED_GRAPHEME, EXTENDED_GRAPHEME, EXTENDED_GRAPHEME, EXTENDED_GRAPHEME, EXTENDED_GRAPHEME, EXTENDED_GRAPHEME,
    EXTENDED_GRAPHEME, EXTENDED_GRAPHEME, EXTENDED_GRAPHEME, EXTENDED_GRAPHEME, EXTENDED_GRAPHEME, EXTENDED_GRAPHEME, EXTENDED_GRAPHEME, EXTENDED_GRAPHEME,
    EXTENDED_GRAPHEME, EXTENDED_GRAPHEME, EXTENDED_GRAPHEME, EXTENDED_GRAPHEME, EXTENDED_GRAPHEME, EXTENDED_GRAPHEME, EXTENDED_GRAPHEME, EXTENDED_GRAPHEME,
    EXTENDED_GRAPHEME, EXTENDED_GRAPHEME, EXTENDED_GRAPHEME, EXTENDED_GRAPHEME, EXTENDED_GRAPHEME, EXTENDED_GRAPHEME, EXTENDED_GRAPHEME, EXTENDED_GRAPHEME,
    EXTENDED_GRAPHEME, EXTENDED_GRAPHEME, EXTENDED_GRAPHEME, EXTENDED_GRAPHEME, EXTENDED_GRAPHEME, EXTENDED_GRAPHEME, EXTENDED_GRAPHEME, EXTENDED_GRAPHEME,
    EXTENDED_GRAPHEME, EXTENDED_GRAPHEME, EXTENDED_GRAPHEME, EXTENDED_GRAPHEME, EXTENDED_GRAPHEME, EXTENDED_GRAPHEME, OTHER, OTHER,
    OTHER, OTHER, OTHER, OTHER, OTHER, OTHER, EXTENDED_GRAPHEME, EXTENDED_GRAPHEME,
    EXTENDED_GRAPHEME, EXTENDED_GRAPHEME, EXTENDED_GRAPHEME, EXTENDED_GRAPHEME, EXTENDED_GRAPHEME, EXTENDED_GRAPHEME, EXTENDED_GRAPHEME, EXTENDED_GRAPHEME,
    EXTENDED_GRAPHEME, EXTENDED_GRAPHEME, EXTENDED_GRAPHEME, EXTENDED_GRAPHEME, EXTENDED_GRAPHEME, EXTENDED_GRAPHEME, EXTENDED_GRAPHEME, EXTENDED_GRAPHEME,
    EXTENDED_GRAPHEME, EXTENDED_GRAPHEME, EXTENDED_GRAPHEME, EXTENDED_GRAPHEME, EXTENDED_GRAPHEME, EXTENDED_GRAPHEME, EXTENDED_GRAPHEME, EXTENDED_GRAPHEME,
    EXTENDED_GRAPHEME, EXTENDED_GRAPHEME, EXTENDED_GRAPHEME, EXTENDED_GRAPHEME, EXTENDED_GRAPHEME, EXTENDED_GRAPHEME, EXTENDED_GRAPHEME, EXTENDED_GRAPHEME,
    EXTENDED_GRAPHEME, EXTENDED_GRAPHEME, EXTENDED_GRAPHEME, EXTENDED_GRAPHEME, EXTENDED_GRAPHEME, EXTENDED_GRAPHEME, EXTENDED_GRAPHEME, EXTENDED_GRAPHEME,
    EXTENDED_GRAPHEME, EXTENDED_GRAPHEME, EXTENDED_GRAPHEME, EXTENDED_GRAPHEME, EXTENDED_GRAPHEME, EXTENDED_GRAPHEME, EXTENDED_GRAPHEME, EXTENDED_GRAPHEME,
    EXTENDED_GRAPHEME, EXTENDED_GRAPHEME, EXTENDED_GRAPHEME, EXTENDED_GRAPHEME, EXTENDED_GRAPHEME, EXTENDED_GRAPHEME, EXTENDED_GRAPHEME, EXTENDED_GRAPHEME,
    EXTENDED_GRAPHEME, EXTENDED_GRAPHEME, EXTENDED_GRAPHEME, EXTENDED_GRAPHEME, EXTENDED_GRAPHEME, EXTENDED_GRAPHEME, EXTENDED_GRAPHEME, EXTENDED_GRAPHEME,
    EXTENDED_GRAPHEME, EXTENDED_GRAPHEME, EXTENDED_GRAPHEME, EXTENDED_GRAPHEME, EXTENDED_GRAPHEME, EXTENDED_GRAPHEME, EXTENDED_GRAPHEME, EXTENDED_GRAPHEME,
    EXTENDED_GRAPHEME, EXTENDED_GRAPHEME, EXTENDED_GRAPHEME, EXTENDED_GRAPHEME, EXTENDED_GRAPHEME, EXTENDED_GRAPHEME, EXTENDED_GRAPHEME, EXTENDED_GRAPHEME,
    EXTENDED_GRAPHEME, EXTENDED_GRAPHEME, EXTENDED_GRAPHEME, EXTENDED_GRAPHEME, EXTENDED_GRAPHEME, EXTENDED_GRAPHEME, EXTENDED_GRAPHEME, EXTENDED_GRAPHEME,
    EXTENDED_GRAPHEME, EXTENDED_GRAPHEME, EXTENDED_GRAPHEME, EXTENDED_GRAPHEME, EXTENDED_GRAPHEME, EXTENDED_GRAPHEME, EXTENDED_GRAPHEME, EXTENDED_GRAPHEME,
    EXTENDED_GRAPHEME, EXTENDED_GRAPHEME, EXTENDED_GRAPHEME, EXTENDED_GRAPHEME, EXTENDED_GRAPHEME, EXTENDED_GRAPHEME, EXTENDED_GRAPHEME, EXTENDED_GRAPHEME,
    EXTENDED_GRAPHEME, EXTENDED_GRAPHEME, EXTENDED_GRAPHEME, EXTENDED_GRAPHEME, EXTENDED_GRAPHEME, EXTENDED_GRAPHEME, EXTENDED_GRAPHEME, EXTENDED_GRAPHEME,
    EXTENDED_GRAPHEME, EXTENDED_GRAPHEME, EXTENDED_GRAPHEME, EXTENDED_GRAPHEME, EXTENDED_GRAPHEME, EXTENDED_GRAPHEME, EXTENDED_GRAPHEME, EXTENDED_GRAPHEME,
    EXTENDED_GRAPHEME, EXTENDED_GRAPHEME, EXTENDED_GRAPHEME, EXTENDED_GRAPHEME, EXTENDED_GRAPHEME, EXTENDED_GRAPHEME, EXTENDED_GRAPHEME, EXTENDED_GRAPHEME,
    EXTENDED_GRAPHEME, EXTENDED_GRAPHEME, EXTENDED_GRAPHEME, EXTENDED_GRAPHEME, EXTENDED_GRAPHEME, EXTENDED_GRAPHEME, EXTENDED_GRAPHEME, EXTENDED_GRAPHEME,
    EXTENDED_GRAPHEME, EXTENDED_GRAPHEME, EXTENDED_GRAPHEME, EXTENDED_GRAPHEME, EXTENDED_GRAPHEME, EXTENDED_GRAPHEME, EXTENDED_GRAPHEME, EXTENDED_GRAPHEME,
    EXTENDED_GRAPHEME, EXTENDED_GRAPHEME, EXTENDED_GRAPHEME, EXTENDED_GRAPHEME, EXTENDED_GRAPHEME, EXTENDED_GRAPHEME, EXTENDED_GRAPHEME, EXTENDED_GRAPHEME,
    EXTENDED_GRAPHEME, EXTENDED_GRAPHEME, EXTENDED_GRAPHEME, EXTENDED_GRAPHEME, EXTENDED_GRAPHEME, EXTENDED_GRAPHEME, EXTENDED_GRAPHEME, EXTENDED_GRAPHEME,
    EXTENDED_GRAPHEME, EXTENDED_GRAPHEME, EXTENDED_GRAPHEME, EXTENDED_GRAPHEME, EXTENDED_GRAPHEME, EXTENDED_GRAPHEME, EXTENDED_GRAPHEME, EXTENDED_GRAPHEME,
    EXTENDED_GRAPHEME, EXTENDED_GRAPHEME, EXTENDED_GRAPHEME, EXTENDED_GRAPHEME, EXTENDED_GRAPHEME, EXTENDED_GRAPHEME, EXTENDED_GRAPHEME, EXTENDED_GRAPHEME,
    EXTENDED_GRAPHEME, EXTENDED_GRAPHEME, EXTENDED_GRAPHEME, EXTENDED_GRAPHEME, EXTENDED_GRAPHEME, EXTENDED_GRAPHEME, EXTENDED_GRAPHEME, EXTENDED_GRAPHEME,
];

#[verifier::opaque]
pub const GP_PAGE_91: [u8; 256] = [
    EXTENDED_GRAPHEME, EXTENDED_GRAPHEME, EXTENDED_GRAPHEME, EXTENDED_GRAPHEME, EXTENDED_GRAPHEME, EXTENDED_GRAPHEME, EXTENDED_GRAPHEME, EXTENDED_GRAPHEME,
    EXTENDED_GRAPHEME, EXTENDED_GRAPHEME, EXTENDED_GRAPHEME, EXTENDED_GRAPHEME, EXTENDED_GRAPHEME, EXTENDED_GRAPHEME, EXTENDED_GRAPHEME, EXTENDED_GRAPHEME,
    EXTENDED_GRAPHEME, EXTENDED_GRAPHEME, EXTENDED_GRAPHEME, EXTENDED_GRAPHEME, EXTENDED_GRAPHEME, EXTENDED_GRAPHEME, EXTENDED_GRAPHEME, EXTENDED_GRAPHEME,
    EXTENDED_GRAPHEME, EXTENDED_GRAPHEME, EXTENDED_GRAPHEME, EXTENDED_GRAPHEME, EXTENDED_GRAPHEME, EXTENDED_GRAPHEME, EXTENDED_GRAPHEME, EXTENDED_GRAPHEME,
    EXTENDED_GRAPHEME, EXTENDED_GRAPHEME, EXTENDED_GRAPHEME, EXTENDED_GRAPHEME, EXTENDED_GRAPHEME, EXTENDED_GRAPHEME, EXTENDED_GRAPHEME, EXTENDED_GRAPHEME,
    EXTENDED_GRAPHEME, EXTENDED_GRAPHEME, EXTENDED_GRAPHEME, EXTENDED_GRAPHEME, EXTENDED_GRAPHEME, EXTENDED_GRAPHEME, EXTENDED_GRAPHEME, EXTENDED_GRAPHEME,
    EXTENDED_GRAPHEME, EXTENDED_GRAPHEME, EXTENDED_GRAPHEME, EXTENDED_GRAPHEME, EXTENDED_GRAPHEME, EXTENDED_GRAPHEME, EXTENDED_GRAPHEME, EXTENDED_GRAPHEME,
    EXTENDED_GRAPHEME, EXTENDED_GRAPHEME, EXTENDED_GRAPHEME, EXTENDED_GRAPHEME, EXTENDED_GRAPHEME, EXTENDED_GRAPHEME, EXTENDED_GRAPHEME, EXTENDED_GRAPHEME,
    EXTENDED_GRAPHEME, EXTENDED_GRAPHEME, EXTENDED_GRAPHEME, EXTENDED_GRAPHEME, EXTENDED_GRAPHEME, EXTENDED_GRAPHEME, EXTENDED_GRAPHEME, EXTENDED_GRAPHEME,
    EXTENDED_GRAPHEME, EXTENDED_GRAPHEME, EXTENDED_GRAPHEME, EXTENDED_GRAPHEME, EXTENDED_GRAPHEME, EXTENDED_GRAPHEME, EXTENDED_GRAPHEME, EXTENDED_GRAPHEME,
    OTHER, OTHER, OTHER, OTHER, OTHER, OTHER, OTHER, OTHER,
    OTHER, OTHER, OTHER, OTHER, OTHER, OTHER, OTHER, OTHER,
    OTHER, OTHER, OTHER, OTHER, OTHER, OTHER, OTHER, OTHER,
    OTHER, OTHER, OTHER, OTHER, OTHER, OTHER, OTHER, OTHER,
    OTHER, OTHER, OTHER, OTHER, OTHER, OTHER, OTHER, OTHER,
    OTHER, OTHER, OTHER, OTHER, OTHER, OTHER, OTHER, OTHER,
    EXTENDED_GRAPHEME, EXTENDED_GRAPHEME, EXTENDED_GRAPHEME, EXTENDED_GRAPHEME, EXTENDED_GRAPHEME, EXTENDED_GRAPHEME, EXTENDED_GRAPHEME, EXTENDED_GRAPHEME,
    EXTENDED_GRAPHEME, EXTENDED_GRAPHEME, EXTENDED_GRAPHEME, EXTENDED_GRAPHEME, EXTENDED_GRAPHEME, EXTENDED_GRAPHEME, EXTENDED_GRAPHEME, EXTENDED_GRAPHEME,
    EXTENDED_GRAPHEME, EXTENDED_GRAPHEME, EXTENDED_GRAPHEME, EXTENDED_GRAPHEME, EXTENDED_GRAPHEME, EXTENDED_GRAPHEME, EXTENDED_GRAPHEME, EXTENDED_GRAPHEME,
    EXTENDED_GRAPHEME, EXTENDED_GRAPHEME, EXTENDED_GRAPHEME, EXTENDED_GRAPHEME, EXTENDED_GRAPHEME, EXTENDED_GRAPHEME, EXTENDED_GRAPHEME, EXTENDED_GRAPHEME,
    EXTENDED_GRAPHEME, EXTENDED_GRAPHEME, EXTENDED_GRAPHEME, EXTENDED_GRAPHEME, EXTENDED_GRAPHEME, EXTENDED_GRAPHEME, EXTENDED_GRAPHEME, EXTENDED_GRAPHEME,
    EXTENDED_GRAPHEME, EXTENDED_GRAPHEME, EXTENDED_GRAPHEME, EXTENDED_GRAPHEME, EXTENDED_GRAPHEME, EXTENDED_GRAPHEME, EXTENDED_GRAPHEME, EXTENDED_GRAPHEME,
    EXTENDED_GRAPHEME, EXTENDED_GRAPHEME, EXTENDED_GRAPHEME, EXTENDED_GRAPHEME, EXTENDED_GRAPHEME, EXTENDED_GRAPHEME, EXTENDED_GRAPHEME, EXTENDED_GRAPHEME,
    EXTENDED_GRAPHEME, EXTENDED_GRAPHEME, EXTENDED_GRAPHEME, EXTENDED_GRAPHEME, EXTENDED_GRAPHEME, EXTENDED_GRAPHEME, EXTENDED_GRAPHEME, EXTENDED_GRAPHEME,
    EXTENDED_GRAPHEME, EXTENDED_GRAPHEME, EXTENDED_GRAPHEME, EXTENDED_GRAPHEME, EXTENDED_GRAPHEME, EXTENDED_GRAPHEME, EXTENDED_GRAPHEME, EXTENDED_GRAPHEME,
    EXTENDED_GRAPHEME, EXTENDED_GRAPHEME, EXTENDED_GRAPHEME, EXTENDED_GRAPHEME, EXTENDED_GRAPHEME, EXTENDED_GRAPHEME, EXTENDED_GRAPHEME, EXTENDED_GRAPHEME,
    EXTENDED_GRAPHEME, EXTENDED_GRAPHEME, EXTENDED_GRAPHEME, EXTENDED_GRAPHEME, EXTENDED_GRAPHEME, EXTENDED_GRAPHEME, EXTENDED_GRAPHEME, EXTENDED_GRAPHEME,
    EXTENDED_GRAPHEME, EXTENDED_GRAPHEME, EXTENDED_GRAPHEME, EXTENDED_GRAPHEME, EXTENDED_GRAPHEME, EXTENDED_GRAPHEME, EXTENDED_GRAPHEME, EXTENDED_GRAPHEME,
    EXTENDED_GRAPHEME, EXTENDED_GRAPHEME, EXTENDED_GRAPHEME, EXTENDED_GRAPHEME, EXTENDED_GRAPHEME, EXTENDED_GRAPHEME, EXTENDED_GRAPHEME, EXTENDED_GRAPHEME,
    EXTENDED_GRAPHEME, EXTENDED_GRAPHEME, EXTENDED_GRAPHEME, EXTENDED_GRAPHEME, EXTENDED_GRAPHEME, EXTENDED_GRAPHEME, EXTENDED_GRAPHEME, EXTENDED_GRAPHEME,
    EXTENDED_GRAPHEME, EXTENDED_GRAPHEME, EXTENDED_GRAPHEME, EXTENDED_GRAPHEME, EXTENDED_GRAPHEME, EXTENDED_GRAPHEME, EXTENDED_GRAPHEME, EXTENDED_GRAPHEME,
    EXTENDED_GRAPHEME, EXTENDED_GRAPHEME, EXTENDED_GRAPHEME, EXTENDED_GRAPHEME, EXTENDED_GRAPHEME, EXTENDED_GRAPHEME, EXTENDED_GRAPHEME, EXTENDED_GRAPHEME,
];

#[verifier::opaque]
pub const GP_PAGE_92: [u8; 256] = [
    OTHER, OTHER, OTHER, OTHER, OTHER, OTHER, OTHER, OTHER,
    OTHER, OTHER, OTHER, OTHER, OTHER, OTHER, OTHER, OTHER,
    OTHER, OTHER, OTHER, OTHER, OTHER, OTHER, OTHER, OTHER,
    OTHER, OTHER, OTHER, OTHER, OTHER, OTHER, OTHER, OTHER,
    OTHER, OTHER, OTHER, OTHER, OTHER, OTHER, OTHER, OTHER,
    OTHER, OTHER, OTHER, OTHER, OTHER, OTHER, OTHER, OTHER,
    OTHER, OTHER, OTHER, OTHER, OTHER, OTHER, OTHER, OTHER,
    OTHER, OTHER, OTHER, OTHER, OTHER, OTHER, OTHER, OTHER,
    OTHER, OTHER, OTHER, OTHER, OTHER, OTHER, OTHER, OTHER,
    OTHER, OTHER, OTHER, OTHER, OTHER, OTHER, OTHER, OTHER,
    OTHER, OTHER, OTHER, OTHER, OTHER, OTHER, OTHER, OTHER,
    OTHER, OTHER, OTHER, OTHER, OTHER, OTHER, OTHER, OTHER,
    OTHER, OTHER, OTHER, OTHER, OTHER, OTHER, OTHER, OTHER,
    OTHER, OTHER, OTHER, OTHER, OTHER, OTHER, OTHER, OTHER,
    OTHER, OTHER, OTHER, OTHER, EXTENDED_GRAPHEME, EXTENDED_GRAPHEME, EXTENDED_GRAPHEME, EXTENDED_GRAPHEME,
    EXTENDED_GRAPHEME, EXTENDED_GRAPHEME, EXTENDED_GRAPHEME, EXTENDED_GRAPHEME, EXTENDED_GRAPHEME, EXTENDED_GRAPHEME, EXTENDED_GRAPHEME, EXTENDED_GRAPHEME,
    OTHER, OTHER, OTHER, OTHER, OTHER, OTHER, OTHER, OTHER,
    OTHER, OTHER, OTHER, OTHER, OTHER, OTHER, OTHER, OTHER,
    OTHER, OTHER, OTHER, OTHER, OTHER, OTHER, OTHER, OTHER,
    OTHER, OTHER, OTHER, OTHER, OTHER, OTHER, OTHER, OTHER,
    OTHER, OTHER, OTHER, OTHER, OTHER, OTHER, OTHER, OTHER,
    OTHER, OTHER, OTHER, OTHER, OTHER, OTHER, OTHER, OTHER,
    OTHER, OTHER, OTHER, OTHER, OTHER, OTHER, OTHER, OTHER,
    OTHER, OTHER, OTHER, OTHER, OTHER, OTHER, OTHER, OTHER,
    OTHER, OTHER, OTHER, OTHER, OTHER, OTHER, OTHER, OTHER,
    OTHER, OTHER, OTHER, OTHER, OTHER, OTHER, OTHER, OTHER,
    OTHER, OTHER, OTHER, OTHER, OTHER, EXTENDED_GRAPHEME, EXTENDED_GRAPHEME, EXTENDED_GRAPHEME,
    EXTENDED_GRAPHEME, EXTENDED_GRAPHEME, EXTENDED_GRAPHEME, EXTENDED_GRAPHEME, EXTENDED_GRAPHEME, EXTENDED_GRAPHEME, EXTENDED_GRAPHEME, EXTENDED_GRAPHEME,
    EXTENDED_GRAPHEME, EXTENDED_GRAPHEME, EXTENDED_GRAPHEME, EXTENDED_GRAPHEME, EXTENDED_GRAPHEME, EXTENDED_GRAPHEME, EXTENDED_GRAPHEME, EXTENDED_GRAPHEME,
    EXTENDED_GRAPHEME, EXTENDED_GRAPHEME, EXTENDED_GRAPHEME, EXTENDED_GRAPHEME, EXTENDED_GRAPHEME, EXTENDED_GRAPHEME, EXTENDED_GRAPHEME, EXTENDED_GRAPHEME,
    EXTENDED_GRAPHEME, EXTENDED_GRAPHEME, EXTENDED_GRAPHEME, EXTENDED_GRAPHEME, EXTENDED_GRAPHEME, EXTENDED_GRAPHEME, EXTENDED_GRAPHEME, EXTENDED_GRAPHEME,
    EXTENDED_GRAPHEME, EXTENDED_GRAPHEME, EXTENDED_GRAPHEME, EXTENDED_GRAPHEME, EXTENDED_GRAPHEME, EXTENDED_GRAPHEME, EXTENDED_GRAPHEME, EXTENDED_GRAPHEME,
];

#[verifier::opaque]
pub const GP_PAGE_93: [u8; 256] = [
    OTHER, OTHER, OTHER, OTHER, OTHER, OTHER, OTHER, OTHER,
    OTHER, OTHER, OTHER, OTHER, EXTENDED_GRAPHEME, EXTENDED_GRAPHEME, EXTENDED_GRAPHEME, EXTENDED_GRAPHEME,
    OTHER, OTHER, OTHER, OTHER, OTHER, OTHER, OTHER, OTHER,
    OTHER, OTHER, OTHER, OTHER, OTHER, OTHER, OTHER, OTHER,
    OTHER, OTHER, OTHER, OTHER, OTHER, OTHER, OTHER, OTHER,
    OTHER, OTHER, OTHER, OTHER, OTHER, OTHER, OTHER, OTHER,
    OTHER, OTHER, OTHER, OTHER, OTHER, OTHER, OTHER, OTHER,
    OTHER, OTHER, OTHER, OTHER, OTHER, OTHER, OTHER, OTHER,
    OTHER, OTHER, OTHER, OTHER, OTHER, OTHER, OTHER, OTHER,
    EXTENDED_GRAPHEME, EXTENDED_GRAPHEME, EXTENDED_GRAPHEME, EXTENDED_GRAPHEME, EXTENDED_GRAPHEME, EXTENDED_GRAPHEME, EXTENDED_GRAPHEME, EXTENDED_GRAPHEME,
    OTHER, OTHER, OTHER, OTHER, OTHER, OTHER, OTHER, OTHER,
    OTHER, OTHER, EXTENDED_GRAPHEME, EXTENDED_GRAPHEME, EXTENDED_GRAPHEME, EXTENDED_GRAPHEME, EXTENDED_GRAPHEME, EXTENDED_GRAPHEME,
    OTHER, OTHER, OTHER, OTHER, OTHER, OTHER, OTHER, OTHER,
    OTHER, OTHER, OTHER, OTHER, OTHER, OTHER, OTHER, OTHER,
    OTHER, OTHER, OTHER, OTHER, OTHER, OTHER, OTHER, OTHER,
    OTHER, OTHER, OTHER, OTHER, OTHER, OTHER, OTHER, OTHER,
    OTHER, OTHER, OTHER, OTHER, OTHER, OTHER, OTHER, OTHER,
    EXTENDED_GRAPHEME, EXTENDED_GRAPHEME, EXTENDED_GRAPHEME, EXTENDED_GRAPHEME, EXTENDED_GRAPHEME, EXTENDED_GRAPHEME, EXTENDED_GRAPHEME, EXTENDED_GRAPHEME,
    OTHER, OTHER, OTHER, OTHER, OTHER, OTHER, OTHER, OTHER,
    OTHER, OTHER, OTHER, OTHER, OTHER, OTHER, OTHER, OTHER,
    OTHER, OTHER, OTHER, OTHER, OTHER, OTHER, OTHER, OTHER,
    OTHER, OTHER, OTHER, OTHER, OTHER, OTHER, EXTENDED_GRAPHEME, EXTENDED_GRAPHEME,
    EXTENDED_GRAPHEME, EXTENDED_GRAPHEME, EXTENDED_GRAPHEME, EXTENDED_GRAPHEME, EXTENDED_GRAPHEME, EXTENDED_GRAPHEME, EXTENDED_GRAPHEME, EXTENDED_GRAPHEME,
    EXTENDED_GRAPHEME, EXTENDED_GRAPHEME, EXTENDED_GRAPHEME, EXTENDED_GRAPHEME, EXTENDED_GRAPHEME, EXTENDED_GRAPHEME, EXTENDED_GRAPHEME, EXTENDED_GRAPHEME,
    EXTENDED_GRAPHEME, EXTENDED_GRAPHEME, EXTENDED_GRAPHEME, EXTENDED_GRAPHEME, EXTENDED_GRAPHEME, EXTENDED_GRAPHEME, EXTENDED_GRAPHEME, EXTENDED_GRAPHEME,
    EXTENDED_GRAPHEME, EXTENDED_GRAPHEME, EXTENDED_GRAPHEME, EXTENDED_GRAPHEME, EXTENDED_GRAPHEME, EXTENDED_GRAPHEME, EXTENDED_GRAPHEME, EXTENDED_GRAPHEME,
    EXTENDED_GRAPHEME, EXTENDED_GRAPHEME, EXTENDED_GRAPHEME, EXTENDED_GRAPHEME, EXTENDED_GRAPHEME, EXTENDED_GRAPHEME, EXTENDED_GRAPHEME, EXTENDED_GRAPHEME,
    EXTENDED_GRAPHEME, EXTENDED_GRAPHEME, EXTENDED_GRAPHEME, EXTENDED_GRAPHEME, EXTENDED_GRAPHEME, EXTENDED_GRAPHEME, EXTENDED_GRAPHEME, EXTENDED_GRAPHEME,
    EXTENDED_GRAPHEME, EXTENDED_GRAPHEME, EXTENDED_GRAPHEME, EXTENDED_GRAPHEME, EXTENDED_GRAPHEME, EXTENDED_GRAPHEME, EXTENDED_GRAPHEME, EXTENDED_GRAPHEME,
    EXTENDED_GRAPHEME, EXTENDED_GRAPHEME, EXTENDED_GRAPHEME, EXTENDED_GRAPHEME, EXTENDED_GRAPHEME, EXTENDED_GRAPHEME, EXTENDED_GRAPHEME, EXTENDED_GRAPHEME,
    EXTENDED_GRAPHEME, EXTENDED_GRAPHEME, EXTENDED_GRAPHEME, EXTENDED_GRAPHEME, EXTENDED_GRAPHEME, EXTENDED_GRAPHEME, EXTENDED_GRAPHEME, EXTENDED_GRAPHEME,
    EXTENDED_GRAPHEME, EXTENDED_GRAPHEME, EXTENDED_GRAPHEME, EXTENDED_GRAPHEME, EXTENDED_GRAPHEME, EXTENDED_GRAPHEME, EXTENDED_GRAPHEME, EXTENDED_GRAPHEME,
];

#[verifier::opaque]
pub const GP_PAGE_94: [u8; 256] = [
    OTHER, OTHER, OTHER, OTHER, OTHER, OTHER, OTHER, OTHER,
    OTHER, OTHER, OTHER, OTHER, EXTENDED_GRAPHEME, EXTENDED_GRAPHEME, EXTENDED_GRAPHEME, EXTENDED_GRAPHEME,
    EXTENDED_GRAPHEME, EXTENDED_GRAPHEME, EXTENDED_GRAPHEME, EXTENDED_GRAPHEME, EXTENDED_GRAPHEME, EXTENDED_GRAPHEME, EXTENDED_GRAPHEME, EXTENDED_GRAPHEME,
    EXTENDED_GRAPHEME, EXTENDED_GRAPHEME, EXTENDED_GRAPHEME, EXTENDED_GRAPHEME, EXTENDED_GRAPHEME, EXTENDED_GRAPHEME, EXTENDED_GRAPHEME, EXTENDED_GRAPHEME,
    EXTENDED_GRAPHEME, EXTENDED_GRAPHEME, EXTENDED_GRAPHEME, EXTENDED_GRAPHEME, EXTENDED_GRAPHEME, EXTENDED_GRAPHEME, EXTENDED_GRAPHEME, EXTENDED_GRAPHEME,
    EXTENDED_GRAPHEME, EXTENDED_GRAPHEME, EXTENDED_GRAPHEME, EXTENDED_GRAPHEME, EXTENDED_GRAPHEME, EXTENDED_GRAPHEME, EXTENDED_GRAPHEME, EXTENDED_GRAPHEME,
    EXTENDED_GRAPHEME, EXTENDED_GRAPHEME, EXTENDED_GRAPHEME, EXTENDED_GRAPHEME, EXTENDED_GRAPHEME, EXTENDED_GRAPHEME, EXTENDED_GRAPHEME, EXTENDED_GRAPHEME,
    EXTENDED_GRAPHEME, EXTENDED_GRAPHEME, EXTENDED_GRAPHEME, OTHER, EXTENDED_GRAPHEME, EXTENDED_GRAPHEME, EXTENDED_GRAPHEME, EXTENDED_GRAPHEME,
    EXTENDED_GRAPHEME, EXTENDED_GRAPHEME, EXTENDED_GRAPHEME, EXTENDED_GRAPHEME, EXTENDED_GRAPHEME, EXTENDED_GRAPHEME, OTHER, EXTENDED_GRAPHEME,
    EXTENDED_GRAPHEME, EXTENDED_GRAPHEME, EXTENDED_GRAPHEME, EXTENDED_GRAPHEME, EXTENDED_GRAPHEME, EXTENDED_GRAPHEME, EXTENDED_GRAPHEME, EXTENDED_GRAPHEME,
    EXTENDED_GRAPHEME, EXTENDED_GRAPHEME, EXTENDED_GRAPHEME, EXTENDED_GRAPHEME, EXTENDED_GRAPHEME, EXTENDED_GRAPHEME, EXTENDED_GRAPHEME, EXTENDED_GRAPHEME,
    EXTENDED_GRAPHEME, EXTENDED_GRAPHEME, EXTENDED_GRAPHEME, EXTENDED_GRAPHEME, EXTENDED_GRAPHEME, EXTENDED_GRAPHEME, EXTENDED_GRAPHEME, EXTENDED_GRAPHEME,
    EXTENDED_GRAPHEME, EXTENDED_GRAPHEME, EXTENDED_GRAPHEME, EXTENDED_GRAPHEME, EXTENDED_GRAPHEME, EXTENDED_GRAPHEME, EXTENDED_GRAPHEME, EXTENDED_GRAPHEME,
    EXTENDED_GRAPHEME, EXTENDED_GRAPHEME, EXTENDED_GRAPHEME, EXTENDED_GRAPHEME, EXTENDED_GRAPHEME, EXTENDED_GRAPHEME, EXTENDED_GRAPHEME, EXTENDED_GRAPHEME,
    EXTENDED_GRAPHEME, EXTENDED_GRAPHEME, EXTENDED_GRAPHEME, EXTENDED_GRAPHEME, EXTENDED_GRAPHEME, EXTENDED_GRAPHEME, EXTENDED_GRAPHEME, EXTENDED_GRAPHEME,
    EXTENDED_GRAPHEME, EXTENDED_GRAPHEME, EXTENDED_GRAPHEME, EXTENDED_GRAPHEME, EXTENDED_GRAPHEME, EXTENDED_GRAPHEME, EXTENDED_GRAPHEME, EXTENDED_GRAPHEME,
    EXTENDED_GRAPHEME, EXTENDED_GRAPHEME, EXTENDED_GRAPHEME, EXTENDED_GRAPHEME, EXTENDED_GRAPHEME, EXTENDED_GRAPHEME, EXTENDED_GRAPHEME, EXTENDED_GRAPHEME,
    EXTENDED_GRAPHEME, EXTENDED_GRAPHEME, EXTENDED_GRAPHEME, EXTENDED_GRAPHEME, EXTENDED_GRAPHEME, EXTENDED_GRAPHEME, EXTENDED_GRAPHEME, EXTENDED_GRAPHEME,
    EXTENDED_GRAPHEME, EXTENDED_GRAPHEME, EXTENDED_GRAPHEME, EXTENDED_GRAPHEME, EXTENDED_GRAPHEME, EXTENDED_GRAPHEME, EXTENDED_GRAPHEME, EXTENDED_GRAPHEME,
    EXTENDED_GRAPHEME, EXTENDED_GRAPHEME, EXTENDED_GRAPHEME, EXTENDED_GRAPHEME, EXTENDED_GRAPHEME, EXTENDED_GRAPHEME, EXTENDED_GRAPHEME, EXTENDED_GRAPHEME,
    EXTENDED_GRAPHEME, EXTENDED_GRAPHEME, EXTENDED_GRAPHEME, EXTENDED_GRAPHEME, EXTENDED_GRAPHEME, EXTENDED_GRAPHEME, EXTENDED_GRAPHEME, EXTENDED_GRAPHEME,
    EXTENDED_GRAPHEME, EXTENDED_GRAPHEME, EXTENDED_GRAPHEME, EXTENDED_GRAPHEME, EXTENDED_GRAPHEME, EXTENDED_GRAPHEME, EXTENDED_GRAPHEME, EXTENDED_GRAPHEME,
    EXTENDED_GRAPHEME, EXTENDED_GRAPHEME, EXTENDED_GRAPHEME, EXTENDED_GRAPHEME, EXTENDED_GRAPHEME, EXTENDED_GRAPHEME, EXTENDED_GRAPHEME, EXTENDED_GRAPHEME,
    EXTENDED_GRAPHEME, EXTENDED_GRAPHEME, EXTENDED_GRAPHEME, EXTENDED_GRAPHEME, EXTENDED_GRAPHEME, EXTENDED_GRAPHEME, EXTENDED_GRAPHEME, EXTENDED_GRAPHEME,
    EXTENDED_GRAPHEME, EXTENDED_GRAPHEME, EXTENDED_GRAPHEME, EXTENDED_GRAPHEME, EXTENDED_GRAPHEME, EXTENDED_GRAPHEME, EXTENDED_GRAPHEME, EXTENDED_GRAPHEME,
    EXTENDED_GRAPHEME, EXTENDED_GRAPHEME, EXTENDED_GRAPHEME, EXTENDED_GRAPHEME, EXTENDED_GRAPHEME, EXTENDED_GRAPHEME, EXTENDED_GRAPHEME, EXTENDED_GRAPHEME,
    EXTENDED_GRAPHEME, EXTENDED_GRAPHEME, EXTENDED_GRAPHEME, EXTENDED_GRAPHEME, EXTENDED_GRAPHEME, EXTENDED_GRAPHEME, EXTENDED_GRAPHEME, EXTENDED_GRAPHEME,
    EXTENDED_GRAPHEME, EXTENDED_GRAPHEME, EXTENDED_GRAPHEME, EXTENDED_GRAPHEME, EXTENDED_GRAPHEME, EXTENDED_GRAPHEME, EXTENDED_GRAPHEME, EXTENDED_GRAPHEME,
    EXTENDED_GRAPHEME, EXTENDED_GRAPHEME, EXTENDED_GRAPHEME, EXTENDED_GRAPHEME, EXTENDED_GRAPHEME, EXTENDED_GRAPHEME, EXTENDED_GRAPHEME, EXTENDED_GRAPHEME,
    EXTENDED_GRAPHEME, EXTENDED_GRAPHEME, EXTENDED_GRAPHEME, EXTENDED_GRAPHEME, EXTENDED_GRAPHEME, EXTENDED_GRAPHEME, EXTENDED_GRAPHEME, EXTENDED_GRAPHEME,
    EXTENDED_GRAPHEME, EXTENDED_GRAPHEME, EXTENDED_GRAPHEME, EXTENDED_GRAPHEME, EXTENDED_GRAPHEME, EXTENDED_GRAPHEME, EXTENDED_GRAPHEME, EXTENDED_GRAPHEME,
    EXTENDED_GRAPHEME, EXTENDED_GRAPHEME, EXTENDED_GRAPHEME, EXTENDED_GRAPHEME, EXTENDED_GRAPHEME, EXTENDED_GRAPHEME, EXTENDED_GRAPHEME, EXTENDED_GRAPHEME,
];

#[verifier::opaque]
pub const GP_PAGE_95: [u8; 256] = [
    EXTENDED_GRAPHEME, EXTENDED_GRAPHEME, EXTENDED_GRAPHEME, EXTENDED_GRAPHEME, EXTENDED_GRAPHEME, EXTENDED_GRAPHEME, EXTENDED_GRAPHEME, EXTENDED_GRAPHEME,
    EXTENDED_GRAPHEME, EXTENDED_GRAPHEME, EXTENDED_GRAPHEME, EXTENDED_GRAPHEME, EXTENDED_GRAPHEME, EXTENDED_GRAPHEME, EXTENDED_GRAPHEME, EXTENDED_GRAPHEME,
    EXTENDED_GRAPHEME, EXTENDED_GRAPHEME, EXTENDED_GRAPHEME, EXTENDED_GRAPHEME, EXTENDED_GRAPHEME, EXTENDED_GRAPHEME, EXTENDED_GRAPHEME, EXTENDED_GRAPHEME,
    EXTENDED_GRAPHEME, EXTENDED_GRAPHEME, EXTENDED_GRAPHEME, EXTENDED_GRAPHEME, EXTENDED_GRAPHEME, EXTENDED_GRAPHEME, EXTENDED_GRAPHEME, EXTENDED_GRAPHEME,
    EXTENDED_GRAPHEME, EXTENDED_GRAPHEME, EXTENDED_GRAPHEME, EXTENDED_GRAPHEME, EXTENDED_GRAPHEME, EXTENDED_GRAPHEME, EXTENDED_GRAPHEME, EXTENDED_GRAPHEME,
    EXTENDED_GRAPHEME, EXTENDED_GRAPHEME, EXTENDED_GRAPHEME, EXTENDED_GRAPHEME, EXTENDED_GRAPHEME, EXTENDED_GRAPHEME, EXTENDED_GRAPHEME, EXTENDED_GRAPHEME,
    EXTENDED_GRAPHEME, EXTENDED_GRAPHEME, EXTENDED_GRAPHEME, EXTENDED_GRAPHEME, EXTENDED_GRAPHEME, EXTENDED_GRAPHEME, EXTENDED_GRAPHEME, EXTENDED_GRAPHEME,
    EXTENDED_GRAPHEME, EXTENDED_GRAPHEME, EXTENDED_GRAPHEME, EXTENDED_GRAPHEME, EXTENDED_GRAPHEME, EXTENDED_GRAPHEME, EXTENDED_GRAPHEME, EXTENDED_GRAPHEME,
    EXTENDED_GRAPHEME, EXTENDED_GRAPHEME, EXTENDED_GRAPHEME, EXTENDED_GRAPHEME, EXTENDED_GRAPHEME, EXTENDED_GRAPHEME, EXTENDED_GRAPHEME, EXTENDED_GRAPHEME,
    EXTENDED_GRAPHEME, EXTENDED_GRAPHEME, EXTENDED_GRAPHEME, EXTENDED_GRAPHEME, EXTENDED_GRAPHEME, EXTENDED_GRAPHEME, EXTENDED_GRAPHEME, EXTENDED_GRAPHEME,
    EXTENDED_GRAPHEME, EXTENDED_GRAPHEME, EXTENDED_GRAPHEME, EXTENDED_GRAPHEME, EXTENDED_GRAPHEME, EXTENDED_GRAPHEME, EXTENDED_GRAPHEME, EXTENDED_GRAPHEME,
    EXTENDED_GRAPHEME, EXTENDED_GRAPHEME, EXTENDED_GRAPHEME, EXTENDED_GRAPHEME, EXTENDED_GRAPHEME, EXTENDED_GRAPHEME, EXTENDED_GRAPHEME, EXTENDED_GRAPHEME,
    EXTENDED_GRAPHEME, EXTENDED_GRAPHEME, EXTENDED_GRAPHEME, EXTENDED_GRAPHEME, EXTENDED_GRAPHEME, EXTENDED_GRAPHEME, EXTENDED_GRAPHEME, EXTENDED_GRAPHEME,
    EXTENDED_GRAPHEME, EXTENDED_GRAPHEME, EXTENDED_GRAPHEME, EXTENDED_GRAPHEME, EXTENDED_GRAPHEME, EXTENDED_GRAPHEME, EXTENDED_GRAPHEME, EXTENDED_GRAPHEME,
    EXTENDED_GRAPHEME, EXTENDED_GRAPHEME, EXTENDED_GRAPHEME, EXTENDED_GRAPHEME, EXTENDED_GRAPHEME, EXTENDED_GRAPHEME, EXTENDED_GRAPHEME, EXTENDED_GRAPHEME,
    EXTENDED_GRAPHEME, EXTENDED_GRAPHEME, EXTENDED_GRAPHEME, EXTENDED_GRAPHEME, EXTENDED_GRAPHEME, EXTENDED_GRAPHEME, EXTENDED_GRAPHEME, EXTENDED_GRAPHEME,
    EXTENDED_GRAPHEME, EXTENDED_GRAPHEME, EXTENDED_GRAPHEME, EXTENDED_GRAPHEME, EXTENDED_GRAPHEME, EXTENDED_GRAPHEME, EXTENDED_GRAPHEME, EXTENDED_GRAPHEME,
    EXTENDED_GRAPHEME, EXTENDED_GRAPHEME, EXTENDED_GRAPHEME, EXTENDED_GRAPHEME, EXTENDED_GRAPHEME, EXTENDED_GRAPHEME, EXTENDED_GRAPHEME, EXTENDED_GRAPHEME,
    EXTENDED_GRAPHEME, EXTENDED_GRAPHEME, EXTENDED_GRAPHEME, EXTENDED_GRAPHEME, EXTENDED_GRAPHEME, EXTENDED_GRAPHEME, EXTENDED_GRAPHEME, EXTENDED_GRAPHEME,
    EXTENDED_GRAPHEME, EXTENDED_GRAPHEME, EXTENDED_GRAPHEME, EXTENDED_GRAPHEME, EXTENDED_GRAPHEME, EXTENDED_GRAPHEME, EXTENDED_GRAPHEME, EXTENDED_GRAPHEME,
    EXTENDED_GRAPHEME, EXTENDED_GRAPHEME, EXTENDED_GRAPHEME, EXTENDED_GRAPHEME, EXTENDED_GRAPHEME, EXTENDED_GRAPHEME, EXTENDED_GRAPHEME, EXTENDED_GRAPHEME,
    EXTENDED_GRAPHEME, EXTENDED_GRAPHEME, EXTENDED_GRAPHEME, EXTENDED_GRAPHEME, EXTENDED_GRAPHEME, EXTENDED_GRAPHEME, EXTENDED_GRAPHEME, EXTENDED_GRAPHEME,
    EXTENDED_GRAPHEME, EXTENDED_GRAPHEME, EXTENDED_GRAPHEME, EXTENDED_GRAPHEME, EXTENDED_GRAPHEME, EXTENDED_GRAPHEME, EXTENDED_GRAPHEME, EXTENDED_GRAPHEME,
    EXTENDED_GRAPHEME, EXTENDED_GRAPHEME, EXTENDED_GRAPHEME, EXTENDED_GRAPHEME, EXTENDED_GRAPHEME, EXTENDED_GRAPHEME, EXTENDED_GRAPHEME, EXTENDED_GRAPHEME,
    EXTENDED_GRAPHEME, EXTENDED_GRAPHEME, EXTENDED_GRAPHEME, EXTENDED_GRAPHEME, EXTENDED_GRAPHEME, EXTENDED_GRAPHEME, EXTENDED_GRAPHEME, EXTENDED_GRAPHEME,
    EXTENDED_GRAPHEME, EXTENDED_GRAPHEME, EXTENDED_GRAPHEME, EXTENDED_GRAPHEME, EXTENDED_GRAPHEME, EXTENDED_GRAPHEME, EXTENDED_GRAPHEME, EXTENDED_GRAPHEME,
    EXTENDED_GRAPHEME, EXTENDED_GRAPHEME, EXTENDED_GRAPHEME, EXTENDED_GRAPHEME, EXTENDED_GRAPHEME, EXTENDED_GRAPHEME, EXTENDED_GRAPHEME, EXTENDED_GRAPHEME,
    EXTENDED_GRAPHEME, EXTENDED_GRAPHEME, EXTENDED_GRAPHEME, EXTENDED_GRAPHEME, EXTENDED_GRAPHEME, EXTENDED_GRAPHEME, EXTENDED_GRAPHEME, EXTENDED_GRAPHEME,
    EXTENDED_GRAPHEME, EXTENDED_GRAPHEME, EXTENDED_GRAPHEME, EXTENDED_GRAPHEME, EXTENDED_GRAPHEME, EXTENDED_GRAPHEME, EXTENDED_GRAPHEME, EXTENDED_GRAPHEME,
    EXTENDED_GRAPHEME, EXTENDED_GRAPHEME, EXTENDED_GRAPHEME, EXTENDED_GRAPHEME, EXTENDED_GRAPHEME, EXTENDED_GRAPHEME, EXTENDED_GRAPHEME, EXTENDED_GRAPHEME,
    EXTENDED_GRAPHEME, EXTENDED_GRAPHEME, EXTENDED_GRAPHEME, EXTENDED_GRAPHEME, EXTENDED_GRAPHEME, EXTENDED_GRAPHEME, EXTENDED_GRAPHEME, EXTENDED_GRAPHEME,
    EXTENDED_GRAPHEME, EXTENDED_GRAPHEME, EXTENDED_GRAPHEME, EXTENDED_GRAPHEME, EXTENDED_GRAPHEME, EXTENDED_GRAPHEME, OTHER, OTHER,
];

#[verifier::opaque]
pub const GP_PAGE_96: [u8; 256] = [
    CONTROL, CONTROL, CONTROL, CONTROL, CONTROL, CONTROL, CONTROL, CONTROL,
    CONTROL, CONTROL, CONTROL, CONTROL, CONTROL, CONTROL, CONTROL, CONTROL,
    CONTROL, CONTROL, CONTROL, CONTROL, CONTROL, CONTROL, CONTROL, CONTROL,
    CONTROL, CONTROL, CONTROL, CONTROL, CONTROL, CONTROL, CONTROL, CONTROL,
    EXTEND, EXTEND, EXTEND, EXTEND, EXTEND, EXTEND, EXTEND, EXTEND,
    EXTEND, EXTEND, EXTEND, EXTEND, EXTEND, EXTEND, EXTEND, EXTEND,
    EXTEND, EXTEND, EXTEND, EXTEND, EXTEND, EXTEND, EXTEND, EXTEND,
    EXTEND, EXTEND, EXTEND, EXTEND, EXTEND, EXTEND, EXTEND, EXTEND,
    EXTEND, EXTEND, EXTEND, EXTEND, EXTEND, EXTEND, EXTEND, EXTEND,
    EXTEND, EXTEND, EXTEND, EXTEND, EXTEND, EXTEND, EXTEND, EXTEND,
    EXTEND, EXTEND, EXTEND, EXTEND, EXTEND, EXTEND, EXTEND, EXTEND,
    EXTEND, EXTEND, EXTEND, EXTEND, EXTEND, EXTEND, EXTEND, EXTEND,
    EXTEND, EXTEND, EXTEND, EXTEND, EXTEND, EXTEND, EXTEND, EXTEND,
    EXTEND, EXTEND, EXTEND, EXTEND, EXTEND, EXTEND, EXTEND, EXTEND,
    EXTEND, EXTEND, EXTEND, EXTEND, EXTEND, EXTEND, EXTEND, EXTEND,
    EXTEND, EXTEND, EXTEND, EXTEND, EXTEND, EXTEND, EXTEND, EXTEND,
    CONTROL, CONTROL, CONTROL, CONTROL, CONTROL, CONTROL, CONTROL, CONTROL,
    CONTROL, CONTROL, CONTROL, CONTROL, CONTROL, CONTROL, CONTROL, CONTROL,
    CONTROL, CONTROL, CONTROL, CONTROL, CONTROL, CONTROL, CONTROL, CONTROL,
    CONTROL, CONTROL, CONTROL, CONTROL, CONTROL, CONTROL, CONTROL, CONTROL,
    CONTROL, CONTROL, CONTROL, CONTROL, CONTROL, CONTROL, CONTROL, CONTROL,
    CONTROL, CONTROL, CONTROL, CONTROL, CONTROL, CONTROL, CONTROL, CONTROL,
    CONTROL, CONTROL, CONTROL, CONTROL, CONTROL, CONTROL, CONTROL, CONTROL,
    CONTROL, CONTROL, CONTROL, CONTROL, CONTROL, CONTROL, CONTROL, CONTROL,
    CONTROL, CONTROL, CONTROL, CONTROL, CONTROL, CONTROL, CONTROL, CONTROL,
    CONTROL, CONTROL, CONTROL, CONTROL, CONTROL, CONTROL, CONTROL, CONTROL,
    CONTROL, CONTROL, CONTROL, CONTROL, CONTROL, CONTROL, CONTROL, CONTROL,
    CONTROL, CONTROL, CONTROL, CONTROL, CONTROL, CONTROL, CONTROL, CONTROL,
    CONTROL, CONTROL, CONTROL, CONTROL, CONTROL, CONTROL, CONTROL, CONTROL,
    CONTROL, CONTROL, CONTROL, CONTROL, CONTROL, CONTROL, CONTROL, CONTROL,
    CONTROL, CONTROL, CONTROL, CONTROL, CONTROL, CONTROL, CONTROL, CONTROL,
    CONTROL, CONTROL, CONTROL, CONTROL, CONTROL, CONTROL, CONTROL, CONTROL,
];

#[verifier::opaque]
pub const GP_PAGE_97: [u8; 256] = [
    EXTEND, EXTEND, EXTEND, EXTEND, EXTEND, EXTEND, EXTEND, EXTEND,
    EXTEND, EXTEND, EXTEND, EXTEND, EXTEND, EXTEND, EXTEND, EXTEND,
    EXTEND, EXTEND, EXTEND, EXTEND, EXTEND, EXTEND, EXTEND, EXTEND,
    EXTEND, EXTEND, EXTEND, EXTEND, EXTEND, EXTEND, EXTEND, EXTEND,
    EXTEND, EXTEND, EXTEND, EXTEND, EXTEND, EXTEND, EXTEND, EXTEND,
    EXTEND, EXTEND, EXTEND, EXTEND, EXTEND, EXTEND, EXTEND, EXTEND,
    EXTEND, EXTEND, EXTEND, EXTEND, EXTEND, EXTEND, EXTEND, EXTEND,
    EXTEND, EXTEND, EXTEND, EXTEND, EXTEND, EXTEND, EXTEND, EXTEND,
    EXTEND, EXTEND, EXTEND, EXTEND, EXTEND, EXTEND, EXTEND, EXTEND,
    EXTEND, EXTEND, EXTEND, EXTEND, EXTEND, EXTEND, EXTEND, EXTEND,
    EXTEND, EXTEND, EXTEND, EXTEND, EXTEND, EXTEND, EXTEND, EXTEND,
    EXTEND, EXTEND, EXTEND, EXTEND, EXTEND, EXTEND, EXTEND, EXTEND,
    EXTEND, EXTEND, EXTEND, EXTEND, EXTEND, EXTEND, EXTEND, EXTEND,
    EXTEND, EXTEND, EXTEND, EXTEND, EXTEND, EXTEND, EXTEND, EXTEND,
    EXTEND, EXTEND, EXTEND, EXTEND, EXTEND, EXTEND, EXTEND, EXTEND,
    EXTEND, EXTEND, EXTEND, EXTEND, EXTEND, EXTEND, EXTEND, EXTEND,
    EXTEND, EXTEND, EXTEND, EXTEND, EXTEND, EXTEND, EXTEND, EXTEND,
    EXTEND, EXTEND, EXTEND, EXTEND, EXTEND, EXTEND, EXTEND, EXTEND,
    EXTEND, EXTEND, EXTEND, EXTEND, EXTEND, EXTEND, EXTEND, EXTEND,
    EXTEND, EXTEND, EXTEND, EXTEND, EXTEND, EXTEND, EXTEND, EXTEND,
    EXTEND, EXTEND, EXTEND, EXTEND, EXTEND, EXTEND, EXTEND, EXTEND,
    EXTEND, EXTEND, EXTEND, EXTEND, EXTEND, EXTEND, EXTEND, EXTEND,
    EXTEND, EXTEND, EXTEND, EXTEND, EXTEND, EXTEND, EXTEND, EXTEND,
    EXTEND, EXTEND, EXTEND, EXTEND, EXTEND, EXTEND, EXTEND, EXTEND,
    EXTEND, EXTEND, EXTEND, EXTEND, EXTEND, EXTEND, EXTEND, EXTEND,
    EXTEND, EXTEND, EXTEND, EXTEND, EXTEND, EXTEND, EXTEND, EXTEND,
    EXTEND, EXTEND, EXTEND, EXTEND, EXTEND, EXTEND, EXTEND, EXTEND,
    EXTEND, EXTEND, EXTEND, EXTEND, EXTEND, EXTEND, EXTEND, EXTEND,
    EXTEND, EXTEND, EXTEND, EXTEND, EXTEND, EXTEND, EXTEND, EXTEND,
    EXTEND, EXTEND, EXTEND, EXTEND, EXTEND, EXTEND, EXTEND, EXTEND,
    CONTROL, CONTROL, CONTROL, CONTROL, CONTROL, CONTROL, CONTROL, CONTROL,
    CONTROL, CONTROL, CONTROL, CONTROL, CONTROL, CONTROL, CONTROL, CONTROL,
];

} // verus!
