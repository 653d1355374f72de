//! General_Category of every scalar value (Unicode 14.0.0), as a paged table.

use vstd::prelude::*;

use crate::categories::GeneralCategory;
use crate::categories::GeneralCategory::{Lu, Ll, Lt, Lm, Lo, Mn, Mc, Me, Nd, Nl, No, Pc, Pd, Ps, Pe, Pi, Pf, Po, Sm, Sc, Sk, So, Zs, Zl, Zp, Cc, Cf, Cs, Co, Cn};

verus! {

/// A top-level entry for a page whose values all have category Mn.
pub const ALL_MN: u16 = 0x10;

/// A top-level entry for a page whose values all have category Sm.
pub const ALL_SM: u16 = 0x40;

/// A top-level entry for a page whose values all have category So.
pub const ALL_SO: u16 = 0x43;

/// A top-level entry for a page whose values all have category Cn.
pub const ALL_CN: u16 = 0x60;

/// A top-level entry for a page whose values all have category Cf.
pub const ALL_CF: u16 = 0x62;

/// A top-level entry for a page whose values all have category Cs.
pub const ALL_CS: u16 = 0x63;

/// A top-level entry for a page whose values all have category Co.
pub const ALL_CO: u16 = 0x64;

/// A top-level entry for a page whose values all have category Lm.
pub const ALL_LM: u16 = 0x83;

/// A top-level entry for a page whose values all have category Lo.
pub const ALL_LO: u16 = 0x84;

/// The top level, one row per plane of 0x10000 scalar values and one entry per page
/// of 256: below 0x100 the code of the whole page, else 0x100 plus the index of the
/// page in `CAT_PAGES`.
#[verifier::opaque]
pub const CAT_TABLE: [[u16; 256]; 17] = [
    CAT_PLANE_0,
    CAT_PLANE_1,
    CAT_PLANE_2,
    CAT_PLANE_3,
    CAT_PLANE_4,
    CAT_PLANE_5,
    CAT_PLANE_6,
    CAT_PLANE_7,
    CAT_PLANE_8,
    CAT_PLANE_9,
    CAT_PLANE_10,
    CAT_PLANE_11,
    CAT_PLANE_12,
    CAT_PLANE_13,
    CAT_PLANE_14,
    CAT_PLANE_15,
    CAT_PLANE_16,
];

#[verifier::opaque]
pub const CAT_PLANE_0: [u16; 256] = [
    0x100, 0x101, 0x102, 0x103, 0x104, 0x105, 0x106, 0x107,
    0x108, 0x109, 0x10a, 0x10b, 0x10c, 0x10d, 0x10e, 0x10f,
    0x110, ALL_LO, ALL_LO, 0x111, 0x112, ALL_LO, 0x113, 0x114,
    0x115, 0x116, 0x117, 0x118, 0x119, 0x11a, 0x11b, 0x11c,
    0x11d, 0x11e, ALL_SM, 0x11f, 0x120, 0x121, 0x122, 0x123,
    ALL_SO, 0x124, ALL_SM, 0x125, 0x126, 0x127, 0x128, ALL_SO,
    0x129, 0x12a, 0x12b, ALL_SO, ALL_LO, ALL_LO, ALL_LO, ALL_LO,
    ALL_LO, ALL_LO, ALL_LO, ALL_LO, ALL_LO, ALL_LO, ALL_LO, ALL_LO,
    ALL_LO, ALL_LO, ALL_LO, ALL_LO, ALL_LO, ALL_LO, ALL_LO, ALL_LO,
    ALL_LO, ALL_LO, ALL_LO, ALL_LO, ALL_LO, 0x12c, ALL_LO, ALL_LO,
    ALL_LO, ALL_LO, ALL_LO, ALL_LO, ALL_LO, ALL_LO, ALL_LO, ALL_LO,
    ALL_LO, ALL_LO, ALL_LO, ALL_LO, ALL_LO, ALL_LO, ALL_LO, ALL_LO,
    ALL_LO, ALL_LO, ALL_LO, ALL_LO, ALL_LO, ALL_LO, ALL_LO, ALL_LO,
    ALL_LO, ALL_LO, ALL_LO, ALL_LO, ALL_LO, ALL_LO, ALL_LO, ALL_LO,
    ALL_LO, ALL_LO, ALL_LO, ALL_LO, ALL_LO, ALL_LO, ALL_LO, ALL_LO,
    ALL_LO, ALL_LO, ALL_LO, ALL_LO, ALL_LO, ALL_LO, ALL_LO, ALL_LO,
    ALL_LO, ALL_LO, ALL_LO, ALL_LO, ALL_LO, ALL_LO, ALL_LO, ALL_LO,
    ALL_LO, ALL_LO, ALL_LO, ALL_LO, ALL_LO, ALL_LO, ALL_LO, ALL_LO,
    ALL_LO, ALL_LO, ALL_LO, ALL_LO, ALL_LO, ALL_LO, ALL_LO, ALL_LO,
    ALL_LO, ALL_LO, ALL_LO, ALL_LO, ALL_LO, ALL_LO, ALL_LO, ALL_LO,
    0x12d, ALL_LO, ALL_LO, ALL_LO, 0x12e, ALL_LO, 0x12f, 0x130,
    0x131, 0x132, 0x133, 0x134, ALL_LO, ALL_LO, ALL_LO, ALL_LO,
    ALL_LO, ALL_LO, ALL_LO, ALL_LO, ALL_LO, ALL_LO, ALL_LO, ALL_LO,
    ALL_LO, ALL_LO, ALL_LO, ALL_LO, ALL_LO, ALL_LO, ALL_LO, ALL_LO,
    ALL_LO, ALL_LO, ALL_LO, ALL_LO, ALL_LO, ALL_LO, ALL_LO, ALL_LO,
    ALL_LO, ALL_LO, ALL_LO, ALL_LO, ALL_LO, ALL_LO, ALL_LO, ALL_LO,
    ALL_LO, ALL_LO, ALL_LO, ALL_LO, ALL_LO, ALL_LO, ALL_LO, ALL_LO,
    ALL_CS, ALL_CS, ALL_CS, ALL_CS, ALL_CS, ALL_CS, ALL_CS, ALL_CS,
    ALL_CO, ALL_CO, ALL_CO, ALL_CO, ALL_CO, ALL_CO, ALL_CO, ALL_CO,
    ALL_CO, ALL_CO, ALL_CO, ALL_CO, ALL_CO, ALL_CO, ALL_CO, ALL_CO,
    ALL_CO, ALL_CO, ALL_CO, ALL_CO, ALL_CO, ALL_CO, ALL_CO, ALL_CO,
    ALL_CO, ALL_LO, ALL_LO, 0x135, ALL_LO, 0x136, 0x137, 0x138,
];

#[verifier::opaque]
pub const CAT_PLANE_1: [u16; 256] = [
    ALL_LO, 0x139, 0x13a, 0x13b, 0x13c, 0x13d, ALL_LO, 0x13e,
    0x13f, 0x140, 0x141, 0x142, 0x143, 0x144, 0x145, 0x146,
    0x147, 0x148, 0x149, 0x14a, 0x14b, 0x14c, 0x14d, 0x14e,
    0x14f, 0x150, 0x151, ALL_CN, 0x152, 0x153, 0x154, 0x155,
    ALL_LO, ALL_LO, ALL_LO, ALL_LO, 0x156, ALL_LO, ALL_CN, ALL_CN,
    ALL_CN, ALL_CN, ALL_CN, ALL_CN, ALL_CN, ALL_CN, ALL_CN, 0x157,
    ALL_LO, ALL_LO, ALL_LO, ALL_LO, 0x158, ALL_CN, ALL_CN, ALL_CN,
    ALL_CN, ALL_CN, ALL_CN, ALL_CN, ALL_CN, ALL_CN, ALL_CN, ALL_CN,
    ALL_CN, ALL_CN, ALL_CN, ALL_CN, ALL_LO, ALL_LO, ALL_LO, ALL_CN,
    ALL_CN, ALL_CN, ALL_CN, ALL_CN, ALL_CN, ALL_CN, ALL_CN, ALL_CN,
    ALL_CN, ALL_CN, ALL_CN, ALL_CN, ALL_CN, ALL_CN, ALL_CN, ALL_CN,
    ALL_CN, ALL_CN, ALL_CN, ALL_CN, ALL_CN, ALL_CN, ALL_CN, ALL_CN,
    ALL_CN, ALL_CN, ALL_CN, ALL_CN, ALL_CN, ALL_CN, ALL_CN, ALL_CN,
    ALL_LO, ALL_LO, 0x159, 0x15a, ALL_CN, ALL_CN, 0x15b, 0x15c,
    ALL_LO, ALL_LO, ALL_LO, ALL_LO, ALL_LO, ALL_LO, ALL_LO, ALL_LO,
    ALL_LO, ALL_LO, ALL_LO, ALL_LO, ALL_LO, ALL_LO, ALL_LO, ALL_LO,
    ALL_LO, ALL_LO, ALL_LO, ALL_LO, ALL_LO, ALL_LO, ALL_LO, ALL_LO,
    ALL_LO, ALL_LO, ALL_LO, ALL_LO, ALL_LO, ALL_LO, ALL_CN, ALL_CN,
    ALL_CN, ALL_CN, ALL_CN, ALL_CN, ALL_CN, ALL_CN, ALL_CN, ALL_CN,
    ALL_CN, ALL_CN, ALL_CN, ALL_CN, ALL_CN, ALL_CN, ALL_CN, ALL_CN,
    ALL_CN, ALL_CN, ALL_CN, ALL_CN, ALL_CN, ALL_CN, ALL_CN, ALL_CN,
    ALL_CN, ALL_CN, ALL_CN, ALL_CN, ALL_CN, ALL_CN, ALL_CN, ALL_LM,
    ALL_LO, ALL_LO, ALL_LO, ALL_CN, ALL_CN, ALL_CN, ALL_CN, ALL_CN,
    ALL_CN, ALL_CN, ALL_CN, ALL_CN, 0x15d, ALL_CN, ALL_CN, ALL_CN,
    ALL_CN, ALL_CN, ALL_CN, ALL_CN, ALL_CN, ALL_CN, ALL_CN, ALL_CN,
    ALL_CN, ALL_CN, ALL_CN, ALL_CN, ALL_CN, ALL_CN, ALL_CN, 0x15e,
    ALL_SO, 0x15f, 0x160, 0x161, 0x162, 0x163, 0x164, 0x165,
    ALL_SO, ALL_SO, 0x166, ALL_CN, ALL_CN, ALL_CN, ALL_CN, 0x167,
    ALL_MN, 0x168, 0x169, ALL_CN, ALL_CN, ALL_CN, ALL_CN, ALL_LO,
    0x16a, 0x16b, ALL_CN, ALL_CN, 0x16c, 0x16d, 0x16e, ALL_CN,
    ALL_SO, 0x16f, ALL_SO, 0x170, ALL_SO, ALL_SO, ALL_SO, ALL_SO,
    ALL_SO, ALL_SO, ALL_SO, 0x171, ALL_CN, ALL_CN, ALL_CN, ALL_CN,
];

#[verifier::opaque]
pub const CAT_PLANE_2: [u16; 256] = [
    ALL_LO, ALL_LO, ALL_LO, ALL_LO, ALL_LO, ALL_LO, ALL_LO, ALL_LO,
    ALL_LO, ALL_LO, ALL_LO, ALL_LO, ALL_LO, ALL_LO, ALL_LO, ALL_LO,
    ALL_LO, ALL_LO, ALL_LO, ALL_LO, ALL_LO, ALL_LO, ALL_LO, ALL_LO,
    ALL_LO, ALL_LO, ALL_LO, ALL_LO, ALL_LO, ALL_LO, ALL_LO, ALL_LO,
    ALL_LO, ALL_LO, ALL_LO, ALL_LO, ALL_LO, ALL_LO, ALL_LO, ALL_LO,
    ALL_LO, ALL_LO, ALL_LO, ALL_LO, ALL_LO, ALL_LO, ALL_LO, ALL_LO,
    ALL_LO, ALL_LO, ALL_LO, ALL_LO, ALL_LO, ALL_LO, ALL_LO, ALL_LO,
    ALL_LO, ALL_LO, ALL_LO, ALL_LO, ALL_LO, ALL_LO, ALL_LO, ALL_LO,
    ALL_LO, ALL_LO, ALL_LO, ALL_LO, ALL_LO, ALL_LO, ALL_LO, ALL_LO,
    ALL_LO, ALL_LO, ALL_LO, ALL_LO, ALL_LO, ALL_LO, ALL_LO, ALL_LO,
    ALL_LO, ALL_LO, ALL_LO, ALL_LO, ALL_LO, ALL_LO, ALL_LO, ALL_LO,
    ALL_LO, ALL_LO, ALL_LO, ALL_LO, ALL_LO, ALL_LO, ALL_LO, ALL_LO,
    ALL_LO, ALL_LO, ALL_LO, ALL_LO, ALL_LO, ALL_LO, ALL_LO, ALL_LO,
    ALL_LO, ALL_LO, ALL_LO, ALL_LO, ALL_LO, ALL_LO, ALL_LO, ALL_LO,
    ALL_LO, ALL_LO, ALL_LO, ALL_LO, ALL_LO, ALL_LO, ALL_LO, ALL_LO,
    ALL_LO, ALL_LO, ALL_LO, ALL_LO, ALL_LO, ALL_LO, ALL_LO, ALL_LO,
    ALL_LO, ALL_LO, ALL_LO, ALL_LO, ALL_LO, ALL_LO, ALL_LO, ALL_LO,
    ALL_LO, ALL_LO, ALL_LO, ALL_LO, ALL_LO, ALL_LO, ALL_LO, ALL_LO,
    ALL_LO, ALL_LO, ALL_LO, ALL_LO, ALL_LO, ALL_LO, ALL_LO, ALL_LO,
    ALL_LO, ALL_LO, ALL_LO, ALL_LO, ALL_LO, ALL_LO, ALL_LO, ALL_LO,
    ALL_LO, ALL_LO, ALL_LO, ALL_LO, ALL_LO, ALL_LO, ALL_LO, ALL_LO,
    ALL_LO, ALL_LO, ALL_LO, ALL_LO, ALL_LO, ALL_LO, ALL_LO, ALL_LO,
    ALL_LO, ALL_LO, ALL_LO, ALL_LO, ALL_LO, ALL_LO, ALL_LO, ALL_LO,
    ALL_LO, ALL_LO, ALL_LO, ALL_LO, ALL_LO, ALL_LO, ALL_LO, ALL_LO,
    ALL_LO, ALL_LO, ALL_LO, ALL_LO, ALL_LO, ALL_LO, ALL_LO, ALL_LO,
    ALL_LO, ALL_LO, ALL_LO, ALL_LO, ALL_LO, ALL_LO, ALL_LO, ALL_LO,
    ALL_LO, ALL_LO, ALL_LO, ALL_LO, ALL_LO, ALL_LO, ALL_LO, ALL_LO,
    ALL_LO, ALL_LO, ALL_LO, ALL_LO, ALL_LO, ALL_LO, ALL_LO, ALL_LO,
    ALL_LO, ALL_LO, ALL_LO, ALL_LO, ALL_LO, ALL_LO, ALL_LO, ALL_LO,
    ALL_LO, ALL_LO, ALL_LO, ALL_LO, ALL_CN, ALL_CN, ALL_CN, ALL_CN,
    ALL_CN, ALL_CN, ALL_CN, ALL_CN, ALL_CN, ALL_CN, ALL_CN, ALL_CN,
    ALL_LO, ALL_LO, ALL_LO, ALL_CN, ALL_CN, ALL_CN, ALL_CN, ALL_CN,
];

#[verifier::opaque]
pub const CAT_PLANE_3: [u16; 256] = [
    ALL_LO, ALL_LO, ALL_LO, ALL_LO, ALL_LO, ALL_LO, ALL_LO, ALL_LO,
    ALL_LO, ALL_LO, ALL_LO, ALL_LO, ALL_LO, ALL_LO, ALL_LO, ALL_LO,
    ALL_LO, ALL_LO, ALL_LO, ALL_LO, ALL_CN, ALL_CN, ALL_CN, ALL_CN,
    ALL_CN, ALL_CN, ALL_CN, ALL_CN, ALL_CN, ALL_CN, ALL_CN, ALL_CN,
    ALL_CN, ALL_CN, ALL_CN, ALL_CN, ALL_CN, ALL_CN, ALL_CN, ALL_CN,
    ALL_CN, ALL_CN, ALL_CN, ALL_CN, ALL_CN, ALL_CN, ALL_CN, ALL_CN,
    ALL_CN, ALL_CN, ALL_CN, ALL_CN, ALL_CN, ALL_CN, ALL_CN, ALL_CN,
    ALL_CN, ALL_CN, ALL_CN, ALL_CN, ALL_CN, ALL_CN, ALL_CN, ALL_CN,
    ALL_CN, ALL_CN, ALL_CN, ALL_CN, ALL_CN, ALL_CN, ALL_CN, ALL_CN,
    ALL_CN, ALL_CN, ALL_CN, ALL_CN, ALL_CN, ALL_CN, ALL_CN, ALL_CN,
    ALL_CN, ALL_CN, ALL_CN, ALL_CN, ALL_CN, ALL_CN, ALL_CN, ALL_CN,
    ALL_CN, ALL_CN, ALL_CN, ALL_CN, ALL_CN, ALL_CN, ALL_CN, ALL_CN,
    ALL_CN, ALL_CN, ALL_CN, ALL_CN, ALL_CN, ALL_CN, ALL_CN, ALL_CN,
    ALL_CN, ALL_CN, ALL_CN, ALL_CN, ALL_CN, ALL_CN, ALL_CN, ALL_CN,
    ALL_CN, ALL_CN, ALL_CN, ALL_CN, ALL_CN, ALL_CN, ALL_CN, ALL_CN,
    ALL_CN, ALL_CN, ALL_CN, ALL_CN, ALL_CN, ALL_CN, ALL_CN, ALL_CN,
    ALL_CN, ALL_CN, ALL_CN, ALL_CN, ALL_CN, ALL_CN, ALL_CN, ALL_CN,
    ALL_CN, ALL_CN, ALL_CN, ALL_CN, ALL_CN, ALL_CN, ALL_CN, ALL_CN,
    ALL_CN, ALL_CN, ALL_CN, ALL_CN, ALL_CN, ALL_CN, ALL_CN, ALL_CN,
    ALL_CN, ALL_CN, ALL_CN, ALL_CN, ALL_CN, ALL_CN, ALL_CN, ALL_CN,
    ALL_CN, ALL_CN, ALL_CN, ALL_CN, ALL_CN, ALL_CN, ALL_CN, ALL_CN,
    ALL_CN, ALL_CN, ALL_CN, ALL_CN, ALL_CN, ALL_CN, ALL_CN, ALL_CN,
    ALL_CN, ALL_CN, ALL_CN, ALL_CN, ALL_CN, ALL_CN, ALL_CN, ALL_CN,
    ALL_CN, ALL_CN, ALL_CN, ALL_CN, ALL_CN, ALL_CN, ALL_CN, ALL_CN,
    ALL_CN, ALL_CN, ALL_CN, ALL_CN, ALL_CN, ALL_CN, ALL_CN, ALL_CN,
    ALL_CN, ALL_CN, ALL_CN, ALL_CN, ALL_CN, ALL_CN, ALL_CN, ALL_CN,
    ALL_CN, ALL_CN, ALL_CN, ALL_CN, ALL_CN, ALL_CN, ALL_CN, ALL_CN,
    ALL_CN, ALL_CN, ALL_CN, ALL_CN, ALL_CN, ALL_CN, ALL_CN, ALL_CN,
    ALL_CN, ALL_CN, ALL_CN, ALL_CN, ALL_CN, ALL_CN, ALL_CN, ALL_CN,
    ALL_CN, ALL_CN, ALL_CN, ALL_CN, ALL_CN, ALL_CN, ALL_CN, ALL_CN,
    ALL_CN, ALL_CN, ALL_CN, ALL_CN, ALL_CN, ALL_CN, ALL_CN, ALL_CN,
    ALL_CN, ALL_CN, ALL_CN, ALL_CN, ALL_CN, ALL_CN, ALL_CN, ALL_CN,
];

#[verifier::opaque]
pub const CAT_PLANE_4: [u16; 256] = [
    ALL_CN, ALL_CN, ALL_CN, ALL_CN, ALL_CN, ALL_CN, ALL_CN, ALL_CN,
    ALL_CN, ALL_CN, ALL_CN, ALL_CN, ALL_CN, ALL_CN, ALL_CN, ALL_CN,
    ALL_CN, ALL_CN, ALL_CN, ALL_CN, ALL_CN, ALL_CN, ALL_CN, ALL_CN,
    ALL_CN, ALL_CN, ALL_CN, ALL_CN, ALL_CN, ALL_CN, ALL_CN, ALL_CN,
    ALL_CN, ALL_CN, ALL_CN, ALL_CN, ALL_CN, ALL_CN, ALL_CN, ALL_CN,
    ALL_CN, ALL_CN, ALL_CN, ALL_CN, ALL_CN, ALL_CN, ALL_CN, ALL_CN,
    ALL_CN, ALL_CN, ALL_CN, ALL_CN, ALL_CN, ALL_CN, ALL_CN, ALL_CN,
    ALL_CN, ALL_CN, ALL_CN, ALL_CN, ALL_CN, ALL_CN, ALL_CN, ALL_CN,
    ALL_CN, ALL_CN, ALL_CN, ALL_CN, ALL_CN, ALL_CN, ALL_CN, ALL_CN,
    ALL_CN, ALL_CN, ALL_CN, ALL_CN, ALL_CN, ALL_CN, ALL_CN, ALL_CN,
    ALL_CN, ALL_CN, ALL_CN, ALL_CN, ALL_CN, ALL_CN, ALL_CN, ALL_CN,
    ALL_CN, ALL_CN, ALL_CN, ALL_CN, ALL_CN, ALL_CN, ALL_CN, ALL_CN,
    ALL_CN, ALL_CN, ALL_CN, ALL_CN, ALL_CN, ALL_CN, ALL_CN, ALL_CN,
    ALL_CN, ALL_CN, ALL_CN, ALL_CN, ALL_CN, ALL_CN, ALL_CN, ALL_CN,
    ALL_CN, ALL_CN, ALL_CN, ALL_CN, ALL_CN, ALL_CN, ALL_CN, ALL_CN,
    ALL_CN, ALL_CN, ALL_CN, ALL_CN, ALL_CN, ALL_CN, ALL_CN, ALL_CN,
    ALL_CN, ALL_CN, ALL_CN, ALL_CN, ALL_CN, ALL_CN, ALL_CN, ALL_CN,
    ALL_CN, ALL_CN, ALL_CN, ALL_CN, ALL_CN, ALL_CN, ALL_CN, ALL_CN,
    ALL_CN, ALL_CN, ALL_CN, ALL_CN, ALL_CN, ALL_CN, ALL_CN, ALL_CN,
    ALL_CN, ALL_CN, ALL_CN, ALL_CN, ALL_CN, ALL_CN, ALL_CN, ALL_CN,
    ALL_CN, ALL_CN, ALL_CN, ALL_CN, ALL_CN, ALL_CN, ALL_CN, ALL_CN,
    ALL_CN, ALL_CN, ALL_CN, ALL_CN, ALL_CN, ALL_CN, ALL_CN, ALL_CN,
    ALL_CN, ALL_CN, ALL_CN, ALL_CN, ALL_CN, ALL_CN, ALL_CN, ALL_CN,
    ALL_CN, ALL_CN, ALL_CN, ALL_CN, ALL_CN, ALL_CN, ALL_CN, ALL_CN,
    ALL_CN, ALL_CN, ALL_CN, ALL_CN, ALL_CN, ALL_CN, ALL_CN, ALL_CN,
    ALL_CN, ALL_CN, ALL_CN, ALL_CN, ALL_CN, ALL_CN, ALL_CN, ALL_CN,
    ALL_CN, ALL_CN, ALL_CN, ALL_CN, ALL_CN, ALL_CN, ALL_CN, ALL_CN,
    ALL_CN, ALL_CN, ALL_CN, ALL_CN, ALL_CN, ALL_CN, ALL_CN, ALL_CN,
    ALL_CN, ALL_CN, ALL_CN, ALL_CN, ALL_CN, ALL_CN, ALL_CN, ALL_CN,
    ALL_CN, ALL_CN, ALL_CN, ALL_CN, ALL_CN, ALL_CN, ALL_CN, ALL_CN,
    ALL_CN, ALL_CN, ALL_CN, ALL_CN, ALL_CN, ALL_CN, ALL_CN, ALL_CN,
    ALL_CN, ALL_CN, ALL_CN, ALL_CN, ALL_CN, ALL_CN, ALL_CN, ALL_CN,
];

#[verifier::opaque]
pub const CAT_PLANE_5: [u16; 256] = [
    ALL_CN, ALL_CN, ALL_CN, ALL_CN, ALL_CN, ALL_CN, ALL_CN, ALL_CN,
    ALL_CN, ALL_CN, ALL_CN, ALL_CN, ALL_CN, ALL_CN, ALL_CN, ALL_CN,
    ALL_CN, ALL_CN, ALL_CN, ALL_CN, ALL_CN, ALL_CN, ALL_CN, ALL_CN,
    ALL_CN, ALL_CN, ALL_CN, ALL_CN, ALL_CN, ALL_CN, ALL_CN, ALL_CN,
    ALL_CN, ALL_CN, ALL_CN, ALL_CN, ALL_CN, ALL_CN, ALL_CN, ALL_CN,
    ALL_CN, ALL_CN, ALL_CN, ALL_CN, ALL_CN, ALL_CN, ALL_CN, ALL_CN,
    ALL_CN, ALL_CN, ALL_CN, ALL_CN, ALL_CN, ALL_CN, ALL_CN, ALL_CN,
    ALL_CN, ALL_CN, ALL_CN, ALL_CN, ALL_CN, ALL_CN, ALL_CN, ALL_CN,
    ALL_CN, ALL_CN, ALL_CN, ALL_CN, ALL_CN, ALL_CN, ALL_CN, ALL_CN,
    ALL_CN, ALL_CN, ALL_CN, ALL_CN, ALL_CN, ALL_CN, ALL_CN, ALL_CN,
    ALL_CN, ALL_CN, ALL_CN, ALL_CN, ALL_CN, ALL_CN, ALL_CN, ALL_CN,
    ALL_CN, ALL_CN, ALL_CN, ALL_CN, ALL_CN, ALL_CN, ALL_CN, ALL_CN,
    ALL_CN, ALL_CN, ALL_CN, ALL_CN, ALL_CN, ALL_CN, ALL_CN, ALL_CN,
    ALL_CN, ALL_CN, ALL_CN, ALL_CN, ALL_CN, ALL_CN, ALL_CN, ALL_CN,
    ALL_CN, ALL_CN, ALL_CN, ALL_CN, ALL_CN, ALL_CN, ALL_CN, ALL_CN,
    ALL_CN, ALL_CN, ALL_CN, ALL_CN, ALL_CN, ALL_CN, ALL_CN, ALL_CN,
    ALL_CN, ALL_CN, ALL_CN, ALL_CN, ALL_CN, ALL_CN, ALL_CN, ALL_CN,
    ALL_CN, ALL_CN, ALL_CN, ALL_CN, ALL_CN, ALL_CN, ALL_CN, ALL_CN,
    ALL_CN, ALL_CN, ALL_CN, ALL_CN, ALL_CN, ALL_CN, ALL_CN, ALL_CN,
    ALL_CN, ALL_CN, ALL_CN, ALL_CN, ALL_CN, ALL_CN, ALL_CN, ALL_CN,
    ALL_CN, ALL_CN, ALL_CN, ALL_CN, ALL_CN, ALL_CN, ALL_CN, ALL_CN,
    ALL_CN, ALL_CN, ALL_CN, ALL_CN, ALL_CN, ALL_CN, ALL_CN, ALL_CN,
    ALL_CN, ALL_CN, ALL_CN, ALL_CN, ALL_CN, ALL_CN, ALL_CN, ALL_CN,
    ALL_CN, ALL_CN, ALL_CN, ALL_CN, ALL_CN, ALL_CN, ALL_CN, ALL_CN,
    ALL_CN, ALL_CN, ALL_CN, ALL_CN, ALL_CN, ALL_CN, ALL_CN, ALL_CN,
    ALL_CN, ALL_CN, ALL_CN, ALL_CN, ALL_CN, ALL_CN, ALL_CN, ALL_CN,
    ALL_CN, ALL_CN, ALL_CN, ALL_CN, ALL_CN, ALL_CN, ALL_CN, ALL_CN,
    ALL_CN, ALL_CN, ALL_CN, ALL_CN, ALL_CN, ALL_CN, ALL_CN, ALL_CN,
    ALL_CN, ALL_CN, ALL_CN, ALL_CN, ALL_CN, ALL_CN, ALL_CN, ALL_CN,
    ALL_CN, ALL_CN, ALL_CN, ALL_CN, ALL_CN, ALL_CN, ALL_CN, ALL_CN,
    ALL_CN, ALL_CN, ALL_CN, ALL_CN, ALL_CN, ALL_CN, ALL_CN, ALL_CN,
    ALL_CN, ALL_CN, ALL_CN, ALL_CN, ALL_CN, ALL_CN, ALL_CN, ALL_CN,
];

#[verifier::opaque]
pub const CAT_PLANE_6: [u16; 256] = [
    ALL_CN, ALL_CN, ALL_CN, ALL_CN, ALL_CN, ALL_CN, ALL_CN, ALL_CN,
    ALL_CN, ALL_CN, ALL_CN, ALL_CN, ALL_CN, ALL_CN, ALL_CN, ALL_CN,
    ALL_CN, ALL_CN, ALL_CN, ALL_CN, ALL_CN, ALL_CN, ALL_CN, ALL_CN,
    ALL_CN, ALL_CN, ALL_CN, ALL_CN, ALL_CN, ALL_CN, ALL_CN, ALL_CN,
    ALL_CN, ALL_CN, ALL_CN, ALL_CN, ALL_CN, ALL_CN, ALL_CN, ALL_CN,
    ALL_CN, ALL_CN, ALL_CN, ALL_CN, ALL_CN, ALL_CN, ALL_CN, ALL_CN,
    ALL_CN, ALL_CN, ALL_CN, ALL_CN, ALL_CN, ALL_CN, ALL_CN, ALL_CN,
    ALL_CN, ALL_CN, ALL_CN, ALL_CN, ALL_CN, ALL_CN, ALL_CN, ALL_CN,
    ALL_CN, ALL_CN, ALL_CN, ALL_CN, ALL_CN, ALL_CN, ALL_CN, ALL_CN,
    ALL_CN, ALL_CN, ALL_CN, ALL_CN, ALL_CN, ALL_CN, ALL_CN, ALL_CN,
    ALL_CN, ALL_CN, ALL_CN, ALL_CN, ALL_CN, ALL_CN, ALL_CN, ALL_CN,
    ALL_CN, ALL_CN, ALL_CN, ALL_CN, ALL_CN, ALL_CN, ALL_CN, ALL_CN,
    ALL_CN, ALL_CN, ALL_CN, ALL_CN, ALL_CN, ALL_CN, ALL_CN, ALL_CN,
    ALL_CN, ALL_CN, ALL_CN, ALL_CN, ALL_CN, ALL_CN, ALL_CN, ALL_CN,
    ALL_CN, ALL_CN, ALL_CN, ALL_CN, ALL_CN, ALL_CN, ALL_CN, ALL_CN,
    ALL_CN, ALL_CN, ALL_CN, ALL_CN, ALL_CN, ALL_CN, ALL_CN, ALL_CN,
    ALL_CN, ALL_CN, ALL_CN, ALL_CN, ALL_CN, ALL_CN, ALL_CN, ALL_CN,
    ALL_CN, ALL_CN, ALL_CN, ALL_CN, ALL_CN, ALL_CN, ALL_CN, ALL_CN,
    ALL_CN, ALL_CN, ALL_CN, ALL_CN, ALL_CN, ALL_CN, ALL_CN, ALL_CN,
    ALL_CN, ALL_CN, ALL_CN, ALL_CN, ALL_CN, ALL_CN, ALL_CN, ALL_CN,
    ALL_CN, ALL_CN, ALL_CN, ALL_CN, ALL_CN, ALL_CN, ALL_CN, ALL_CN,
    ALL_CN, ALL_CN, ALL_CN, ALL_CN, ALL_CN, ALL_CN, ALL_CN, ALL_CN,
    ALL_CN, ALL_CN, ALL_CN, ALL_CN, ALL_CN, ALL_CN, ALL_CN, ALL_CN,
    ALL_CN, ALL_CN, ALL_CN, ALL_CN, ALL_CN, ALL_CN, ALL_CN, ALL_CN,
    ALL_CN, ALL_CN, ALL_CN, ALL_CN, ALL_CN, ALL_CN, ALL_CN, ALL_CN,
    ALL_CN, ALL_CN, ALL_CN, ALL_CN, ALL_CN, ALL_CN, ALL_CN, ALL_CN,
    ALL_CN, ALL_CN, ALL_CN, ALL_CN, ALL_CN, ALL_CN, ALL_CN, ALL_CN,
    ALL_CN, ALL_CN, ALL_CN, ALL_CN, ALL_CN, ALL_CN, ALL_CN, ALL_CN,
    ALL_CN, ALL_CN, ALL_CN, ALL_CN, ALL_CN, ALL_CN, ALL_CN, ALL_CN,
    ALL_CN, ALL_CN, ALL_CN, ALL_CN, ALL_CN, ALL_CN, ALL_CN, ALL_CN,
    ALL_CN, ALL_CN, ALL_CN, ALL_CN, ALL_CN, ALL_CN, ALL_CN, ALL_CN,
    ALL_CN, ALL_CN, ALL_CN, ALL_CN, ALL_CN, ALL_CN, ALL_CN, ALL_CN,
];

#[verifier::opaque]
pub const CAT_PLANE_7: [u16; 256] = [
    ALL_CN, ALL_CN, ALL_CN, ALL_CN, ALL_CN, ALL_CN, ALL_CN, ALL_CN,
    ALL_CN, ALL_CN, ALL_CN, ALL_CN, ALL_CN, ALL_CN, ALL_CN, ALL_CN,
    ALL_CN, ALL_CN, ALL_CN, ALL_CN, ALL_CN, ALL_CN, ALL_CN, ALL_CN,
    ALL_CN, ALL_CN, ALL_CN, ALL_CN, ALL_CN, ALL_CN, ALL_CN, ALL_CN,
    ALL_CN, ALL_CN, ALL_CN, ALL_CN, ALL_CN, ALL_CN, ALL_CN, ALL_CN,
    ALL_CN, ALL_CN, ALL_CN, ALL_CN, ALL_CN, ALL_CN, ALL_CN, ALL_CN,
    ALL_CN, ALL_CN, ALL_CN, ALL_CN, ALL_CN, ALL_CN, ALL_CN, ALL_CN,
    ALL_CN, ALL_CN, ALL_CN, ALL_CN, ALL_CN, ALL_CN, ALL_CN, ALL_CN,
    ALL_CN, ALL_CN, ALL_CN, ALL_CN, ALL_CN, ALL_CN, ALL_CN, ALL_CN,
    ALL_CN, ALL_CN, ALL_CN, ALL_CN, ALL_CN, ALL_CN, ALL_CN, ALL_CN,
    ALL_CN, ALL_CN, ALL_CN, ALL_CN, ALL_CN, ALL_CN, ALL_CN, ALL_CN,
    ALL_CN, ALL_CN, ALL_CN, ALL_CN, ALL_CN, ALL_CN, ALL_CN, ALL_CN,
    ALL_CN, ALL_CN, ALL_CN, ALL_CN, ALL_CN, ALL_CN, ALL_CN, ALL_CN,
    ALL_CN, ALL_CN, ALL_CN, ALL_CN, ALL_CN, ALL_CN, ALL_CN, ALL_CN,
    ALL_CN, ALL_CN, ALL_CN, ALL_CN, ALL_CN, ALL_CN, ALL_CN, ALL_CN,
    ALL_CN, ALL_CN, ALL_CN, ALL_CN, ALL_CN, ALL_CN, ALL_CN, ALL_CN,
    ALL_CN, ALL_CN, ALL_CN, ALL_CN, ALL_CN, ALL_CN, ALL_CN, ALL_CN,
    ALL_CN, ALL_CN, ALL_CN, ALL_CN, ALL_CN, ALL_CN, ALL_CN, ALL_CN,
    ALL_CN, ALL_CN, ALL_CN, ALL_CN, ALL_CN, ALL_CN, ALL_CN, ALL_CN,
    ALL_CN, ALL_CN, ALL_CN, ALL_CN, ALL_CN, ALL_CN, ALL_CN, ALL_CN,
    ALL_CN, ALL_CN, ALL_CN, ALL_CN, ALL_CN, ALL_CN, ALL_CN, ALL_CN,
    ALL_CN, ALL_CN, ALL_CN, ALL_CN, ALL_CN, ALL_CN, ALL_CN, ALL_CN,
    ALL_CN, ALL_CN, ALL_CN, ALL_CN, ALL_CN, ALL_CN, ALL_CN, ALL_CN,
    ALL_CN, ALL_CN, ALL_CN, ALL_CN, ALL_CN, ALL_CN, ALL_CN, ALL_CN,
    ALL_CN, ALL_CN, ALL_CN, ALL_CN, ALL_CN, ALL_CN, ALL_CN, ALL_CN,
    ALL_CN, ALL_CN, ALL_CN, ALL_CN, ALL_CN, ALL_CN, ALL_CN, ALL_CN,
    ALL_CN, ALL_CN, ALL_CN, ALL_CN, ALL_CN, ALL_CN, ALL_CN, ALL_CN,
    ALL_CN, ALL_CN, ALL_CN, ALL_CN, ALL_CN, ALL_CN, ALL_CN, ALL_CN,
    ALL_CN, ALL_CN, ALL_CN, ALL_CN, ALL_CN, ALL_CN, ALL_CN, ALL_CN,
    ALL_CN, ALL_CN, ALL_CN, ALL_CN, ALL_CN, ALL_CN, ALL_CN, ALL_CN,
    ALL_CN, ALL_CN, ALL_CN, ALL_CN, ALL_CN, ALL_CN, ALL_CN, ALL_CN,
    ALL_CN, ALL_CN, ALL_CN, ALL_CN, ALL_CN, ALL_CN, ALL_CN, ALL_CN,
];

#[verifier::opaque]
pub const CAT_PLANE_8: [u16; 256] = [
    ALL_CN, ALL_CN, ALL_CN, ALL_CN, ALL_CN, ALL_CN, ALL_CN, ALL_CN,
    ALL_CN, ALL_CN, ALL_CN, ALL_CN, ALL_CN, ALL_CN, ALL_CN, ALL_CN,
    ALL_CN, ALL_CN, ALL_CN, ALL_CN, ALL_CN, ALL_CN, ALL_CN, ALL_CN,
    ALL_CN, ALL_CN, ALL_CN, ALL_CN, ALL_CN, ALL_CN, ALL_CN, ALL_CN,
    ALL_CN, ALL_CN, ALL_CN, ALL_CN, ALL_CN, ALL_CN, ALL_CN, ALL_CN,
    ALL_CN, ALL_CN, ALL_CN, ALL_CN, ALL_CN, ALL_CN, ALL_CN, ALL_CN,
    ALL_CN, ALL_CN, ALL_CN, ALL_CN, ALL_CN, ALL_CN, ALL_CN, ALL_CN,
    ALL_CN, ALL_CN, ALL_CN, ALL_CN, ALL_CN, ALL_CN, ALL_CN, ALL_CN,
    ALL_CN, ALL_CN, ALL_CN, ALL_CN, ALL_CN, ALL_CN, ALL_CN, ALL_CN,
    ALL_CN, ALL_CN, ALL_CN, ALL_CN, ALL_CN, ALL_CN, ALL_CN, ALL_CN,
    ALL_CN, ALL_CN, ALL_CN, ALL_CN, ALL_CN, ALL_CN, ALL_CN, ALL_CN,
    ALL_CN, ALL_CN, ALL_CN, ALL_CN, ALL_CN, ALL_CN, ALL_CN, ALL_CN,
    ALL_CN, ALL_CN, ALL_CN, ALL_CN, ALL_CN, ALL_CN, ALL_CN, ALL_CN,
    ALL_CN, ALL_CN, ALL_CN, ALL_CN, ALL_CN, ALL_CN, ALL_CN, ALL_CN,
    ALL_CN, ALL_CN, ALL_CN, ALL_CN, ALL_CN, ALL_CN, ALL_CN, ALL_CN,
    ALL_CN, ALL_CN, ALL_CN, ALL_CN, ALL_CN, ALL_CN, ALL_CN, ALL_CN,
    ALL_CN, ALL_CN, ALL_CN, ALL_CN, ALL_CN, ALL_CN, ALL_CN, ALL_CN,
    ALL_CN, ALL_CN, ALL_CN, ALL_CN, ALL_CN, ALL_CN, ALL_CN, ALL_CN,
    ALL_CN, ALL_CN, ALL_CN, ALL_CN, ALL_CN, ALL_CN, ALL_CN, ALL_CN,
    ALL_CN, ALL_CN, ALL_CN, ALL_CN, ALL_CN, ALL_CN, ALL_CN, ALL_CN,
    ALL_CN, ALL_CN, ALL_CN, ALL_CN, ALL_CN, ALL_CN, ALL_CN, ALL_CN,
    ALL_CN, ALL_CN, ALL_CN, ALL_CN, ALL_CN, ALL_CN, ALL_CN, ALL_CN,
    ALL_CN, ALL_CN, ALL_CN, ALL_CN, ALL_CN, ALL_CN, ALL_CN, ALL_CN,
    ALL_CN, ALL_CN, ALL_CN, ALL_CN, ALL_CN, ALL_CN, ALL_CN, ALL_CN,
    ALL_CN, ALL_CN, ALL_CN, ALL_CN, ALL_CN, ALL_CN, ALL_CN, ALL_CN,
    ALL_CN, ALL_CN, ALL_CN, ALL_CN, ALL_CN, ALL_CN, ALL_CN, ALL_CN,
    ALL_CN, ALL_CN, ALL_CN, ALL_CN, ALL_CN, ALL_CN, ALL_CN, ALL_CN,
    ALL_CN, ALL_CN, ALL_CN, ALL_CN, ALL_CN, ALL_CN, ALL_CN, ALL_CN,
    ALL_CN, ALL_CN, ALL_CN, ALL_CN, ALL_CN, ALL_CN, ALL_CN, ALL_CN,
    ALL_CN, ALL_CN, ALL_CN, ALL_CN, ALL_CN, ALL_CN, ALL_CN, ALL_CN,
    ALL_CN, ALL_CN, ALL_CN, ALL_CN, ALL_CN, ALL_CN, ALL_CN, ALL_CN,
    ALL_CN, ALL_CN, ALL_CN, ALL_CN, ALL_CN, ALL_CN, ALL_CN, ALL_CN,
];

#[verifier::opaque]
pub const CAT_PLANE_9: [u16; 256] = [
    ALL_CN, ALL_CN, ALL_CN, ALL_CN, ALL_CN, ALL_CN, ALL_CN, ALL_CN,
    ALL_CN, ALL_CN, ALL_CN, ALL_CN, ALL_CN, ALL_CN, ALL_CN, ALL_CN,
    ALL_CN, ALL_CN, ALL_CN, ALL_CN, ALL_CN, ALL_CN, ALL_CN, ALL_CN,
    ALL_CN, ALL_CN, ALL_CN, ALL_CN, ALL_CN, ALL_CN, ALL_CN, ALL_CN,
    ALL_CN, ALL_CN, ALL_CN, ALL_CN, ALL_CN, ALL_CN, ALL_CN, ALL_CN,
    ALL_CN, ALL_CN, ALL_CN, ALL_CN, ALL_CN, ALL_CN, ALL_CN, ALL_CN,
    ALL_CN, ALL_CN, ALL_CN, ALL_CN, ALL_CN, ALL_CN, ALL_CN, ALL_CN,
    ALL_CN, ALL_CN, ALL_CN, ALL_CN, ALL_CN, ALL_CN, ALL_CN, ALL_CN,
    ALL_CN, ALL_CN, ALL_CN, ALL_CN, ALL_CN, ALL_CN, ALL_CN, ALL_CN,
    ALL_CN, ALL_CN, ALL_CN, ALL_CN, ALL_CN, ALL_CN, ALL_CN, ALL_CN,
    ALL_CN, ALL_CN, ALL_CN, ALL_CN, ALL_CN, ALL_CN, ALL_CN, ALL_CN,
    ALL_CN, ALL_CN, ALL_CN, ALL_CN, ALL_CN, ALL_CN, ALL_CN, ALL_CN,
    ALL_CN, ALL_CN, ALL_CN, ALL_CN, ALL_CN, ALL_CN, ALL_CN, ALL_CN,
    ALL_CN, ALL_CN, ALL_CN, ALL_CN, ALL_CN, ALL_CN, ALL_CN, ALL_CN,
    ALL_CN, ALL_CN, ALL_CN, ALL_CN, ALL_CN, ALL_CN, ALL_CN, ALL_CN,
    ALL_CN, ALL_CN, ALL_CN, ALL_CN, ALL_CN, ALL_CN, ALL_CN, ALL_CN,
    ALL_CN, ALL_CN, ALL_CN, ALL_CN, ALL_CN, ALL_CN, ALL_CN, ALL_CN,
    ALL_CN, ALL_CN, ALL_CN, ALL_CN, ALL_CN, ALL_CN, ALL_CN, ALL_CN,
    ALL_CN, ALL_CN, ALL_CN, ALL_CN, ALL_CN, ALL_CN, ALL_CN, ALL_CN,
    ALL_CN, ALL_CN, ALL_CN, ALL_CN, ALL_CN, ALL_CN, ALL_CN, ALL_CN,
    ALL_CN, ALL_CN, ALL_CN, ALL_CN, ALL_CN, ALL_CN, ALL_CN, ALL_CN,
    ALL_CN, ALL_CN, ALL_CN, ALL_CN, ALL_CN, ALL_CN, ALL_CN, ALL_CN,
    ALL_CN, ALL_CN, ALL_CN, ALL_CN, ALL_CN, ALL_CN, ALL_CN, ALL_CN,
    ALL_CN, ALL_CN, ALL_CN, ALL_CN, ALL_CN, ALL_CN, ALL_CN, ALL_CN,
    ALL_CN, ALL_CN, ALL_CN, ALL_CN, ALL_CN, ALL_CN, ALL_CN, ALL_CN,
    ALL_CN, ALL_CN, ALL_CN, ALL_CN, ALL_CN, ALL_CN, ALL_CN, ALL_CN,
    ALL_CN, ALL_CN, ALL_CN, ALL_CN, ALL_CN, ALL_CN, ALL_CN, ALL_CN,
    ALL_CN, ALL_CN, ALL_CN, ALL_CN, ALL_CN, ALL_CN, ALL_CN, ALL_CN,
    ALL_CN, ALL_CN, ALL_CN, ALL_CN, ALL_CN, ALL_CN, ALL_CN, ALL_CN,
    ALL_CN, ALL_CN, ALL_CN, ALL_CN, ALL_CN, ALL_CN, ALL_CN, ALL_CN,
    ALL_CN, ALL_CN, ALL_CN, ALL_CN, ALL_CN, ALL_CN, ALL_CN, ALL_CN,
    ALL_CN, ALL_CN, ALL_CN, ALL_CN, ALL_CN, ALL_CN, ALL_CN, ALL_CN,
];

#[verifier::opaque]
pub const CAT_PLANE_10: [u16; 256] = [
    ALL_CN, ALL_CN, ALL_CN, ALL_CN, ALL_CN, ALL_CN, ALL_CN, ALL_CN,
    ALL_CN, ALL_CN, ALL_CN, ALL_CN, ALL_CN, ALL_CN, ALL_CN, ALL_CN,
    ALL_CN, ALL_CN, ALL_CN, ALL_CN, ALL_CN, ALL_CN, ALL_CN, ALL_CN,
    ALL_CN, ALL_CN, ALL_CN, ALL_CN, ALL_CN, ALL_CN, ALL_CN, ALL_CN,
    ALL_CN, ALL_CN, ALL_CN, ALL_CN, ALL_CN, ALL_CN, ALL_CN, ALL_CN,
    ALL_CN, ALL_CN, ALL_CN, ALL_CN, ALL_CN, ALL_CN, ALL_CN, ALL_CN,
    ALL_CN, ALL_CN, ALL_CN, ALL_CN, ALL_CN, ALL_CN, ALL_CN, ALL_CN,
    ALL_CN, ALL_CN, ALL_CN, ALL_CN, ALL_CN, ALL_CN, ALL_CN, ALL_CN,
    ALL_CN, ALL_CN, ALL_CN, ALL_CN, ALL_CN, ALL_CN, ALL_CN, ALL_CN,
    ALL_CN, ALL_CN, ALL_CN, ALL_CN, ALL_CN, ALL_CN, ALL_CN, ALL_CN,
    ALL_CN, ALL_CN, ALL_CN, ALL_CN, ALL_CN, ALL_CN, ALL_CN, ALL_CN,
    ALL_CN, ALL_CN, ALL_CN, ALL_CN, ALL_CN, ALL_CN, ALL_CN, ALL_CN,
    ALL_CN, ALL_CN, ALL_CN, ALL_CN, ALL_CN, ALL_CN, ALL_CN, ALL_CN,
    ALL_CN, ALL_CN, ALL_CN, ALL_CN, ALL_CN, ALL_CN, ALL_CN, ALL_CN,
    ALL_CN, ALL_CN, ALL_CN, ALL_CN, ALL_CN, ALL_CN, ALL_CN, ALL_CN,
    ALL_CN, ALL_CN, ALL_CN, ALL_CN, ALL_CN, ALL_CN, ALL_CN, ALL_CN,
    ALL_CN, ALL_CN, ALL_CN, ALL_CN, ALL_CN, ALL_CN, ALL_CN, ALL_CN,
    ALL_CN, ALL_CN, ALL_CN, ALL_CN, ALL_CN, ALL_CN, ALL_CN, ALL_CN,
    ALL_CN, ALL_CN, ALL_CN, ALL_CN, ALL_CN, ALL_CN, ALL_CN, ALL_CN,
    ALL_CN, ALL_CN, ALL_CN, ALL_CN, ALL_CN, ALL_CN, ALL_CN, ALL_CN,
    ALL_CN, ALL_CN, ALL_CN, ALL_CN, ALL_CN, ALL_CN, ALL_CN, ALL_CN,
    ALL_CN, ALL_CN, ALL_CN, ALL_CN, ALL_CN, ALL_CN, ALL_CN, ALL_CN,
    ALL_CN, ALL_CN, ALL_CN, ALL_CN, ALL_CN, ALL_CN, ALL_CN, ALL_CN,
    ALL_CN, ALL_CN, ALL_CN, ALL_CN, ALL_CN, ALL_CN, ALL_CN, ALL_CN,
    ALL_CN, ALL_CN, ALL_CN, ALL_CN, ALL_CN, ALL_CN, ALL_CN, ALL_CN,
    ALL_CN, ALL_CN, ALL_CN, ALL_CN, ALL_CN, ALL_CN, ALL_CN, ALL_CN,
    ALL_CN, ALL_CN, ALL_CN, ALL_CN, ALL_CN, ALL_CN, ALL_CN, ALL_CN,
    ALL_CN, ALL_CN, ALL_CN, ALL_CN, ALL_CN, ALL_CN, ALL_CN, ALL_CN,
    ALL_CN, ALL_CN, ALL_CN, ALL_CN, ALL_CN, ALL_CN, ALL_CN, ALL_CN,
    ALL_CN, ALL_CN, ALL_CN, ALL_CN, ALL_CN, ALL_CN, ALL_CN, ALL_CN,
    ALL_CN, ALL_CN, ALL_CN, ALL_CN, ALL_CN, ALL_CN, ALL_CN, ALL_CN,
    ALL_CN, ALL_CN, ALL_CN, ALL_CN, ALL_CN, ALL_CN, ALL_CN, ALL_CN,
];

#[verifier::opaque]
pub const CAT_PLANE_11: [u16; 256] = [
    ALL_CN, ALL_CN, ALL_CN, ALL_CN, ALL_CN, ALL_CN, ALL_CN, ALL_CN,
    ALL_CN, ALL_CN, ALL_CN, ALL_CN, ALL_CN, ALL_CN, ALL_CN, ALL_CN,
    ALL_CN, ALL_CN, ALL_CN, ALL_CN, ALL_CN, ALL_CN, ALL_CN, ALL_CN,
    ALL_CN, ALL_CN, ALL_CN, ALL_CN, ALL_CN, ALL_CN, ALL_CN, ALL_CN,
    ALL_CN, ALL_CN, ALL_CN, ALL_CN, ALL_CN, ALL_CN, ALL_CN, ALL_CN,
    ALL_CN, ALL_CN, ALL_CN, ALL_CN, ALL_CN, ALL_CN, ALL_CN, ALL_CN,
    ALL_CN, ALL_CN, ALL_CN, ALL_CN, ALL_CN, ALL_CN, ALL_CN, ALL_CN,
    ALL_CN, ALL_CN, ALL_CN, ALL_CN, ALL_CN, ALL_CN, ALL_CN, ALL_CN,
    ALL_CN, ALL_CN, ALL_CN, ALL_CN, ALL_CN, ALL_CN, ALL_CN, ALL_CN,
    ALL_CN, ALL_CN, ALL_CN, ALL_CN, ALL_CN, ALL_CN, ALL_CN, ALL_CN,
    ALL_CN, ALL_CN, ALL_CN, ALL_CN, ALL_CN, ALL_CN, ALL_CN, ALL_CN,
    ALL_CN, ALL_CN, ALL_CN, ALL_CN, ALL_CN, ALL_CN, ALL_CN, ALL_CN,
    ALL_CN, ALL_CN, ALL_CN, ALL_CN, ALL_CN, ALL_CN, ALL_CN, ALL_CN,
    ALL_CN, ALL_CN, ALL_CN, ALL_CN, ALL_CN, ALL_CN, ALL_CN, ALL_CN,
    ALL_CN, ALL_CN, ALL_CN, ALL_CN, ALL_CN, ALL_CN, ALL_CN, ALL_CN,
    ALL_CN, ALL_CN, ALL_CN, ALL_CN, ALL_CN, ALL_CN, ALL_CN, ALL_CN,
    ALL_CN, ALL_CN, ALL_CN, ALL_CN, ALL_CN, ALL_CN, ALL_CN, ALL_CN,
    ALL_CN, ALL_CN, ALL_CN, ALL_CN, ALL_CN, ALL_CN, ALL_CN, ALL_CN,
    ALL_CN, ALL_CN, ALL_CN, ALL_CN, ALL_CN, ALL_CN, ALL_CN, ALL_CN,
    ALL_CN, ALL_CN, ALL_CN, ALL_CN, ALL_CN, ALL_CN, ALL_CN, ALL_CN,
    ALL_CN, ALL_CN, ALL_CN, ALL_CN, ALL_CN, ALL_CN, ALL_CN, ALL_CN,
    ALL_CN, ALL_CN, ALL_CN, ALL_CN, ALL_CN, ALL_CN, ALL_CN, ALL_CN,
    ALL_CN, ALL_CN, ALL_CN, ALL_CN, ALL_CN, ALL_CN, ALL_CN, ALL_CN,
    ALL_CN, ALL_CN, ALL_CN, ALL_CN, ALL_CN, ALL_CN, ALL_CN, ALL_CN,
    ALL_CN, ALL_CN, ALL_CN, ALL_CN, ALL_CN, ALL_CN, ALL_CN, ALL_CN,
    ALL_CN, ALL_CN, ALL_CN, ALL_CN, ALL_CN, ALL_CN, ALL_CN, ALL_CN,
    ALL_CN, ALL_CN, ALL_CN, ALL_CN, ALL_CN, ALL_CN, ALL_CN, ALL_CN,
    ALL_CN, ALL_CN, ALL_CN, ALL_CN, ALL_CN, ALL_CN, ALL_CN, ALL_CN,
    ALL_CN, ALL_CN, ALL_CN, ALL_CN, ALL_CN, ALL_CN, ALL_CN, ALL_CN,
    ALL_CN, ALL_CN, ALL_CN, ALL_CN, ALL_CN, ALL_CN, ALL_CN, ALL_CN,
    ALL_CN, ALL_CN, ALL_CN, ALL_CN, ALL_CN, ALL_CN, ALL_CN, ALL_CN,
    ALL_CN, ALL_CN, ALL_CN, ALL_CN, ALL_CN, ALL_CN, ALL_CN, ALL_CN,
];

#[verifier::opaque]
pub const CAT_PLANE_12: [u16; 256] = [
    ALL_CN, ALL_CN, ALL_CN, ALL_CN, ALL_CN, ALL_CN, ALL_CN, ALL_CN,
    ALL_CN, ALL_CN, ALL_CN, ALL_CN, ALL_CN, ALL_CN, ALL_CN, ALL_CN,
    ALL_CN, ALL_CN, ALL_CN, ALL_CN, ALL_CN, ALL_CN, ALL_CN, ALL_CN,
    ALL_CN, ALL_CN, ALL_CN, ALL_CN, ALL_CN, ALL_CN, ALL_CN, ALL_CN,
    ALL_CN, ALL_CN, ALL_CN, ALL_CN, ALL_CN, ALL_CN, ALL_CN, ALL_CN,
    ALL_CN, ALL_CN, ALL_CN, ALL_CN, ALL_CN, ALL_CN, ALL_CN, ALL_CN,
    ALL_CN, ALL_CN, ALL_CN, ALL_CN, ALL_CN, ALL_CN, ALL_CN, ALL_CN,
    ALL_CN, ALL_CN, ALL_CN, ALL_CN, ALL_CN, ALL_CN, ALL_CN, ALL_CN,
    ALL_CN, ALL_CN, ALL_CN, ALL_CN, ALL_CN, ALL_CN, ALL_CN, ALL_CN,
    ALL_CN, ALL_CN, ALL_CN, ALL_CN, ALL_CN, ALL_CN, ALL_CN, ALL_CN,
    ALL_CN, ALL_CN, ALL_CN, ALL_CN, ALL_CN, ALL_CN, ALL_CN, ALL_CN,
    ALL_CN, ALL_CN, ALL_CN, ALL_CN, ALL_CN, ALL_CN, ALL_CN, ALL_CN,
    ALL_CN, ALL_CN, ALL_CN, ALL_CN, ALL_CN, ALL_CN, ALL_CN, ALL_CN,
    ALL_CN, ALL_CN, ALL_CN, ALL_CN, ALL_CN, ALL_CN, ALL_CN, ALL_CN,
    ALL_CN, ALL_CN, ALL_CN, ALL_CN, ALL_CN, ALL_CN, ALL_CN, ALL_CN,
    ALL_CN, ALL_CN, ALL_CN, ALL_CN, ALL_CN, ALL_CN, ALL_CN, ALL_CN,
    ALL_CN, ALL_CN, ALL_CN, ALL_CN, ALL_CN, ALL_CN, ALL_CN, ALL_CN,
    ALL_CN, ALL_CN, ALL_CN, ALL_CN, ALL_CN, ALL_CN, ALL_CN, ALL_CN,
    ALL_CN, ALL_CN, ALL_CN, ALL_CN, ALL_CN, ALL_CN, ALL_CN, ALL_CN,
    ALL_CN, ALL_CN, ALL_CN, ALL_CN, ALL_CN, ALL_CN, ALL_CN, ALL_CN,
    ALL_CN, ALL_CN, ALL_CN, ALL_CN, ALL_CN, ALL_CN, ALL_CN, ALL_CN,
    ALL_CN, ALL_CN, ALL_CN, ALL_CN, ALL_CN, ALL_CN, ALL_CN, ALL_CN,
    ALL_CN, ALL_CN, ALL_CN, ALL_CN, ALL_CN, ALL_CN, ALL_CN, ALL_CN,
    ALL_CN, ALL_CN, ALL_CN, ALL_CN, ALL_CN, ALL_CN, ALL_CN, ALL_CN,
    ALL_CN, ALL_CN, ALL_CN, ALL_CN, ALL_CN, ALL_CN, ALL_CN, ALL_CN,
    ALL_CN, ALL_CN, ALL_CN, ALL_CN, ALL_CN, ALL_CN, ALL_CN, ALL_CN,
    ALL_CN, ALL_CN, ALL_CN, ALL_CN, ALL_CN, ALL_CN, ALL_CN, ALL_CN,
    ALL_CN, ALL_CN, ALL_CN, ALL_CN, ALL_CN, ALL_CN, ALL_CN, ALL_CN,
    ALL_CN, ALL_CN, ALL_CN, ALL_CN, ALL_CN, ALL_CN, ALL_CN, ALL_CN,
    ALL_CN, ALL_CN, ALL_CN, ALL_CN, ALL_CN, ALL_CN, ALL_CN, ALL_CN,
    ALL_CN, ALL_CN, ALL_CN, ALL_CN, ALL_CN, ALL_CN, ALL_CN, ALL_CN,
    ALL_CN, ALL_CN, ALL_CN, ALL_CN, ALL_CN, ALL_CN, ALL_CN, ALL_CN,
];

#[verifier::opaque]
pub const CAT_PLANE_13: [u16; 256] = [
    ALL_CN, ALL_CN, ALL_CN, ALL_CN, ALL_CN, ALL_CN, ALL_CN, ALL_CN,
    ALL_CN, ALL_CN, ALL_CN, ALL_CN, ALL_CN, ALL_CN, ALL_CN, ALL_CN,
    ALL_CN, ALL_CN, ALL_CN, ALL_CN, ALL_CN, ALL_CN, ALL_CN, ALL_CN,
    ALL_CN, ALL_CN, ALL_CN, ALL_CN, ALL_CN, ALL_CN, ALL_CN, ALL_CN,
    ALL_CN, ALL_CN, ALL_CN, ALL_CN, ALL_CN, ALL_CN, ALL_CN, ALL_CN,
    ALL_CN, ALL_CN, ALL_CN, ALL_CN, ALL_CN, ALL_CN, ALL_CN, ALL_CN,
    ALL_CN, ALL_CN, ALL_CN, ALL_CN, ALL_CN, ALL_CN, ALL_CN, ALL_CN,
    ALL_CN, ALL_CN, ALL_CN, ALL_CN, ALL_CN, ALL_CN, ALL_CN, ALL_CN,
    ALL_CN, ALL_CN, ALL_CN, ALL_CN, ALL_CN, ALL_CN, ALL_CN, ALL_CN,
    ALL_CN, ALL_CN, ALL_CN, ALL_CN, ALL_CN, ALL_CN, ALL_CN, ALL_CN,
    ALL_CN, ALL_CN, ALL_CN, ALL_CN, ALL_CN, ALL_CN, ALL_CN, ALL_CN,
    ALL_CN, ALL_CN, ALL_CN, ALL_CN, ALL_CN, ALL_CN, ALL_CN, ALL_CN,
    ALL_CN, ALL_CN, ALL_CN, ALL_CN, ALL_CN, ALL_CN, ALL_CN, ALL_CN,
    ALL_CN, ALL_CN, ALL_CN, ALL_CN, ALL_CN, ALL_CN, ALL_CN, ALL_CN,
    ALL_CN, ALL_CN, ALL_CN, ALL_CN, ALL_CN, ALL_CN, ALL_CN, ALL_CN,
    ALL_CN, ALL_CN, ALL_CN, ALL_CN, ALL_CN, ALL_CN, ALL_CN, ALL_CN,
    ALL_CN, ALL_CN, ALL_CN, ALL_CN, ALL_CN, ALL_CN, ALL_CN, ALL_CN,
    ALL_CN, ALL_CN, ALL_CN, ALL_CN, ALL_CN, ALL_CN, ALL_CN, ALL_CN,
    ALL_CN, ALL_CN, ALL_CN, ALL_CN, ALL_CN, ALL_CN, ALL_CN, ALL_CN,
    ALL_CN, ALL_CN, ALL_CN, ALL_CN, ALL_CN, ALL_CN, ALL_CN, ALL_CN,
    ALL_CN, ALL_CN, ALL_CN, ALL_CN, ALL_CN, ALL_CN, ALL_CN, ALL_CN,
    ALL_CN, ALL_CN, ALL_CN, ALL_CN, ALL_CN, ALL_CN, ALL_CN, ALL_CN,
    ALL_CN, ALL_CN, ALL_CN, ALL_CN, ALL_CN, ALL_CN, ALL_CN, ALL_CN,
    ALL_CN, ALL_CN, ALL_CN, ALL_CN, ALL_CN, ALL_CN, ALL_CN, ALL_CN,
    ALL_CN, ALL_CN, ALL_CN, ALL_CN, ALL_CN, ALL_CN, ALL_CN, ALL_CN,
    ALL_CN, ALL_CN, ALL_CN, ALL_CN, ALL_CN, ALL_CN, ALL_CN, ALL_CN,
    ALL_CN, ALL_CN, ALL_CN, ALL_CN, ALL_CN, ALL_CN, ALL_CN, ALL_CN,
    ALL_CN, ALL_CN, ALL_CN, ALL_CN, ALL_CN, ALL_CN, ALL_CN, ALL_CN,
    ALL_CN, ALL_CN, ALL_CN, ALL_CN, ALL_CN, ALL_CN, ALL_CN, ALL_CN,
    ALL_CN, ALL_CN, ALL_CN, ALL_CN, ALL_CN, ALL_CN, ALL_CN, ALL_CN,
    ALL_CN, ALL_CN, ALL_CN, ALL_CN, ALL_CN, ALL_CN, ALL_CN, ALL_CN,
    ALL_CN, ALL_CN, ALL_CN, ALL_CN, ALL_CN, ALL_CN, ALL_CN, ALL_CN,
];

#[verifier::opaque]
pub const CAT_PLANE_14: [u16; 256] = [
    ALL_CF, ALL_MN, ALL_CN, ALL_CN, ALL_CN, ALL_CN, ALL_CN, ALL_CN,
    ALL_CN, ALL_CN, ALL_CN, ALL_CN, ALL_CN, ALL_CN, ALL_CN, ALL_CN,
    ALL_CN, ALL_CN, ALL_CN, ALL_CN, ALL_CN, ALL_CN, ALL_CN, ALL_CN,
    ALL_CN, ALL_CN, ALL_CN, ALL_CN, ALL_CN, ALL_CN, ALL_CN, ALL_CN,
    ALL_CN, ALL_CN, ALL_CN, ALL_CN, ALL_CN, ALL_CN, ALL_CN, ALL_CN,
    ALL_CN, ALL_CN, ALL_CN, ALL_CN, ALL_CN, ALL_CN, ALL_CN, ALL_CN,
    ALL_CN, ALL_CN, ALL_CN, ALL_CN, ALL_CN, ALL_CN, ALL_CN, ALL_CN,
    ALL_CN, ALL_CN, ALL_CN, ALL_CN, ALL_CN, ALL_CN, ALL_CN, ALL_CN,
    ALL_CN, ALL_CN, ALL_CN, ALL_CN, ALL_CN, ALL_CN, ALL_CN, ALL_CN,
    ALL_CN, ALL_CN, ALL_CN, ALL_CN, ALL_CN, ALL_CN, ALL_CN, ALL_CN,
    ALL_CN, ALL_CN, ALL_CN, ALL_CN, ALL_CN, ALL_CN, ALL_CN, ALL_CN,
    ALL_CN, ALL_CN, ALL_CN, ALL_CN, ALL_CN, ALL_CN, ALL_CN, ALL_CN,
    ALL_CN, ALL_CN, ALL_CN, ALL_CN, ALL_CN, ALL_CN, ALL_CN, ALL_CN,
    ALL_CN, ALL_CN, ALL_CN, ALL_CN, ALL_CN, ALL_CN, ALL_CN, ALL_CN,
    ALL_CN, ALL_CN, ALL_CN, ALL_CN, ALL_CN, ALL_CN, ALL_CN, ALL_CN,
    ALL_CN, ALL_CN, ALL_CN, ALL_CN, ALL_CN, ALL_CN, ALL_CN, ALL_CN,
    ALL_CN, ALL_CN, ALL_CN, ALL_CN, ALL_CN, ALL_CN, ALL_CN, ALL_CN,
    ALL_CN, ALL_CN, ALL_CN, ALL_CN, ALL_CN, ALL_CN, ALL_CN, ALL_CN,
    ALL_CN, ALL_CN, ALL_CN, ALL_CN, ALL_CN, ALL_CN, ALL_CN, ALL_CN,
    ALL_CN, ALL_CN, ALL_CN, ALL_CN, ALL_CN, ALL_CN, ALL_CN, ALL_CN,
    ALL_CN, ALL_CN, ALL_CN, ALL_CN, ALL_CN, ALL_CN, ALL_CN, ALL_CN,
    ALL_CN, ALL_CN, ALL_CN, ALL_CN, ALL_CN, ALL_CN, ALL_CN, ALL_CN,
    ALL_CN, ALL_CN, ALL_CN, ALL_CN, ALL_CN, ALL_CN, ALL_CN, ALL_CN,
    ALL_CN, ALL_CN, ALL_CN, ALL_CN, ALL_CN, ALL_CN, ALL_CN, ALL_CN,
    ALL_CN, ALL_CN, ALL_CN, ALL_CN, ALL_CN, ALL_CN, ALL_CN, ALL_CN,
    ALL_CN, ALL_CN, ALL_CN, ALL_CN, ALL_CN, ALL_CN, ALL_CN, ALL_CN,
    ALL_CN, ALL_CN, ALL_CN, ALL_CN, ALL_CN, ALL_CN, ALL_CN, ALL_CN,
    ALL_CN, ALL_CN, ALL_CN, ALL_CN, ALL_CN, ALL_CN, ALL_CN, ALL_CN,
    ALL_CN, ALL_CN, ALL_CN, ALL_CN, ALL_CN, ALL_CN, ALL_CN, ALL_CN,
    ALL_CN, ALL_CN, ALL_CN, ALL_CN, ALL_CN, ALL_CN, ALL_CN, ALL_CN,
    ALL_CN, ALL_CN, ALL_CN, ALL_CN, ALL_CN, ALL_CN, ALL_CN, ALL_CN,
    ALL_CN, ALL_CN, ALL_CN, ALL_CN, ALL_CN, ALL_CN, ALL_CN, ALL_CN,
];

#[verifier::opaque]
pub const CAT_PLANE_15: [u16; 256] = [
    ALL_CO, ALL_CO, ALL_CO, ALL_CO, ALL_CO, ALL_CO, ALL_CO, ALL_CO,
    ALL_CO, ALL_CO, ALL_CO, ALL_CO, ALL_CO, ALL_CO, ALL_CO, ALL_CO,
    ALL_CO, ALL_CO, ALL_CO, ALL_CO, ALL_CO, ALL_CO, ALL_CO, ALL_CO,
    ALL_CO, ALL_CO, ALL_CO, ALL_CO, ALL_CO, ALL_CO, ALL_CO, ALL_CO,
    ALL_CO, ALL_CO, ALL_CO, ALL_CO, ALL_CO, ALL_CO, ALL_CO, ALL_CO,
    ALL_CO, ALL_CO, ALL_CO, ALL_CO, ALL_CO, ALL_CO, ALL_CO, ALL_CO,
    ALL_CO, ALL_CO, ALL_CO, ALL_CO, ALL_CO, ALL_CO, ALL_CO, ALL_CO,
    ALL_CO, ALL_CO, ALL_CO, ALL_CO, ALL_CO, ALL_CO, ALL_CO, ALL_CO,
    ALL_CO, ALL_CO, ALL_CO, ALL_CO, ALL_CO, ALL_CO, ALL_CO, ALL_CO,
    ALL_CO, ALL_CO, ALL_CO, ALL_CO, ALL_CO, ALL_CO, ALL_CO, ALL_CO,
    ALL_CO, ALL_CO, ALL_CO, ALL_CO, ALL_CO, ALL_CO, ALL_CO, ALL_CO,
    ALL_CO, ALL_CO, ALL_CO, ALL_CO, ALL_CO, ALL_CO, ALL_CO, ALL_CO,
    ALL_CO, ALL_CO, ALL_CO, ALL_CO, ALL_CO, ALL_CO, ALL_CO, ALL_CO,
    ALL_CO, ALL_CO, ALL_CO, ALL_CO, ALL_CO, ALL_CO, ALL_CO, ALL_CO,
    ALL_CO, ALL_CO, ALL_CO, ALL_CO, ALL_CO, ALL_CO, ALL_CO, ALL_CO,
    ALL_CO, ALL_CO, ALL_CO, ALL_CO, ALL_CO, ALL_CO, ALL_CO, ALL_CO,
    ALL_CO, ALL_CO, ALL_CO, ALL_CO, ALL_CO, ALL_CO, ALL_CO, ALL_CO,
    ALL_CO, ALL_CO, ALL_CO, ALL_CO, ALL_CO, ALL_CO, ALL_CO, ALL_CO,
    ALL_CO, ALL_CO, ALL_CO, ALL_CO, ALL_CO, ALL_CO, ALL_CO, ALL_CO,
    ALL_CO, ALL_CO, ALL_CO, ALL_CO, ALL_CO, ALL_CO, ALL_CO, ALL_CO,
    ALL_CO, ALL_CO, ALL_CO, ALL_CO, ALL_CO, ALL_CO, ALL_CO, ALL_CO,
    ALL_CO, ALL_CO, ALL_CO, ALL_CO, ALL_CO, ALL_CO, ALL_CO, ALL_CO,
    ALL_CO, ALL_CO, ALL_CO, ALL_CO, ALL_CO, ALL_CO, ALL_CO, ALL_CO,
    ALL_CO, ALL_CO, ALL_CO, ALL_CO, ALL_CO, ALL_CO, ALL_CO, ALL_CO,
    ALL_CO, ALL_CO, ALL_CO, ALL_CO, ALL_CO, ALL_CO, ALL_CO, ALL_CO,
    ALL_CO, ALL_CO, ALL_CO, ALL_CO, ALL_CO, ALL_CO, ALL_CO, ALL_CO,
    ALL_CO, ALL_CO, ALL_CO, ALL_CO, ALL_CO, ALL_CO, ALL_CO, ALL_CO,
    ALL_CO, ALL_CO, ALL_CO, ALL_CO, ALL_CO, ALL_CO, ALL_CO, ALL_CO,
    ALL_CO, ALL_CO, ALL_CO, ALL_CO, ALL_CO, ALL_CO, ALL_CO, ALL_CO,
    ALL_CO, ALL_CO, ALL_CO, ALL_CO, ALL_CO, ALL_CO, ALL_CO, ALL_CO,
    ALL_CO, ALL_CO, ALL_CO, ALL_CO, ALL_CO, ALL_CO, ALL_CO, ALL_CO,
    ALL_CO, ALL_CO, ALL_CO, ALL_CO, ALL_CO, ALL_CO, ALL_CO, ALL_CO,
];

#[verifier::opaque]
pub const CAT_PLANE_16: [u16; 256] = [
    ALL_CO, ALL_CO, ALL_CO, ALL_CO, ALL_CO, ALL_CO, ALL_CO, ALL_CO,
    ALL_CO, ALL_CO, ALL_CO, ALL_CO, ALL_CO, ALL_CO, ALL_CO, ALL_CO,
    ALL_CO, ALL_CO, ALL_CO, ALL_CO, ALL_CO, ALL_CO, ALL_CO, ALL_CO,
    ALL_CO, ALL_CO, ALL_CO, ALL_CO, ALL_CO, ALL_CO, ALL_CO, ALL_CO,
    ALL_CO, ALL_CO, ALL_CO, ALL_CO, ALL_CO, ALL_CO, ALL_CO, ALL_CO,
    ALL_CO, ALL_CO, ALL_CO, ALL_CO, ALL_CO, ALL_CO, ALL_CO, ALL_CO,
    ALL_CO, ALL_CO, ALL_CO, ALL_CO, ALL_CO, ALL_CO, ALL_CO, ALL_CO,
    ALL_CO, ALL_CO, ALL_CO, ALL_CO, ALL_CO, ALL_CO, ALL_CO, ALL_CO,
    ALL_CO, ALL_CO, ALL_CO, ALL_CO, ALL_CO, ALL_CO, ALL_CO, ALL_CO,
    ALL_CO, ALL_CO, ALL_CO, ALL_CO, ALL_CO, ALL_CO, ALL_CO, ALL_CO,
    ALL_CO, ALL_CO, ALL_CO, ALL_CO, ALL_CO, ALL_CO, ALL_CO, ALL_CO,
    ALL_CO, ALL_CO, ALL_CO, ALL_CO, ALL_CO, ALL_CO, ALL_CO, ALL_CO,
    ALL_CO, ALL_CO, ALL_CO, ALL_CO, ALL_CO, ALL_CO, ALL_CO, ALL_CO,
    ALL_CO, ALL_CO, ALL_CO, ALL_CO, ALL_CO, ALL_CO, ALL_CO, ALL_CO,
    ALL_CO, ALL_CO, ALL_CO, ALL_CO, ALL_CO, ALL_CO, ALL_CO, ALL_CO,
    ALL_CO, ALL_CO, ALL_CO, ALL_CO, ALL_CO, ALL_CO, ALL_CO, ALL_CO,
    ALL_CO, ALL_CO, ALL_CO, ALL_CO, ALL_CO, ALL_CO, ALL_CO, ALL_CO,
    ALL_CO, ALL_CO, ALL_CO, ALL_CO, ALL_CO, ALL_CO, ALL_CO, ALL_CO,
    ALL_CO, ALL_CO, ALL_CO, ALL_CO, ALL_CO, ALL_CO, ALL_CO, ALL_CO,
    ALL_CO, ALL_CO, ALL_CO, ALL_CO, ALL_CO, ALL_CO, ALL_CO, ALL_CO,
    ALL_CO, ALL_CO, ALL_CO, ALL_CO, ALL_CO, ALL_CO, ALL_CO, ALL_CO,
    ALL_CO, ALL_CO, ALL_CO, ALL_CO, ALL_CO, ALL_CO, ALL_CO, ALL_CO,
    ALL_CO, ALL_CO, ALL_CO, ALL_CO, ALL_CO, ALL_CO, ALL_CO, ALL_CO,
    ALL_CO, ALL_CO, ALL_CO, ALL_CO, ALL_CO, ALL_CO, ALL_CO, ALL_CO,
    ALL_CO, ALL_CO, ALL_CO, ALL_CO, ALL_CO, ALL_CO, ALL_CO, ALL_CO,
    ALL_CO, ALL_CO, ALL_CO, ALL_CO, ALL_CO, ALL_CO, ALL_CO, ALL_CO,
    ALL_CO, ALL_CO, ALL_CO, ALL_CO, ALL_CO, ALL_CO, ALL_CO, ALL_CO,
    ALL_CO, ALL_CO, ALL_CO, ALL_CO, ALL_CO, ALL_CO, ALL_CO, ALL_CO,
    ALL_CO, ALL_CO, ALL_CO, ALL_CO, ALL_CO, ALL_CO, ALL_CO, ALL_CO,
    ALL_CO, ALL_CO, ALL_CO, ALL_CO, ALL_CO, ALL_CO, ALL_CO, ALL_CO,
    ALL_CO, ALL_CO, ALL_CO, ALL_CO, ALL_CO, ALL_CO, ALL_CO, ALL_CO,
    ALL_CO, ALL_CO, ALL_CO, ALL_CO, ALL_CO, ALL_CO, ALL_CO, ALL_CO,
];

/// The distinct pages that `CAT_TABLE` refers to.
#[verifier::opaque]
pub const CAT_PAGES: [[GeneralCategory; 256]; 114] = [
    CAT_PAGE_0, CAT_PAGE_1, CAT_PAGE_2, CAT_PAGE_3, CAT_PAGE_4, CAT_PAGE_5, CAT_PAGE_6, CAT_PAGE_7,
    CAT_PAGE_8, CAT_PAGE_9, CAT_PAGE_10, CAT_PAGE_11, CAT_PAGE_12, CAT_PAGE_13, CAT_PAGE_14, CAT_PAGE_15,
    CAT_PAGE_16, CAT_PAGE_17, CAT_PAGE_18, CAT_PAGE_19, CAT_PAGE_20, CAT_PAGE_21, CAT_PAGE_22, CAT_PAGE_23,
    CAT_PAGE_24, CAT_PAGE_25, CAT_PAGE_26, CAT_PAGE_27, CAT_PAGE_28, CAT_PAGE_29, CAT_PAGE_30, CAT_PAGE_31,
    CAT_PAGE_32, CAT_PAGE_33, CAT_PAGE_34, CAT_PAGE_35, CAT_PAGE_36, CAT_PAGE_37, CAT_PAGE_38, CAT_PAGE_39,
    CAT_PAGE_40, CAT_PAGE_41, CAT_PAGE_42, CAT_PAGE_43, CAT_PAGE_44, CAT_PAGE_45, CAT_PAGE_46, CAT_PAGE_47,
    CAT_PAGE_48, CAT_PAGE_49, CAT_PAGE_50, CAT_PAGE_51, CAT_PAGE_52, CAT_PAGE_53, CAT_PAGE_54, CAT_PAGE_55,
    CAT_PAGE_56, CAT_PAGE_57, CAT_PAGE_58, CAT_PAGE_59, CAT_PAGE_60, CAT_PAGE_61, CAT_PAGE_62, CAT_PAGE_63,
    CAT_PAGE_64, CAT_PAGE_65, CAT_PAGE_66, CAT_PAGE_67, CAT_PAGE_68, CAT_PAGE_69, CAT_PAGE_70, CAT_PAGE_71,
    CAT_PAGE_72, CAT_PAGE_73, CAT_PAGE_74, CAT_PAGE_75, CAT_PAGE_76, CAT_PAGE_77, CAT_PAGE_78, CAT_PAGE_79,
    CAT_PAGE_80, CAT_PAGE_81, CAT_PAGE_82, CAT_PAGE_83, CAT_PAGE_84, CAT_PAGE_85, CAT_PAGE_86, CAT_PAGE_87,
    CAT_PAGE_88, CAT_PAGE_89, CAT_PAGE_90, CAT_PAGE_91, CAT_PAGE_92, CAT_PAGE_93, CAT_PAGE_94, CAT_PAGE_95,
    CAT_PAGE_96, CAT_PAGE_97, CAT_PAGE_98, CAT_PAGE_99, CAT_PAGE_100, CAT_PAGE_101, CAT_PAGE_102, CAT_PAGE_103,
    CAT_PAGE_104, CAT_PAGE_105, CAT_PAGE_106, CAT_PAGE_107, CAT_PAGE_108, CAT_PAGE_109, CAT_PAGE_110, CAT_PAGE_111,
    CAT_PAGE_112, CAT_PAGE_113,
];

#[verifier::opaque]
pub const CAT_PAGE_0: [GeneralCategory; 256] = [
    Cc, Cc, Cc, Cc, Cc, Cc, Cc, Cc, Cc, Cc, Cc, Cc, Cc, Cc, Cc, Cc,
    Cc, Cc, Cc, Cc, Cc, Cc, Cc, Cc, Cc, Cc, Cc, Cc, Cc, Cc, Cc, Cc,
    Zs, Po, Po, Po, Sc, Po, Po, Po, Ps, Pe, Po, Sm, Po, Pd, Po, Po,
    Nd, Nd, Nd, Nd, Nd, Nd, Nd, Nd, Nd, Nd, Po, Po, Sm, Sm, Sm, Po,
    Po, Lu, Lu, Lu, Lu, Lu, Lu, Lu, Lu, Lu, Lu, Lu, Lu, Lu, Lu, Lu,
    Lu, Lu, Lu, Lu, Lu, Lu, Lu, Lu, Lu, Lu, Lu, Ps, Po, Pe, Sk, Pc,
    Sk, Ll, Ll, Ll, Ll, Ll, Ll, Ll, Ll, Ll, Ll, Ll, Ll, Ll, Ll, Ll,
    Ll, Ll, Ll, Ll, Ll, Ll, Ll, Ll, Ll, Ll, Ll, Ps, Sm, Pe, Sm, Cc,
    Cc, Cc, Cc, Cc, Cc, Cc, Cc, Cc, Cc, Cc, Cc, Cc, Cc, Cc, Cc, Cc,
    Cc, Cc, Cc, Cc, Cc, Cc, Cc, Cc, Cc, Cc, Cc, Cc, Cc, Cc, Cc, Cc,
    Zs, Po, Sc, Sc, Sc, Sc, So, Po, Sk, So, Lo, Pi, Sm, Cf, So, Sk,
    So, Sm, No, No, Sk, Ll, Po, Po, Sk, No, Lo, Pf, No, No, No, Po,
    Lu, Lu, Lu, Lu, Lu, Lu, Lu, Lu, Lu, Lu, Lu, Lu, Lu, Lu, Lu, Lu,
    Lu, Lu, Lu, Lu, Lu, Lu, Lu, Sm, Lu, Lu, Lu, Lu, Lu, Lu, Lu, Ll,
    Ll, Ll, Ll, Ll, Ll, Ll, Ll, Ll, Ll, Ll, Ll, Ll, Ll, Ll, Ll, Ll,
    Ll, Ll, Ll, Ll, Ll, Ll, Ll, Sm, Ll, Ll, Ll, Ll, Ll, Ll, Ll, Ll,
];

#[verifier::opaque]
pub const CAT_PAGE_1: [GeneralCategory; 256] = [
    Lu, Ll, Lu, Ll, Lu, Ll, Lu, Ll, Lu, Ll, Lu, Ll, Lu, Ll, Lu, Ll,
    Lu, Ll, Lu, Ll, Lu, Ll, Lu, Ll, Lu, Ll, Lu, Ll, Lu, Ll, Lu, Ll,
    Lu, Ll, Lu, Ll, Lu, Ll, Lu, Ll, Lu, Ll, Lu, Ll, Lu, Ll, Lu, Ll,
    Lu, Ll, Lu, Ll, Lu, Ll, Lu, Ll, Ll, Lu, Ll, Lu, Ll, Lu, Ll, Lu,
    Ll, Lu, Ll, Lu, Ll, Lu, Ll, Lu, Ll, Ll, Lu, Ll, Lu, Ll, Lu, Ll,
    Lu, Ll, Lu, Ll, Lu, Ll, Lu, Ll, Lu, Ll, Lu, Ll, Lu, Ll, Lu, Ll,
    Lu, Ll, Lu, Ll, Lu, Ll, Lu, Ll, Lu, Ll, Lu, Ll, Lu, Ll, Lu, Ll,
    Lu, Ll, Lu, Ll, Lu, Ll, Lu, Ll, Lu, Lu, Ll, Lu, Ll, Lu, Ll, Ll,
    Ll, Lu, Lu, Ll, Lu, Ll, Lu, Lu, Ll, Lu, Lu, Lu, Ll, Ll, Lu, Lu,
    Lu, Lu, Ll, Lu, Lu, Ll, Lu, Lu, Lu, Ll, Ll, Ll, Lu, Lu, Ll, Lu,
    Lu, Ll, Lu, Ll, Lu, Ll, Lu, Lu, Ll, Lu, Ll, Ll, Lu, Ll, Lu, Lu,
    Ll, Lu, Lu, Lu, Ll, Lu, Ll, Lu, Lu, Ll, Ll, Lo, Lu, Ll, Ll, Ll,
    Lo, Lo, Lo, Lo, Lu, Lt, Ll, Lu, Lt, Ll, Lu, Lt, Ll, Lu, Ll, Lu,
    Ll, Lu, Ll, Lu, Ll, Lu, Ll, Lu, Ll, Lu, Ll, Lu, Ll, Ll, Lu, Ll,
    Lu, Ll, Lu, Ll, Lu, Ll, Lu, Ll, Lu, Ll, Lu, Ll, Lu, Ll, Lu, Ll,
    Ll, Lu, Lt, Ll, Lu, Ll, Lu, Lu, Lu, Ll, Lu, Ll, Lu, Ll, Lu, Ll,
];

#[verifier::opaque]
pub const CAT_PAGE_2: [GeneralCategory; 256] = [
    Lu, Ll, Lu, Ll, Lu, Ll, Lu, Ll, Lu, Ll, Lu, Ll, Lu, Ll, Lu, Ll,
    Lu, Ll, Lu, Ll, Lu, Ll, Lu, Ll, Lu, Ll, Lu, Ll, Lu, Ll, Lu, Ll,
    Lu, Ll, Lu, Ll, Lu, Ll, Lu, Ll, Lu, Ll, Lu, Ll, Lu, Ll, Lu, Ll,
    Lu, Ll, Lu, Ll, Ll, Ll, Ll, Ll, Ll, Ll, Lu, Lu, Ll, Lu, Lu, Ll,
    Ll, Lu, Ll, Lu, Lu, Lu, Lu, Ll, Lu, Ll, Lu, Ll, Lu, Ll, Lu, Ll,
    Ll, Ll, Ll, Ll, Ll, Ll, Ll, Ll, Ll, Ll, Ll, Ll, Ll, Ll, Ll, Ll,
    Ll, Ll, Ll, Ll, Ll, Ll, Ll, Ll, Ll, Ll, Ll, Ll, Ll, Ll, Ll, Ll,
    Ll, Ll, Ll, Ll, Ll, Ll, Ll, Ll, Ll, Ll, Ll, Ll, Ll, Ll, Ll, Ll,
    Ll, Ll, Ll, Ll, Ll, Ll, Ll, Ll, Ll, Ll, Ll, Ll, Ll, Ll, Ll, Ll,
    Ll, Ll, Ll, Ll, Lo, Ll, Ll, Ll, Ll, Ll, Ll, Ll, Ll, Ll, Ll, Ll,
    Ll, Ll, Ll, Ll, Ll, Ll, Ll, Ll, Ll, Ll, Ll, Ll, Ll, Ll, Ll, Ll,
    Lm, Lm, Lm, Lm, Lm, Lm, Lm, Lm, Lm, Lm, Lm, Lm, Lm, Lm, Lm, Lm,
    Lm, Lm, Sk, Sk, Sk, Sk, Lm, Lm, Lm, Lm, Lm, Lm, Lm, Lm, Lm, Lm,
    Lm, Lm, Sk, Sk, Sk, Sk, Sk, Sk, Sk, Sk, Sk, Sk, Sk, Sk, Sk, Sk,
    Lm, Lm, Lm, Lm, Lm, Sk, Sk, Sk, Sk, Sk, Sk, Sk, Lm, Sk, Lm, Sk,
    Sk, Sk, Sk, Sk, Sk, Sk, Sk, Sk, Sk, Sk, Sk, Sk, Sk, Sk, Sk, Sk,
];

#[verifier::opaque]
pub const CAT_PAGE_3: [GeneralCategory; 256] = [
    Mn, Mn, Mn, Mn, Mn, Mn, Mn, Mn, Mn, Mn, Mn, Mn, Mn, Mn, Mn, Mn,
    Mn, Mn, Mn, Mn, Mn, Mn, Mn, Mn, Mn, Mn, Mn, Mn, Mn, Mn, Mn, Mn,
    Mn, Mn, Mn, Mn, Mn, Mn, Mn, Mn, Mn, Mn, Mn, Mn, Mn, Mn, Mn, Mn,
    Mn, Mn, Mn, Mn, Mn, Mn, Mn, Mn, Mn, Mn, Mn, Mn, Mn, Mn, Mn, Mn,
    Mn, Mn, Mn, Mn, Mn, Mn, Mn, Mn, Mn, Mn, Mn, Mn, Mn, Mn, Mn, Mn,
    Mn, Mn, Mn, Mn, Mn, Mn, Mn, Mn, Mn, Mn, Mn, Mn, Mn, Mn, Mn, Mn,
    Mn, Mn, Mn, Mn, Mn, Mn, Mn, Mn, Mn, Mn, Mn, Mn, Mn, Mn, Mn, Mn,
    Lu, Ll, Lu, Ll, Lm, Sk, Lu, Ll, Cn, Cn, Lm, Ll, Ll, Ll, Po, Lu,
    Cn, Cn, Cn, Cn, Sk, Sk, Lu, Po, Lu, Lu, Lu, Cn, Lu, Cn, Lu, Lu,
    Ll, Lu, Lu, Lu, Lu, Lu, Lu, Lu, Lu, Lu, Lu, Lu, Lu, Lu, Lu, Lu,
    Lu, Lu, Cn, Lu, Lu, Lu, Lu, Lu, Lu, Lu, Lu, Lu, Ll, Ll, Ll, Ll,
    Ll, Ll, Ll, Ll, Ll, Ll, Ll, Ll, Ll, Ll, Ll, Ll, Ll, Ll, Ll, Ll,
    Ll, Ll, Ll, Ll, Ll, Ll, Ll, Ll, Ll, Ll, Ll, Ll, Ll, Ll, Ll, Lu,
    Ll, Ll, Lu, Lu, Lu, Ll, Ll, Ll, Lu, Ll, Lu, Ll, Lu, Ll, Lu, Ll,
    Lu, Ll, Lu, Ll, Lu, Ll, Lu, Ll, Lu, Ll, Lu, Ll, Lu, Ll, Lu, Ll,
    Ll, Ll, Ll, Ll, Lu, Ll, Sm, Lu, Ll, Lu, Lu, Ll, Ll, Lu, Lu, Lu,
];

#[verifier::opaque]
pub const CAT_PAGE_4: [GeneralCategory; 256] = [
    Lu, Lu, Lu, Lu, Lu, Lu, Lu, Lu, Lu, Lu, Lu, Lu, Lu, Lu, Lu, Lu,
    Lu, Lu, Lu, Lu, Lu, Lu, Lu, Lu, Lu, Lu, Lu, Lu, Lu, Lu, Lu, Lu,
    Lu, Lu, Lu, Lu, Lu, Lu, Lu, Lu, Lu, Lu, Lu, Lu, Lu, Lu, Lu, Lu,
    Ll, Ll, Ll, Ll, Ll, Ll, Ll, Ll, Ll, Ll, Ll, Ll, Ll, Ll, Ll, Ll,
    Ll, Ll, Ll, Ll, Ll, Ll, Ll, Ll, Ll, Ll, Ll, Ll, Ll, Ll, Ll, Ll,
    Ll, Ll, Ll, Ll, Ll, Ll, Ll, Ll, Ll, Ll, Ll, Ll, Ll, Ll, Ll, Ll,
    Lu, Ll, Lu, Ll, Lu, Ll, Lu, Ll, Lu, Ll, Lu, Ll, Lu, Ll, Lu, Ll,
    Lu, Ll, Lu, Ll, Lu, Ll, Lu, Ll, Lu, Ll, Lu, Ll, Lu, Ll, Lu, Ll,
    Lu, Ll, So, Mn, Mn, Mn, Mn, Mn, Me, Me, Lu, Ll, Lu, Ll, Lu, Ll,
    Lu, Ll, Lu, Ll, Lu, Ll, Lu, Ll, Lu, Ll, Lu, Ll, Lu, Ll, Lu, Ll,
    Lu, Ll, Lu, Ll, Lu, Ll, Lu, Ll, Lu, Ll, Lu, Ll, Lu, Ll, Lu, Ll,
    Lu, Ll, Lu, Ll, Lu, Ll, Lu, Ll, Lu, Ll, Lu, Ll, Lu, Ll, Lu, Ll,
    Lu, Lu, Ll, Lu, Ll, Lu, Ll, Lu, Ll, Lu, Ll, Lu, Ll, Lu, Ll, Ll,
    Lu, Ll, Lu, Ll, Lu, Ll, Lu, Ll, Lu, Ll, Lu, Ll, Lu, Ll, Lu, Ll,
    Lu, Ll, Lu, Ll, Lu, Ll, Lu, Ll, Lu, Ll, Lu, Ll, Lu, Ll, Lu, Ll,
    Lu, Ll, Lu, Ll, Lu, Ll, Lu, Ll, Lu, Ll, Lu, Ll, Lu, Ll, Lu, Ll,
];

#[verifier::opaque]
pub const CAT_PAGE_5: [GeneralCategory; 256] = [
    Lu, Ll, Lu, Ll, Lu, Ll, Lu, Ll, Lu, Ll, Lu, Ll, Lu, Ll, Lu, Ll,
    Lu, Ll, Lu, Ll, Lu, Ll, Lu, Ll, Lu, Ll, Lu, Ll, Lu, Ll, Lu, Ll,
    Lu, Ll, Lu, Ll, Lu, Ll, Lu, Ll, Lu, Ll, Lu, Ll, Lu, Ll, Lu, Ll,
    Cn, Lu, Lu, Lu, Lu, Lu, Lu, Lu, Lu, Lu, Lu, Lu, Lu, Lu, Lu, Lu,
    Lu, Lu, Lu, Lu, Lu, Lu, Lu, Lu, Lu, Lu, Lu, Lu, Lu, Lu, Lu, Lu,
    Lu, Lu, Lu, Lu, Lu, Lu, Lu, Cn, Cn, Lm, Po, Po, Po, Po, Po, Po,
    Ll, Ll, Ll, Ll, Ll, Ll, Ll, Ll, Ll, Ll, Ll, Ll, Ll, Ll, Ll, Ll,
    Ll, Ll, Ll, Ll, Ll, Ll, Ll, Ll, Ll, Ll, Ll, Ll, Ll, Ll, Ll, Ll,
    Ll, Ll, Ll, Ll, Ll, Ll, Ll, Ll, Ll, Po, Pd, Cn, Cn, So, So, Sc,
    Cn, Mn, Mn, Mn, Mn, Mn, Mn, Mn, Mn, Mn, Mn, Mn, Mn, Mn, Mn, Mn,
    Mn, Mn, Mn, Mn, Mn, Mn, Mn, Mn, Mn, Mn, Mn, Mn, Mn, Mn, Mn, Mn,
    Mn, Mn, Mn, Mn, Mn, Mn, Mn, Mn, Mn, Mn, Mn, Mn, Mn, Mn, Pd, Mn,
    Po, Mn, Mn, Po, Mn, Mn, Po, Mn, Cn, Cn, Cn, Cn, Cn, Cn, Cn, Cn,
    Lo, Lo, Lo, Lo, Lo, Lo, Lo, Lo, Lo, Lo, Lo, Lo, Lo, Lo, Lo, Lo,
    Lo, Lo, Lo, Lo, Lo, Lo, Lo, Lo, Lo, Lo, Lo, Cn, Cn, Cn, Cn, Lo,
    Lo, Lo, Lo, Po, Po, Cn, Cn, Cn, Cn, Cn, Cn, Cn, Cn, Cn, Cn, Cn,
];

#[verifier::opaque]
pub const CAT_PAGE_6: [GeneralCategory; 256] = [
    Cf, Cf, Cf, Cf, Cf, Cf, Sm, Sm, Sm, Po, Po, Sc, Po, Po, So, So,
    Mn, Mn, Mn, Mn, Mn, Mn, Mn, Mn, Mn, Mn, Mn, Po, Cf, Po, Po, Po,
    Lo, Lo, Lo, Lo, Lo, Lo, Lo, Lo, Lo, Lo, Lo, Lo, Lo, Lo, Lo, Lo,
    Lo, Lo, Lo, Lo, Lo, Lo, Lo, Lo, Lo, Lo, Lo, Lo, Lo, Lo, Lo, Lo,
    Lm, Lo, Lo, Lo, Lo, Lo, Lo, Lo, Lo, Lo, Lo, Mn, Mn, Mn, Mn, Mn,
    Mn, Mn, Mn, Mn, Mn, Mn, Mn, Mn, Mn, Mn, Mn, Mn, Mn, Mn, Mn, Mn,
    Nd, Nd, Nd, Nd, Nd, Nd, Nd, Nd, Nd, Nd, Po, Po, Po, Po, Lo, Lo,
    Mn, Lo, Lo, Lo, Lo, Lo, Lo, Lo, Lo, Lo, Lo, Lo, Lo, Lo, Lo, Lo,
    Lo, Lo, Lo, Lo, Lo, Lo, Lo, Lo, Lo, Lo, Lo, Lo, Lo, Lo, Lo, Lo,
    Lo, Lo, Lo, Lo, Lo, Lo, Lo, Lo, Lo, Lo, Lo, Lo, Lo, Lo, Lo, Lo,
    Lo, Lo, Lo, Lo, Lo, Lo, Lo, Lo, Lo, Lo, Lo, Lo, Lo, Lo, Lo, Lo,
    Lo, Lo, Lo, Lo, Lo, Lo, Lo, Lo, Lo, Lo, Lo, Lo, Lo, Lo, Lo, Lo,
    Lo, Lo, Lo, Lo, Lo, Lo, Lo, Lo, Lo, Lo, Lo, Lo, Lo, Lo, Lo, Lo,
    Lo, Lo, Lo, Lo, Po, Lo, Mn, Mn, Mn, Mn, Mn, Mn, Mn, Cf, So, Mn,
    Mn, Mn, Mn, Mn, Mn, Lm, Lm, Mn, Mn, So, Mn, Mn, Mn, Mn, Lo, Lo,
    Nd, Nd, Nd, Nd, Nd, Nd, Nd, Nd, Nd, Nd, Lo, Lo, Lo, So, So, Lo,
];

#[verifier::opaque]
pub const CAT_PAGE_7: [GeneralCategory; 256] = [
    Po, Po, Po, Po, Po, Po, Po, Po, Po, Po, Po, Po, Po, Po, Cn, Cf,
    Lo, Mn, Lo, Lo, Lo, Lo, Lo, Lo, Lo, Lo, Lo, Lo, Lo, Lo, Lo, Lo,
    Lo, Lo, Lo, Lo, Lo, Lo, Lo, Lo, Lo, Lo, Lo, Lo, Lo, Lo, Lo, Lo,
    Mn, Mn, Mn, Mn, Mn, Mn, Mn, Mn, Mn, Mn, Mn, Mn, Mn, Mn, Mn, Mn,
    Mn, Mn, Mn, Mn, Mn, Mn, Mn, Mn, Mn, Mn, Mn, Cn, Cn, Lo, Lo, Lo,
    Lo, Lo, Lo, Lo, Lo, Lo, Lo, Lo, Lo, Lo, Lo, Lo, Lo, Lo, Lo, Lo,
    Lo, Lo, Lo, Lo, Lo, Lo, Lo, Lo, Lo, Lo, Lo, Lo, Lo, Lo, Lo, Lo,
    Lo, Lo, Lo, Lo, Lo, Lo, Lo, Lo, Lo, Lo, Lo, Lo, Lo, Lo, Lo, Lo,
    Lo, Lo, Lo, Lo, Lo, Lo, Lo, Lo, Lo, Lo, Lo, Lo, Lo, Lo, Lo, Lo,
    Lo, Lo, Lo, Lo, Lo, Lo, Lo, Lo, Lo, Lo, Lo, Lo, Lo, Lo, Lo, Lo,
    Lo, Lo, Lo, Lo, Lo, Lo, Mn, Mn, Mn, Mn, Mn, Mn, Mn, Mn, Mn, Mn,
    Mn, Lo, Cn, Cn, Cn, Cn, Cn, Cn, Cn, Cn, Cn, Cn, Cn, Cn, Cn, Cn,
    Nd, Nd, Nd, Nd, Nd, Nd, Nd, Nd, Nd, Nd, Lo, Lo, Lo, Lo, Lo, Lo,
    Lo, Lo, Lo, Lo, Lo, Lo, Lo, Lo, Lo, Lo, Lo, Lo, Lo, Lo, Lo, Lo,
    Lo, Lo, Lo, Lo, Lo, Lo, Lo, Lo, Lo, Lo, Lo, Mn, Mn, Mn, Mn, Mn,
    Mn, Mn, Mn, Mn, Lm, Lm, So, Po, Po, Po, Lm, Cn, Cn, Mn, Sc, Sc,
];

#[verifier::opaque]
pub const CAT_PAGE_8: [GeneralCategory; 256] = [
    Lo, Lo, Lo, Lo, Lo, Lo, Lo, Lo, Lo, Lo, Lo, Lo, Lo, Lo, Lo, Lo,
    Lo, Lo, Lo, Lo, Lo, Lo, Mn, Mn, Mn, Mn, Lm, Mn, Mn, Mn, Mn, Mn,
    Mn, Mn, Mn, Mn, Lm, Mn, Mn, Mn, Lm, Mn, Mn, Mn, Mn, Mn, Cn, Cn,
    Po, Po, Po, Po, Po, Po, Po, Po, Po, Po, Po, Po, Po, Po, Po, Cn,
    Lo, Lo, Lo, Lo, Lo, Lo, Lo, Lo, Lo, Lo, Lo, Lo, Lo, Lo, Lo, Lo,
    Lo, Lo, Lo, Lo, Lo, Lo, Lo, Lo, Lo, Mn, Mn, Mn, Cn, Cn, Po, Cn,
    Lo, Lo, Lo, Lo, Lo, Lo, Lo, Lo, Lo, Lo, Lo, Cn, Cn, Cn, Cn, Cn,
    Lo, Lo, Lo, Lo, Lo, Lo, Lo, Lo, Lo, Lo, Lo, Lo, Lo, Lo, Lo, Lo,
    Lo, Lo, Lo, Lo, Lo, Lo, Lo, Lo, Sk, Lo, Lo, Lo, Lo, Lo, Lo, Cn,
    Cf, Cf, Cn, Cn, Cn, Cn, Cn, Cn, Mn, Mn, Mn, Mn, Mn, Mn, Mn, Mn,
    Lo, Lo, Lo, Lo, Lo, Lo, Lo, Lo, Lo, Lo, Lo, Lo, Lo, Lo, Lo, Lo,
    Lo, Lo, Lo, Lo, Lo, Lo, Lo, Lo, Lo, Lo, Lo, Lo, Lo, Lo, Lo, Lo,
    Lo, Lo, Lo, Lo, Lo, Lo, Lo, Lo, Lo, Lm, Mn, Mn, Mn, Mn, Mn, Mn,
    Mn, Mn, Mn, Mn, Mn, Mn, Mn, Mn, Mn, Mn, Mn, Mn, Mn, Mn, Mn, Mn,
    Mn, Mn, Cf, Mn, Mn, Mn, Mn, Mn, Mn, Mn, Mn, Mn, Mn, Mn, Mn, Mn,
    Mn, Mn, Mn, Mn, Mn, Mn, Mn, Mn, Mn, Mn, Mn, Mn, Mn, Mn, Mn, Mn,
];

#[verifier::opaque]
pub const CAT_PAGE_9: [GeneralCategory; 256] = [
    Mn, Mn, Mn, Mc, Lo, Lo, Lo, Lo, Lo, Lo, Lo, Lo, Lo, Lo, Lo, Lo,
    Lo, Lo, Lo, Lo, Lo, Lo, Lo, Lo, Lo, Lo, Lo, Lo, Lo, Lo, Lo, Lo,
    Lo, Lo, Lo, Lo, Lo, Lo, Lo, Lo, Lo, Lo, Lo, Lo, Lo, Lo, Lo, Lo,
    Lo, Lo, Lo, Lo, Lo, Lo, Lo, Lo, Lo, Lo, Mn, Mc, Mn, Lo, Mc, Mc,
    Mc, Mn, Mn, Mn, Mn, Mn, Mn, Mn, Mn, Mc, Mc, Mc, Mc, Mn, Mc, Mc,
    Lo, Mn, Mn, Mn, Mn, Mn, Mn, Mn, Lo, Lo, Lo, Lo, Lo, Lo, Lo, Lo,
    Lo, Lo, Mn, Mn, Po, Po, Nd, Nd, Nd, Nd, Nd, Nd, Nd, Nd, Nd, Nd,
    Po, Lm, Lo, Lo, Lo, Lo, Lo, Lo, Lo, Lo, Lo, Lo, Lo, Lo, Lo, Lo,
    Lo, Mn, Mc, Mc, Cn, Lo, Lo, Lo, Lo, Lo, Lo, Lo, Lo, Cn, Cn, Lo,
    Lo, Cn, Cn, Lo, Lo, Lo, Lo, Lo, Lo, Lo, Lo, Lo, Lo, Lo, Lo, Lo,
    Lo, Lo, Lo, Lo, Lo, Lo, Lo, Lo, Lo, Cn, Lo, Lo, Lo, Lo, Lo, Lo,
    Lo, Cn, Lo, Cn, Cn, Cn, Lo, Lo, Lo, Lo, Cn, Cn, Mn, Lo, Mc, Mc,
    Mc, Mn, Mn, Mn, Mn, Cn, Cn, Mc, Mc, Cn, Cn, Mc, Mc, Mn, Lo, Cn,
    Cn, Cn, Cn, Cn, Cn, Cn, Cn, Mc, Cn, Cn, Cn, Cn, Lo, Lo, Cn, Lo,
    Lo, Lo, Mn, Mn, Cn, Cn, Nd, Nd, Nd, Nd, Nd, Nd, Nd, Nd, Nd, Nd,
    Lo, Lo, Sc, Sc, No, No, No, No, No, No, So, Sc, Lo, Po, Mn, Cn,
];

#[verifier::opaque]
pub const CAT_PAGE_10: [GeneralCategory; 256] = [
    Cn, Mn, Mn, Mc, Cn, Lo, Lo, Lo, Lo, Lo, Lo, Cn, Cn, Cn, Cn, Lo,
    Lo, Cn, Cn, Lo, Lo, Lo, Lo, Lo, Lo, Lo, Lo, Lo, Lo, Lo, Lo, Lo,
    Lo, Lo, Lo, Lo, Lo, Lo, Lo, Lo, Lo, Cn, Lo, Lo, Lo, Lo, Lo, Lo,
    Lo, Cn, Lo, Lo, Cn, Lo, Lo, Cn, Lo, Lo, Cn, Cn, Mn, Cn, Mc, Mc,
    Mc, Mn, Mn, Cn, Cn, Cn, Cn, Mn, Mn, Cn, Cn, Mn, Mn, Mn, Cn, Cn,
    Cn, Mn, Cn, Cn, Cn, Cn, Cn, Cn, Cn, Lo, Lo, Lo, Lo, Cn, Lo, Cn,
    Cn, Cn, Cn, Cn, Cn, Cn, Nd, Nd, Nd, Nd, Nd, Nd, Nd, Nd, Nd, Nd,
    Mn, Mn, Lo, Lo, Lo, Mn, Po, Cn, Cn, Cn, Cn, Cn, Cn, Cn, Cn, Cn,
    Cn, Mn, Mn, Mc, Cn, Lo, Lo, Lo, Lo, Lo, Lo, Lo, Lo, Lo, Cn, Lo,
    Lo, Lo, Cn, Lo, Lo, Lo, Lo, Lo, Lo, Lo, Lo, Lo, Lo, Lo, Lo, Lo,
    Lo, Lo, Lo, Lo, Lo, Lo, Lo, Lo, Lo, Cn, Lo, Lo, Lo, Lo, Lo, Lo,
    Lo, Cn, Lo, Lo, Cn, Lo, Lo, Lo, Lo, Lo, Cn, Cn, Mn, Lo, Mc, Mc,
    Mc, Mn, Mn, Mn, Mn, Mn, Cn, Mn, Mn, Mc, Cn, Mc, Mc, Mn, Cn, Cn,
    Lo, Cn, Cn, Cn, Cn, Cn, Cn, Cn, Cn, Cn, Cn, Cn, Cn, Cn, Cn, Cn,
    Lo, Lo, Mn, Mn, Cn, Cn, Nd, Nd, Nd, Nd, Nd, Nd, Nd, Nd, Nd, Nd,
    Po, Sc, Cn, Cn, Cn, Cn, Cn, Cn, Cn, Lo, Mn, Mn, Mn, Mn, Mn, Mn,
];

#[verifier::opaque]
pub const CAT_PAGE_11: [GeneralCategory; 256] = [
    Cn, Mn, Mc, Mc, Cn, Lo, Lo, Lo, Lo, Lo, Lo, Lo, Lo, Cn, Cn, Lo,
    Lo, Cn, Cn, Lo, Lo, Lo, Lo, Lo, Lo, Lo, Lo, Lo, Lo, Lo, Lo, Lo,
    Lo, Lo, Lo, Lo, Lo, Lo, Lo, Lo, Lo, Cn, Lo, Lo, Lo, Lo, Lo, Lo,
    Lo, Cn, Lo, Lo, Cn, Lo, Lo, Lo, Lo, Lo, Cn, Cn, Mn, Lo, Mc, Mn,
    Mc, Mn, Mn, Mn, Mn, Cn, Cn, Mc, Mc, Cn, Cn, Mc, Mc, Mn, Cn, Cn,
    Cn, Cn, Cn, Cn, Cn, Mn, Mn, Mc, Cn, Cn, Cn, Cn, Lo, Lo, Cn, Lo,
    Lo, Lo, Mn, Mn, Cn, Cn, Nd, Nd, Nd, Nd, Nd, Nd, Nd, Nd, Nd, Nd,
    So, Lo, No, No, No, No, No, No, Cn, Cn, Cn, Cn, Cn, Cn, Cn, Cn,
    Cn, Cn, Mn, Lo, Cn, Lo, Lo, Lo, Lo, Lo, Lo, Cn, Cn, Cn, Lo, Lo,
    Lo, Cn, Lo, Lo, Lo, Lo, Cn, Cn, Cn, Lo, Lo, Cn, Lo, Cn, Lo, Lo,
    Cn, Cn, Cn, Lo, Lo, Cn, Cn, Cn, Lo, Lo, Lo, Cn, Cn, Cn, Lo, Lo,
    Lo, Lo, Lo, Lo, Lo, Lo, Lo, Lo, Lo, Lo, Cn, Cn, Cn, Cn, Mc, Mc,
    Mn, Mc, Mc, Cn, Cn, Cn, Mc, Mc, Mc, Cn, Mc, Mc, Mc, Mn, Cn, Cn,
    Lo, Cn, Cn, Cn, Cn, Cn, Cn, Mc, Cn, Cn, Cn, Cn, Cn, Cn, Cn, Cn,
    Cn, Cn, Cn, Cn, Cn, Cn, Nd, Nd, Nd, Nd, Nd, Nd, Nd, Nd, Nd, Nd,
    No, No, No, So, So, So, So, So, So, Sc, So, Cn, Cn, Cn, Cn, Cn,
];

#[verifier::opaque]
pub const CAT_PAGE_12: [GeneralCategory; 256] = [
    Mn, Mc, Mc, Mc, Mn, Lo, Lo, Lo, Lo, Lo, Lo, Lo, Lo, Cn, Lo, Lo,
    Lo, Cn, Lo, Lo, Lo, Lo, Lo, Lo, Lo, Lo, Lo, Lo, Lo, Lo, Lo, Lo,
    Lo, Lo, Lo, Lo, Lo, Lo, Lo, Lo, Lo, Cn, Lo, Lo, Lo, Lo, Lo, Lo,
    Lo, Lo, Lo, Lo, Lo, Lo, Lo, Lo, Lo, Lo, Cn, Cn, Mn, Lo, Mn, Mn,
    Mn, Mc, Mc, Mc, Mc, Cn, Mn, Mn, Mn, Cn, Mn, Mn, Mn, Mn, Cn, Cn,
    Cn, Cn, Cn, Cn, Cn, Mn, Mn, Cn, Lo, Lo, Lo, Cn, Cn, Lo, Cn, Cn,
    Lo, Lo, Mn, Mn, Cn, Cn, Nd, Nd, Nd, Nd, Nd, Nd, Nd, Nd, Nd, Nd,
    Cn, Cn, Cn, Cn, Cn, Cn, Cn, Po, No, No, No, No, No, No, No, So,
    Lo, Mn, Mc, Mc, Po, Lo, Lo, Lo, Lo, Lo, Lo, Lo, Lo, Cn, Lo, Lo,
    Lo, Cn, Lo, Lo, Lo, Lo, Lo, Lo, Lo, Lo, Lo, Lo, Lo, Lo, Lo, Lo,
    Lo, Lo, Lo, Lo, Lo, Lo, Lo, Lo, Lo, Cn, Lo, Lo, Lo, Lo, Lo, Lo,
    Lo, Lo, Lo, Lo, Cn, Lo, Lo, Lo, Lo, Lo, Cn, Cn, Mn, Lo, Mc, Mn,
    Mc, Mc, Mc, Mc, Mc, Cn, Mn, Mc, Mc, Cn, Mc, Mc, Mn, Mn, Cn, Cn,
    Cn, Cn, Cn, Cn, Cn, Mc, Mc, Cn, Cn, Cn, Cn, Cn, Cn, Lo, Lo, Cn,
    Lo, Lo, Mn, Mn, Cn, Cn, Nd, Nd, Nd, Nd, Nd, Nd, Nd, Nd, Nd, Nd,
    Cn, Lo, Lo, Cn, Cn, Cn, Cn, Cn, Cn, Cn, Cn, Cn, Cn, Cn, Cn, Cn,
];

#[verifier::opaque]
pub const CAT_PAGE_13: [GeneralCategory; 256] = [
    Mn, Mn, Mc, Mc, Lo, Lo, Lo, Lo, Lo, Lo, Lo, Lo, Lo, Cn, Lo, Lo,
    Lo, Cn, Lo, Lo, Lo, Lo, Lo, Lo, Lo, Lo, Lo, Lo, Lo, Lo, Lo, Lo,
    Lo, Lo, Lo, Lo, Lo, Lo, Lo, Lo, Lo, Lo, Lo, Lo, Lo, Lo, Lo, Lo,
    Lo, Lo, Lo, Lo, Lo, Lo, Lo, Lo, Lo, Lo, Lo, Mn, Mn, Lo, Mc, Mc,
    Mc, Mn, Mn, Mn, Mn, Cn, Mc, Mc, Mc, Cn, Mc, Mc, Mc, Mn, Lo, So,
    Cn, Cn, Cn, Cn, Lo, Lo, Lo, Mc, No, No, No, No, No, No, No, Lo,
    Lo, Lo, Mn, Mn, Cn, Cn, Nd, Nd, Nd, Nd, Nd, Nd, Nd, Nd, Nd, Nd,
    No, No, No, No, No, No, No, No, No, So, Lo, Lo, Lo, Lo, Lo, Lo,
    Cn, Mn, Mc, Mc, Cn, Lo, Lo, Lo, Lo, Lo, Lo, Lo, Lo, Lo, Lo, Lo,
    Lo, Lo, Lo, Lo, Lo, Lo, Lo, Cn, Cn, Cn, Lo, Lo, Lo, Lo, Lo, Lo,
    Lo, Lo, Lo, Lo, Lo, Lo, Lo, Lo, Lo, Lo, Lo, Lo, Lo, Lo, Lo, Lo,
    Lo, Lo, Cn, Lo, Lo, Lo, Lo, Lo, Lo, Lo, Lo, Lo, Cn, Lo, Cn, Cn,
    Lo, Lo, Lo, Lo, Lo, Lo, Lo, Cn, Cn, Cn, Mn, Cn, Cn, Cn, Cn, Mc,
    Mc, Mc, Mn, Mn, Mn, Cn, Mn, Cn, Mc, Mc, Mc, Mc, Mc, Mc, Mc, Mc,
    Cn, Cn, Cn, Cn, Cn, Cn, Nd, Nd, Nd, Nd, Nd, Nd, Nd, Nd, Nd, Nd,
    Cn, Cn, Mc, Mc, Po, Cn, Cn, Cn, Cn, Cn, Cn, Cn, Cn, Cn, Cn, Cn,
];

#[verifier::opaque]
pub const CAT_PAGE_14: [GeneralCategory; 256] = [
    Cn, Lo, Lo, Lo, Lo, Lo, Lo, Lo, Lo, Lo, Lo, Lo, Lo, Lo, Lo, Lo,
    Lo, Lo, Lo, Lo, Lo, Lo, Lo, Lo, Lo, Lo, Lo, Lo, Lo, Lo, Lo, Lo,
    Lo, Lo, Lo, Lo, Lo, Lo, Lo, Lo, Lo, Lo, Lo, Lo, Lo, Lo, Lo, Lo,
    Lo, Mn, Lo, Lo, Mn, Mn, Mn, Mn, Mn, Mn, Mn, Cn, Cn, Cn, Cn, Sc,
    Lo, Lo, Lo, Lo, Lo, Lo, Lm, Mn, Mn, Mn, Mn, Mn, Mn, Mn, Mn, Po,
    Nd, Nd, Nd, Nd, Nd, Nd, Nd, Nd, Nd, Nd, Po, Po, Cn, Cn, Cn, Cn,
    Cn, Cn, Cn, Cn, Cn, Cn, Cn, Cn, Cn, Cn, Cn, Cn, Cn, Cn, Cn, Cn,
    Cn, Cn, Cn, Cn, Cn, Cn, Cn, Cn, Cn, Cn, Cn, Cn, Cn, Cn, Cn, Cn,
    Cn, Lo, Lo, Cn, Lo, Cn, Lo, Lo, Lo, Lo, Lo, Cn, Lo, Lo, Lo, Lo,
    Lo, Lo, Lo, Lo, Lo, Lo, Lo, Lo, Lo, Lo, Lo, Lo, Lo, Lo, Lo, Lo,
    Lo, Lo, Lo, Lo, Cn, Lo, Cn, Lo, Lo, Lo, Lo, Lo, Lo, Lo, Lo, Lo,
    Lo, Mn, Lo, Lo, Mn, Mn, Mn, Mn, Mn, Mn, Mn, Mn, Mn, Lo, Cn, Cn,
    Lo, Lo, Lo, Lo, Lo, Cn, Lm, Cn, Mn, Mn, Mn, Mn, Mn, Mn, Cn, Cn,
    Nd, Nd, Nd, Nd, Nd, Nd, Nd, Nd, Nd, Nd, Cn, Cn, Lo, Lo, Lo, Lo,
    Cn, Cn, Cn, Cn, Cn, Cn, Cn, Cn, Cn, Cn, Cn, Cn, Cn, Cn, Cn, Cn,
    Cn, Cn, Cn, Cn, Cn, Cn, Cn, Cn, Cn, Cn, Cn, Cn, Cn, Cn, Cn, Cn,
];

#[verifier::opaque]
pub const CAT_PAGE_15: [GeneralCategory; 256] = [
    Lo, So, So, So, Po, Po, Po, Po, Po, Po, Po, Po, Po, Po, Po, Po,
    Po, Po, Po, So, Po, So, So, So, Mn, Mn, So, So, So, So, So, So,
    Nd, Nd, Nd, Nd, Nd, Nd, Nd, Nd, Nd, Nd, No, No, No, No, No, No,
    No, No, No, No, So, Mn, So, Mn, So, Mn, Ps, Pe, Ps, Pe, Mc, Mc,
    Lo, Lo, Lo, Lo, Lo, Lo, Lo, Lo, Cn, Lo, Lo, Lo, Lo, Lo, Lo, Lo,
    Lo, Lo, Lo, Lo, Lo, Lo, Lo, Lo, Lo, Lo, Lo, Lo, Lo, Lo, Lo, Lo,
    Lo, Lo, Lo, Lo, Lo, Lo, Lo, Lo, Lo, Lo, Lo, Lo, Lo, Cn, Cn, Cn,
    Cn, Mn, Mn, Mn, Mn, Mn, Mn, Mn, Mn, Mn, Mn, Mn, Mn, Mn, Mn, Mc,
    Mn, Mn, Mn, Mn, Mn, Po, Mn, Mn, Lo, Lo, Lo, Lo, Lo, Mn, Mn, Mn,
    Mn, Mn, Mn, Mn, Mn, Mn, Mn, Mn, Cn, Mn, Mn, Mn, Mn, Mn, Mn, Mn,
    Mn, Mn, Mn, Mn, Mn, Mn, Mn, Mn, Mn, Mn, Mn, Mn, Mn, Mn, Mn, Mn,
    Mn, Mn, Mn, Mn, Mn, Mn, Mn, Mn, Mn, Mn, Mn, Mn, Mn, Cn, So, So,
    So, So, So, So, So, So, Mn, So, So, So, So, So, So, Cn, So, So,
    Po, Po, Po, Po, Po, So, So, So, So, Po, Po, Cn, Cn, Cn, Cn, Cn,
    Cn, Cn, Cn, Cn, Cn, Cn, Cn, Cn, Cn, Cn, Cn, Cn, Cn, Cn, Cn, Cn,
    Cn, Cn, Cn, Cn, Cn, Cn, Cn, Cn, Cn, Cn, Cn, Cn, Cn, Cn, Cn, Cn,
];

#[verifier::opaque]
pub const CAT_PAGE_16: [GeneralCategory; 256] = [
    Lo, Lo, Lo, Lo, Lo, Lo, Lo, Lo, Lo, Lo, Lo, Lo, Lo, Lo, Lo, Lo,
    Lo, Lo, Lo, Lo, Lo, Lo, Lo, Lo, Lo, Lo, Lo, Lo, Lo, Lo, Lo, Lo,
    Lo, Lo, Lo, Lo, Lo, Lo, Lo, Lo, Lo, Lo, Lo, Mc, Mc, Mn, Mn, Mn,
    Mn, Mc, Mn, Mn, Mn, Mn, Mn, Mn, Mc, Mn, Mn, Mc, Mc, Mn, Mn, Lo,
    Nd, Nd, Nd, Nd, Nd, Nd, Nd, Nd, Nd, Nd, Po, Po, Po, Po, Po, Po,
    Lo, Lo, Lo, Lo, Lo, Lo, Mc, Mc, Mn, Mn, Lo, Lo, Lo, Lo, Mn, Mn,
    Mn, Lo, Mc, Mc, Mc, Lo, Lo, Mc, Mc, Mc, Mc, Mc, Mc, Mc, Lo, Lo,
    Lo, Mn, Mn, Mn, Mn, Lo, Lo, Lo, Lo, Lo, Lo, Lo, Lo, Lo, Lo, Lo,
    Lo, Lo, Mn, Mc, Mc, Mn, Mn, Mc, Mc, Mc, Mc, Mc, Mc, Mn, Lo, Mc,
    Nd, Nd, Nd, Nd, Nd, Nd, Nd, Nd, Nd, Nd, Mc, Mc, Mc, Mn, So, So,
    Lu, Lu, Lu, Lu, Lu, Lu, Lu, Lu, Lu, Lu, Lu, Lu, Lu, Lu, Lu, Lu,
    Lu, Lu, Lu, Lu, Lu, Lu, Lu, Lu, Lu, Lu, Lu, Lu, Lu, Lu, Lu, Lu,
    Lu, Lu, Lu, Lu, Lu, Lu, Cn, Lu, Cn, Cn, Cn, Cn, Cn, Lu, Cn, Cn,
    Ll, Ll, Ll, Ll, Ll, Ll, Ll, Ll, Ll, Ll, Ll, Ll, Ll, Ll, Ll, Ll,
    Ll, Ll, Ll, Ll, Ll, Ll, Ll, Ll, Ll, Ll, Ll, Ll, Ll, Ll, Ll, Ll,
    Ll, Ll, Ll, Ll, Ll, Ll, Ll, Ll, Ll, Ll, Ll, Po, Lm, Ll, Ll, Ll,
];

#[verifier::opaque]
pub const CAT_PAGE_17: [GeneralCategory; 256] = [
    Lo, Lo, Lo, Lo, Lo, Lo, Lo, Lo, Lo, Lo, Lo, Lo, Lo, Lo, Lo, Lo,
    Lo, Cn, Lo, Lo, Lo, Lo, Cn, Cn, Lo, Lo, Lo, Lo, Lo, Lo, Lo, Lo,
    Lo, Lo, Lo, Lo, Lo, Lo, Lo, Lo, Lo, Lo, Lo, Lo, Lo, Lo, Lo, Lo,
    Lo, Lo, Lo, Lo, Lo, Lo, Lo, Lo, Lo, Lo, Lo, Lo, Lo, Lo, Lo, Lo,
    Lo, Lo, Lo, Lo, Lo, Lo, Lo, Lo, Lo, Lo, Lo, Lo, Lo, Lo, Lo, Lo,
    Lo, Lo, Lo, Lo, Lo, Lo, Lo, Lo, Lo, Lo, Lo, Cn, Cn, Mn, Mn, Mn,
    Po, Po, Po, Po, Po, Po, Po, Po, Po, No, No, No, No, No, No, No,
    No, No, No, No, No, No, No, No, No, No, No, No, No, Cn, Cn, Cn,
    Lo, Lo, Lo, Lo, Lo, Lo, Lo, Lo, Lo, Lo, Lo, Lo, Lo, Lo, Lo, Lo,
    So, So, So, So, So, So, So, So, So, So, Cn, Cn, Cn, Cn, Cn, Cn,
    Lu, Lu, Lu, Lu, Lu, Lu, Lu, Lu, Lu, Lu, Lu, Lu, Lu, Lu, Lu, Lu,
    Lu, Lu, Lu, Lu, Lu, Lu, Lu, Lu, Lu, Lu, Lu, Lu, Lu, Lu, Lu, Lu,
    Lu, Lu, Lu, Lu, Lu, Lu, Lu, Lu, Lu, Lu, Lu, Lu, Lu, Lu, Lu, Lu,
    Lu, Lu, Lu, Lu, Lu, Lu, Lu, Lu, Lu, Lu, Lu, Lu, Lu, Lu, Lu, Lu,
    Lu, Lu, Lu, Lu, Lu, Lu, Lu, Lu, Lu, Lu, Lu, Lu, Lu, Lu, Lu, Lu,
    Lu, Lu, Lu, Lu, Lu, Lu, Cn, Cn, Ll, Ll, Ll, Ll, Ll, Ll, Cn, Cn,
];

#[verifier::opaque]
pub const CAT_PAGE_18: [GeneralCategory; 256] = [
    Pd, Lo, Lo, Lo, Lo, Lo, Lo, Lo, Lo, Lo, Lo, Lo, Lo, Lo, Lo, Lo,
    Lo, Lo, Lo, Lo, Lo, Lo, Lo, Lo, Lo, Lo, Lo, Lo, Lo, Lo, Lo, Lo,
    Lo, Lo, Lo, Lo, Lo, Lo, Lo, Lo, Lo, Lo, Lo, Lo, Lo, Lo, Lo, Lo,
    Lo, Lo, Lo, Lo, Lo, Lo, Lo, Lo, Lo, Lo, Lo, Lo, Lo, Lo, Lo, Lo,
    Lo, Lo, Lo, Lo, Lo, Lo, Lo, Lo, Lo, Lo, Lo, Lo, Lo, Lo, Lo, Lo,
    Lo, Lo, Lo, Lo, Lo, Lo, Lo, Lo, Lo, Lo, Lo, Lo, Lo, Lo, Lo, Lo,
    Lo, Lo, Lo, Lo, Lo, Lo, Lo, Lo, Lo, Lo, Lo, Lo, Lo, Lo, Lo, Lo,
    Lo, Lo, Lo, Lo, Lo, Lo, Lo, Lo, Lo, Lo, Lo, Lo, Lo, Lo, Lo, Lo,
    Lo, Lo, Lo, Lo, Lo, Lo, Lo, Lo, Lo, Lo, Lo, Lo, Lo, Lo, Lo, Lo,
    Lo, Lo, Lo, Lo, Lo, Lo, Lo, Lo, Lo, Lo, Lo, Lo, Lo, Lo, Lo, Lo,
    Lo, Lo, Lo, Lo, Lo, Lo, Lo, Lo, Lo, Lo, Lo, Lo, Lo, Lo, Lo, Lo,
    Lo, Lo, Lo, Lo, Lo, Lo, Lo, Lo, Lo, Lo, Lo, Lo, Lo, Lo, Lo, Lo,
    Lo, Lo, Lo, Lo, Lo, Lo, Lo, Lo, Lo, Lo, Lo, Lo, Lo, Lo, Lo, Lo,
    Lo, Lo, Lo, Lo, Lo, Lo, Lo, Lo, Lo, Lo, Lo, Lo, Lo, Lo, Lo, Lo,
    Lo, Lo, Lo, Lo, Lo, Lo, Lo, Lo, Lo, Lo, Lo, Lo, Lo, Lo, Lo, Lo,
    Lo, Lo, Lo, Lo, Lo, Lo, Lo, Lo, Lo, Lo, Lo, Lo, Lo, Lo, Lo, Lo,
];

#[verifier::opaque]
pub const CAT_PAGE_19: [GeneralCategory; 256] = [
    Lo, Lo, Lo, Lo, Lo, Lo, Lo, Lo, Lo, Lo, Lo, Lo, Lo, Lo, Lo, Lo,
    Lo, Lo, Lo, Lo, Lo, Lo, Lo, Lo, Lo, Lo, Lo, Lo, Lo, Lo, Lo, Lo,
    Lo, Lo, Lo, Lo, Lo, Lo, Lo, Lo, Lo, Lo, Lo, Lo, Lo, Lo, Lo, Lo,
    Lo, Lo, Lo, Lo, Lo, Lo, Lo, Lo, Lo, Lo, Lo, Lo, Lo, Lo, Lo, Lo,
    Lo, Lo, Lo, Lo, Lo, Lo, Lo, Lo, Lo, Lo, Lo, Lo, Lo, Lo, Lo, Lo,
    Lo, Lo, Lo, Lo, Lo, Lo, Lo, Lo, Lo, Lo, Lo, Lo, Lo, Lo, Lo, Lo,
    Lo, Lo, Lo, Lo, Lo, Lo, Lo, Lo, Lo, Lo, Lo, Lo, Lo, So, Po, Lo,
    Lo, Lo, Lo, Lo, Lo, Lo, Lo, Lo, Lo, Lo, Lo, Lo, Lo, Lo, Lo, Lo,
    Zs, Lo, Lo, Lo, Lo, Lo, Lo, Lo, Lo, Lo, Lo, Lo, Lo, Lo, Lo, Lo,
    Lo, Lo, Lo, Lo, Lo, Lo, Lo, Lo, Lo, Lo, Lo, Ps, Pe, Cn, Cn, Cn,
    Lo, Lo, Lo, Lo, Lo, Lo, Lo, Lo, Lo, Lo, Lo, Lo, Lo, Lo, Lo, Lo,
    Lo, Lo, Lo, Lo, Lo, Lo, Lo, Lo, Lo, Lo, Lo, Lo, Lo, Lo, Lo, Lo,
    Lo, Lo, Lo, Lo, Lo, Lo, Lo, Lo, Lo, Lo, Lo, Lo, Lo, Lo, Lo, Lo,
    Lo, Lo, Lo, Lo, Lo, Lo, Lo, Lo, Lo, Lo, Lo, Lo, Lo, Lo, Lo, Lo,
    Lo, Lo, Lo, Lo, Lo, Lo, Lo, Lo, Lo, Lo, Lo, Po, Po, Po, Nl, Nl,
    Nl, Lo, Lo, Lo, Lo, Lo, Lo, Lo, Lo, Cn, Cn, Cn, Cn, Cn, Cn, Cn,
];

#[verifier::opaque]
pub const CAT_PAGE_20: [GeneralCategory; 256] = [
    Lo, Lo, Lo, Lo, Lo, Lo, Lo, Lo, Lo, Lo, Lo, Lo, Lo, Lo, Lo, Lo,
    Lo, Lo, Mn, Mn, Mn, Mc, Cn, Cn, Cn, Cn, Cn, Cn, Cn, Cn, Cn, Lo,
    Lo, Lo, Lo, Lo, Lo, Lo, Lo, Lo, Lo, Lo, Lo, Lo, Lo, Lo, Lo, Lo,
    Lo, Lo, Mn, Mn, Mc, Po, Po, Cn, Cn, Cn, Cn, Cn, Cn, Cn, Cn, Cn,
    Lo, Lo, Lo, Lo, Lo, Lo, Lo, Lo, Lo, Lo, Lo, Lo, Lo, Lo, Lo, Lo,
    Lo, Lo, Mn, Mn, Cn, Cn, Cn, Cn, Cn, Cn, Cn, Cn, Cn, Cn, Cn, Cn,
    Lo, Lo, Lo, Lo, Lo, Lo, Lo, Lo, Lo, Lo, Lo, Lo, Lo, Cn, Lo, Lo,
    Lo, Cn, Mn, Mn, Cn, Cn, Cn, Cn, Cn, Cn, Cn, Cn, Cn, Cn, Cn, Cn,
    Lo, Lo, Lo, Lo, Lo, Lo, Lo, Lo, Lo, Lo, Lo, Lo, Lo, Lo, Lo, Lo,
    Lo, Lo, Lo, Lo, Lo, Lo, Lo, Lo, Lo, Lo, Lo, Lo, Lo, Lo, Lo, Lo,
    Lo, Lo, Lo, Lo, Lo, Lo, Lo, Lo, Lo, Lo, Lo, Lo, Lo, Lo, Lo, Lo,
    Lo, Lo, Lo, Lo, Mn, Mn, Mc, Mn, Mn, Mn, Mn, Mn, Mn, Mn, Mc, Mc,
    Mc, Mc, Mc, Mc, Mc, Mc, Mn, Mc, Mc, Mn, Mn, Mn, Mn, Mn, Mn, Mn,
    Mn, Mn, Mn, Mn, Po, Po, Po, Lm, Po, Po, Po, Sc, Lo, Mn, Cn, Cn,
    Nd, Nd, Nd, Nd, Nd, Nd, Nd, Nd, Nd, Nd, Cn, Cn, Cn, Cn, Cn, Cn,
    No, No, No, No, No, No, No, No, No, No, Cn, Cn, Cn, Cn, Cn, Cn,
];

#[verifier::opaque]
pub const CAT_PAGE_21: [GeneralCategory; 256] = [
    Po, Po, Po, Po, Po, Po, Pd, Po, Po, Po, Po, Mn, Mn, Mn, Cf, Mn,
    Nd, Nd, Nd, Nd, Nd, Nd, Nd, Nd, Nd, Nd, Cn, Cn, Cn, Cn, Cn, Cn,
    Lo, Lo, Lo, Lo, Lo, Lo, Lo, Lo, Lo, Lo, Lo, Lo, Lo, Lo, Lo, Lo,
    Lo, Lo, Lo, Lo, Lo, Lo, Lo, Lo, Lo, Lo, Lo, Lo, Lo, Lo, Lo, Lo,
    Lo, Lo, Lo, Lm, Lo, Lo, Lo, Lo, Lo, Lo, Lo, Lo, Lo, Lo, Lo, Lo,
    Lo, Lo, Lo, Lo, Lo, Lo, Lo, Lo, Lo, Lo, Lo, Lo, Lo, Lo, Lo, Lo,
    Lo, Lo, Lo, Lo, Lo, Lo, Lo, Lo, Lo, Lo, Lo, Lo, Lo, Lo, Lo, Lo,
    Lo, Lo, Lo, Lo, Lo, Lo, Lo, Lo, Lo, Cn, Cn, Cn, Cn, Cn, Cn, Cn,
    Lo, Lo, Lo, Lo, Lo, Mn, Mn, Lo, Lo, Lo, Lo, Lo, Lo, Lo, Lo, Lo,
    Lo, Lo, Lo, Lo, Lo, Lo, Lo, Lo, Lo, Lo, Lo, Lo, Lo, Lo, Lo, Lo,
    Lo, Lo, Lo, Lo, Lo, Lo, Lo, Lo, Lo, Mn, Lo, Cn, Cn, Cn, Cn, Cn,
    Lo, Lo, Lo, Lo, Lo, Lo, Lo, Lo, Lo, Lo, Lo, Lo, Lo, Lo, Lo, Lo,
    Lo, Lo, Lo, Lo, Lo, Lo, Lo, Lo, Lo, Lo, Lo, Lo, Lo, Lo, Lo, Lo,
    Lo, Lo, Lo, Lo, Lo, Lo, Lo, Lo, Lo, Lo, Lo, Lo, Lo, Lo, Lo, Lo,
    Lo, Lo, Lo, Lo, Lo, Lo, Lo, Lo, Lo, Lo, Lo, Lo, Lo, Lo, Lo, Lo,
    Lo, Lo, Lo, Lo, Lo, Lo, Cn, Cn, Cn, Cn, Cn, Cn, Cn, Cn, Cn, Cn,
];

#[verifier::opaque]
pub const CAT_PAGE_22: [GeneralCategory; 256] = [
    Lo, Lo, Lo, Lo, Lo, Lo, Lo, Lo, Lo, Lo, Lo, Lo, Lo, Lo, Lo, Lo,
    Lo, Lo, Lo, Lo, Lo, Lo, Lo, Lo, Lo, Lo, Lo, Lo, Lo, Lo, Lo, Cn,
    Mn, Mn, Mn, Mc, Mc, Mc, Mc, Mn, Mn, Mc, Mc, Mc, Cn, Cn, Cn, Cn,
    Mc, Mc, Mn, Mc, Mc, Mc, Mc, Mc, Mc, Mn, Mn, Mn, Cn, Cn, Cn, Cn,
    So, Cn, Cn, Cn, Po, Po, Nd, Nd, Nd, Nd, Nd, Nd, Nd, Nd, Nd, Nd,
    Lo, Lo, Lo, Lo, Lo, Lo, Lo, Lo, Lo, Lo, Lo, Lo, Lo, Lo, Lo, Lo,
    Lo, Lo, Lo, Lo, Lo, Lo, Lo, Lo, Lo, Lo, Lo, Lo, Lo, Lo, Cn, Cn,
    Lo, Lo, Lo, Lo, Lo, Cn, Cn, Cn, Cn, Cn, Cn, Cn, Cn, Cn, Cn, Cn,
    Lo, Lo, Lo, Lo, Lo, Lo, Lo, Lo, Lo, Lo, Lo, Lo, Lo, Lo, Lo, Lo,
    Lo, Lo, Lo, Lo, Lo, Lo, Lo, Lo, Lo, Lo, Lo, Lo, Lo, Lo, Lo, Lo,
    Lo, Lo, Lo, Lo, Lo, Lo, Lo, Lo, Lo, Lo, Lo, Lo, Cn, Cn, Cn, Cn,
    Lo, Lo, Lo, Lo, Lo, Lo, Lo, Lo, Lo, Lo, Lo, Lo, Lo, Lo, Lo, Lo,
    Lo, Lo, Lo, Lo, Lo, Lo, Lo, Lo, Lo, Lo, Cn, Cn, Cn, Cn, Cn, Cn,
    Nd, Nd, Nd, Nd, Nd, Nd, Nd, Nd, Nd, Nd, No, Cn, Cn, Cn, So, So,
    So, So, So, So, So, So, So, So, So, So, So, So, So, So, So, So,
    So, So, So, So, So, So, So, So, So, So, So, So, So, So, So, So,
];

#[verifier::opaque]
pub const CAT_PAGE_23: [GeneralCategory; 256] = [
    Lo, Lo, Lo, Lo, Lo, Lo, Lo, Lo, Lo, Lo, Lo, Lo, Lo, Lo, Lo, Lo,
    Lo, Lo, Lo, Lo, Lo, Lo, Lo, Mn, Mn, Mc, Mc, Mn, Cn, Cn, Po, Po,
    Lo, Lo, Lo, Lo, Lo, Lo, Lo, Lo, Lo, Lo, Lo, Lo, Lo, Lo, Lo, Lo,
    Lo, Lo, Lo, Lo, Lo, Lo, Lo, Lo, Lo, Lo, Lo, Lo, Lo, Lo, Lo, Lo,
    Lo, Lo, Lo, Lo, Lo, Lo, Lo, Lo, Lo, Lo, Lo, Lo, Lo, Lo, Lo, Lo,
    Lo, Lo, Lo, Lo, Lo, Mc, Mn, Mc, Mn, Mn, Mn, Mn, Mn, Mn, Mn, Cn,
    Mn, Mc, Mn, Mc, Mc, Mn, Mn, Mn, Mn, Mn, Mn, Mn, Mn, Mc, Mc, Mc,
    Mc, Mc, Mc, Mn, Mn, Mn, Mn, Mn, Mn, Mn, Mn, Mn, Mn, Cn, Cn, Mn,
    Nd, Nd, Nd, Nd, Nd, Nd, Nd, Nd, Nd, Nd, Cn, Cn, Cn, Cn, Cn, Cn,
    Nd, Nd, Nd, Nd, Nd, Nd, Nd, Nd, Nd, Nd, Cn, Cn, Cn, Cn, Cn, Cn,
    Po, Po, Po, Po, Po, Po, Po, Lm, Po, Po, Po, Po, Po, Po, Cn, Cn,
    Mn, Mn, Mn, Mn, Mn, Mn, Mn, Mn, Mn, Mn, Mn, Mn, Mn, Mn, Me, Mn,
    Mn, Mn, Mn, Mn, Mn, Mn, Mn, Mn, Mn, Mn, Mn, Mn, Mn, Mn, Mn, Cn,
    Cn, Cn, Cn, Cn, Cn, Cn, Cn, Cn, Cn, Cn, Cn, Cn, Cn, Cn, Cn, Cn,
    Cn, Cn, Cn, Cn, Cn, Cn, Cn, Cn, Cn, Cn, Cn, Cn, Cn, Cn, Cn, Cn,
    Cn, Cn, Cn, Cn, Cn, Cn, Cn, Cn, Cn, Cn, Cn, Cn, Cn, Cn, Cn, Cn,
];

#[verifier::opaque]
pub const CAT_PAGE_24: [GeneralCategory; 256] = [
    Mn, Mn, Mn, Mn, Mc, Lo, Lo, Lo, Lo, Lo, Lo, Lo, Lo, Lo, Lo, Lo,
    Lo, Lo, Lo, Lo, Lo, Lo, Lo, Lo, Lo, Lo, Lo, Lo, Lo, Lo, Lo, Lo,
    Lo, Lo, Lo, Lo, Lo, Lo, Lo, Lo, Lo, Lo, Lo, Lo, Lo, Lo, Lo, Lo,
    Lo, Lo, Lo, Lo, Mn, Mc, Mn, Mn, Mn, Mn, Mn, Mc, Mn, Mc, Mc, Mc,
    Mc, Mc, Mn, Mc, Mc, Lo, Lo, Lo, Lo, Lo, Lo, Lo, Lo, Cn, Cn, Cn,
    Nd, Nd, Nd, Nd, Nd, Nd, Nd, Nd, Nd, Nd, Po, Po, Po, Po, Po, Po,
    Po, So, So, So, So, So, So, So, So, So, So, Mn, Mn, Mn, Mn, Mn,
    Mn, Mn, Mn, Mn, So, So, So, So, So, So, So, So, So, Po, Po, Cn,
    Mn, Mn, Mc, Lo, Lo, Lo, Lo, Lo, Lo, Lo, Lo, Lo, Lo, Lo, Lo, Lo,
    Lo, Lo, Lo, Lo, Lo, Lo, Lo, Lo, Lo, Lo, Lo, Lo, Lo, Lo, Lo, Lo,
    Lo, Mc, Mn, Mn, Mn, Mn, Mc, Mc, Mn, Mn, Mc, Mn, Mn, Mn, Lo, Lo,
    Nd, Nd, Nd, Nd, Nd, Nd, Nd, Nd, Nd, Nd, Lo, Lo, Lo, Lo, Lo, Lo,
    Lo, Lo, Lo, Lo, Lo, Lo, Lo, Lo, Lo, Lo, Lo, Lo, Lo, Lo, Lo, Lo,
    Lo, Lo, Lo, Lo, Lo, Lo, Lo, Lo, Lo, Lo, Lo, Lo, Lo, Lo, Lo, Lo,
    Lo, Lo, Lo, Lo, Lo, Lo, Mn, Mc, Mn, Mn, Mc, Mc, Mc, Mn, Mc, Mn,
    Mn, Mn, Mc, Mc, Cn, Cn, Cn, Cn, Cn, Cn, Cn, Cn, Po, Po, Po, Po,
];

#[verifier::opaque]
pub const CAT_PAGE_25: [GeneralCategory; 256] = [
    Lo, Lo, Lo, Lo, Lo, Lo, Lo, Lo, Lo, Lo, Lo, Lo, Lo, Lo, Lo, Lo,
    Lo, Lo, Lo, Lo, Lo, Lo, Lo, Lo, Lo, Lo, Lo, Lo, Lo, Lo, Lo, Lo,
    Lo, Lo, Lo, Lo, Mc, Mc, Mc, Mc, Mc, Mc, Mc, Mc, Mn, Mn, Mn, Mn,
    Mn, Mn, Mn, Mn, Mc, Mc, Mn, Mn, Cn, Cn, Cn, Po, Po, Po, Po, Po,
    Nd, Nd, Nd, Nd, Nd, Nd, Nd, Nd, Nd, Nd, Cn, Cn, Cn, Lo, Lo, Lo,
    Nd, Nd, Nd, Nd, Nd, Nd, Nd, Nd, Nd, Nd, Lo, Lo, Lo, Lo, Lo, Lo,
    Lo, Lo, Lo, Lo, Lo, Lo, Lo, Lo, Lo, Lo, Lo, Lo, Lo, Lo, Lo, Lo,
    Lo, Lo, Lo, Lo, Lo, Lo, Lo, Lo, Lm, Lm, Lm, Lm, Lm, Lm, Po, Po,
    Ll, Ll, Ll, Ll, Ll, Ll, Ll, Ll, Ll, Cn, Cn, Cn, Cn, Cn, Cn, Cn,
    Lu, Lu, Lu, Lu, Lu, Lu, Lu, Lu, Lu, Lu, Lu, Lu, Lu, Lu, Lu, Lu,
    Lu, Lu, Lu, Lu, Lu, Lu, Lu, Lu, Lu, Lu, Lu, Lu, Lu, Lu, Lu, Lu,
    Lu, Lu, Lu, Lu, Lu, Lu, Lu, Lu, Lu, Lu, Lu, Cn, Cn, Lu, Lu, Lu,
    Po, Po, Po, Po, Po, Po, Po, Po, Cn, Cn, Cn, Cn, Cn, Cn, Cn, Cn,
    Mn, Mn, Mn, Po, Mn, Mn, Mn, Mn, Mn, Mn, Mn, Mn, Mn, Mn, Mn, Mn,
    Mn, Mc, Mn, Mn, Mn, Mn, Mn, Mn, Mn, Lo, Lo, Lo, Lo, Mn, Lo, Lo,
    Lo, Lo, Lo, Lo, Mn, Lo, Lo, Mc, Mn, Mn, Lo, Cn, Cn, Cn, Cn, Cn,
];

#[verifier::opaque]
pub const CAT_PAGE_26: [GeneralCategory; 256] = [
    Ll, Ll, Ll, Ll, Ll, Ll, Ll, Ll, Ll, Ll, Ll, Ll, Ll, Ll, Ll, Ll,
    Ll, Ll, Ll, Ll, Ll, Ll, Ll, Ll, Ll, Ll, Ll, Ll, Ll, Ll, Ll, Ll,
    Ll, Ll, Ll, Ll, Ll, Ll, Ll, Ll, Ll, Ll, Ll, Ll, Lm, Lm, Lm, Lm,
    Lm, Lm, Lm, Lm, Lm, Lm, Lm, Lm, Lm, Lm, Lm, Lm, Lm, Lm, Lm, Lm,
    Lm, Lm, Lm, Lm, Lm, Lm, Lm, Lm, Lm, Lm, Lm, Lm, Lm, Lm, Lm, Lm,
    Lm, Lm, Lm, Lm, Lm, Lm, Lm, Lm, Lm, Lm, Lm, Lm, Lm, Lm, Lm, Lm,
    Lm, Lm, Lm, Lm, Lm, Lm, Lm, Lm, Lm, Lm, Lm, Ll, Ll, Ll, Ll, Ll,
    Ll, Ll, Ll, Ll, Ll, Ll, Ll, Ll, Lm, Ll, Ll, Ll, Ll, Ll, Ll, Ll,
    Ll, Ll, Ll, Ll, Ll, Ll, Ll, Ll, Ll, Ll, Ll, Ll, Ll, Ll, Ll, Ll,
    Ll, Ll, Ll, Ll, Ll, Ll, Ll, Ll, Ll, Ll, Ll, Lm, Lm, Lm, Lm, Lm,
    Lm, Lm, Lm, Lm, Lm, Lm, Lm, Lm, Lm, Lm, Lm, Lm, Lm, Lm, Lm, Lm,
    Lm, Lm, Lm, Lm, Lm, Lm, Lm, Lm, Lm, Lm, Lm, Lm, Lm, Lm, Lm, Lm,
    Mn, Mn, Mn, Mn, Mn, Mn, Mn, Mn, Mn, Mn, Mn, Mn, Mn, Mn, Mn, Mn,
    Mn, Mn, Mn, Mn, Mn, Mn, Mn, Mn, Mn, Mn, Mn, Mn, Mn, Mn, Mn, Mn,
    Mn, Mn, Mn, Mn, Mn, Mn, Mn, Mn, Mn, Mn, Mn, Mn, Mn, Mn, Mn, Mn,
    Mn, Mn, Mn, Mn, Mn, Mn, Mn, Mn, Mn, Mn, Mn, Mn, Mn, Mn, Mn, Mn,
];

#[verifier::opaque]
pub const CAT_PAGE_27: [GeneralCategory; 256] = [
    Lu, Ll, Lu, Ll, Lu, Ll, Lu, Ll, Lu, Ll, Lu, Ll, Lu, Ll, Lu, Ll,
    Lu, Ll, Lu, Ll, Lu, Ll, Lu, Ll, Lu, Ll, Lu, Ll, Lu, Ll, Lu, Ll,
    Lu, Ll, Lu, Ll, Lu, Ll, Lu, Ll, Lu, Ll, Lu, Ll, Lu, Ll, Lu, Ll,
    Lu, Ll, Lu, Ll, Lu, Ll, Lu, Ll, Lu, Ll, Lu, Ll, Lu, Ll, Lu, Ll,
    Lu, Ll, Lu, Ll, Lu, Ll, Lu, Ll, Lu, Ll, Lu, Ll, Lu, Ll, Lu, Ll,
    Lu, Ll, Lu, Ll, Lu, Ll, Lu, Ll, Lu, Ll, Lu, Ll, Lu, Ll, Lu, Ll,
    Lu, Ll, Lu, Ll, Lu, Ll, Lu, Ll, Lu, Ll, Lu, Ll, Lu, Ll, Lu, Ll,
    Lu, Ll, Lu, Ll, Lu, Ll, Lu, Ll, Lu, Ll, Lu, Ll, Lu, Ll, Lu, Ll,
    Lu, Ll, Lu, Ll, Lu, Ll, Lu, Ll, Lu, Ll, Lu, Ll, Lu, Ll, Lu, Ll,
    Lu, Ll, Lu, Ll, Lu, Ll, Ll, Ll, Ll, Ll, Ll, Ll, Ll, Ll, Lu, Ll,
    Lu, Ll, Lu, Ll, Lu, Ll, Lu, Ll, Lu, Ll, Lu, Ll, Lu, Ll, Lu, Ll,
    Lu, Ll, Lu, Ll, Lu, Ll, Lu, Ll, Lu, Ll, Lu, Ll, Lu, Ll, Lu, Ll,
    Lu, Ll, Lu, Ll, Lu, Ll, Lu, Ll, Lu, Ll, Lu, Ll, Lu, Ll, Lu, Ll,
    Lu, Ll, Lu, Ll, Lu, Ll, Lu, Ll, Lu, Ll, Lu, Ll, Lu, Ll, Lu, Ll,
    Lu, Ll, Lu, Ll, Lu, Ll, Lu, Ll, Lu, Ll, Lu, Ll, Lu, Ll, Lu, Ll,
    Lu, Ll, Lu, Ll, Lu, Ll, Lu, Ll, Lu, Ll, Lu, Ll, Lu, Ll, Lu, Ll,
];

#[verifier::opaque]
pub const CAT_PAGE_28: [GeneralCategory; 256] = [
    Ll, Ll, Ll, Ll, Ll, Ll, Ll, Ll, Lu, Lu, Lu, Lu, Lu, Lu, Lu, Lu,
    Ll, Ll, Ll, Ll, Ll, Ll, Cn, Cn, Lu, Lu, Lu, Lu, Lu, Lu, Cn, Cn,
    Ll, Ll, Ll, Ll, Ll, Ll, Ll, Ll, Lu, Lu, Lu, Lu, Lu, Lu, Lu, Lu,
    Ll, Ll, Ll, Ll, Ll, Ll, Ll, Ll, Lu, Lu, Lu, Lu, Lu, Lu, Lu, Lu,
    Ll, Ll, Ll, Ll, Ll, Ll, Cn, Cn, Lu, Lu, Lu, Lu, Lu, Lu, Cn, Cn,
    Ll, Ll, Ll, Ll, Ll, Ll, Ll, Ll, Cn, Lu, Cn, Lu, Cn, Lu, Cn, Lu,
    Ll, Ll, Ll, Ll, Ll, Ll, Ll, Ll, Lu, Lu, Lu, Lu, Lu, Lu, Lu, Lu,
    Ll, Ll, Ll, Ll, Ll, Ll, Ll, Ll, Ll, Ll, Ll, Ll, Ll, Ll, Cn, Cn,
    Ll, Ll, Ll, Ll, Ll, Ll, Ll, Ll, Lt, Lt, Lt, Lt, Lt, Lt, Lt, Lt,
    Ll, Ll, Ll, Ll, Ll, Ll, Ll, Ll, Lt, Lt, Lt, Lt, Lt, Lt, Lt, Lt,
    Ll, Ll, Ll, Ll, Ll, Ll, Ll, Ll, Lt, Lt, Lt, Lt, Lt, Lt, Lt, Lt,
    Ll, Ll, Ll, Ll, Ll, Cn, Ll, Ll, Lu, Lu, Lu, Lu, Lt, Sk, Ll, Sk,
    Sk, Sk, Ll, Ll, Ll, Cn, Ll, Ll, Lu, Lu, Lu, Lu, Lt, Sk, Sk, Sk,
    Ll, Ll, Ll, Ll, Cn, Cn, Ll, Ll, Lu, Lu, Lu, Lu, Cn, Sk, Sk, Sk,
    Ll, Ll, Ll, Ll, Ll, Ll, Ll, Ll, Lu, Lu, Lu, Lu, Lu, Sk, Sk, Sk,
    Cn, Cn, Ll, Ll, Ll, Cn, Ll, Ll, Lu, Lu, Lu, Lu, Lt, Sk, Sk, Cn,
];

#[verifier::opaque]
pub const CAT_PAGE_29: [GeneralCategory; 256] = [
    Zs, Zs, Zs, Zs, Zs, Zs, Zs, Zs, Zs, Zs, Zs, Cf, Cf, Cf, Cf, Cf,
    Pd, Pd, Pd, Pd, Pd, Pd, Po, Po, Pi, Pf, Ps, Pi, Pi, Pf, Ps, Pi,
    Po, Po, Po, Po, Po, Po, Po, Po, Zl, Zp, Cf, Cf, Cf, Cf, Cf, Zs,
    Po, Po, Po, Po, Po, Po, Po, Po, Po, Pi, Pf, Po, Po, Po, Po, Pc,
    Pc, Po, Po, Po, Sm, Ps, Pe, Po, Po, Po, Po, Po, Po, Po, Po, Po,
    Po, Po, Sm, Po, Pc, Po, Po, Po, Po, Po, Po, Po, Po, Po, Po, Zs,
    Cf, Cf, Cf, Cf, Cf, Cn, Cf, Cf, Cf, Cf, Cf, Cf, Cf, Cf, Cf, Cf,
    No, Lm, Cn, Cn, No, No, No, No, No, No, Sm, Sm, Sm, Ps, Pe, Lm,
    No, No, No, No, No, No, No, No, No, No, Sm, Sm, Sm, Ps, Pe, Cn,
    Lm, Lm, Lm, Lm, Lm, Lm, Lm, Lm, Lm, Lm, Lm, Lm, Lm, Cn, Cn, Cn,
    Sc, Sc, Sc, Sc, Sc, Sc, Sc, Sc, Sc, Sc, Sc, Sc, Sc, Sc, Sc, Sc,
    Sc, Sc, Sc, Sc, Sc, Sc, Sc, Sc, Sc, Sc, Sc, Sc, Sc, Sc, Sc, Sc,
    Sc, Cn, Cn, Cn, Cn, Cn, Cn, Cn, Cn, Cn, Cn, Cn, Cn, Cn, Cn, Cn,
    Mn, Mn, Mn, Mn, Mn, Mn, Mn, Mn, Mn, Mn, Mn, Mn, Mn, Me, Me, Me,
    Me, Mn, Me, Me, Me, Mn, Mn, Mn, Mn, Mn, Mn, Mn, Mn, Mn, Mn, Mn,
    Mn, Cn, Cn, Cn, Cn, Cn, Cn, Cn, Cn, Cn, Cn, Cn, Cn, Cn, Cn, Cn,
];

#[verifier::opaque]
pub const CAT_PAGE_30: [GeneralCategory; 256] = [
    So, So, Lu, So, So, So, So, Lu, So, So, Ll, Lu, Lu, Lu, Ll, Ll,
    Lu, Lu, Lu, Ll, So, Lu, So, So, Sm, Lu, Lu, Lu, Lu, Lu, So, So,
    So, So, So, So, Lu, So, Lu, So, Lu, So, Lu, Lu, Lu, Lu, So, Ll,
    Lu, Lu, Lu, Lu, Ll, Lo, Lo, Lo, Lo, Ll, So, So, Ll, Ll, Lu, Lu,
    Sm, Sm, Sm, Sm, Sm, Lu, Ll, Ll, Ll, Ll, So, Sm, So, So, Ll, So,
    No, No, No, No, No, No, No, No, No, No, No, No, No, No, No, No,
    Nl, Nl, Nl, Nl, Nl, Nl, Nl, Nl, Nl, Nl, Nl, Nl, Nl, Nl, Nl, Nl,
    Nl, Nl, Nl, Nl, Nl, Nl, Nl, Nl, Nl, Nl, Nl, Nl, Nl, Nl, Nl, Nl,
    Nl, Nl, Nl, Lu, Ll, Nl, Nl, Nl, Nl, No, So, So, Cn, Cn, Cn, Cn,
    Sm, Sm, Sm, Sm, Sm, So, So, So, So, So, Sm, Sm, So, So, So, So,
    Sm, So, So, Sm, So, So, Sm, So, So, So, So, So, So, So, Sm, So,
    So, So, So, So, So, So, So, So, So, So, So, So, So, So, So, So,
    So, So, So, So, So, So, So, So, So, So, So, So, So, So, Sm, Sm,
    So, So, Sm, So, Sm, So, So, So, So, So, So, So, So, So, So, So,
    So, So, So, So, So, So, So, So, So, So, So, So, So, So, So, So,
    So, So, So, So, Sm, Sm, Sm, Sm, Sm, Sm, Sm, Sm, Sm, Sm, Sm, Sm,
];

#[verifier::opaque]
pub const CAT_PAGE_31: [GeneralCategory; 256] = [
    So, So, So, So, So, So, So, So, Ps, Pe, Ps, Pe, So, So, So, So,
    So, So, So, So, So, So, So, So, So, So, So, So, So, So, So, So,
    Sm, Sm, So, So, So, So, So, So, So, Ps, Pe, So, So, So, So, So,
    So, So, So, So, So, So, So, So, So, So, So, So, So, So, So, So,
    So, So, So, So, So, So, So, So, So, So, So, So, So, So, So, So,
    So, So, So, So, So, So, So, So, So, So, So, So, So, So, So, So,
    So, So, So, So, So, So, So, So, So, So, So, So, So, So, So, So,
    So, So, So, So, So, So, So, So, So, So, So, So, Sm, So, So, So,
    So, So, So, So, So, So, So, So, So, So, So, So, So, So, So, So,
    So, So, So, So, So, So, So, So, So, So, So, Sm, Sm, Sm, Sm, Sm,
    Sm, Sm, Sm, Sm, Sm, Sm, Sm, Sm, Sm, Sm, Sm, Sm, Sm, Sm, Sm, Sm,
    Sm, Sm, Sm, Sm, So, So, So, So, So, So, So, So, So, So, So, So,
    So, So, So, So, So, So, So, So, So, So, So, So, So, So, So, So,
    So, So, So, So, So, So, So, So, So, So, So, So, Sm, Sm, Sm, Sm,
    Sm, Sm, So, So, So, So, So, So, So, So, So, So, So, So, So, So,
    So, So, So, So, So, So, So, So, So, So, So, So, So, So, So, So,
];

#[verifier::opaque]
pub const CAT_PAGE_32: [GeneralCategory; 256] = [
    So, So, So, So, So, So, So, So, So, So, So, So, So, So, So, So,
    So, So, So, So, So, So, So, So, So, So, So, So, So, So, So, So,
    So, So, So, So, So, So, So, Cn, Cn, Cn, Cn, Cn, Cn, Cn, Cn, Cn,
    Cn, Cn, Cn, Cn, Cn, Cn, Cn, Cn, Cn, Cn, Cn, Cn, Cn, Cn, Cn, Cn,
    So, So, So, So, So, So, So, So, So, So, So, Cn, Cn, Cn, Cn, Cn,
    Cn, Cn, Cn, Cn, Cn, Cn, Cn, Cn, Cn, Cn, Cn, Cn, Cn, Cn, Cn, Cn,
    No, No, No, No, No, No, No, No, No, No, No, No, No, No, No, No,
    No, No, No, No, No, No, No, No, No, No, No, No, No, No, No, No,
    No, No, No, No, No, No, No, No, No, No, No, No, No, No, No, No,
    No, No, No, No, No, No, No, No, No, No, No, No, So, So, So, So,
    So, So, So, So, So, So, So, So, So, So, So, So, So, So, So, So,
    So, So, So, So, So, So, So, So, So, So, So, So, So, So, So, So,
    So, So, So, So, So, So, So, So, So, So, So, So, So, So, So, So,
    So, So, So, So, So, So, So, So, So, So, So, So, So, So, So, So,
    So, So, So, So, So, So, So, So, So, So, No, No, No, No, No, No,
    No, No, No, No, No, No, No, No, No, No, No, No, No, No, No, No,
];

#[verifier::opaque]
pub const CAT_PAGE_33: [GeneralCategory; 256] = [
    So, So, So, So, So, So, So, So, So, So, So, So, So, So, So, So,
    So, So, So, So, So, So, So, So, So, So, So, So, So, So, So, So,
    So, So, So, So, So, So, So, So, So, So, So, So, So, So, So, So,
    So, So, So, So, So, So, So, So, So, So, So, So, So, So, So, So,
    So, So, So, So, So, So, So, So, So, So, So, So, So, So, So, So,
    So, So, So, So, So, So, So, So, So, So, So, So, So, So, So, So,
    So, So, So, So, So, So, So, So, So, So, So, So, So, So, So, So,
    So, So, So, So, So, So, So, So, So, So, So, So, So, So, So, So,
    So, So, So, So, So, So, So, So, So, So, So, So, So, So, So, So,
    So, So, So, So, So, So, So, So, So, So, So, So, So, So, So, So,
    So, So, So, So, So, So, So, So, So, So, So, So, So, So, So, So,
    So, So, So, So, So, So, So, Sm, So, So, So, So, So, So, So, So,
    So, Sm, So, So, So, So, So, So, So, So, So, So, So, So, So, So,
    So, So, So, So, So, So, So, So, So, So, So, So, So, So, So, So,
    So, So, So, So, So, So, So, So, So, So, So, So, So, So, So, So,
    So, So, So, So, So, So, So, So, Sm, Sm, Sm, Sm, Sm, Sm, Sm, Sm,
];

#[verifier::opaque]
pub const CAT_PAGE_34: [GeneralCategory; 256] = [
    So, So, So, So, So, So, So, So, So, So, So, So, So, So, So, So,
    So, So, So, So, So, So, So, So, So, So, So, So, So, So, So, So,
    So, So, So, So, So, So, So, So, So, So, So, So, So, So, So, So,
    So, So, So, So, So, So, So, So, So, So, So, So, So, So, So, So,
    So, So, So, So, So, So, So, So, So, So, So, So, So, So, So, So,
    So, So, So, So, So, So, So, So, So, So, So, So, So, So, So, So,
    So, So, So, So, So, So, So, So, So, So, So, So, So, So, So, Sm,
    So, So, So, So, So, So, So, So, So, So, So, So, So, So, So, So,
    So, So, So, So, So, So, So, So, So, So, So, So, So, So, So, So,
    So, So, So, So, So, So, So, So, So, So, So, So, So, So, So, So,
    So, So, So, So, So, So, So, So, So, So, So, So, So, So, So, So,
    So, So, So, So, So, So, So, So, So, So, So, So, So, So, So, So,
    So, So, So, So, So, So, So, So, So, So, So, So, So, So, So, So,
    So, So, So, So, So, So, So, So, So, So, So, So, So, So, So, So,
    So, So, So, So, So, So, So, So, So, So, So, So, So, So, So, So,
    So, So, So, So, So, So, So, So, So, So, So, So, So, So, So, So,
];

#[verifier::opaque]
pub const CAT_PAGE_35: [GeneralCategory; 256] = [
    So, So, So, So, So, So, So, So, So, So, So, So, So, So, So, So,
    So, So, So, So, So, So, So, So, So, So, So, So, So, So, So, So,
    So, So, So, So, So, So, So, So, So, So, So, So, So, So, So, So,
    So, So, So, So, So, So, So, So, So, So, So, So, So, So, So, So,
    So, So, So, So, So, So, So, So, So, So, So, So, So, So, So, So,
    So, So, So, So, So, So, So, So, So, So, So, So, So, So, So, So,
    So, So, So, So, So, So, So, So, Ps, Pe, Ps, Pe, Ps, Pe, Ps, Pe,
    Ps, Pe, Ps, Pe, Ps, Pe, No, No, No, No, No, No, No, No, No, No,
    No, No, No, No, No, No, No, No, No, No, No, No, No, No, No, No,
    No, No, No, No, So, So, So, So, So, So, So, So, So, So, So, So,
    So, So, So, So, So, So, So, So, So, So, So, So, So, So, So, So,
    So, So, So, So, So, So, So, So, So, So, So, So, So, So, So, So,
    Sm, Sm, Sm, Sm, Sm, Ps, Pe, Sm, Sm, Sm, Sm, Sm, Sm, Sm, Sm, Sm,
    Sm, Sm, Sm, Sm, Sm, Sm, Sm, Sm, Sm, Sm, Sm, Sm, Sm, Sm, Sm, Sm,
    Sm, Sm, Sm, Sm, Sm, Sm, Ps, Pe, Ps, Pe, Ps, Pe, Ps, Pe, Ps, Pe,
    Sm, Sm, Sm, Sm, Sm, Sm, Sm, Sm, Sm, Sm, Sm, Sm, Sm, Sm, Sm, Sm,
];

#[verifier::opaque]
pub const CAT_PAGE_36: [GeneralCategory; 256] = [
    Sm, Sm, Sm, Sm, Sm, Sm, Sm, Sm, Sm, Sm, Sm, Sm, Sm, Sm, Sm, Sm,
    Sm, Sm, Sm, Sm, Sm, Sm, Sm, Sm, Sm, Sm, Sm, Sm, Sm, Sm, Sm, Sm,
    Sm, Sm, Sm, Sm, Sm, Sm, Sm, Sm, Sm, Sm, Sm, Sm, Sm, Sm, Sm, Sm,
    Sm, Sm, Sm, Sm, Sm, Sm, Sm, Sm, Sm, Sm, Sm, Sm, Sm, Sm, Sm, Sm,
    Sm, Sm, Sm, Sm, Sm, Sm, Sm, Sm, Sm, Sm, Sm, Sm, Sm, Sm, Sm, Sm,
    Sm, Sm, Sm, Sm, Sm, Sm, Sm, Sm, Sm, Sm, Sm, Sm, Sm, Sm, Sm, Sm,
    Sm, Sm, Sm, Sm, Sm, Sm, Sm, Sm, Sm, Sm, Sm, Sm, Sm, Sm, Sm, Sm,
    Sm, Sm, Sm, Sm, Sm, Sm, Sm, Sm, Sm, Sm, Sm, Sm, Sm, Sm, Sm, Sm,
    Sm, Sm, Sm, Ps, Pe, Ps, Pe, Ps, Pe, Ps, Pe, Ps, Pe, Ps, Pe, Ps,
    Pe, Ps, Pe, Ps, Pe, Ps, Pe, Ps, Pe, Sm, Sm, Sm, Sm, Sm, Sm, Sm,
    Sm, Sm, Sm, Sm, Sm, Sm, Sm, Sm, Sm, Sm, Sm, Sm, Sm, Sm, Sm, Sm,
    Sm, Sm, Sm, Sm, Sm, Sm, Sm, Sm, Sm, Sm, Sm, Sm, Sm, Sm, Sm, Sm,
    Sm, Sm, Sm, Sm, Sm, Sm, Sm, Sm, Sm, Sm, Sm, Sm, Sm, Sm, Sm, Sm,
    Sm, Sm, Sm, Sm, Sm, Sm, Sm, Sm, Ps, Pe, Ps, Pe, Sm, Sm, Sm, Sm,
    Sm, Sm, Sm, Sm, Sm, Sm, Sm, Sm, Sm, Sm, Sm, Sm, Sm, Sm, Sm, Sm,
    Sm, Sm, Sm, Sm, Sm, Sm, Sm, Sm, Sm, Sm, Sm, Sm, Ps, Pe, Sm, Sm,
];

#[verifier::opaque]
pub const CAT_PAGE_37: [GeneralCategory; 256] = [
    So, So, So, So, So, So, So, So, So, So, So, So, So, So, So, So,
    So, So, So, So, So, So, So, So, So, So, So, So, So, So, So, So,
    So, So, So, So, So, So, So, So, So, So, So, So, So, So, So, So,
    Sm, Sm, Sm, Sm, Sm, Sm, Sm, Sm, Sm, Sm, Sm, Sm, Sm, Sm, Sm, Sm,
    Sm, Sm, Sm, Sm, Sm, So, So, Sm, Sm, Sm, Sm, Sm, Sm, So, So, So,
    So, So, So, So, So, So, So, So, So, So, So, So, So, So, So, So,
    So, So, So, So, So, So, So, So, So, So, So, So, So, So, So, So,
    So, So, So, So, Cn, Cn, So, So, So, So, So, So, So, So, So, So,
    So, So, So, So, So, So, So, So, So, So, So, So, So, So, So, So,
    So, So, So, So, So, So, Cn, So, So, So, So, So, So, So, So, So,
    So, So, So, So, So, So, So, So, So, So, So, So, So, So, So, So,
    So, So, So, So, So, So, So, So, So, So, So, So, So, So, So, So,
    So, So, So, So, So, So, So, So, So, So, So, So, So, So, So, So,
    So, So, So, So, So, So, So, So, So, So, So, So, So, So, So, So,
    So, So, So, So, So, So, So, So, So, So, So, So, So, So, So, So,
    So, So, So, So, So, So, So, So, So, So, So, So, So, So, So, So,
];

#[verifier::opaque]
pub const CAT_PAGE_38: [GeneralCategory; 256] = [
    Lu, Lu, Lu, Lu, Lu, Lu, Lu, Lu, Lu, Lu, Lu, Lu, Lu, Lu, Lu, Lu,
    Lu, Lu, Lu, Lu, Lu, Lu, Lu, Lu, Lu, Lu, Lu, Lu, Lu, Lu, Lu, Lu,
    Lu, Lu, Lu, Lu, Lu, Lu, Lu, Lu, Lu, Lu, Lu, Lu, Lu, Lu, Lu, Lu,
    Ll, Ll, Ll, Ll, Ll, Ll, Ll, Ll, Ll, Ll, Ll, Ll, Ll, Ll, Ll, Ll,
    Ll, Ll, Ll, Ll, Ll, Ll, Ll, Ll, Ll, Ll, Ll, Ll, Ll, Ll, Ll, Ll,
    Ll, Ll, Ll, Ll, Ll, Ll, Ll, Ll, Ll, Ll, Ll, Ll, Ll, Ll, Ll, Ll,
    Lu, Ll, Lu, Lu, Lu, Ll, Ll, Lu, Ll, Lu, Ll, Lu, Ll, Lu, Lu, Lu,
    Lu, Ll, Lu, Ll, Ll, Lu, Ll, Ll, Ll, Ll, Ll, Ll, Lm, Lm, Lu, Lu,
    Lu, Ll, Lu, Ll, Lu, Ll, Lu, Ll, Lu, Ll, Lu, Ll, Lu, Ll, Lu, Ll,
    Lu, Ll, Lu, Ll, Lu, Ll, Lu, Ll, Lu, Ll, Lu, Ll, Lu, Ll, Lu, Ll,
    Lu, Ll, Lu, Ll, Lu, Ll, Lu, Ll, Lu, Ll, Lu, Ll, Lu, Ll, Lu, Ll,
    Lu, Ll, Lu, Ll, Lu, Ll, Lu, Ll, Lu, Ll, Lu, Ll, Lu, Ll, Lu, Ll,
    Lu, Ll, Lu, Ll, Lu, Ll, Lu, Ll, Lu, Ll, Lu, Ll, Lu, Ll, Lu, Ll,
    Lu, Ll, Lu, Ll, Lu, Ll, Lu, Ll, Lu, Ll, Lu, Ll, Lu, Ll, Lu, Ll,
    Lu, Ll, Lu, Ll, Ll, So, So, So, So, So, So, Lu, Ll, Lu, Ll, Mn,
    Mn, Mn, Lu, Ll, Cn, Cn, Cn, Cn, Cn, Po, Po, Po, Po, No, Po, Po,
];

#[verifier::opaque]
pub const CAT_PAGE_39: [GeneralCategory; 256] = [
    Ll, Ll, Ll, Ll, Ll, Ll, Ll, Ll, Ll, Ll, Ll, Ll, Ll, Ll, Ll, Ll,
    Ll, Ll, Ll, Ll, Ll, Ll, Ll, Ll, Ll, Ll, Ll, Ll, Ll, Ll, Ll, Ll,
    Ll, Ll, Ll, Ll, Ll, Ll, Cn, Ll, Cn, Cn, Cn, Cn, Cn, Ll, Cn, Cn,
    Lo, Lo, Lo, Lo, Lo, Lo, Lo, Lo, Lo, Lo, Lo, Lo, Lo, Lo, Lo, Lo,
    Lo, Lo, Lo, Lo, Lo, Lo, Lo, Lo, Lo, Lo, Lo, Lo, Lo, Lo, Lo, Lo,
    Lo, Lo, Lo, Lo, Lo, Lo, Lo, Lo, Lo, Lo, Lo, Lo, Lo, Lo, Lo, Lo,
    Lo, Lo, Lo, Lo, Lo, Lo, Lo, Lo, Cn, Cn, Cn, Cn, Cn, Cn, Cn, Lm,
    Po, Cn, Cn, Cn, Cn, Cn, Cn, Cn, Cn, Cn, Cn, Cn, Cn, Cn, Cn, Mn,
    Lo, Lo, Lo, Lo, Lo, Lo, Lo, Lo, Lo, Lo, Lo, Lo, Lo, Lo, Lo, Lo,
    Lo, Lo, Lo, Lo, Lo, Lo, Lo, Cn, Cn, Cn, Cn, Cn, Cn, Cn, Cn, Cn,
    Lo, Lo, Lo, Lo, Lo, Lo, Lo, Cn, Lo, Lo, Lo, Lo, Lo, Lo, Lo, Cn,
    Lo, Lo, Lo, Lo, Lo, Lo, Lo, Cn, Lo, Lo, Lo, Lo, Lo, Lo, Lo, Cn,
    Lo, Lo, Lo, Lo, Lo, Lo, Lo, Cn, Lo, Lo, Lo, Lo, Lo, Lo, Lo, Cn,
    Lo, Lo, Lo, Lo, Lo, Lo, Lo, Cn, Lo, Lo, Lo, Lo, Lo, Lo, Lo, Cn,
    Mn, Mn, Mn, Mn, Mn, Mn, Mn, Mn, Mn, Mn, Mn, Mn, Mn, Mn, Mn, Mn,
    Mn, Mn, Mn, Mn, Mn, Mn, Mn, Mn, Mn, Mn, Mn, Mn, Mn, Mn, Mn, Mn,
];

#[verifier::opaque]
pub const CAT_PAGE_40: [GeneralCategory; 256] = [
    Po, Po, Pi, Pf, Pi, Pf, Po, Po, Po, Pi, Pf, Po, Pi, Pf, Po, Po,
    Po, Po, Po, Po, Po, Po, Po, Pd, Po, Po, Pd, Po, Pi, Pf, Po, Po,
    Pi, Pf, Ps, Pe, Ps, Pe, Ps, Pe, Ps, Pe, Po, Po, Po, Po, Po, Lm,
    Po, Po, Po, Po, Po, Po, Po, Po, Po, Po, Pd, Pd, Po, Po, Po, Po,
    Pd, Po, Ps, Po, Po, Po, Po, Po, Po, Po, Po, Po, Po, Po, Po, Po,
    So, So, Po, Po, Po, Ps, Pe, Ps, Pe, Ps, Pe, Ps, Pe, Pd, Cn, Cn,
    Cn, Cn, Cn, Cn, Cn, Cn, Cn, Cn, Cn, Cn, Cn, Cn, Cn, Cn, Cn, Cn,
    Cn, Cn, Cn, Cn, Cn, Cn, Cn, Cn, Cn, Cn, Cn, Cn, Cn, Cn, Cn, Cn,
    So, So, So, So, So, So, So, So, So, So, So, So, So, So, So, So,
    So, So, So, So, So, So, So, So, So, So, Cn, So, So, So, So, So,
    So, So, So, So, So, So, So, So, So, So, So, So, So, So, So, So,
    So, So, So, So, So, So, So, So, So, So, So, So, So, So, So, So,
    So, So, So, So, So, So, So, So, So, So, So, So, So, So, So, So,
    So, So, So, So, So, So, So, So, So, So, So, So, So, So, So, So,
    So, So, So, So, So, So, So, So, So, So, So, So, So, So, So, So,
    So, So, So, So, Cn, Cn, Cn, Cn, Cn, Cn, Cn, Cn, Cn, Cn, Cn, Cn,
];

#[verifier::opaque]
pub const CAT_PAGE_41: [GeneralCategory; 256] = [
    Zs, Po, Po, Po, So, Lm, Lo, Nl, Ps, Pe, Ps, Pe, Ps, Pe, Ps, Pe,
    Ps, Pe, So, So, Ps, Pe, Ps, Pe, Ps, Pe, Ps, Pe, Pd, Ps, Pe, Pe,
    So, Nl, Nl, Nl, Nl, Nl, Nl, Nl, Nl, Nl, Mn, Mn, Mn, Mn, Mc, Mc,
    Pd, Lm, Lm, Lm, Lm, Lm, So, So, Nl, Nl, Nl, Lm, Lo, Po, So, So,
    Cn, Lo, Lo, Lo, Lo, Lo, Lo, Lo, Lo, Lo, Lo, Lo, Lo, Lo, Lo, Lo,
    Lo, Lo, Lo, Lo, Lo, Lo, Lo, Lo, Lo, Lo, Lo, Lo, Lo, Lo, Lo, Lo,
    Lo, Lo, Lo, Lo, Lo, Lo, Lo, Lo, Lo, Lo, Lo, Lo, Lo, Lo, Lo, Lo,
    Lo, Lo, Lo, Lo, Lo, Lo, Lo, Lo, Lo, Lo, Lo, Lo, Lo, Lo, Lo, Lo,
    Lo, Lo, Lo, Lo, Lo, Lo, Lo, Lo, Lo, Lo, Lo, Lo, Lo, Lo, Lo, Lo,
    Lo, Lo, Lo, Lo, Lo, Lo, Lo, Cn, Cn, Mn, Mn, Sk, Sk, Lm, Lm, Lo,
    Pd, Lo, Lo, Lo, Lo, Lo, Lo, Lo, Lo, Lo, Lo, Lo, Lo, Lo, Lo, Lo,
    Lo, Lo, Lo, Lo, Lo, Lo, Lo, Lo, Lo, Lo, Lo, Lo, Lo, Lo, Lo, Lo,
    Lo, Lo, Lo, Lo, Lo, Lo, Lo, Lo, Lo, Lo, Lo, Lo, Lo, Lo, Lo, Lo,
    Lo, Lo, Lo, Lo, Lo, Lo, Lo, Lo, Lo, Lo, Lo, Lo, Lo, Lo, Lo, Lo,
    Lo, Lo, Lo, Lo, Lo, Lo, Lo, Lo, Lo, Lo, Lo, Lo, Lo, Lo, Lo, Lo,
    Lo, Lo, Lo, Lo, Lo, Lo, Lo, Lo, Lo, Lo, Lo, Po, Lm, Lm, Lm, Lo,
];

#[verifier::opaque]
pub const CAT_PAGE_42: [GeneralCategory; 256] = [
    Cn, Cn, Cn, Cn, Cn, Lo, Lo, Lo, Lo, Lo, Lo, Lo, Lo, Lo, Lo, Lo,
    Lo, Lo, Lo, Lo, Lo, Lo, Lo, Lo, Lo, Lo, Lo, Lo, Lo, Lo, Lo, Lo,
    Lo, Lo, Lo, Lo, Lo, Lo, Lo, Lo, Lo, Lo, Lo, Lo, Lo, Lo, Lo, Lo,
    Cn, Lo, Lo, Lo, Lo, Lo, Lo, Lo, Lo, Lo, Lo, Lo, Lo, Lo, Lo, Lo,
    Lo, Lo, Lo, Lo, Lo, Lo, Lo, Lo, Lo, Lo, Lo, Lo, Lo, Lo, Lo, Lo,
    Lo, Lo, Lo, Lo, Lo, Lo, Lo, Lo, Lo, Lo, Lo, Lo, Lo, Lo, Lo, Lo,
    Lo, Lo, Lo, Lo, Lo, Lo, Lo, Lo, Lo, Lo, Lo, Lo, Lo, Lo, Lo, Lo,
    Lo, Lo, Lo, Lo, Lo, Lo, Lo, Lo, Lo, Lo, Lo, Lo, Lo, Lo, Lo, Lo,
    Lo, Lo, Lo, Lo, Lo, Lo, Lo, Lo, Lo, Lo, Lo, Lo, Lo, Lo, Lo, Cn,
    So, So, No, No, No, No, So, So, So, So, So, So, So, So, So, So,
    Lo, Lo, Lo, Lo, Lo, Lo, Lo, Lo, Lo, Lo, Lo, Lo, Lo, Lo, Lo, Lo,
    Lo, Lo, Lo, Lo, Lo, Lo, Lo, Lo, Lo, Lo, Lo, Lo, Lo, Lo, Lo, Lo,
    So, So, So, So, So, So, So, So, So, So, So, So, So, So, So, So,
    So, So, So, So, So, So, So, So, So, So, So, So, So, So, So, So,
    So, So, So, So, Cn, Cn, Cn, Cn, Cn, Cn, Cn, Cn, Cn, Cn, Cn, Cn,
    Lo, Lo, Lo, Lo, Lo, Lo, Lo, Lo, Lo, Lo, Lo, Lo, Lo, Lo, Lo, Lo,
];

#[verifier::opaque]
pub const CAT_PAGE_43: [GeneralCategory; 256] = [
    So, So, So, So, So, So, So, So, So, So, So, So, So, So, So, So,
    So, So, So, So, So, So, So, So, So, So, So, So, So, So, So, Cn,
    No, No, No, No, No, No, No, No, No, No, So, So, So, So, So, So,
    So, So, So, So, So, So, So, So, So, So, So, So, So, So, So, So,
    So, So, So, So, So, So, So, So, No, No, No, No, No, No, No, No,
    So, No, No, No, No, No, No, No, No, No, No, No, No, No, No, No,
    So, So, So, So, So, So, So, So, So, So, So, So, So, So, So, So,
    So, So, So, So, So, So, So, So, So, So, So, So, So, So, So, So,
    No, No, No, No, No, No, No, No, No, No, So, So, So, So, So, So,
    So, So, So, So, So, So, So, So, So, So, So, So, So, So, So, So,
    So, So, So, So, So, So, So, So, So, So, So, So, So, So, So, So,
    So, No, No, No, No, No, No, No, No, No, No, No, No, No, No, No,
    So, So, So, So, So, So, So, So, So, So, So, So, So, So, So, So,
    So, So, So, So, So, So, So, So, So, So, So, So, So, So, So, So,
    So, So, So, So, So, So, So, So, So, So, So, So, So, So, So, So,
    So, So, So, So, So, So, So, So, So, So, So, So, So, So, So, So,
];

#[verifier::opaque]
pub const CAT_PAGE_44: [GeneralCategory; 256] = [
    Lo, Lo, Lo, Lo, Lo, Lo, Lo, Lo, Lo, Lo, Lo, Lo, Lo, Lo, Lo, Lo,
    Lo, Lo, Lo, Lo, Lo, Lo, Lo, Lo, Lo, Lo, Lo, Lo, Lo, Lo, Lo, Lo,
    Lo, Lo, Lo, Lo, Lo, Lo, Lo, Lo, Lo, Lo, Lo, Lo, Lo, Lo, Lo, Lo,
    Lo, Lo, Lo, Lo, Lo, Lo, Lo, Lo, Lo, Lo, Lo, Lo, Lo, Lo, Lo, Lo,
    Lo, Lo, Lo, Lo, Lo, Lo, Lo, Lo, Lo, Lo, Lo, Lo, Lo, Lo, Lo, Lo,
    Lo, Lo, Lo, Lo, Lo, Lo, Lo, Lo, Lo, Lo, Lo, Lo, Lo, Lo, Lo, Lo,
    Lo, Lo, Lo, Lo, Lo, Lo, Lo, Lo, Lo, Lo, Lo, Lo, Lo, Lo, Lo, Lo,
    Lo, Lo, Lo, Lo, Lo, Lo, Lo, Lo, Lo, Lo, Lo, Lo, Lo, Lo, Lo, Lo,
    Lo, Lo, Lo, Lo, Lo, Lo, Lo, Lo, Lo, Lo, Lo, Lo, Lo, Lo, Lo, Lo,
    Lo, Lo, Lo, Lo, Lo, Lo, Lo, Lo, Lo, Lo, Lo, Lo, Lo, Lo, Lo, Lo,
    Lo, Lo, Lo, Lo, Lo, Lo, Lo, Lo, Lo, Lo, Lo, Lo, Lo, Lo, Lo, Lo,
    Lo, Lo, Lo, Lo, Lo, Lo, Lo, Lo, Lo, Lo, Lo, Lo, Lo, Lo, Lo, Lo,
    So, So, So, So, So, So, So, So, So, So, So, So, So, So, So, So,
    So, So, So, So, So, So, So, So, So, So, So, So, So, So, So, So,
    So, So, So, So, So, So, So, So, So, So, So, So, So, So, So, So,
    So, So, So, So, So, So, So, So, So, So, So, So, So, So, So, So,
];

#[verifier::opaque]
pub const CAT_PAGE_45: [GeneralCategory; 256] = [
    Lo, Lo, Lo, Lo, Lo, Lo, Lo, Lo, Lo, Lo, Lo, Lo, Lo, Lo, Lo, Lo,
    Lo, Lo, Lo, Lo, Lo, Lm, Lo, Lo, Lo, Lo, Lo, Lo, Lo, Lo, Lo, Lo,
    Lo, Lo, Lo, Lo, Lo, Lo, Lo, Lo, Lo, Lo, Lo, Lo, Lo, Lo, Lo, Lo,
    Lo, Lo, Lo, Lo, Lo, Lo, Lo, Lo, Lo, Lo, Lo, Lo, Lo, Lo, Lo, Lo,
    Lo, Lo, Lo, Lo, Lo, Lo, Lo, Lo, Lo, Lo, Lo, Lo, Lo, Lo, Lo, Lo,
    Lo, Lo, Lo, Lo, Lo, Lo, Lo, Lo, Lo, Lo, Lo, Lo, Lo, Lo, Lo, Lo,
    Lo, Lo, Lo, Lo, Lo, Lo, Lo, Lo, Lo, Lo, Lo, Lo, Lo, Lo, Lo, Lo,
    Lo, Lo, Lo, Lo, Lo, Lo, Lo, Lo, Lo, Lo, Lo, Lo, Lo, Lo, Lo, Lo,
    Lo, Lo, Lo, Lo, Lo, Lo, Lo, Lo, Lo, Lo, Lo, Lo, Lo, Lo, Lo, Lo,
    Lo, Lo, Lo, Lo, Lo, Lo, Lo, Lo, Lo, Lo, Lo, Lo, Lo, Lo, Lo, Lo,
    Lo, Lo, Lo, Lo, Lo, Lo, Lo, Lo, Lo, Lo, Lo, Lo, Lo, Lo, Lo, Lo,
    Lo, Lo, Lo, Lo, Lo, Lo, Lo, Lo, Lo, Lo, Lo, Lo, Lo, Lo, Lo, Lo,
    Lo, Lo, Lo, Lo, Lo, Lo, Lo, Lo, Lo, Lo, Lo, Lo, Lo, Lo, Lo, Lo,
    Lo, Lo, Lo, Lo, Lo, Lo, Lo, Lo, Lo, Lo, Lo, Lo, Lo, Lo, Lo, Lo,
    Lo, Lo, Lo, Lo, Lo, Lo, Lo, Lo, Lo, Lo, Lo, Lo, Lo, Lo, Lo, Lo,
    Lo, Lo, Lo, Lo, Lo, Lo, Lo, Lo, Lo, Lo, Lo, Lo, Lo, Lo, Lo, Lo,
];

#[verifier::opaque]
pub const CAT_PAGE_46: [GeneralCategory; 256] = [
    Lo, Lo, Lo, Lo, Lo, Lo, Lo, Lo, Lo, Lo, Lo, Lo, Lo, Lo, Lo, Lo,
    Lo, Lo, Lo, Lo, Lo, Lo, Lo, Lo, Lo, Lo, Lo, Lo, Lo, Lo, Lo, Lo,
    Lo, Lo, Lo, Lo, Lo, Lo, Lo, Lo, Lo, Lo, Lo, Lo, Lo, Lo, Lo, Lo,
    Lo, Lo, Lo, Lo, Lo, Lo, Lo, Lo, Lo, Lo, Lo, Lo, Lo, Lo, Lo, Lo,
    Lo, Lo, Lo, Lo, Lo, Lo, Lo, Lo, Lo, Lo, Lo, Lo, Lo, Lo, Lo, Lo,
    Lo, Lo, Lo, Lo, Lo, Lo, Lo, Lo, Lo, Lo, Lo, Lo, Lo, Lo, Lo, Lo,
    Lo, Lo, Lo, Lo, Lo, Lo, Lo, Lo, Lo, Lo, Lo, Lo, Lo, Lo, Lo, Lo,
    Lo, Lo, Lo, Lo, Lo, Lo, Lo, Lo, Lo, Lo, Lo, Lo, Lo, Lo, Lo, Lo,
    Lo, Lo, Lo, Lo, Lo, Lo, Lo, Lo, Lo, Lo, Lo, Lo, Lo, Cn, Cn, Cn,
    So, So, So, So, So, So, So, So, So, So, So, So, So, So, So, So,
    So, So, So, So, So, So, So, So, So, So, So, So, So, So, So, So,
    So, So, So, So, So, So, So, So, So, So, So, So, So, So, So, So,
    So, So, So, So, So, So, So, Cn, Cn, Cn, Cn, Cn, Cn, Cn, Cn, Cn,
    Lo, Lo, Lo, Lo, Lo, Lo, Lo, Lo, Lo, Lo, Lo, Lo, Lo, Lo, Lo, Lo,
    Lo, Lo, Lo, Lo, Lo, Lo, Lo, Lo, Lo, Lo, Lo, Lo, Lo, Lo, Lo, Lo,
    Lo, Lo, Lo, Lo, Lo, Lo, Lo, Lo, Lm, Lm, Lm, Lm, Lm, Lm, Po, Po,
];

#[verifier::opaque]
pub const CAT_PAGE_47: [GeneralCategory; 256] = [
    Lo, Lo, Lo, Lo, Lo, Lo, Lo, Lo, Lo, Lo, Lo, Lo, Lm, Po, Po, Po,
    Lo, Lo, Lo, Lo, Lo, Lo, Lo, Lo, Lo, Lo, Lo, Lo, Lo, Lo, Lo, Lo,
    Nd, Nd, Nd, Nd, Nd, Nd, Nd, Nd, Nd, Nd, Lo, Lo, Cn, Cn, Cn, Cn,
    Cn, Cn, Cn, Cn, Cn, Cn, Cn, Cn, Cn, Cn, Cn, Cn, Cn, Cn, Cn, Cn,
    Lu, Ll, Lu, Ll, Lu, Ll, Lu, Ll, Lu, Ll, Lu, Ll, Lu, Ll, Lu, Ll,
    Lu, Ll, Lu, Ll, Lu, Ll, Lu, Ll, Lu, Ll, Lu, Ll, Lu, Ll, Lu, Ll,
    Lu, Ll, Lu, Ll, Lu, Ll, Lu, Ll, Lu, Ll, Lu, Ll, Lu, Ll, Lo, Mn,
    Me, Me, Me, Po, Mn, Mn, Mn, Mn, Mn, Mn, Mn, Mn, Mn, Mn, Po, Lm,
    Lu, Ll, Lu, Ll, Lu, Ll, Lu, Ll, Lu, Ll, Lu, Ll, Lu, Ll, Lu, Ll,
    Lu, Ll, Lu, Ll, Lu, Ll, Lu, Ll, Lu, Ll, Lu, Ll, Lm, Lm, Mn, Mn,
    Lo, Lo, Lo, Lo, Lo, Lo, Lo, Lo, Lo, Lo, Lo, Lo, Lo, Lo, Lo, Lo,
    Lo, Lo, Lo, Lo, Lo, Lo, Lo, Lo, Lo, Lo, Lo, Lo, Lo, Lo, Lo, Lo,
    Lo, Lo, Lo, Lo, Lo, Lo, Lo, Lo, Lo, Lo, Lo, Lo, Lo, Lo, Lo, Lo,
    Lo, Lo, Lo, Lo, Lo, Lo, Lo, Lo, Lo, Lo, Lo, Lo, Lo, Lo, Lo, Lo,
    Lo, Lo, Lo, Lo, Lo, Lo, Nl, Nl, Nl, Nl, Nl, Nl, Nl, Nl, Nl, Nl,
    Mn, Mn, Po, Po, Po, Po, Po, Po, Cn, Cn, Cn, Cn, Cn, Cn, Cn, Cn,
];

#[verifier::opaque]
pub const CAT_PAGE_48: [GeneralCategory; 256] = [
    Sk, Sk, Sk, Sk, Sk, Sk, Sk, Sk, Sk, Sk, Sk, Sk, Sk, Sk, Sk, Sk,
    Sk, Sk, Sk, Sk, Sk, Sk, Sk, Lm, Lm, Lm, Lm, Lm, Lm, Lm, Lm, Lm,
    Sk, Sk, Lu, Ll, Lu, Ll, Lu, Ll, Lu, Ll, Lu, Ll, Lu, Ll, Lu, Ll,
    Ll, Ll, Lu, Ll, Lu, Ll, Lu, Ll, Lu, Ll, Lu, Ll, Lu, Ll, Lu, Ll,
    Lu, Ll, Lu, Ll, Lu, Ll, Lu, Ll, Lu, Ll, Lu, Ll, Lu, Ll, Lu, Ll,
    Lu, Ll, Lu, Ll, Lu, Ll, Lu, Ll, Lu, Ll, Lu, Ll, Lu, Ll, Lu, Ll,
    Lu, Ll, Lu, Ll, Lu, Ll, Lu, Ll, Lu, Ll, Lu, Ll, Lu, Ll, Lu, Ll,
    Lm, Ll, Ll, Ll, Ll, Ll, Ll, Ll, Ll, Lu, Ll, Lu, Ll, Lu, Lu, Ll,
    Lu, Ll, Lu, Ll, Lu, Ll, Lu, Ll, Lm, Sk, Sk, Lu, Ll, Lu, Ll, Lo,
    Lu, Ll, Lu, Ll, Ll, Ll, Lu, Ll, Lu, Ll, Lu, Ll, Lu, Ll, Lu, Ll,
    Lu, Ll, Lu, Ll, Lu, Ll, Lu, Ll, Lu, Ll, Lu, Lu, Lu, Lu, Lu, Ll,
    Lu, Lu, Lu, Lu, Lu, Ll, Lu, Ll, Lu, Ll, Lu, Ll, Lu, Ll, Lu, Ll,
    Lu, Ll, Lu, Ll, Lu, Lu, Lu, Lu, Ll, Lu, Ll, Cn, Cn, Cn, Cn, Cn,
    Lu, Ll, Cn, Ll, Cn, Ll, Lu, Ll, Lu, Ll, Cn, Cn, Cn, Cn, Cn, Cn,
    Cn, Cn, Cn, Cn, Cn, Cn, Cn, Cn, Cn, Cn, Cn, Cn, Cn, Cn, Cn, Cn,
    Cn, Cn, Lm, Lm, Lm, Lu, Ll, Lo, Lm, Lm, Ll, Lo, Lo, Lo, Lo, Lo,
];

#[verifier::opaque]
pub const CAT_PAGE_49: [GeneralCategory; 256] = [
    Lo, Lo, Mn, Lo, Lo, Lo, Mn, Lo, Lo, Lo, Lo, Mn, Lo, Lo, Lo, Lo,
    Lo, Lo, Lo, Lo, Lo, Lo, Lo, Lo, Lo, Lo, Lo, Lo, Lo, Lo, Lo, Lo,
    Lo, Lo, Lo, Mc, Mc, Mn, Mn, Mc, So, So, So, So, Mn, Cn, Cn, Cn,
    No, No, No, No, No, No, So, So, Sc, So, Cn, Cn, Cn, Cn, Cn, Cn,
    Lo, Lo, Lo, Lo, Lo, Lo, Lo, Lo, Lo, Lo, Lo, Lo, Lo, Lo, Lo, Lo,
    Lo, Lo, Lo, Lo, Lo, Lo, Lo, Lo, Lo, Lo, Lo, Lo, Lo, Lo, Lo, Lo,
    Lo, Lo, Lo, Lo, Lo, Lo, Lo, Lo, Lo, Lo, Lo, Lo, Lo, Lo, Lo, Lo,
    Lo, Lo, Lo, Lo, Po, Po, Po, Po, Cn, Cn, Cn, Cn, Cn, Cn, Cn, Cn,
    Mc, Mc, Lo, Lo, Lo, Lo, Lo, Lo, Lo, Lo, Lo, Lo, Lo, Lo, Lo, Lo,
    Lo, Lo, Lo, Lo, Lo, Lo, Lo, Lo, Lo, Lo, Lo, Lo, Lo, Lo, Lo, Lo,
    Lo, Lo, Lo, Lo, Lo, Lo, Lo, Lo, Lo, Lo, Lo, Lo, Lo, Lo, Lo, Lo,
    Lo, Lo, Lo, Lo, Mc, Mc, Mc, Mc, Mc, Mc, Mc, Mc, Mc, Mc, Mc, Mc,
    Mc, Mc, Mc, Mc, Mn, Mn, Cn, Cn, Cn, Cn, Cn, Cn, Cn, Cn, Po, Po,
    Nd, Nd, Nd, Nd, Nd, Nd, Nd, Nd, Nd, Nd, Cn, Cn, Cn, Cn, Cn, Cn,
    Mn, Mn, Mn, Mn, Mn, Mn, Mn, Mn, Mn, Mn, Mn, Mn, Mn, Mn, Mn, Mn,
    Mn, Mn, Lo, Lo, Lo, Lo, Lo, Lo, Po, Po, Po, Lo, Po, Lo, Lo, Mn,
];

#[verifier::opaque]
pub const CAT_PAGE_50: [GeneralCategory; 256] = [
    Nd, Nd, Nd, Nd, Nd, Nd, Nd, Nd, Nd, Nd, Lo, Lo, Lo, Lo, Lo, Lo,
    Lo, Lo, Lo, Lo, Lo, Lo, Lo, Lo, Lo, Lo, Lo, Lo, Lo, Lo, Lo, Lo,
    Lo, Lo, Lo, Lo, Lo, Lo, Mn, Mn, Mn, Mn, Mn, Mn, Mn, Mn, Po, Po,
    Lo, Lo, Lo, Lo, Lo, Lo, Lo, Lo, Lo, Lo, Lo, Lo, Lo, Lo, Lo, Lo,
    Lo, Lo, Lo, Lo, Lo, Lo, Lo, Mn, Mn, Mn, Mn, Mn, Mn, Mn, Mn, Mn,
    Mn, Mn, Mc, Mc, Cn, Cn, Cn, Cn, Cn, Cn, Cn, Cn, Cn, Cn, Cn, Po,
    Lo, Lo, Lo, Lo, Lo, Lo, Lo, Lo, Lo, Lo, Lo, Lo, Lo, Lo, Lo, Lo,
    Lo, Lo, Lo, Lo, Lo, Lo, Lo, Lo, Lo, Lo, Lo, Lo, Lo, Cn, Cn, Cn,
    Mn, Mn, Mn, Mc, Lo, Lo, Lo, Lo, Lo, Lo, Lo, Lo, Lo, Lo, Lo, Lo,
    Lo, Lo, Lo, Lo, Lo, Lo, Lo, Lo, Lo, Lo, Lo, Lo, Lo, Lo, Lo, Lo,
    Lo, Lo, Lo, Lo, Lo, Lo, Lo, Lo, Lo, Lo, Lo, Lo, Lo, Lo, Lo, Lo,
    Lo, Lo, Lo, Mn, Mc, Mc, Mn, Mn, Mn, Mn, Mc, Mc, Mn, Mn, Mc, Mc,
    Mc, Po, Po, Po, Po, Po, Po, Po, Po, Po, Po, Po, Po, Po, Cn, Lm,
    Nd, Nd, Nd, Nd, Nd, Nd, Nd, Nd, Nd, Nd, Cn, Cn, Cn, Cn, Po, Po,
    Lo, Lo, Lo, Lo, Lo, Mn, Lm, Lo, Lo, Lo, Lo, Lo, Lo, Lo, Lo, Lo,
    Nd, Nd, Nd, Nd, Nd, Nd, Nd, Nd, Nd, Nd, Lo, Lo, Lo, Lo, Lo, Cn,
];

#[verifier::opaque]
pub const CAT_PAGE_51: [GeneralCategory; 256] = [
    Lo, Lo, Lo, Lo, Lo, Lo, Lo, Lo, Lo, Lo, Lo, Lo, Lo, Lo, Lo, Lo,
    Lo, Lo, Lo, Lo, Lo, Lo, Lo, Lo, Lo, Lo, Lo, Lo, Lo, Lo, Lo, Lo,
    Lo, Lo, Lo, Lo, Lo, Lo, Lo, Lo, Lo, Mn, Mn, Mn, Mn, Mn, Mn, Mc,
    Mc, Mn, Mn, Mc, Mc, Mn, Mn, Cn, Cn, Cn, Cn, Cn, Cn, Cn, Cn, Cn,
    Lo, Lo, Lo, Mn, Lo, Lo, Lo, Lo, Lo, Lo, Lo, Lo, Mn, Mc, Cn, Cn,
    Nd, Nd, Nd, Nd, Nd, Nd, Nd, Nd, Nd, Nd, Cn, Cn, Po, Po, Po, Po,
    Lo, Lo, Lo, Lo, Lo, Lo, Lo, Lo, Lo, Lo, Lo, Lo, Lo, Lo, Lo, Lo,
    Lm, Lo, Lo, Lo, Lo, Lo, Lo, So, So, So, Lo, Mc, Mn, Mc, Lo, Lo,
    Lo, Lo, Lo, Lo, Lo, Lo, Lo, Lo, Lo, Lo, Lo, Lo, Lo, Lo, Lo, Lo,
    Lo, Lo, Lo, Lo, Lo, Lo, Lo, Lo, Lo, Lo, Lo, Lo, Lo, Lo, Lo, Lo,
    Lo, Lo, Lo, Lo, Lo, Lo, Lo, Lo, Lo, Lo, Lo, Lo, Lo, Lo, Lo, Lo,
    Mn, Lo, Mn, Mn, Mn, Lo, Lo, Mn, Mn, Lo, Lo, Lo, Lo, Lo, Mn, Mn,
    Lo, Mn, Lo, Cn, Cn, Cn, Cn, Cn, Cn, Cn, Cn, Cn, Cn, Cn, Cn, Cn,
    Cn, Cn, Cn, Cn, Cn, Cn, Cn, Cn, Cn, Cn, Cn, Lo, Lo, Lm, Po, Po,
    Lo, Lo, Lo, Lo, Lo, Lo, Lo, Lo, Lo, Lo, Lo, Mc, Mn, Mn, Mc, Mc,
    Po, Po, Lo, Lm, Lm, Mc, Mn, Cn, Cn, Cn, Cn, Cn, Cn, Cn, Cn, Cn,
];

#[verifier::opaque]
pub const CAT_PAGE_52: [GeneralCategory; 256] = [
    Cn, Lo, Lo, Lo, Lo, Lo, Lo, Cn, Cn, Lo, Lo, Lo, Lo, Lo, Lo, Cn,
    Cn, Lo, Lo, Lo, Lo, Lo, Lo, Cn, Cn, Cn, Cn, Cn, Cn, Cn, Cn, Cn,
    Lo, Lo, Lo, Lo, Lo, Lo, Lo, Cn, Lo, Lo, Lo, Lo, Lo, Lo, Lo, Cn,
    Ll, Ll, Ll, Ll, Ll, Ll, Ll, Ll, Ll, Ll, Ll, Ll, Ll, Ll, Ll, Ll,
    Ll, Ll, Ll, Ll, Ll, Ll, Ll, Ll, Ll, Ll, Ll, Ll, Ll, Ll, Ll, Ll,
    Ll, Ll, Ll, Ll, Ll, Ll, Ll, Ll, Ll, Ll, Ll, Sk, Lm, Lm, Lm, Lm,
    Ll, Ll, Ll, Ll, Ll, Ll, Ll, Ll, Ll, Lm, Sk, Sk, Cn, Cn, Cn, Cn,
    Ll, Ll, Ll, Ll, Ll, Ll, Ll, Ll, Ll, Ll, Ll, Ll, Ll, Ll, Ll, Ll,
    Ll, Ll, Ll, Ll, Ll, Ll, Ll, Ll, Ll, Ll, Ll, Ll, Ll, Ll, Ll, Ll,
    Ll, Ll, Ll, Ll, Ll, Ll, Ll, Ll, Ll, Ll, Ll, Ll, Ll, Ll, Ll, Ll,
    Ll, Ll, Ll, Ll, Ll, Ll, Ll, Ll, Ll, Ll, Ll, Ll, Ll, Ll, Ll, Ll,
    Ll, Ll, Ll, Ll, Ll, Ll, Ll, Ll, Ll, Ll, Ll, Ll, Ll, Ll, Ll, Ll,
    Lo, Lo, Lo, Lo, Lo, Lo, Lo, Lo, Lo, Lo, Lo, Lo, Lo, Lo, Lo, Lo,
    Lo, Lo, Lo, Lo, Lo, Lo, Lo, Lo, Lo, Lo, Lo, Lo, Lo, Lo, Lo, Lo,
    Lo, Lo, Lo, Mc, Mc, Mn, Mc, Mc, Mn, Mc, Mc, Po, Mc, Mn, Cn, Cn,
    Nd, Nd, Nd, Nd, Nd, Nd, Nd, Nd, Nd, Nd, Cn, Cn, Cn, Cn, Cn, Cn,
];

#[verifier::opaque]
pub const CAT_PAGE_53: [GeneralCategory; 256] = [
    Ll, Ll, Ll, Ll, Ll, Ll, Ll, Cn, Cn, Cn, Cn, Cn, Cn, Cn, Cn, Cn,
    Cn, Cn, Cn, Ll, Ll, Ll, Ll, Ll, Cn, Cn, Cn, Cn, Cn, Lo, Mn, Lo,
    Lo, Lo, Lo, Lo, Lo, Lo, Lo, Lo, Lo, Sm, Lo, Lo, Lo, Lo, Lo, Lo,
    Lo, Lo, Lo, Lo, Lo, Lo, Lo, Cn, Lo, Lo, Lo, Lo, Lo, Cn, Lo, Cn,
    Lo, Lo, Cn, Lo, Lo, Cn, Lo, Lo, Lo, Lo, Lo, Lo, Lo, Lo, Lo, Lo,
    Lo, Lo, Lo, Lo, Lo, Lo, Lo, Lo, Lo, Lo, Lo, Lo, Lo, Lo, Lo, Lo,
    Lo, Lo, Lo, Lo, Lo, Lo, Lo, Lo, Lo, Lo, Lo, Lo, Lo, Lo, Lo, Lo,
    Lo, Lo, Lo, Lo, Lo, Lo, Lo, Lo, Lo, Lo, Lo, Lo, Lo, Lo, Lo, Lo,
    Lo, Lo, Lo, Lo, Lo, Lo, Lo, Lo, Lo, Lo, Lo, Lo, Lo, Lo, Lo, Lo,
    Lo, Lo, Lo, Lo, Lo, Lo, Lo, Lo, Lo, Lo, Lo, Lo, Lo, Lo, Lo, Lo,
    Lo, Lo, Lo, Lo, Lo, Lo, Lo, Lo, Lo, Lo, Lo, Lo, Lo, Lo, Lo, Lo,
    Lo, Lo, Sk, Sk, Sk, Sk, Sk, Sk, Sk, Sk, Sk, Sk, Sk, Sk, Sk, Sk,
    Sk, Sk, Sk, Cn, Cn, Cn, Cn, Cn, Cn, Cn, Cn, Cn, Cn, Cn, Cn, Cn,
    Cn, Cn, Cn, Lo, Lo, Lo, Lo, Lo, Lo, Lo, Lo, Lo, Lo, Lo, Lo, Lo,
    Lo, Lo, Lo, Lo, Lo, Lo, Lo, Lo, Lo, Lo, Lo, Lo, Lo, Lo, Lo, Lo,
    Lo, Lo, Lo, Lo, Lo, Lo, Lo, Lo, Lo, Lo, Lo, Lo, Lo, Lo, Lo, Lo,
];

#[verifier::opaque]
pub const CAT_PAGE_54: [GeneralCategory; 256] = [
    Lo, Lo, Lo, Lo, Lo, Lo, Lo, Lo, Lo, Lo, Lo, Lo, Lo, Lo, Lo, Lo,
    Lo, Lo, Lo, Lo, Lo, Lo, Lo, Lo, Lo, Lo, Lo, Lo, Lo, Lo, Lo, Lo,
    Lo, Lo, Lo, Lo, Lo, Lo, Lo, Lo, Lo, Lo, Lo, Lo, Lo, Lo, Lo, Lo,
    Lo, Lo, Lo, Lo, Lo, Lo, Lo, Lo, Lo, Lo, Lo, Lo, Lo, Lo, Pe, Ps,
    So, So, So, So, So, So, So, So, So, So, So, So, So, So, So, So,
    Lo, Lo, Lo, Lo, Lo, Lo, Lo, Lo, Lo, Lo, Lo, Lo, Lo, Lo, Lo, Lo,
    Lo, Lo, Lo, Lo, Lo, Lo, Lo, Lo, Lo, Lo, Lo, Lo, Lo, Lo, Lo, Lo,
    Lo, Lo, Lo, Lo, Lo, Lo, Lo, Lo, Lo, Lo, Lo, Lo, Lo, Lo, Lo, Lo,
    Lo, Lo, Lo, Lo, Lo, Lo, Lo, Lo, Lo, Lo, Lo, Lo, Lo, Lo, Lo, Lo,
    Cn, Cn, Lo, Lo, Lo, Lo, Lo, Lo, Lo, Lo, Lo, Lo, Lo, Lo, Lo, Lo,
    Lo, Lo, Lo, Lo, Lo, Lo, Lo, Lo, Lo, Lo, Lo, Lo, Lo, Lo, Lo, Lo,
    Lo, Lo, Lo, Lo, Lo, Lo, Lo, Lo, Lo, Lo, Lo, Lo, Lo, Lo, Lo, Lo,
    Lo, Lo, Lo, Lo, Lo, Lo, Lo, Lo, Cn, Cn, Cn, Cn, Cn, Cn, Cn, So,
    Cn, Cn, Cn, Cn, Cn, Cn, Cn, Cn, Cn, Cn, Cn, Cn, Cn, Cn, Cn, Cn,
    Cn, Cn, Cn, Cn, Cn, Cn, Cn, Cn, Cn, Cn, Cn, Cn, Cn, Cn, Cn, Cn,
    Lo, Lo, Lo, Lo, Lo, Lo, Lo, Lo, Lo, Lo, Lo, Lo, Sc, So, So, So,
];

#[verifier::opaque]
pub const CAT_PAGE_55: [GeneralCategory; 256] = [
    Mn, Mn, Mn, Mn, Mn, Mn, Mn, Mn, Mn, Mn, Mn, Mn, Mn, Mn, Mn, Mn,
    Po, Po, Po, Po, Po, Po, Po, Ps, Pe, Po, Cn, Cn, Cn, Cn, Cn, Cn,
    Mn, Mn, Mn, Mn, Mn, Mn, Mn, Mn, Mn, Mn, Mn, Mn, Mn, Mn, Mn, Mn,
    Po, Pd, Pd, Pc, Pc, Ps, Pe, Ps, Pe, Ps, Pe, Ps, Pe, Ps, Pe, Ps,
    Pe, Ps, Pe, Ps, Pe, Po, Po, Ps, Pe, Po, Po, Po, Po, Pc, Pc, Pc,
    Po, Po, Po, Cn, Po, Po, Po, Po, Pd, Ps, Pe, Ps, Pe, Ps, Pe, Po,
    Po, Po, Sm, Pd, Sm, Sm, Sm, Cn, Po, Sc, Po, Po, Cn, Cn, Cn, Cn,
    Lo, Lo, Lo, Lo, Lo, Cn, Lo, Lo, Lo, Lo, Lo, Lo, Lo, Lo, Lo, Lo,
    Lo, Lo, Lo, Lo, Lo, Lo, Lo, Lo, Lo, Lo, Lo, Lo, Lo, Lo, Lo, Lo,
    Lo, Lo, Lo, Lo, Lo, Lo, Lo, Lo, Lo, Lo, Lo, Lo, Lo, Lo, Lo, Lo,
    Lo, Lo, Lo, Lo, Lo, Lo, Lo, Lo, Lo, Lo, Lo, Lo, Lo, Lo, Lo, Lo,
    Lo, Lo, Lo, Lo, Lo, Lo, Lo, Lo, Lo, Lo, Lo, Lo, Lo, Lo, Lo, Lo,
    Lo, Lo, Lo, Lo, Lo, Lo, Lo, Lo, Lo, Lo, Lo, Lo, Lo, Lo, Lo, Lo,
    Lo, Lo, Lo, Lo, Lo, Lo, Lo, Lo, Lo, Lo, Lo, Lo, Lo, Lo, Lo, Lo,
    Lo, Lo, Lo, Lo, Lo, Lo, Lo, Lo, Lo, Lo, Lo, Lo, Lo, Lo, Lo, Lo,
    Lo, Lo, Lo, Lo, Lo, Lo, Lo, Lo, Lo, Lo, Lo, Lo, Lo, Cn, Cn, Cf,
];

#[verifier::opaque]
pub const CAT_PAGE_56: [GeneralCategory; 256] = [
    Cn, Po, Po, Po, Sc, Po, Po, Po, Ps, Pe, Po, Sm, Po, Pd, Po, Po,
    Nd, Nd, Nd, Nd, Nd, Nd, Nd, Nd, Nd, Nd, Po, Po, Sm, Sm, Sm, Po,
    Po, Lu, Lu, Lu, Lu, Lu, Lu, Lu, Lu, Lu, Lu, Lu, Lu, Lu, Lu, Lu,
    Lu, Lu, Lu, Lu, Lu, Lu, Lu, Lu, Lu, Lu, Lu, Ps, Po, Pe, Sk, Pc,
    Sk, Ll, Ll, Ll, Ll, Ll, Ll, Ll, Ll, Ll, Ll, Ll, Ll, Ll, Ll, Ll,
    Ll, Ll, Ll, Ll, Ll, Ll, Ll, Ll, Ll, Ll, Ll, Ps, Sm, Pe, Sm, Ps,
    Pe, Po, Ps, Pe, Po, Po, Lo, Lo, Lo, Lo, Lo, Lo, Lo, Lo, Lo, Lo,
    Lm, Lo, Lo, Lo, Lo, Lo, Lo, Lo, Lo, Lo, Lo, Lo, Lo, Lo, Lo, Lo,
    Lo, Lo, Lo, Lo, Lo, Lo, Lo, Lo, Lo, Lo, Lo, Lo, Lo, Lo, Lo, Lo,
    Lo, Lo, Lo, Lo, Lo, Lo, Lo, Lo, Lo, Lo, Lo, Lo, Lo, Lo, Lm, Lm,
    Lo, Lo, Lo, Lo, Lo, Lo, Lo, Lo, Lo, Lo, Lo, Lo, Lo, Lo, Lo, Lo,
    Lo, Lo, Lo, Lo, Lo, Lo, Lo, Lo, Lo, Lo, Lo, Lo, Lo, Lo, Lo, Cn,
    Cn, Cn, Lo, Lo, Lo, Lo, Lo, Lo, Cn, Cn, Lo, Lo, Lo, Lo, Lo, Lo,
    Cn, Cn, Lo, Lo, Lo, Lo, Lo, Lo, Cn, Cn, Lo, Lo, Lo, Cn, Cn, Cn,
    Sc, Sc, Sm, Sk, So, Sc, Sc, Cn, So, Sm, Sm, Sm, Sm, So, So, Cn,
    Cn, Cn, Cn, Cn, Cn, Cn, Cn, Cn, Cn, Cf, Cf, Cf, So, So, Cn, Cn,
];

#[verifier::opaque]
pub const CAT_PAGE_57: [GeneralCategory; 256] = [
    Po, Po, Po, Cn, Cn, Cn, Cn, No, No, No, No, No, No, No, No, No,
    No, No, No, No, No, No, No, No, No, No, No, No, No, No, No, No,
    No, No, No, No, No, No, No, No, No, No, No, No, No, No, No, No,
    No, No, No, No, Cn, Cn, Cn, So, So, So, So, So, So, So, So, So,
    Nl, Nl, Nl, Nl, Nl, Nl, Nl, Nl, Nl, Nl, Nl, Nl, Nl, Nl, Nl, Nl,
    Nl, Nl, Nl, Nl, Nl, Nl, Nl, Nl, Nl, Nl, Nl, Nl, Nl, Nl, Nl, Nl,
    Nl, Nl, Nl, Nl, Nl, Nl, Nl, Nl, Nl, Nl, Nl, Nl, Nl, Nl, Nl, Nl,
    Nl, Nl, Nl, Nl, Nl, No, No, No, No, So, So, So, So, So, So, So,
    So, So, So, So, So, So, So, So, So, So, No, No, So, So, So, Cn,
    So, So, So, So, So, So, So, So, So, So, So, So, So, Cn, Cn, Cn,
    So, Cn, Cn, Cn, Cn, Cn, Cn, Cn, Cn, Cn, Cn, Cn, Cn, Cn, Cn, Cn,
    Cn, Cn, Cn, Cn, Cn, Cn, Cn, Cn, Cn, Cn, Cn, Cn, Cn, Cn, Cn, Cn,
    Cn, Cn, Cn, Cn, Cn, Cn, Cn, Cn, Cn, Cn, Cn, Cn, Cn, Cn, Cn, Cn,
    So, So, So, So, So, So, So, So, So, So, So, So, So, So, So, So,
    So, So, So, So, So, So, So, So, So, So, So, So, So, So, So, So,
    So, So, So, So, So, So, So, So, So, So, So, So, So, Mn, Cn, Cn,
];

#[verifier::opaque]
pub const CAT_PAGE_58: [GeneralCategory; 256] = [
    Cn, Cn, Cn, Cn, Cn, Cn, Cn, Cn, Cn, Cn, Cn, Cn, Cn, Cn, Cn, Cn,
    Cn, Cn, Cn, Cn, Cn, Cn, Cn, Cn, Cn, Cn, Cn, Cn, Cn, Cn, Cn, Cn,
    Cn, Cn, Cn, Cn, Cn, Cn, Cn, Cn, Cn, Cn, Cn, Cn, Cn, Cn, Cn, Cn,
    Cn, Cn, Cn, Cn, Cn, Cn, Cn, Cn, Cn, Cn, Cn, Cn, Cn, Cn, Cn, Cn,
    Cn, Cn, Cn, Cn, Cn, Cn, Cn, Cn, Cn, Cn, Cn, Cn, Cn, Cn, Cn, Cn,
    Cn, Cn, Cn, Cn, Cn, Cn, Cn, Cn, Cn, Cn, Cn, Cn, Cn, Cn, Cn, Cn,
    Cn, Cn, Cn, Cn, Cn, Cn, Cn, Cn, Cn, Cn, Cn, Cn, Cn, Cn, Cn, Cn,
    Cn, Cn, Cn, Cn, Cn, Cn, Cn, Cn, Cn, Cn, Cn, Cn, Cn, Cn, Cn, Cn,
    Lo, Lo, Lo, Lo, Lo, Lo, Lo, Lo, Lo, Lo, Lo, Lo, Lo, Lo, Lo, Lo,
    Lo, Lo, Lo, Lo, Lo, Lo, Lo, Lo, Lo, Lo, Lo, Lo, Lo, Cn, Cn, Cn,
    Lo, Lo, Lo, Lo, Lo, Lo, Lo, Lo, Lo, Lo, Lo, Lo, Lo, Lo, Lo, Lo,
    Lo, Lo, Lo, Lo, Lo, Lo, Lo, Lo, Lo, Lo, Lo, Lo, Lo, Lo, Lo, Lo,
    Lo, Lo, Lo, Lo, Lo, Lo, Lo, Lo, Lo, Lo, Lo, Lo, Lo, Lo, Lo, Lo,
    Lo, Cn, Cn, Cn, Cn, Cn, Cn, Cn, Cn, Cn, Cn, Cn, Cn, Cn, Cn, Cn,
    Mn, No, No, No, No, No, No, No, No, No, No, No, No, No, No, No,
    No, No, No, No, No, No, No, No, No, No, No, No, Cn, Cn, Cn, Cn,
];

#[verifier::opaque]
pub const CAT_PAGE_59: [GeneralCategory; 256] = [
    Lo, Lo, Lo, Lo, Lo, Lo, Lo, Lo, Lo, Lo, Lo, Lo, Lo, Lo, Lo, Lo,
    Lo, Lo, Lo, Lo, Lo, Lo, Lo, Lo, Lo, Lo, Lo, Lo, Lo, Lo, Lo, Lo,
    No, No, No, No, Cn, Cn, Cn, Cn, Cn, Cn, Cn, Cn, Cn, Lo, Lo, Lo,
    Lo, Lo, Lo, Lo, Lo, Lo, Lo, Lo, Lo, Lo, Lo, Lo, Lo, Lo, Lo, Lo,
    Lo, Nl, Lo, Lo, Lo, Lo, Lo, Lo, Lo, Lo, Nl, Cn, Cn, Cn, Cn, Cn,
    Lo, Lo, Lo, Lo, Lo, Lo, Lo, Lo, Lo, Lo, Lo, Lo, Lo, Lo, Lo, Lo,
    Lo, Lo, Lo, Lo, Lo, Lo, Lo, Lo, Lo, Lo, Lo, Lo, Lo, Lo, Lo, Lo,
    Lo, Lo, Lo, Lo, Lo, Lo, Mn, Mn, Mn, Mn, Mn, Cn, Cn, Cn, Cn, Cn,
    Lo, Lo, Lo, Lo, Lo, Lo, Lo, Lo, Lo, Lo, Lo, Lo, Lo, Lo, Lo, Lo,
    Lo, Lo, Lo, Lo, Lo, Lo, Lo, Lo, Lo, Lo, Lo, Lo, Lo, Lo, Cn, Po,
    Lo, Lo, Lo, Lo, Lo, Lo, Lo, Lo, Lo, Lo, Lo, Lo, Lo, Lo, Lo, Lo,
    Lo, Lo, Lo, Lo, Lo, Lo, Lo, Lo, Lo, Lo, Lo, Lo, Lo, Lo, Lo, Lo,
    Lo, Lo, Lo, Lo, Cn, Cn, Cn, Cn, Lo, Lo, Lo, Lo, Lo, Lo, Lo, Lo,
    Po, Nl, Nl, Nl, Nl, Nl, Cn, Cn, Cn, Cn, Cn, Cn, Cn, Cn, Cn, Cn,
    Cn, Cn, Cn, Cn, Cn, Cn, Cn, Cn, Cn, Cn, Cn, Cn, Cn, Cn, Cn, Cn,
    Cn, Cn, Cn, Cn, Cn, Cn, Cn, Cn, Cn, Cn, Cn, Cn, Cn, Cn, Cn, Cn,
];

#[verifier::opaque]
pub const CAT_PAGE_60: [GeneralCategory; 256] = [
    Lu, Lu, Lu, Lu, Lu, Lu, Lu, Lu, Lu, Lu, Lu, Lu, Lu, Lu, Lu, Lu,
    Lu, Lu, Lu, Lu, Lu, Lu, Lu, Lu, Lu, Lu, Lu, Lu, Lu, Lu, Lu, Lu,
    Lu, Lu, Lu, Lu, Lu, Lu, Lu, Lu, Ll, Ll, Ll, Ll, Ll, Ll, Ll, Ll,
    Ll, Ll, Ll, Ll, Ll, Ll, Ll, Ll, Ll, Ll, Ll, Ll, Ll, Ll, Ll, Ll,
    Ll, Ll, Ll, Ll, Ll, Ll, Ll, Ll, Ll, Ll, Ll, Ll, Ll, Ll, Ll, Ll,
    Lo, Lo, Lo, Lo, Lo, Lo, Lo, Lo, Lo, Lo, Lo, Lo, Lo, Lo, Lo, Lo,
    Lo, Lo, Lo, Lo, Lo, Lo, Lo, Lo, Lo, Lo, Lo, Lo, Lo, Lo, Lo, Lo,
    Lo, Lo, Lo, Lo, Lo, Lo, Lo, Lo, Lo, Lo, Lo, Lo, Lo, Lo, Lo, Lo,
    Lo, Lo, Lo, Lo, Lo, Lo, Lo, Lo, Lo, Lo, Lo, Lo, Lo, Lo, Lo, Lo,
    Lo, Lo, Lo, Lo, Lo, Lo, Lo, Lo, Lo, Lo, Lo, Lo, Lo, Lo, Cn, Cn,
    Nd, Nd, Nd, Nd, Nd, Nd, Nd, Nd, Nd, Nd, Cn, Cn, Cn, Cn, Cn, Cn,
    Lu, Lu, Lu, Lu, Lu, Lu, Lu, Lu, Lu, Lu, Lu, Lu, Lu, Lu, Lu, Lu,
    Lu, Lu, Lu, Lu, Lu, Lu, Lu, Lu, Lu, Lu, Lu, Lu, Lu, Lu, Lu, Lu,
    Lu, Lu, Lu, Lu, Cn, Cn, Cn, Cn, Ll, Ll, Ll, Ll, Ll, Ll, Ll, Ll,
    Ll, Ll, Ll, Ll, Ll, Ll, Ll, Ll, Ll, Ll, Ll, Ll, Ll, Ll, Ll, Ll,
    Ll, Ll, Ll, Ll, Ll, Ll, Ll, Ll, Ll, Ll, Ll, Ll, Cn, Cn, Cn, Cn,
];

#[verifier::opaque]
pub const CAT_PAGE_61: [GeneralCategory; 256] = [
    Lo, Lo, Lo, Lo, Lo, Lo, Lo, Lo, Lo, Lo, Lo, Lo, Lo, Lo, Lo, Lo,
    Lo, Lo, Lo, Lo, Lo, Lo, Lo, Lo, Lo, Lo, Lo, Lo, Lo, Lo, Lo, Lo,
    Lo, Lo, Lo, Lo, Lo, Lo, Lo, Lo, Cn, Cn, Cn, Cn, Cn, Cn, Cn, Cn,
    Lo, Lo, Lo, Lo, Lo, Lo, Lo, Lo, Lo, Lo, Lo, Lo, Lo, Lo, Lo, Lo,
    Lo, Lo, Lo, Lo, Lo, Lo, Lo, Lo, Lo, Lo, Lo, Lo, Lo, Lo, Lo, Lo,
    Lo, Lo, Lo, Lo, Lo, Lo, Lo, Lo, Lo, Lo, Lo, Lo, Lo, Lo, Lo, Lo,
    Lo, Lo, Lo, Lo, Cn, Cn, Cn, Cn, Cn, Cn, Cn, Cn, Cn, Cn, Cn, Po,
    Lu, Lu, Lu, Lu, Lu, Lu, Lu, Lu, Lu, Lu, Lu, Cn, Lu, Lu, Lu, Lu,
    Lu, Lu, Lu, Lu, Lu, Lu, Lu, Lu, Lu, Lu, Lu, Cn, Lu, Lu, Lu, Lu,
    Lu, Lu, Lu, Cn, Lu, Lu, Cn, Ll, Ll, Ll, Ll, Ll, Ll, Ll, Ll, Ll,
    Ll, Ll, Cn, Ll, Ll, Ll, Ll, Ll, Ll, Ll, Ll, Ll, Ll, Ll, Ll, Ll,
    Ll, Ll, Cn, Ll, Ll, Ll, Ll, Ll, Ll, Ll, Cn, Ll, Ll, Cn, Cn, Cn,
    Cn, Cn, Cn, Cn, Cn, Cn, Cn, Cn, Cn, Cn, Cn, Cn, Cn, Cn, Cn, Cn,
    Cn, Cn, Cn, Cn, Cn, Cn, Cn, Cn, Cn, Cn, Cn, Cn, Cn, Cn, Cn, Cn,
    Cn, Cn, Cn, Cn, Cn, Cn, Cn, Cn, Cn, Cn, Cn, Cn, Cn, Cn, Cn, Cn,
    Cn, Cn, Cn, Cn, Cn, Cn, Cn, Cn, Cn, Cn, Cn, Cn, Cn, Cn, Cn, Cn,
];

#[verifier::opaque]
pub const CAT_PAGE_62: [GeneralCategory; 256] = [
    Lo, Lo, Lo, Lo, Lo, Lo, Lo, Lo, Lo, Lo, Lo, Lo, Lo, Lo, Lo, Lo,
    Lo, Lo, Lo, Lo, Lo, Lo, Lo, Lo, Lo, Lo, Lo, Lo, Lo, Lo, Lo, Lo,
    Lo, Lo, Lo, Lo, Lo, Lo, Lo, Lo, Lo, Lo, Lo, Lo, Lo, Lo, Lo, Lo,
    Lo, Lo, Lo, Lo, Lo, Lo, Lo, Cn, Cn, Cn, Cn, Cn, Cn, Cn, Cn, Cn,
    Lo, Lo, Lo, Lo, Lo, Lo, Lo, Lo, Lo, Lo, Lo, Lo, Lo, Lo, Lo, Lo,
    Lo, Lo, Lo, Lo, Lo, Lo, Cn, Cn, Cn, Cn, Cn, Cn, Cn, Cn, Cn, Cn,
    Lo, Lo, Lo, Lo, Lo, Lo, Lo, Lo, Cn, Cn, Cn, Cn, Cn, Cn, Cn, Cn,
    Cn, Cn, Cn, Cn, Cn, Cn, Cn, Cn, Cn, Cn, Cn, Cn, Cn, Cn, Cn, Cn,
    Lm, Lm, Lm, Lm, Lm, Lm, Cn, Lm, Lm, Lm, Lm, Lm, Lm, Lm, Lm, Lm,
    Lm, Lm, Lm, Lm, Lm, Lm, Lm, Lm, Lm, Lm, Lm, Lm, Lm, Lm, Lm, Lm,
    Lm, Lm, Lm, Lm, Lm, Lm, Lm, Lm, Lm, Lm, Lm, Lm, Lm, Lm, Lm, Lm,
    Lm, Cn, Lm, Lm, Lm, Lm, Lm, Lm, Lm, Lm, Lm, Cn, Cn, Cn, Cn, Cn,
    Cn, Cn, Cn, Cn, Cn, Cn, Cn, Cn, Cn, Cn, Cn, Cn, Cn, Cn, Cn, Cn,
    Cn, Cn, Cn, Cn, Cn, Cn, Cn, Cn, Cn, Cn, Cn, Cn, Cn, Cn, Cn, Cn,
    Cn, Cn, Cn, Cn, Cn, Cn, Cn, Cn, Cn, Cn, Cn, Cn, Cn, Cn, Cn, Cn,
    Cn, Cn, Cn, Cn, Cn, Cn, Cn, Cn, Cn, Cn, Cn, Cn, Cn, Cn, Cn, Cn,
];

#[verifier::opaque]
pub const CAT_PAGE_63: [GeneralCategory; 256] = [
    Lo, Lo, Lo, Lo, Lo, Lo, Cn, Cn, Lo, Cn, Lo, Lo, Lo, Lo, Lo, Lo,
    Lo, Lo, Lo, Lo, Lo, Lo, Lo, Lo, Lo, Lo, Lo, Lo, Lo, Lo, Lo, Lo,
    Lo, Lo, Lo, Lo, Lo, Lo, Lo, Lo, Lo, Lo, Lo, Lo, Lo, Lo, Lo, Lo,
    Lo, Lo, Lo, Lo, Lo, Lo, Cn, Lo, Lo, Cn, Cn, Cn, Lo, Cn, Cn, Lo,
    Lo, Lo, Lo, Lo, Lo, Lo, Lo, Lo, Lo, Lo, Lo, Lo, Lo, Lo, Lo, Lo,
    Lo, Lo, Lo, Lo, Lo, Lo, Cn, Po, No, No, No, No, No, No, No, No,
    Lo, Lo, Lo, Lo, Lo, Lo, Lo, Lo, Lo, Lo, Lo, Lo, Lo, Lo, Lo, Lo,
    Lo, Lo, Lo, Lo, Lo, Lo, Lo, So, So, No, No, No, No, No, No, No,
    Lo, Lo, Lo, Lo, Lo, Lo, Lo, Lo, Lo, Lo, Lo, Lo, Lo, Lo, Lo, Lo,
    Lo, Lo, Lo, Lo, Lo, Lo, Lo, Lo, Lo, Lo, Lo, Lo, Lo, Lo, Lo, Cn,
    Cn, Cn, Cn, Cn, Cn, Cn, Cn, No, No, No, No, No, No, No, No, No,
    Cn, Cn, Cn, Cn, Cn, Cn, Cn, Cn, Cn, Cn, Cn, Cn, Cn, Cn, Cn, Cn,
    Cn, Cn, Cn, Cn, Cn, Cn, Cn, Cn, Cn, Cn, Cn, Cn, Cn, Cn, Cn, Cn,
    Cn, Cn, Cn, Cn, Cn, Cn, Cn, Cn, Cn, Cn, Cn, Cn, Cn, Cn, Cn, Cn,
    Lo, Lo, Lo, Lo, Lo, Lo, Lo, Lo, Lo, Lo, Lo, Lo, Lo, Lo, Lo, Lo,
    Lo, Lo, Lo, Cn, Lo, Lo, Cn, Cn, Cn, Cn, Cn, No, No, No, No, No,
];

#[verifier::opaque]
pub const CAT_PAGE_64: [GeneralCategory; 256] = [
    Lo, Lo, Lo, Lo, Lo, Lo, Lo, Lo, Lo, Lo, Lo, Lo, Lo, Lo, Lo, Lo,
    Lo, Lo, Lo, Lo, Lo, Lo, No, No, No, No, No, No, Cn, Cn, Cn, Po,
    Lo, Lo, Lo, Lo, Lo, Lo, Lo, Lo, Lo, Lo, Lo, Lo, Lo, Lo, Lo, Lo,
    Lo, Lo, Lo, Lo, Lo, Lo, Lo, Lo, Lo, Lo, Cn, Cn, Cn, Cn, Cn, Po,
    Cn, Cn, Cn, Cn, Cn, Cn, Cn, Cn, Cn, Cn, Cn, Cn, Cn, Cn, Cn, Cn,
    Cn, Cn, Cn, Cn, Cn, Cn, Cn, Cn, Cn, Cn, Cn, Cn, Cn, Cn, Cn, Cn,
    Cn, Cn, Cn, Cn, Cn, Cn, Cn, Cn, Cn, Cn, Cn, Cn, Cn, Cn, Cn, Cn,
    Cn, Cn, Cn, Cn, Cn, Cn, Cn, Cn, Cn, Cn, Cn, Cn, Cn, Cn, Cn, Cn,
    Lo, Lo, Lo, Lo, Lo, Lo, Lo, Lo, Lo, Lo, Lo, Lo, Lo, Lo, Lo, Lo,
    Lo, Lo, Lo, Lo, Lo, Lo, Lo, Lo, Lo, Lo, Lo, Lo, Lo, Lo, Lo, Lo,
    Lo, Lo, Lo, Lo, Lo, Lo, Lo, Lo, Lo, Lo, Lo, Lo, Lo, Lo, Lo, Lo,
    Lo, Lo, Lo, Lo, Lo, Lo, Lo, Lo, Cn, Cn, Cn, Cn, No, No, Lo, Lo,
    No, No, No, No, No, No, No, No, No, No, No, No, No, No, No, No,
    Cn, Cn, No, No, No, No, No, No, No, No, No, No, No, No, No, No,
    No, No, No, No, No, No, No, No, No, No, No, No, No, No, No, No,
    No, No, No, No, No, No, No, No, No, No, No, No, No, No, No, No,
];

#[verifier::opaque]
pub const CAT_PAGE_65: [GeneralCategory; 256] = [
    Lo, Mn, Mn, Mn, Cn, Mn, Mn, Cn, Cn, Cn, Cn, Cn, Mn, Mn, Mn, Mn,
    Lo, Lo, Lo, Lo, Cn, Lo, Lo, Lo, Cn, Lo, Lo, Lo, Lo, Lo, Lo, Lo,
    Lo, Lo, Lo, Lo, Lo, Lo, Lo, Lo, Lo, Lo, Lo, Lo, Lo, Lo, Lo, Lo,
    Lo, Lo, Lo, Lo, Lo, Lo, Cn, Cn, Mn, Mn, Mn, Cn, Cn, Cn, Cn, Mn,
    No, No, No, No, No, No, No, No, No, Cn, Cn, Cn, Cn, Cn, Cn, Cn,
    Po, Po, Po, Po, Po, Po, Po, Po, Po, Cn, Cn, Cn, Cn, Cn, Cn, Cn,
    Lo, Lo, Lo, Lo, Lo, Lo, Lo, Lo, Lo, Lo, Lo, Lo, Lo, Lo, Lo, Lo,
    Lo, Lo, Lo, Lo, Lo, Lo, Lo, Lo, Lo, Lo, Lo, Lo, Lo, No, No, Po,
    Lo, Lo, Lo, Lo, Lo, Lo, Lo, Lo, Lo, Lo, Lo, Lo, Lo, Lo, Lo, Lo,
    Lo, Lo, Lo, Lo, Lo, Lo, Lo, Lo, Lo, Lo, Lo, Lo, Lo, No, No, No,
    Cn, Cn, Cn, Cn, Cn, Cn, Cn, Cn, Cn, Cn, Cn, Cn, Cn, Cn, Cn, Cn,
    Cn, Cn, Cn, Cn, Cn, Cn, Cn, Cn, Cn, Cn, Cn, Cn, Cn, Cn, Cn, Cn,
    Lo, Lo, Lo, Lo, Lo, Lo, Lo, Lo, So, Lo, Lo, Lo, Lo, Lo, Lo, Lo,
    Lo, Lo, Lo, Lo, Lo, Lo, Lo, Lo, Lo, Lo, Lo, Lo, Lo, Lo, Lo, Lo,
    Lo, Lo, Lo, Lo, Lo, Mn, Mn, Cn, Cn, Cn, Cn, No, No, No, No, No,
    Po, Po, Po, Po, Po, Po, Po, Cn, Cn, Cn, Cn, Cn, Cn, Cn, Cn, Cn,
];

#[verifier::opaque]
pub const CAT_PAGE_66: [GeneralCategory; 256] = [
    Lo, Lo, Lo, Lo, Lo, Lo, Lo, Lo, Lo, Lo, Lo, Lo, Lo, Lo, Lo, Lo,
    Lo, Lo, Lo, Lo, Lo, Lo, Lo, Lo, Lo, Lo, Lo, Lo, Lo, Lo, Lo, Lo,
    Lo, Lo, Lo, Lo, Lo, Lo, Lo, Lo, Lo, Lo, Lo, Lo, Lo, Lo, Lo, Lo,
    Lo, Lo, Lo, Lo, Lo, Lo, Cn, Cn, Cn, Po, Po, Po, Po, Po, Po, Po,
    Lo, Lo, Lo, Lo, Lo, Lo, Lo, Lo, Lo, Lo, Lo, Lo, Lo, Lo, Lo, Lo,
    Lo, Lo, Lo, Lo, Lo, Lo, Cn, Cn, No, No, No, No, No, No, No, No,
    Lo, Lo, Lo, Lo, Lo, Lo, Lo, Lo, Lo, Lo, Lo, Lo, Lo, Lo, Lo, Lo,
    Lo, Lo, Lo, Cn, Cn, Cn, Cn, Cn, No, No, No, No, No, No, No, No,
    Lo, Lo, Lo, Lo, Lo, Lo, Lo, Lo, Lo, Lo, Lo, Lo, Lo, Lo, Lo, Lo,
    Lo, Lo, Cn, Cn, Cn, Cn, Cn, Cn, Cn, Po, Po, Po, Po, Cn, Cn, Cn,
    Cn, Cn, Cn, Cn, Cn, Cn, Cn, Cn, Cn, No, No, No, No, No, No, No,
    Cn, Cn, Cn, Cn, Cn, Cn, Cn, Cn, Cn, Cn, Cn, Cn, Cn, Cn, Cn, Cn,
    Cn, Cn, Cn, Cn, Cn, Cn, Cn, Cn, Cn, Cn, Cn, Cn, Cn, Cn, Cn, Cn,
    Cn, Cn, Cn, Cn, Cn, Cn, Cn, Cn, Cn, Cn, Cn, Cn, Cn, Cn, Cn, Cn,
    Cn, Cn, Cn, Cn, Cn, Cn, Cn, Cn, Cn, Cn, Cn, Cn, Cn, Cn, Cn, Cn,
    Cn, Cn, Cn, Cn, Cn, Cn, Cn, Cn, Cn, Cn, Cn, Cn, Cn, Cn, Cn, Cn,
];

#[verifier::opaque]
pub const CAT_PAGE_67: [GeneralCategory; 256] = [
    Lo, Lo, Lo, Lo, Lo, Lo, Lo, Lo, Lo, Lo, Lo, Lo, Lo, Lo, Lo, Lo,
    Lo, Lo, Lo, Lo, Lo, Lo, Lo, Lo, Lo, Lo, Lo, Lo, Lo, Lo, Lo, Lo,
    Lo, Lo, Lo, Lo, Lo, Lo, Lo, Lo, Lo, Lo, Lo, Lo, Lo, Lo, Lo, Lo,
    Lo, Lo, Lo, Lo, Lo, Lo, Lo, Lo, Lo, Lo, Lo, Lo, Lo, Lo, Lo, Lo,
    Lo, Lo, Lo, Lo, Lo, Lo, Lo, Lo, Lo, Cn, Cn, Cn, Cn, Cn, Cn, Cn,
    Cn, Cn, Cn, Cn, Cn, Cn, Cn, Cn, Cn, Cn, Cn, Cn, Cn, Cn, Cn, Cn,
    Cn, Cn, Cn, Cn, Cn, Cn, Cn, Cn, Cn, Cn, Cn, Cn, Cn, Cn, Cn, Cn,
    Cn, Cn, Cn, Cn, Cn, Cn, Cn, Cn, Cn, Cn, Cn, Cn, Cn, Cn, Cn, Cn,
    Lu, Lu, Lu, Lu, Lu, Lu, Lu, Lu, Lu, Lu, Lu, Lu, Lu, Lu, Lu, Lu,
    Lu, Lu, Lu, Lu, Lu, Lu, Lu, Lu, Lu, Lu, Lu, Lu, Lu, Lu, Lu, Lu,
    Lu, Lu, Lu, Lu, Lu, Lu, Lu, Lu, Lu, Lu, Lu, Lu, Lu, Lu, Lu, Lu,
    Lu, Lu, Lu, Cn, Cn, Cn, Cn, Cn, Cn, Cn, Cn, Cn, Cn, Cn, Cn, Cn,
    Ll, Ll, Ll, Ll, Ll, Ll, Ll, Ll, Ll, Ll, Ll, Ll, Ll, Ll, Ll, Ll,
    Ll, Ll, Ll, Ll, Ll, Ll, Ll, Ll, Ll, Ll, Ll, Ll, Ll, Ll, Ll, Ll,
    Ll, Ll, Ll, Ll, Ll, Ll, Ll, Ll, Ll, Ll, Ll, Ll, Ll, Ll, Ll, Ll,
    Ll, Ll, Ll, Cn, Cn, Cn, Cn, Cn, Cn, Cn, No, No, No, No, No, No,
];

#[verifier::opaque]
pub const CAT_PAGE_68: [GeneralCategory; 256] = [
    Lo, Lo, Lo, Lo, Lo, Lo, Lo, Lo, Lo, Lo, Lo, Lo, Lo, Lo, Lo, Lo,
    Lo, Lo, Lo, Lo, Lo, Lo, Lo, Lo, Lo, Lo, Lo, Lo, Lo, Lo, Lo, Lo,
    Lo, Lo, Lo, Lo, Mn, Mn, Mn, Mn, Cn, Cn, Cn, Cn, Cn, Cn, Cn, Cn,
    Nd, Nd, Nd, Nd, Nd, Nd, Nd, Nd, Nd, Nd, Cn, Cn, Cn, Cn, Cn, Cn,
    Cn, Cn, Cn, Cn, Cn, Cn, Cn, Cn, Cn, Cn, Cn, Cn, Cn, Cn, Cn, Cn,
    Cn, Cn, Cn, Cn, Cn, Cn, Cn, Cn, Cn, Cn, Cn, Cn, Cn, Cn, Cn, Cn,
    Cn, Cn, Cn, Cn, Cn, Cn, Cn, Cn, Cn, Cn, Cn, Cn, Cn, Cn, Cn, Cn,
    Cn, Cn, Cn, Cn, Cn, Cn, Cn, Cn, Cn, Cn, Cn, Cn, Cn, Cn, Cn, Cn,
    Cn, Cn, Cn, Cn, Cn, Cn, Cn, Cn, Cn, Cn, Cn, Cn, Cn, Cn, Cn, Cn,
    Cn, Cn, Cn, Cn, Cn, Cn, Cn, Cn, Cn, Cn, Cn, Cn, Cn, Cn, Cn, Cn,
    Cn, Cn, Cn, Cn, Cn, Cn, Cn, Cn, Cn, Cn, Cn, Cn, Cn, Cn, Cn, Cn,
    Cn, Cn, Cn, Cn, Cn, Cn, Cn, Cn, Cn, Cn, Cn, Cn, Cn, Cn, Cn, Cn,
    Cn, Cn, Cn, Cn, Cn, Cn, Cn, Cn, Cn, Cn, Cn, Cn, Cn, Cn, Cn, Cn,
    Cn, Cn, Cn, Cn, Cn, Cn, Cn, Cn, Cn, Cn, Cn, Cn, Cn, Cn, Cn, Cn,
    Cn, Cn, Cn, Cn, Cn, Cn, Cn, Cn, Cn, Cn, Cn, Cn, Cn, Cn, Cn, Cn,
    Cn, Cn, Cn, Cn, Cn, Cn, Cn, Cn, Cn, Cn, Cn, Cn, Cn, Cn, Cn, Cn,
];

#[verifier::opaque]
pub const CAT_PAGE_69: [GeneralCategory; 256] = [
    Cn, Cn, Cn, Cn, Cn, Cn, Cn, Cn, Cn, Cn, Cn, Cn, Cn, Cn, Cn, Cn,
    Cn, Cn, Cn, Cn, Cn, Cn, Cn, Cn, Cn, Cn, Cn, Cn, Cn, Cn, Cn, Cn,
    Cn, Cn, Cn, Cn, Cn, Cn, Cn, Cn, Cn, Cn, Cn, Cn, Cn, Cn, Cn, Cn,
    Cn, Cn, Cn, Cn, Cn, Cn, Cn, Cn, Cn, Cn, Cn, Cn, Cn, Cn, Cn, Cn,
    Cn, Cn, Cn, Cn, Cn, Cn, Cn, Cn, Cn, Cn, Cn, Cn, Cn, Cn, Cn, Cn,
    Cn, Cn, Cn, Cn, Cn, Cn, Cn, Cn, Cn, Cn, Cn, Cn, Cn, Cn, Cn, Cn,
    No, No, No, No, No, No, No, No, No, No, No, No, No, No, No, No,
    No, No, No, No, No, No, No, No, No, No, No, No, No, No, No, Cn,
    Lo, Lo, Lo, Lo, Lo, Lo, Lo, Lo, Lo, Lo, Lo, Lo, Lo, Lo, Lo, Lo,
    Lo, Lo, Lo, Lo, Lo, Lo, Lo, Lo, Lo, Lo, Lo, Lo, Lo, Lo, Lo, Lo,
    Lo, Lo, Lo, Lo, Lo, Lo, Lo, Lo, Lo, Lo, Cn, Mn, Mn, Pd, Cn, Cn,
    Lo, Lo, Cn, Cn, Cn, Cn, Cn, Cn, Cn, Cn, Cn, Cn, Cn, Cn, Cn, Cn,
    Cn, Cn, Cn, Cn, Cn, Cn, Cn, Cn, Cn, Cn, Cn, Cn, Cn, Cn, Cn, Cn,
    Cn, Cn, Cn, Cn, Cn, Cn, Cn, Cn, Cn, Cn, Cn, Cn, Cn, Cn, Cn, Cn,
    Cn, Cn, Cn, Cn, Cn, Cn, Cn, Cn, Cn, Cn, Cn, Cn, Cn, Cn, Cn, Cn,
    Cn, Cn, Cn, Cn, Cn, Cn, Cn, Cn, Cn, Cn, Cn, Cn, Cn, Cn, Cn, Cn,
];

#[verifier::opaque]
pub const CAT_PAGE_70: [GeneralCategory; 256] = [
    Lo, Lo, Lo, Lo, Lo, Lo, Lo, Lo, Lo, Lo, Lo, Lo, Lo, Lo, Lo, Lo,
    Lo, Lo, Lo, Lo, Lo, Lo, Lo, Lo, Lo, Lo, Lo, Lo, Lo, No, No, No,
    No, No, No, No, No, No, No, Lo, Cn, Cn, Cn, Cn, Cn, Cn, Cn, Cn,
    Lo, Lo, Lo, Lo, Lo, Lo, Lo, Lo, Lo, Lo, Lo, Lo, Lo, Lo, Lo, Lo,
    Lo, Lo, Lo, Lo, Lo, Lo, Mn, Mn, Mn, Mn, Mn, Mn, Mn, Mn, Mn, Mn,
    Mn, No, No, No, No, Po, Po, Po, Po, Po, Cn, Cn, Cn, Cn, Cn, Cn,
    Cn, Cn, Cn, Cn, Cn, Cn, Cn, Cn, Cn, Cn, Cn, Cn, Cn, Cn, Cn, Cn,
    Lo, Lo, Lo, Lo, Lo, Lo, Lo, Lo, Lo, Lo, Lo, Lo, Lo, Lo, Lo, Lo,
    Lo, Lo, Mn, Mn, Mn, Mn, Po, Po, Po, Po, Cn, Cn, Cn, Cn, Cn, Cn,
    Cn, Cn, Cn, Cn, Cn, Cn, Cn, Cn, Cn, Cn, Cn, Cn, Cn, Cn, Cn, Cn,
    Cn, Cn, Cn, Cn, Cn, Cn, Cn, Cn, Cn, Cn, Cn, Cn, Cn, Cn, Cn, Cn,
    Lo, Lo, Lo, Lo, Lo, Lo, Lo, Lo, Lo, Lo, Lo, Lo, Lo, Lo, Lo, Lo,
    Lo, Lo, Lo, Lo, Lo, No, No, No, No, No, No, No, Cn, Cn, Cn, Cn,
    Cn, Cn, Cn, Cn, Cn, Cn, Cn, Cn, Cn, Cn, Cn, Cn, Cn, Cn, Cn, Cn,
    Lo, Lo, Lo, Lo, Lo, Lo, Lo, Lo, Lo, Lo, Lo, Lo, Lo, Lo, Lo, Lo,
    Lo, Lo, Lo, Lo, Lo, Lo, Lo, Cn, Cn, Cn, Cn, Cn, Cn, Cn, Cn, Cn,
];

#[verifier::opaque]
pub const CAT_PAGE_71: [GeneralCategory; 256] = [
    Mc, Mn, Mc, Lo, Lo, Lo, Lo, Lo, Lo, Lo, Lo, Lo, Lo, Lo, Lo, Lo,
    Lo, Lo, Lo, Lo, Lo, Lo, Lo, Lo, Lo, Lo, Lo, Lo, Lo, Lo, Lo, Lo,
    Lo, Lo, Lo, Lo, Lo, Lo, Lo, Lo, Lo, Lo, Lo, Lo, Lo, Lo, Lo, Lo,
    Lo, Lo, Lo, Lo, Lo, Lo, Lo, Lo, Mn, Mn, Mn, Mn, Mn, Mn, Mn, Mn,
    Mn, Mn, Mn, Mn, Mn, Mn, Mn, Po, Po, Po, Po, Po, Po, Po, Cn, Cn,
    Cn, Cn, No, No, No, No, No, No, No, No, No, No, No, No, No, No,
    No, No, No, No, No, No, Nd, Nd, Nd, Nd, Nd, Nd, Nd, Nd, Nd, Nd,
    Mn, Lo, Lo, Mn, Mn, Lo, Cn, Cn, Cn, Cn, Cn, Cn, Cn, Cn, Cn, Mn,
    Mn, Mn, Mc, Lo, Lo, Lo, Lo, Lo, Lo, Lo, Lo, Lo, Lo, Lo, Lo, Lo,
    Lo, Lo, Lo, Lo, Lo, Lo, Lo, Lo, Lo, Lo, Lo, Lo, Lo, Lo, Lo, Lo,
    Lo, Lo, Lo, Lo, Lo, Lo, Lo, Lo, Lo, Lo, Lo, Lo, Lo, Lo, Lo, Lo,
    Mc, Mc, Mc, Mn, Mn, Mn, Mn, Mc, Mc, Mn, Mn, Po, Po, Cf, Po, Po,
    Po, Po, Mn, Cn, Cn, Cn, Cn, Cn, Cn, Cn, Cn, Cn, Cn, Cf, Cn, Cn,
    Lo, Lo, Lo, Lo, Lo, Lo, Lo, Lo, Lo, Lo, Lo, Lo, Lo, Lo, Lo, Lo,
    Lo, Lo, Lo, Lo, Lo, Lo, Lo, Lo, Lo, Cn, Cn, Cn, Cn, Cn, Cn, Cn,
    Nd, Nd, Nd, Nd, Nd, Nd, Nd, Nd, Nd, Nd, Cn, Cn, Cn, Cn, Cn, Cn,
];

#[verifier::opaque]
pub const CAT_PAGE_72: [GeneralCategory; 256] = [
    Mn, Mn, Mn, Lo, Lo, Lo, Lo, Lo, Lo, Lo, Lo, Lo, Lo, Lo, Lo, Lo,
    Lo, Lo, Lo, Lo, Lo, Lo, Lo, Lo, Lo, Lo, Lo, Lo, Lo, Lo, Lo, Lo,
    Lo, Lo, Lo, Lo, Lo, Lo, Lo, Mn, Mn, Mn, Mn, Mn, Mc, Mn, Mn, Mn,
    Mn, Mn, Mn, Mn, Mn, Cn, Nd, Nd, Nd, Nd, Nd, Nd, Nd, Nd, Nd, Nd,
    Po, Po, Po, Po, Lo, Mc, Mc, Lo, Cn, Cn, Cn, Cn, Cn, Cn, Cn, Cn,
    Lo, Lo, Lo, Lo, Lo, Lo, Lo, Lo, Lo, Lo, Lo, Lo, Lo, Lo, Lo, Lo,
    Lo, Lo, Lo, Lo, Lo, Lo, Lo, Lo, Lo, Lo, Lo, Lo, Lo, Lo, Lo, Lo,
    Lo, Lo, Lo, Mn, Po, Po, Lo, Cn, Cn, Cn, Cn, Cn, Cn, Cn, Cn, Cn,
    Mn, Mn, Mc, Lo, Lo, Lo, Lo, Lo, Lo, Lo, Lo, Lo, Lo, Lo, Lo, Lo,
    Lo, Lo, Lo, Lo, Lo, Lo, Lo, Lo, Lo, Lo, Lo, Lo, Lo, Lo, Lo, Lo,
    Lo, Lo, Lo, Lo, Lo, Lo, Lo, Lo, Lo, Lo, Lo, Lo, Lo, Lo, Lo, Lo,
    Lo, Lo, Lo, Mc, Mc, Mc, Mn, Mn, Mn, Mn, Mn, Mn, Mn, Mn, Mn, Mc,
    Mc, Lo, Lo, Lo, Lo, Po, Po, Po, Po, Mn, Mn, Mn, Mn, Po, Mc, Mn,
    Nd, Nd, Nd, Nd, Nd, Nd, Nd, Nd, Nd, Nd, Lo, Po, Lo, Po, Po, Po,
    Cn, No, No, No, No, No, No, No, No, No, No, No, No, No, No, No,
    No, No, No, No, No, Cn, Cn, Cn, Cn, Cn, Cn, Cn, Cn, Cn, Cn, Cn,
];

#[verifier::opaque]
pub const CAT_PAGE_73: [GeneralCategory; 256] = [
    Lo, Lo, Lo, Lo, Lo, Lo, Lo, Lo, Lo, Lo, Lo, Lo, Lo, Lo, Lo, Lo,
    Lo, Lo, Cn, Lo, Lo, Lo, Lo, Lo, Lo, Lo, Lo, Lo, Lo, Lo, Lo, Lo,
    Lo, Lo, Lo, Lo, Lo, Lo, Lo, Lo, Lo, Lo, Lo, Lo, Mc, Mc, Mc, Mn,
    Mn, Mn, Mc, Mc, Mn, Mc, Mn, Mn, Po, Po, Po, Po, Po, Po, Mn, Cn,
    Cn, Cn, Cn, Cn, Cn, Cn, Cn, Cn, Cn, Cn, Cn, Cn, Cn, Cn, Cn, Cn,
    Cn, Cn, Cn, Cn, Cn, Cn, Cn, Cn, Cn, Cn, Cn, Cn, Cn, Cn, Cn, Cn,
    Cn, Cn, Cn, Cn, Cn, Cn, Cn, Cn, Cn, Cn, Cn, Cn, Cn, Cn, Cn, Cn,
    Cn, Cn, Cn, Cn, Cn, Cn, Cn, Cn, Cn, Cn, Cn, Cn, Cn, Cn, Cn, Cn,
    Lo, Lo, Lo, Lo, Lo, Lo, Lo, Cn, Lo, Cn, Lo, Lo, Lo, Lo, Cn, Lo,
    Lo, Lo, Lo, Lo, Lo, Lo, Lo, Lo, Lo, Lo, Lo, Lo, Lo, Lo, Cn, Lo,
    Lo, Lo, Lo, Lo, Lo, Lo, Lo, Lo, Lo, Po, Cn, Cn, Cn, Cn, Cn, Cn,
    Lo, Lo, Lo, Lo, Lo, Lo, Lo, Lo, Lo, Lo, Lo, Lo, Lo, Lo, Lo, Lo,
    Lo, Lo, Lo, Lo, Lo, Lo, Lo, Lo, Lo, Lo, Lo, Lo, Lo, Lo, Lo, Lo,
    Lo, Lo, Lo, Lo, Lo, Lo, Lo, Lo, Lo, Lo, Lo, Lo, Lo, Lo, Lo, Mn,
    Mc, Mc, Mc, Mn, Mn, Mn, Mn, Mn, Mn, Mn, Mn, Cn, Cn, Cn, Cn, Cn,
    Nd, Nd, Nd, Nd, Nd, Nd, Nd, Nd, Nd, Nd, Cn, Cn, Cn, Cn, Cn, Cn,
];

#[verifier::opaque]
pub const CAT_PAGE_74: [GeneralCategory; 256] = [
    Mn, Mn, Mc, Mc, Cn, Lo, Lo, Lo, Lo, Lo, Lo, Lo, Lo, Cn, Cn, Lo,
    Lo, Cn, Cn, Lo, Lo, Lo, Lo, Lo, Lo, Lo, Lo, Lo, Lo, Lo, Lo, Lo,
    Lo, Lo, Lo, Lo, Lo, Lo, Lo, Lo, Lo, Cn, Lo, Lo, Lo, Lo, Lo, Lo,
    Lo, Cn, Lo, Lo, Cn, Lo, Lo, Lo, Lo, Lo, Cn, Mn, Mn, Lo, Mc, Mc,
    Mn, Mc, Mc, Mc, Mc, Cn, Cn, Mc, Mc, Cn, Cn, Mc, Mc, Mc, Cn, Cn,
    Lo, Cn, Cn, Cn, Cn, Cn, Cn, Mc, Cn, Cn, Cn, Cn, Cn, Lo, Lo, Lo,
    Lo, Lo, Mc, Mc, Cn, Cn, Mn, Mn, Mn, Mn, Mn, Mn, Mn, Cn, Cn, Cn,
    Mn, Mn, Mn, Mn, Mn, Cn, Cn, Cn, Cn, Cn, Cn, Cn, Cn, Cn, Cn, Cn,
    Cn, Cn, Cn, Cn, Cn, Cn, Cn, Cn, Cn, Cn, Cn, Cn, Cn, Cn, Cn, Cn,
    Cn, Cn, Cn, Cn, Cn, Cn, Cn, Cn, Cn, Cn, Cn, Cn, Cn, Cn, Cn, Cn,
    Cn, Cn, Cn, Cn, Cn, Cn, Cn, Cn, Cn, Cn, Cn, Cn, Cn, Cn, Cn, Cn,
    Cn, Cn, Cn, Cn, Cn, Cn, Cn, Cn, Cn, Cn, Cn, Cn, Cn, Cn, Cn, Cn,
    Cn, Cn, Cn, Cn, Cn, Cn, Cn, Cn, Cn, Cn, Cn, Cn, Cn, Cn, Cn, Cn,
    Cn, Cn, Cn, Cn, Cn, Cn, Cn, Cn, Cn, Cn, Cn, Cn, Cn, Cn, Cn, Cn,
    Cn, Cn, Cn, Cn, Cn, Cn, Cn, Cn, Cn, Cn, Cn, Cn, Cn, Cn, Cn, Cn,
    Cn, Cn, Cn, Cn, Cn, Cn, Cn, Cn, Cn, Cn, Cn, Cn, Cn, Cn, Cn, Cn,
];

#[verifier::opaque]
pub const CAT_PAGE_75: [GeneralCategory; 256] = [
    Lo, Lo, Lo, Lo, Lo, Lo, Lo, Lo, Lo, Lo, Lo, Lo, Lo, Lo, Lo, Lo,
    Lo, Lo, Lo, Lo, Lo, Lo, Lo, Lo, Lo, Lo, Lo, Lo, Lo, Lo, Lo, Lo,
    Lo, Lo, Lo, Lo, Lo, Lo, Lo, Lo, Lo, Lo, Lo, Lo, Lo, Lo, Lo, Lo,
    Lo, Lo, Lo, Lo, Lo, Mc, Mc, Mc, Mn, Mn, Mn, Mn, Mn, Mn, Mn, Mn,
    Mc, Mc, Mn, Mn, Mn, Mc, Mn, Lo, Lo, Lo, Lo, Po, Po, Po, Po, Po,
    Nd, Nd, Nd, Nd, Nd, Nd, Nd, Nd, Nd, Nd, Po, Po, Cn, Po, Mn, Lo,
    Lo, Lo, Cn, Cn, Cn, Cn, Cn, Cn, Cn, Cn, Cn, Cn, Cn, Cn, Cn, Cn,
    Cn, Cn, Cn, Cn, Cn, Cn, Cn, Cn, Cn, Cn, Cn, Cn, Cn, Cn, Cn, Cn,
    Lo, Lo, Lo, Lo, Lo, Lo, Lo, Lo, Lo, Lo, Lo, Lo, Lo, Lo, Lo, Lo,
    Lo, Lo, Lo, Lo, Lo, Lo, Lo, Lo, Lo, Lo, Lo, Lo, Lo, Lo, Lo, Lo,
    Lo, Lo, Lo, Lo, Lo, Lo, Lo, Lo, Lo, Lo, Lo, Lo, Lo, Lo, Lo, Lo,
    Mc, Mc, Mc, Mn, Mn, Mn, Mn, Mn, Mn, Mc, Mn, Mc, Mc, Mc, Mc, Mn,
    Mn, Mc, Mn, Mn, Lo, Lo, Po, Lo, Cn, Cn, Cn, Cn, Cn, Cn, Cn, Cn,
    Nd, Nd, Nd, Nd, Nd, Nd, Nd, Nd, Nd, Nd, Cn, Cn, Cn, Cn, Cn, Cn,
    Cn, Cn, Cn, Cn, Cn, Cn, Cn, Cn, Cn, Cn, Cn, Cn, Cn, Cn, Cn, Cn,
    Cn, Cn, Cn, Cn, Cn, Cn, Cn, Cn, Cn, Cn, Cn, Cn, Cn, Cn, Cn, Cn,
];

#[verifier::opaque]
pub const CAT_PAGE_76: [GeneralCategory; 256] = [
    Cn, Cn, Cn, Cn, Cn, Cn, Cn, Cn, Cn, Cn, Cn, Cn, Cn, Cn, Cn, Cn,
    Cn, Cn, Cn, Cn, Cn, Cn, Cn, Cn, Cn, Cn, Cn, Cn, Cn, Cn, Cn, Cn,
    Cn, Cn, Cn, Cn, Cn, Cn, Cn, Cn, Cn, Cn, Cn, Cn, Cn, Cn, Cn, Cn,
    Cn, Cn, Cn, Cn, Cn, Cn, Cn, Cn, Cn, Cn, Cn, Cn, Cn, Cn, Cn, Cn,
    Cn, Cn, Cn, Cn, Cn, Cn, Cn, Cn, Cn, Cn, Cn, Cn, Cn, Cn, Cn, Cn,
    Cn, Cn, Cn, Cn, Cn, Cn, Cn, Cn, Cn, Cn, Cn, Cn, Cn, Cn, Cn, Cn,
    Cn, Cn, Cn, Cn, Cn, Cn, Cn, Cn, Cn, Cn, Cn, Cn, Cn, Cn, Cn, Cn,
    Cn, Cn, Cn, Cn, Cn, Cn, Cn, Cn, Cn, Cn, Cn, Cn, Cn, Cn, Cn, Cn,
    Lo, Lo, Lo, Lo, Lo, Lo, Lo, Lo, Lo, Lo, Lo, Lo, Lo, Lo, Lo, Lo,
    Lo, Lo, Lo, Lo, Lo, Lo, Lo, Lo, Lo, Lo, Lo, Lo, Lo, Lo, Lo, Lo,
    Lo, Lo, Lo, Lo, Lo, Lo, Lo, Lo, Lo, Lo, Lo, Lo, Lo, Lo, Lo, Mc,
    Mc, Mc, Mn, Mn, Mn, Mn, Cn, Cn, Mc, Mc, Mc, Mc, Mn, Mn, Mc, Mn,
    Mn, Po, Po, Po, Po, Po, Po, Po, Po, Po, Po, Po, Po, Po, Po, Po,
    Po, Po, Po, Po, Po, Po, Po, Po, Lo, Lo, Lo, Lo, Mn, Mn, Cn, Cn,
    Cn, Cn, Cn, Cn, Cn, Cn, Cn, Cn, Cn, Cn, Cn, Cn, Cn, Cn, Cn, Cn,
    Cn, Cn, Cn, Cn, Cn, Cn, Cn, Cn, Cn, Cn, Cn, Cn, Cn, Cn, Cn, Cn,
];

#[verifier::opaque]
pub const CAT_PAGE_77: [GeneralCategory; 256] = [
    Lo, Lo, Lo, Lo, Lo, Lo, Lo, Lo, Lo, Lo, Lo, Lo, Lo, Lo, Lo, Lo,
    Lo, Lo, Lo, Lo, Lo, Lo, Lo, Lo, Lo, Lo, Lo, Lo, Lo, Lo, Lo, Lo,
    Lo, Lo, Lo, Lo, Lo, Lo, Lo, Lo, Lo, Lo, Lo, Lo, Lo, Lo, Lo, Lo,
    Mc, Mc, Mc, Mn, Mn, Mn, Mn, Mn, Mn, Mn, Mn, Mc, Mc, Mn, Mc, Mn,
    Mn, Po, Po, Po, Lo, Cn, Cn, Cn, Cn, Cn, Cn, Cn, Cn, Cn, Cn, Cn,
    Nd, Nd, Nd, Nd, Nd, Nd, Nd, Nd, Nd, Nd, Cn, Cn, Cn, Cn, Cn, Cn,
    Po, Po, Po, Po, Po, Po, Po, Po, Po, Po, Po, Po, Po, Cn, Cn, Cn,
    Cn, Cn, Cn, Cn, Cn, Cn, Cn, Cn, Cn, Cn, Cn, Cn, Cn, Cn, Cn, Cn,
    Lo, Lo, Lo, Lo, Lo, Lo, Lo, Lo, Lo, Lo, Lo, Lo, Lo, Lo, Lo, Lo,
    Lo, Lo, Lo, Lo, Lo, Lo, Lo, Lo, Lo, Lo, Lo, Lo, Lo, Lo, Lo, Lo,
    Lo, Lo, Lo, Lo, Lo, Lo, Lo, Lo, Lo, Lo, Lo, Mn, Mc, Mn, Mc, Mc,
    Mn, Mn, Mn, Mn, Mn, Mn, Mc, Mn, Lo, Po, Cn, Cn, Cn, Cn, Cn, Cn,
    Nd, Nd, Nd, Nd, Nd, Nd, Nd, Nd, Nd, Nd, Cn, Cn, Cn, Cn, Cn, Cn,
    Cn, Cn, Cn, Cn, Cn, Cn, Cn, Cn, Cn, Cn, Cn, Cn, Cn, Cn, Cn, Cn,
    Cn, Cn, Cn, Cn, Cn, Cn, Cn, Cn, Cn, Cn, Cn, Cn, Cn, Cn, Cn, Cn,
    Cn, Cn, Cn, Cn, Cn, Cn, Cn, Cn, Cn, Cn, Cn, Cn, Cn, Cn, Cn, Cn,
];

#[verifier::opaque]
pub const CAT_PAGE_78: [GeneralCategory; 256] = [
    Lo, Lo, Lo, Lo, Lo, Lo, Lo, Lo, Lo, Lo, Lo, Lo, Lo, Lo, Lo, Lo,
    Lo, Lo, Lo, Lo, Lo, Lo, Lo, Lo, Lo, Lo, Lo, Cn, Cn, Mn, Mn, Mn,
    Mc, Mc, Mn, Mn, Mn, Mn, Mc, Mn, Mn, Mn, Mn, Mn, Cn, Cn, Cn, Cn,
    Nd, Nd, Nd, Nd, Nd, Nd, Nd, Nd, Nd, Nd, No, No, Po, Po, Po, So,
    Lo, Lo, Lo, Lo, Lo, Lo, Lo, Cn, Cn, Cn, Cn, Cn, Cn, Cn, Cn, Cn,
    Cn, Cn, Cn, Cn, Cn, Cn, Cn, Cn, Cn, Cn, Cn, Cn, Cn, Cn, Cn, Cn,
    Cn, Cn, Cn, Cn, Cn, Cn, Cn, Cn, Cn, Cn, Cn, Cn, Cn, Cn, Cn, Cn,
    Cn, Cn, Cn, Cn, Cn, Cn, Cn, Cn, Cn, Cn, Cn, Cn, Cn, Cn, Cn, Cn,
    Cn, Cn, Cn, Cn, Cn, Cn, Cn, Cn, Cn, Cn, Cn, Cn, Cn, Cn, Cn, Cn,
    Cn, Cn, Cn, Cn, Cn, Cn, Cn, Cn, Cn, Cn, Cn, Cn, Cn, Cn, Cn, Cn,
    Cn, Cn, Cn, Cn, Cn, Cn, Cn, Cn, Cn, Cn, Cn, Cn, Cn, Cn, Cn, Cn,
    Cn, Cn, Cn, Cn, Cn, Cn, Cn, Cn, Cn, Cn, Cn, Cn, Cn, Cn, Cn, Cn,
    Cn, Cn, Cn, Cn, Cn, Cn, Cn, Cn, Cn, Cn, Cn, Cn, Cn, Cn, Cn, Cn,
    Cn, Cn, Cn, Cn, Cn, Cn, Cn, Cn, Cn, Cn, Cn, Cn, Cn, Cn, Cn, Cn,
    Cn, Cn, Cn, Cn, Cn, Cn, Cn, Cn, Cn, Cn, Cn, Cn, Cn, Cn, Cn, Cn,
    Cn, Cn, Cn, Cn, Cn, Cn, Cn, Cn, Cn, Cn, Cn, Cn, Cn, Cn, Cn, Cn,
];

#[verifier::opaque]
pub const CAT_PAGE_79: [GeneralCategory; 256] = [
    Lo, Lo, Lo, Lo, Lo, Lo, Lo, Lo, Lo, Lo, Lo, Lo, Lo, Lo, Lo, Lo,
    Lo, Lo, Lo, Lo, Lo, Lo, Lo, Lo, Lo, Lo, Lo, Lo, Lo, Lo, Lo, Lo,
    Lo, Lo, Lo, Lo, Lo, Lo, Lo, Lo, Lo, Lo, Lo, Lo, Mc, Mc, Mc, Mn,
    Mn, Mn, Mn, Mn, Mn, Mn, Mn, Mn, Mc, Mn, Mn, Po, Cn, Cn, Cn, Cn,
    Cn, Cn, Cn, Cn, Cn, Cn, Cn, Cn, Cn, Cn, Cn, Cn, Cn, Cn, Cn, Cn,
    Cn, Cn, Cn, Cn, Cn, Cn, Cn, Cn, Cn, Cn, Cn, Cn, Cn, Cn, Cn, Cn,
    Cn, Cn, Cn, Cn, Cn, Cn, Cn, Cn, Cn, Cn, Cn, Cn, Cn, Cn, Cn, Cn,
    Cn, Cn, Cn, Cn, Cn, Cn, Cn, Cn, Cn, Cn, Cn, Cn, Cn, Cn, Cn, Cn,
    Cn, Cn, Cn, Cn, Cn, Cn, Cn, Cn, Cn, Cn, Cn, Cn, Cn, Cn, Cn, Cn,
    Cn, Cn, Cn, Cn, Cn, Cn, Cn, Cn, Cn, Cn, Cn, Cn, Cn, Cn, Cn, Cn,
    Lu, Lu, Lu, Lu, Lu, Lu, Lu, Lu, Lu, Lu, Lu, Lu, Lu, Lu, Lu, Lu,
    Lu, Lu, Lu, Lu, Lu, Lu, Lu, Lu, Lu, Lu, Lu, Lu, Lu, Lu, Lu, Lu,
    Ll, Ll, Ll, Ll, Ll, Ll, Ll, Ll, Ll, Ll, Ll, Ll, Ll, Ll, Ll, Ll,
    Ll, Ll, Ll, Ll, Ll, Ll, Ll, Ll, Ll, Ll, Ll, Ll, Ll, Ll, Ll, Ll,
    Nd, Nd, Nd, Nd, Nd, Nd, Nd, Nd, Nd, Nd, No, No, No, No, No, No,
    No, No, No, Cn, Cn, Cn, Cn, Cn, Cn, Cn, Cn, Cn, Cn, Cn, Cn, Lo,
];

#[verifier::opaque]
pub const CAT_PAGE_80: [GeneralCategory; 256] = [
    Lo, Lo, Lo, Lo, Lo, Lo, Lo, Cn, Cn, Lo, Cn, Cn, Lo, Lo, Lo, Lo,
    Lo, Lo, Lo, Lo, Cn, Lo, Lo, Cn, Lo, Lo, Lo, Lo, Lo, Lo, Lo, Lo,
    Lo, Lo, Lo, Lo, Lo, Lo, Lo, Lo, Lo, Lo, Lo, Lo, Lo, Lo, Lo, Lo,
    Mc, Mc, Mc, Mc, Mc, Mc, Cn, Mc, Mc, Cn, Cn, Mn, Mn, Mc, Mn, Lo,
    Mc, Lo, Mc, Mn, Po, Po, Po, Cn, Cn, Cn, Cn, Cn, Cn, Cn, Cn, Cn,
    Nd, Nd, Nd, Nd, Nd, Nd, Nd, Nd, Nd, Nd, Cn, Cn, Cn, Cn, Cn, Cn,
    Cn, Cn, Cn, Cn, Cn, Cn, Cn, Cn, Cn, Cn, Cn, Cn, Cn, Cn, Cn, Cn,
    Cn, Cn, Cn, Cn, Cn, Cn, Cn, Cn, Cn, Cn, Cn, Cn, Cn, Cn, Cn, Cn,
    Cn, Cn, Cn, Cn, Cn, Cn, Cn, Cn, Cn, Cn, Cn, Cn, Cn, Cn, Cn, Cn,
    Cn, Cn, Cn, Cn, Cn, Cn, Cn, Cn, Cn, Cn, Cn, Cn, Cn, Cn, Cn, Cn,
    Lo, Lo, Lo, Lo, Lo, Lo, Lo, Lo, Cn, Cn, Lo, Lo, Lo, Lo, Lo, Lo,
    Lo, Lo, Lo, Lo, Lo, Lo, Lo, Lo, Lo, Lo, Lo, Lo, Lo, Lo, Lo, Lo,
    Lo, Lo, Lo, Lo, Lo, Lo, Lo, Lo, Lo, Lo, Lo, Lo, Lo, Lo, Lo, Lo,
    Lo, Mc, Mc, Mc, Mn, Mn, Mn, Mn, Cn, Cn, Mn, Mn, Mc, Mc, Mc, Mc,
    Mn, Lo, Po, Lo, Mc, Cn, Cn, Cn, Cn, Cn, Cn, Cn, Cn, Cn, Cn, Cn,
    Cn, Cn, Cn, Cn, Cn, Cn, Cn, Cn, Cn, Cn, Cn, Cn, Cn, Cn, Cn, Cn,
];

#[verifier::opaque]
pub const CAT_PAGE_81: [GeneralCategory; 256] = [
    Lo, Mn, Mn, Mn, Mn, Mn, Mn, Mn, Mn, Mn, Mn, Lo, Lo, Lo, Lo, Lo,
    Lo, Lo, Lo, Lo, Lo, Lo, Lo, Lo, Lo, Lo, Lo, Lo, Lo, Lo, Lo, Lo,
    Lo, Lo, Lo, Lo, Lo, Lo, Lo, Lo, Lo, Lo, Lo, Lo, Lo, Lo, Lo, Lo,
    Lo, Lo, Lo, Mn, Mn, Mn, Mn, Mn, Mn, Mc, Lo, Mn, Mn, Mn, Mn, Po,
    Po, Po, Po, Po, Po, Po, Po, Mn, Cn, Cn, Cn, Cn, Cn, Cn, Cn, Cn,
    Lo, Mn, Mn, Mn, Mn, Mn, Mn, Mc, Mc, Mn, Mn, Mn, Lo, Lo, Lo, Lo,
    Lo, Lo, Lo, Lo, Lo, Lo, Lo, Lo, Lo, Lo, Lo, Lo, Lo, Lo, Lo, Lo,
    Lo, Lo, Lo, Lo, Lo, Lo, Lo, Lo, Lo, Lo, Lo, Lo, Lo, Lo, Lo, Lo,
    Lo, Lo, Lo, Lo, Lo, Lo, Lo, Lo, Lo, Lo, Mn, Mn, Mn, Mn, Mn, Mn,
    Mn, Mn, Mn, Mn, Mn, Mn, Mn, Mc, Mn, Mn, Po, Po, Po, Lo, Po, Po,
    Po, Po, Po, Cn, Cn, Cn, Cn, Cn, Cn, Cn, Cn, Cn, Cn, Cn, Cn, Cn,
    Lo, Lo, Lo, Lo, Lo, Lo, Lo, Lo, Lo, Lo, Lo, Lo, Lo, Lo, Lo, Lo,
    Lo, Lo, Lo, Lo, Lo, Lo, Lo, Lo, Lo, Lo, Lo, Lo, Lo, Lo, Lo, Lo,
    Lo, Lo, Lo, Lo, Lo, Lo, Lo, Lo, Lo, Lo, Lo, Lo, Lo, Lo, Lo, Lo,
    Lo, Lo, Lo, Lo, Lo, Lo, Lo, Lo, Lo, Lo, Lo, Lo, Lo, Lo, Lo, Lo,
    Lo, Lo, Lo, Lo, Lo, Lo, Lo, Lo, Lo, Cn, Cn, Cn, Cn, Cn, Cn, Cn,
];

#[verifier::opaque]
pub const CAT_PAGE_82: [GeneralCategory; 256] = [
    Lo, Lo, Lo, Lo, Lo, Lo, Lo, Lo, Lo, Cn, Lo, Lo, Lo, Lo, Lo, Lo,
    Lo, Lo, Lo, Lo, Lo, Lo, Lo, Lo, Lo, Lo, Lo, Lo, Lo, Lo, Lo, Lo,
    Lo, Lo, Lo, Lo, Lo, Lo, Lo, Lo, Lo, Lo, Lo, Lo, Lo, Lo, Lo, Mc,
    Mn, Mn, Mn, Mn, Mn, Mn, Mn, Cn, Mn, Mn, Mn, Mn, Mn, Mn, Mc, Mn,
    Lo, Po, Po, Po, Po, Po, Cn, Cn, Cn, Cn, Cn, Cn, Cn, Cn, Cn, Cn,
    Nd, Nd, Nd, Nd, Nd, Nd, Nd, Nd, Nd, Nd, No, No, No, No, No, No,
    No, No, No, No, No, No, No, No, No, No, No, No, No, Cn, Cn, Cn,
    Po, Po, Lo, Lo, Lo, Lo, Lo, Lo, Lo, Lo, Lo, Lo, Lo, Lo, Lo, Lo,
    Lo, Lo, Lo, Lo, Lo, Lo, Lo, Lo, Lo, Lo, Lo, Lo, Lo, Lo, Lo, Lo,
    Cn, Cn, Mn, Mn, Mn, Mn, Mn, Mn, Mn, Mn, Mn, Mn, Mn, Mn, Mn, Mn,
    Mn, Mn, Mn, Mn, Mn, Mn, Mn, Mn, Cn, Mc, Mn, Mn, Mn, Mn, Mn, Mn,
    Mn, Mc, Mn, Mn, Mc, Mn, Mn, Cn, Cn, Cn, Cn, Cn, Cn, Cn, Cn, Cn,
    Cn, Cn, Cn, Cn, Cn, Cn, Cn, Cn, Cn, Cn, Cn, Cn, Cn, Cn, Cn, Cn,
    Cn, Cn, Cn, Cn, Cn, Cn, Cn, Cn, Cn, Cn, Cn, Cn, Cn, Cn, Cn, Cn,
    Cn, Cn, Cn, Cn, Cn, Cn, Cn, Cn, Cn, Cn, Cn, Cn, Cn, Cn, Cn, Cn,
    Cn, Cn, Cn, Cn, Cn, Cn, Cn, Cn, Cn, Cn, Cn, Cn, Cn, Cn, Cn, Cn,
];

#[verifier::opaque]
pub const CAT_PAGE_83: [GeneralCategory; 256] = [
    Lo, Lo, Lo, Lo, Lo, Lo, Lo, Cn, Lo, Lo, Cn, Lo, Lo, Lo, Lo, Lo,
    Lo, Lo, Lo, Lo, Lo, Lo, Lo, Lo, Lo, Lo, Lo, Lo, Lo, Lo, Lo, Lo,
    Lo, Lo, Lo, Lo, Lo, Lo, Lo, Lo, Lo, Lo, Lo, Lo, Lo, Lo, Lo, Lo,
    Lo, Mn, Mn, Mn, Mn, Mn, Mn, Cn, Cn, Cn, Mn, Cn, Mn, Mn, Cn, Mn,
    Mn, Mn, Mn, Mn, Mn, Mn, Lo, Mn, Cn, Cn, Cn, Cn, Cn, Cn, Cn, Cn,
    Nd, Nd, Nd, Nd, Nd, Nd, Nd, Nd, Nd, Nd, Cn, Cn, Cn, Cn, Cn, Cn,
    Lo, Lo, Lo, Lo, Lo, Lo, Cn, Lo, Lo, Cn, Lo, Lo, Lo, Lo, Lo, Lo,
    Lo, Lo, Lo, Lo, Lo, Lo, Lo, Lo, Lo, Lo, Lo, Lo, Lo, Lo, Lo, Lo,
    Lo, Lo, Lo, Lo, Lo, Lo, Lo, Lo, Lo, Lo, Mc, Mc, Mc, Mc, Mc, Cn,
    Mn, Mn, Cn, Mc, Mc, Mn, Mc, Mn, Lo, Cn, Cn, Cn, Cn, Cn, Cn, Cn,
    Nd, Nd, Nd, Nd, Nd, Nd, Nd, Nd, Nd, Nd, Cn, Cn, Cn, Cn, Cn, Cn,
    Cn, Cn, Cn, Cn, Cn, Cn, Cn, Cn, Cn, Cn, Cn, Cn, Cn, Cn, Cn, Cn,
    Cn, Cn, Cn, Cn, Cn, Cn, Cn, Cn, Cn, Cn, Cn, Cn, Cn, Cn, Cn, Cn,
    Cn, Cn, Cn, Cn, Cn, Cn, Cn, Cn, Cn, Cn, Cn, Cn, Cn, Cn, Cn, Cn,
    Cn, Cn, Cn, Cn, Cn, Cn, Cn, Cn, Cn, Cn, Cn, Cn, Cn, Cn, Cn, Cn,
    Cn, Cn, Cn, Cn, Cn, Cn, Cn, Cn, Cn, Cn, Cn, Cn, Cn, Cn, Cn, Cn,
];

#[verifier::opaque]
pub const CAT_PAGE_84: [GeneralCategory; 256] = [
    Cn, Cn, Cn, Cn, Cn, Cn, Cn, Cn, Cn, Cn, Cn, Cn, Cn, Cn, Cn, Cn,
    Cn, Cn, Cn, Cn, Cn, Cn, Cn, Cn, Cn, Cn, Cn, Cn, Cn, Cn, Cn, Cn,
    Cn, Cn, Cn, Cn, Cn, Cn, Cn, Cn, Cn, Cn, Cn, Cn, Cn, Cn, Cn, Cn,
    Cn, Cn, Cn, Cn, Cn, Cn, Cn, Cn, Cn, Cn, Cn, Cn, Cn, Cn, Cn, Cn,
    Cn, Cn, Cn, Cn, Cn, Cn, Cn, Cn, Cn, Cn, Cn, Cn, Cn, Cn, Cn, Cn,
    Cn, Cn, Cn, Cn, Cn, Cn, Cn, Cn, Cn, Cn, Cn, Cn, Cn, Cn, Cn, Cn,
    Cn, Cn, Cn, Cn, Cn, Cn, Cn, Cn, Cn, Cn, Cn, Cn, Cn, Cn, Cn, Cn,
    Cn, Cn, Cn, Cn, Cn, Cn, Cn, Cn, Cn, Cn, Cn, Cn, Cn, Cn, Cn, Cn,
    Cn, Cn, Cn, Cn, Cn, Cn, Cn, Cn, Cn, Cn, Cn, Cn, Cn, Cn, Cn, Cn,
    Cn, Cn, Cn, Cn, Cn, Cn, Cn, Cn, Cn, Cn, Cn, Cn, Cn, Cn, Cn, Cn,
    Cn, Cn, Cn, Cn, Cn, Cn, Cn, Cn, Cn, Cn, Cn, Cn, Cn, Cn, Cn, Cn,
    Cn, Cn, Cn, Cn, Cn, Cn, Cn, Cn, Cn, Cn, Cn, Cn, Cn, Cn, Cn, Cn,
    Cn, Cn, Cn, Cn, Cn, Cn, Cn, Cn, Cn, Cn, Cn, Cn, Cn, Cn, Cn, Cn,
    Cn, Cn, Cn, Cn, Cn, Cn, Cn, Cn, Cn, Cn, Cn, Cn, Cn, Cn, Cn, Cn,
    Lo, Lo, Lo, Lo, Lo, Lo, Lo, Lo, Lo, Lo, Lo, Lo, Lo, Lo, Lo, Lo,
    Lo, Lo, Lo, Mn, Mn, Mc, Mc, Po, Po, Cn, Cn, Cn, Cn, Cn, Cn, Cn,
];

#[verifier::opaque]
pub const CAT_PAGE_85: [GeneralCategory; 256] = [
    Cn, Cn, Cn, Cn, Cn, Cn, Cn, Cn, Cn, Cn, Cn, Cn, Cn, Cn, Cn, Cn,
    Cn, Cn, Cn, Cn, Cn, Cn, Cn, Cn, Cn, Cn, Cn, Cn, Cn, Cn, Cn, Cn,
    Cn, Cn, Cn, Cn, Cn, Cn, Cn, Cn, Cn, Cn, Cn, Cn, Cn, Cn, Cn, Cn,
    Cn, Cn, Cn, Cn, Cn, Cn, Cn, Cn, Cn, Cn, Cn, Cn, Cn, Cn, Cn, Cn,
    Cn, Cn, Cn, Cn, Cn, Cn, Cn, Cn, Cn, Cn, Cn, Cn, Cn, Cn, Cn, Cn,
    Cn, Cn, Cn, Cn, Cn, Cn, Cn, Cn, Cn, Cn, Cn, Cn, Cn, Cn, Cn, Cn,
    Cn, Cn, Cn, Cn, Cn, Cn, Cn, Cn, Cn, Cn, Cn, Cn, Cn, Cn, Cn, Cn,
    Cn, Cn, Cn, Cn, Cn, Cn, Cn, Cn, Cn, Cn, Cn, Cn, Cn, Cn, Cn, Cn,
    Cn, Cn, Cn, Cn, Cn, Cn, Cn, Cn, Cn, Cn, Cn, Cn, Cn, Cn, Cn, Cn,
    Cn, Cn, Cn, Cn, Cn, Cn, Cn, Cn, Cn, Cn, Cn, Cn, Cn, Cn, Cn, Cn,
    Cn, Cn, Cn, Cn, Cn, Cn, Cn, Cn, Cn, Cn, Cn, Cn, Cn, Cn, Cn, Cn,
    Lo, Cn, Cn, Cn, Cn, Cn, Cn, Cn, Cn, Cn, Cn, Cn, Cn, Cn, Cn, Cn,
    No, No, No, No, No, No, No, No, No, No, No, No, No, No, No, No,
    No, No, No, No, No, So, So, So, So, So, So, So, So, Sc, Sc, Sc,
    Sc, So, So, So, So, So, So, So, So, So, So, So, So, So, So, So,
    So, So, Cn, Cn, Cn, Cn, Cn, Cn, Cn, Cn, Cn, Cn, Cn, Cn, Cn, Po,
];

#[verifier::opaque]
pub const CAT_PAGE_86: [GeneralCategory; 256] = [
    Nl, Nl, Nl, Nl, Nl, Nl, Nl, Nl, Nl, Nl, Nl, Nl, Nl, Nl, Nl, Nl,
    Nl, Nl, Nl, Nl, Nl, Nl, Nl, Nl, Nl, Nl, Nl, Nl, Nl, Nl, Nl, Nl,
    Nl, Nl, Nl, Nl, Nl, Nl, Nl, Nl, Nl, Nl, Nl, Nl, Nl, Nl, Nl, Nl,
    Nl, Nl, Nl, Nl, Nl, Nl, Nl, Nl, Nl, Nl, Nl, Nl, Nl, Nl, Nl, Nl,
    Nl, Nl, Nl, Nl, Nl, Nl, Nl, Nl, Nl, Nl, Nl, Nl, Nl, Nl, Nl, Nl,
    Nl, Nl, Nl, Nl, Nl, Nl, Nl, Nl, Nl, Nl, Nl, Nl, Nl, Nl, Nl, Nl,
    Nl, Nl, Nl, Nl, Nl, Nl, Nl, Nl, Nl, Nl, Nl, Nl, Nl, Nl, Nl, Cn,
    Po, Po, Po, Po, Po, Cn, Cn, Cn, Cn, Cn, Cn, Cn, Cn, Cn, Cn, Cn,
    Lo, Lo, Lo, Lo, Lo, Lo, Lo, Lo, Lo, Lo, Lo, Lo, Lo, Lo, Lo, Lo,
    Lo, Lo, Lo, Lo, Lo, Lo, Lo, Lo, Lo, Lo, Lo, Lo, Lo, Lo, Lo, Lo,
    Lo, Lo, Lo, Lo, Lo, Lo, Lo, Lo, Lo, Lo, Lo, Lo, Lo, Lo, Lo, Lo,
    Lo, Lo, Lo, Lo, Lo, Lo, Lo, Lo, Lo, Lo, Lo, Lo, Lo, Lo, Lo, Lo,
    Lo, Lo, Lo, Lo, Lo, Lo, Lo, Lo, Lo, Lo, Lo, Lo, Lo, Lo, Lo, Lo,
    Lo, Lo, Lo, Lo, Lo, Lo, Lo, Lo, Lo, Lo, Lo, Lo, Lo, Lo, Lo, Lo,
    Lo, Lo, Lo, Lo, Lo, Lo, Lo, Lo, Lo, Lo, Lo, Lo, Lo, Lo, Lo, Lo,
    Lo, Lo, Lo, Lo, Lo, Lo, Lo, Lo, Lo, Lo, Lo, Lo, Lo, Lo, Lo, Lo,
];

#[verifier::opaque]
pub const CAT_PAGE_87: [GeneralCategory; 256] = [
    Cn, Cn, Cn, Cn, Cn, Cn, Cn, Cn, Cn, Cn, Cn, Cn, Cn, Cn, Cn, Cn,
    Cn, Cn, Cn, Cn, Cn, Cn, Cn, Cn, Cn, Cn, Cn, Cn, Cn, Cn, Cn, Cn,
    Cn, Cn, Cn, Cn, Cn, Cn, Cn, Cn, Cn, Cn, Cn, Cn, Cn, Cn, Cn, Cn,
    Cn, Cn, Cn, Cn, Cn, Cn, Cn, Cn, Cn, Cn, Cn, Cn, Cn, Cn, Cn, Cn,
    Cn, Cn, Cn, Cn, Cn, Cn, Cn, Cn, Cn, Cn, Cn, Cn, Cn, Cn, Cn, Cn,
    Cn, Cn, Cn, Cn, Cn, Cn, Cn, Cn, Cn, Cn, Cn, Cn, Cn, Cn, Cn, Cn,
    Cn, Cn, Cn, Cn, Cn, Cn, Cn, Cn, Cn, Cn, Cn, Cn, Cn, Cn, Cn, Cn,
    Cn, Cn, Cn, Cn, Cn, Cn, Cn, Cn, Cn, Cn, Cn, Cn, Cn, Cn, Cn, Cn,
    Cn, Cn, Cn, Cn, Cn, Cn, Cn, Cn, Cn, Cn, Cn, Cn, Cn, Cn, Cn, Cn,
    Lo, Lo, Lo, Lo, Lo, Lo, Lo, Lo, Lo, Lo, Lo, Lo, Lo, Lo, Lo, Lo,
    Lo, Lo, Lo, Lo, Lo, Lo, Lo, Lo, Lo, Lo, Lo, Lo, Lo, Lo, Lo, Lo,
    Lo, Lo, Lo, Lo, Lo, Lo, Lo, Lo, Lo, Lo, Lo, Lo, Lo, Lo, Lo, Lo,
    Lo, Lo, Lo, Lo, Lo, Lo, Lo, Lo, Lo, Lo, Lo, Lo, Lo, Lo, Lo, Lo,
    Lo, Lo, Lo, Lo, Lo, Lo, Lo, Lo, Lo, Lo, Lo, Lo, Lo, Lo, Lo, Lo,
    Lo, Lo, Lo, Lo, Lo, Lo, Lo, Lo, Lo, Lo, Lo, Lo, Lo, Lo, Lo, Lo,
    Lo, Po, Po, Cn, Cn, Cn, Cn, Cn, Cn, Cn, Cn, Cn, Cn, Cn, Cn, Cn,
];

#[verifier::opaque]
pub const CAT_PAGE_88: [GeneralCategory; 256] = [
    Lo, Lo, Lo, Lo, Lo, Lo, Lo, Lo, Lo, Lo, Lo, Lo, Lo, Lo, Lo, Lo,
    Lo, Lo, Lo, Lo, Lo, Lo, Lo, Lo, Lo, Lo, Lo, Lo, Lo, Lo, Lo, Lo,
    Lo, Lo, Lo, Lo, Lo, Lo, Lo, Lo, Lo, Lo, Lo, Lo, Lo, Lo, Lo, Cn,
    Cf, Cf, Cf, Cf, Cf, Cf, Cf, Cf, Cf, Cn, Cn, Cn, Cn, Cn, Cn, Cn,
    Cn, Cn, Cn, Cn, Cn, Cn, Cn, Cn, Cn, Cn, Cn, Cn, Cn, Cn, Cn, Cn,
    Cn, Cn, Cn, Cn, Cn, Cn, Cn, Cn, Cn, Cn, Cn, Cn, Cn, Cn, Cn, Cn,
    Cn, Cn, Cn, Cn, Cn, Cn, Cn, Cn, Cn, Cn, Cn, Cn, Cn, Cn, Cn, Cn,
    Cn, Cn, Cn, Cn, Cn, Cn, Cn, Cn, Cn, Cn, Cn, Cn, Cn, Cn, Cn, Cn,
    Cn, Cn, Cn, Cn, Cn, Cn, Cn, Cn, Cn, Cn, Cn, Cn, Cn, Cn, Cn, Cn,
    Cn, Cn, Cn, Cn, Cn, Cn, Cn, Cn, Cn, Cn, Cn, Cn, Cn, Cn, Cn, Cn,
    Cn, Cn, Cn, Cn, Cn, Cn, Cn, Cn, Cn, Cn, Cn, Cn, Cn, Cn, Cn, Cn,
    Cn, Cn, Cn, Cn, Cn, Cn, Cn, Cn, Cn, Cn, Cn, Cn, Cn, Cn, Cn, Cn,
    Cn, Cn, Cn, Cn, Cn, Cn, Cn, Cn, Cn, Cn, Cn, Cn, Cn, Cn, Cn, Cn,
    Cn, Cn, Cn, Cn, Cn, Cn, Cn, Cn, Cn, Cn, Cn, Cn, Cn, Cn, Cn, Cn,
    Cn, Cn, Cn, Cn, Cn, Cn, Cn, Cn, Cn, Cn, Cn, Cn, Cn, Cn, Cn, Cn,
    Cn, Cn, Cn, Cn, Cn, Cn, Cn, Cn, Cn, Cn, Cn, Cn, Cn, Cn, Cn, Cn,
];

#[verifier::opaque]
pub const CAT_PAGE_89: [GeneralCategory; 256] = [
    Lo, Lo, Lo, Lo, Lo, Lo, Lo, Lo, Lo, Lo, Lo, Lo, Lo, Lo, Lo, Lo,
    Lo, Lo, Lo, Lo, Lo, Lo, Lo, Lo, Lo, Lo, Lo, Lo, Lo, Lo, Lo, Lo,
    Lo, Lo, Lo, Lo, Lo, Lo, Lo, Lo, Lo, Lo, Lo, Lo, Lo, Lo, Lo, Lo,
    Lo, Lo, Lo, Lo, Lo, Lo, Lo, Lo, Lo, Cn, Cn, Cn, Cn, Cn, Cn, Cn,
    Lo, Lo, Lo, Lo, Lo, Lo, Lo, Lo, Lo, Lo, Lo, Lo, Lo, Lo, Lo, Lo,
    Lo, Lo, Lo, Lo, Lo, Lo, Lo, Lo, Lo, Lo, Lo, Lo, Lo, Lo, Lo, Cn,
    Nd, Nd, Nd, Nd, Nd, Nd, Nd, Nd, Nd, Nd, Cn, Cn, Cn, Cn, Po, Po,
    Lo, Lo, Lo, Lo, Lo, Lo, Lo, Lo, Lo, Lo, Lo, Lo, Lo, Lo, Lo, Lo,
    Lo, Lo, Lo, Lo, Lo, Lo, Lo, Lo, Lo, Lo, Lo, Lo, Lo, Lo, Lo, Lo,
    Lo, Lo, Lo, Lo, Lo, Lo, Lo, Lo, Lo, Lo, Lo, Lo, Lo, Lo, Lo, Lo,
    Lo, Lo, Lo, Lo, Lo, Lo, Lo, Lo, Lo, Lo, Lo, Lo, Lo, Lo, Lo, Lo,
    Lo, Lo, Lo, Lo, Lo, Lo, Lo, Lo, Lo, Lo, Lo, Lo, Lo, Lo, Lo, Cn,
    Nd, Nd, Nd, Nd, Nd, Nd, Nd, Nd, Nd, Nd, Cn, Cn, Cn, Cn, Cn, Cn,
    Lo, Lo, Lo, Lo, Lo, Lo, Lo, Lo, Lo, Lo, Lo, Lo, Lo, Lo, Lo, Lo,
    Lo, Lo, Lo, Lo, Lo, Lo, Lo, Lo, Lo, Lo, Lo, Lo, Lo, Lo, Cn, Cn,
    Mn, Mn, Mn, Mn, Mn, Po, Cn, Cn, Cn, Cn, Cn, Cn, Cn, Cn, Cn, Cn,
];

#[verifier::opaque]
pub const CAT_PAGE_90: [GeneralCategory; 256] = [
    Lo, Lo, Lo, Lo, Lo, Lo, Lo, Lo, Lo, Lo, Lo, Lo, Lo, Lo, Lo, Lo,
    Lo, Lo, Lo, Lo, Lo, Lo, Lo, Lo, Lo, Lo, Lo, Lo, Lo, Lo, Lo, Lo,
    Lo, Lo, Lo, Lo, Lo, Lo, Lo, Lo, Lo, Lo, Lo, Lo, Lo, Lo, Lo, Lo,
    Mn, Mn, Mn, Mn, Mn, Mn, Mn, Po, Po, Po, Po, Po, So, So, So, So,
    Lm, Lm, Lm, Lm, Po, So, Cn, Cn, Cn, Cn, Cn, Cn, Cn, Cn, Cn, Cn,
    Nd, Nd, Nd, Nd, Nd, Nd, Nd, Nd, Nd, Nd, Cn, No, No, No, No, No,
    No, No, Cn, Lo, Lo, Lo, Lo, Lo, Lo, Lo, Lo, Lo, Lo, Lo, Lo, Lo,
    Lo, Lo, Lo, Lo, Lo, Lo, Lo, Lo, Cn, Cn, Cn, Cn, Cn, Lo, Lo, Lo,
    Lo, Lo, Lo, Lo, Lo, Lo, Lo, Lo, Lo, Lo, Lo, Lo, Lo, Lo, Lo, Lo,
    Cn, Cn, Cn, Cn, Cn, Cn, Cn, Cn, Cn, Cn, Cn, Cn, Cn, Cn, Cn, Cn,
    Cn, Cn, Cn, Cn, Cn, Cn, Cn, Cn, Cn, Cn, Cn, Cn, Cn, Cn, Cn, Cn,
    Cn, Cn, Cn, Cn, Cn, Cn, Cn, Cn, Cn, Cn, Cn, Cn, Cn, Cn, Cn, Cn,
    Cn, Cn, Cn, Cn, Cn, Cn, Cn, Cn, Cn, Cn, Cn, Cn, Cn, Cn, Cn, Cn,
    Cn, Cn, Cn, Cn, Cn, Cn, Cn, Cn, Cn, Cn, Cn, Cn, Cn, Cn, Cn, Cn,
    Cn, Cn, Cn, Cn, Cn, Cn, Cn, Cn, Cn, Cn, Cn, Cn, Cn, Cn, Cn, Cn,
    Cn, Cn, Cn, Cn, Cn, Cn, Cn, Cn, Cn, Cn, Cn, Cn, Cn, Cn, Cn, Cn,
];

#[verifier::opaque]
pub const CAT_PAGE_91: [GeneralCategory; 256] = [
    Cn, Cn, Cn, Cn, Cn, Cn, Cn, Cn, Cn, Cn, Cn, Cn, Cn, Cn, Cn, Cn,
    Cn, Cn, Cn, Cn, Cn, Cn, Cn, Cn, Cn, Cn, Cn, Cn, Cn, Cn, Cn, Cn,
    Cn, Cn, Cn, Cn, Cn, Cn, Cn, Cn, Cn, Cn, Cn, Cn, Cn, Cn, Cn, Cn,
    Cn, Cn, Cn, Cn, Cn, Cn, Cn, Cn, Cn, Cn, Cn, Cn, Cn, Cn, Cn, Cn,
    Lu, Lu, Lu, Lu, Lu, Lu, Lu, Lu, Lu, Lu, Lu, Lu, Lu, Lu, Lu, Lu,
    Lu, Lu, Lu, Lu, Lu, Lu, Lu, Lu, Lu, Lu, Lu, Lu, Lu, Lu, Lu, Lu,
    Ll, Ll, Ll, Ll, Ll, Ll, Ll, Ll, Ll, Ll, Ll, Ll, Ll, Ll, Ll, Ll,
    Ll, Ll, Ll, Ll, Ll, Ll, Ll, Ll, Ll, Ll, Ll, Ll, Ll, Ll, Ll, Ll,
    No, No, No, No, No, No, No, No, No, No, No, No, No, No, No, No,
    No, No, No, No, No, No, No, Po, Po, Po, Po, Cn, Cn, Cn, Cn, Cn,
    Cn, Cn, Cn, Cn, Cn, Cn, Cn, Cn, Cn, Cn, Cn, Cn, Cn, Cn, Cn, Cn,
    Cn, Cn, Cn, Cn, Cn, Cn, Cn, Cn, Cn, Cn, Cn, Cn, Cn, Cn, Cn, Cn,
    Cn, Cn, Cn, Cn, Cn, Cn, Cn, Cn, Cn, Cn, Cn, Cn, Cn, Cn, Cn, Cn,
    Cn, Cn, Cn, Cn, Cn, Cn, Cn, Cn, Cn, Cn, Cn, Cn, Cn, Cn, Cn, Cn,
    Cn, Cn, Cn, Cn, Cn, Cn, Cn, Cn, Cn, Cn, Cn, Cn, Cn, Cn, Cn, Cn,
    Cn, Cn, Cn, Cn, Cn, Cn, Cn, Cn, Cn, Cn, Cn, Cn, Cn, Cn, Cn, Cn,
];

#[verifier::opaque]
pub const CAT_PAGE_92: [GeneralCategory; 256] = [
    Lo, Lo, Lo, Lo, Lo, Lo, Lo, Lo, Lo, Lo, Lo, Lo, Lo, Lo, Lo, Lo,
    Lo, Lo, Lo, Lo, Lo, Lo, Lo, Lo, Lo, Lo, Lo, Lo, Lo, Lo, Lo, Lo,
    Lo, Lo, Lo, Lo, Lo, Lo, Lo, Lo, Lo, Lo, Lo, Lo, Lo, Lo, Lo, Lo,
    Lo, Lo, Lo, Lo, Lo, Lo, Lo, Lo, Lo, Lo, Lo, Lo, Lo, Lo, Lo, Lo,
    Lo, Lo, Lo, Lo, Lo, Lo, Lo, Lo, Lo, Lo, Lo, Cn, Cn, Cn, Cn, Mn,
    Lo, Mc, Mc, Mc, Mc, Mc, Mc, Mc, Mc, Mc, Mc, Mc, Mc, Mc, Mc, Mc,
    Mc, Mc, Mc, Mc, Mc, Mc, Mc, Mc, Mc, Mc, Mc, Mc, Mc, Mc, Mc, Mc,
    Mc, Mc, Mc, Mc, Mc, Mc, Mc, Mc, Mc, Mc, Mc, Mc, Mc, Mc, Mc, Mc,
    Mc, Mc, Mc, Mc, Mc, Mc, Mc, Mc, Cn, Cn, Cn, Cn, Cn, Cn, Cn, Mn,
    Mn, Mn, Mn, Lm, Lm, Lm, Lm, Lm, Lm, Lm, Lm, Lm, Lm, Lm, Lm, Lm,
    Cn, Cn, Cn, Cn, Cn, Cn, Cn, Cn, Cn, Cn, Cn, Cn, Cn, Cn, Cn, Cn,
    Cn, Cn, Cn, Cn, Cn, Cn, Cn, Cn, Cn, Cn, Cn, Cn, Cn, Cn, Cn, Cn,
    Cn, Cn, Cn, Cn, Cn, Cn, Cn, Cn, Cn, Cn, Cn, Cn, Cn, Cn, Cn, Cn,
    Cn, Cn, Cn, Cn, Cn, Cn, Cn, Cn, Cn, Cn, Cn, Cn, Cn, Cn, Cn, Cn,
    Lm, Lm, Po, Lm, Mn, Cn, Cn, Cn, Cn, Cn, Cn, Cn, Cn, Cn, Cn, Cn,
    Mc, Mc, Cn, Cn, Cn, Cn, Cn, Cn, Cn, Cn, Cn, Cn, Cn, Cn, Cn, Cn,
];

#[verifier::opaque]
pub const CAT_PAGE_93: [GeneralCategory; 256] = [
    Lo, Lo, Lo, Lo, Lo, Lo, Lo, Lo, Lo, Lo, Lo, Lo, Lo, Lo, Lo, Lo,
    Lo, Lo, Lo, Lo, Lo, Lo, Lo, Lo, Lo, Lo, Lo, Lo, Lo, Lo, Lo, Lo,
    Lo, Lo, Lo, Lo, Lo, Lo, Lo, Lo, Lo, Lo, Lo, Lo, Lo, Lo, Lo, Lo,
    Lo, Lo, Lo, Lo, Lo, Lo, Lo, Lo, Lo, Lo, Lo, Lo, Lo, Lo, Lo, Lo,
    Lo, Lo, Lo, Lo, Lo, Lo, Lo, Lo, Lo, Lo, Lo, Lo, Lo, Lo, Lo, Lo,
    Lo, Lo, Lo, Lo, Lo, Lo, Lo, Lo, Lo, Lo, Lo, Lo, Lo, Lo, Lo, Lo,
    Lo, Lo, Lo, Lo, Lo, Lo, Lo, Lo, Lo, Lo, Lo, Cn, Cn, Cn, Cn, Cn,
    Lo, Lo, Lo, Lo, Lo, Lo, Lo, Lo, Lo, Lo, Lo, Lo, Lo, Cn, Cn, Cn,
    Lo, Lo, Lo, Lo, Lo, Lo, Lo, Lo, Lo, Cn, Cn, Cn, Cn, Cn, Cn, Cn,
    Lo, Lo, Lo, Lo, Lo, Lo, Lo, Lo, Lo, Lo, Cn, Cn, So, Mn, Mn, Po,
    Cf, Cf, Cf, Cf, Cn, Cn, Cn, Cn, Cn, Cn, Cn, Cn, Cn, Cn, Cn, Cn,
    Cn, Cn, Cn, Cn, Cn, Cn, Cn, Cn, Cn, Cn, Cn, Cn, Cn, Cn, Cn, Cn,
    Cn, Cn, Cn, Cn, Cn, Cn, Cn, Cn, Cn, Cn, Cn, Cn, Cn, Cn, Cn, Cn,
    Cn, Cn, Cn, Cn, Cn, Cn, Cn, Cn, Cn, Cn, Cn, Cn, Cn, Cn, Cn, Cn,
    Cn, Cn, Cn, Cn, Cn, Cn, Cn, Cn, Cn, Cn, Cn, Cn, Cn, Cn, Cn, Cn,
    Cn, Cn, Cn, Cn, Cn, Cn, Cn, Cn, Cn, Cn, Cn, Cn, Cn, Cn, Cn, Cn,
];

#[verifier::opaque]
pub const CAT_PAGE_94: [GeneralCategory; 256] = [
    Mn, Mn, Mn, Mn, Mn, Mn, Mn, Mn, Mn, Mn, Mn, Mn, Mn, Mn, Mn, Mn,
    Mn, Mn, Mn, Mn, Mn, Mn, Mn, Mn, Mn, Mn, Mn, Mn, Mn, Mn, Mn, Mn,
    Mn, Mn, Mn, Mn, Mn, Mn, Mn, Mn, Mn, Mn, Mn, Mn, Mn, Mn, Cn, Cn,
    Mn, Mn, Mn, Mn, Mn, Mn, Mn, Mn, Mn, Mn, Mn, Mn, Mn, Mn, Mn, Mn,
    Mn, Mn, Mn, Mn, Mn, Mn, Mn, Cn, Cn, Cn, Cn, Cn, Cn, Cn, Cn, Cn,
    So, So, So, So, So, So, So, So, So, So, So, So, So, So, So, So,
    So, So, So, So, So, So, So, So, So, So, So, So, So, So, So, So,
    So, So, So, So, So, So, So, So, So, So, So, So, So, So, So, So,
    So, So, So, So, So, So, So, So, So, So, So, So, So, So, So, So,
    So, So, So, So, So, So, So, So, So, So, So, So, So, So, So, So,
    So, So, So, So, So, So, So, So, So, So, So, So, So, So, So, So,
    So, So, So, So, So, So, So, So, So, So, So, So, So, So, So, So,
    So, So, So, So, Cn, Cn, Cn, Cn, Cn, Cn, Cn, Cn, Cn, Cn, Cn, Cn,
    Cn, Cn, Cn, Cn, Cn, Cn, Cn, Cn, Cn, Cn, Cn, Cn, Cn, Cn, Cn, Cn,
    Cn, Cn, Cn, Cn, Cn, Cn, Cn, Cn, Cn, Cn, Cn, Cn, Cn, Cn, Cn, Cn,
    Cn, Cn, Cn, Cn, Cn, Cn, Cn, Cn, Cn, Cn, Cn, Cn, Cn, Cn, Cn, Cn,
];

#[verifier::opaque]
pub const CAT_PAGE_95: [GeneralCategory; 256] = [
    So, So, So, So, So, So, So, So, So, So, So, So, So, So, So, So,
    So, So, So, So, So, So, So, So, So, So, So, So, So, So, So, So,
    So, So, So, So, So, So, So, Cn, Cn, So, So, So, So, So, So, So,
    So, So, So, So, So, So, So, So, So, So, So, So, So, So, So, So,
    So, So, So, So, So, So, So, So, So, So, So, So, So, So, So, So,
    So, So, So, So, So, So, So, So, So, So, So, So, So, So, So, So,
    So, So, So, So, So, Mc, Mc, Mn, Mn, Mn, So, So, So, Mc, Mc, Mc,
    Mc, Mc, Mc, Cf, Cf, Cf, Cf, Cf, Cf, Cf, Cf, Mn, Mn, Mn, Mn, Mn,
    Mn, Mn, Mn, So, So, Mn, Mn, Mn, Mn, Mn, Mn, Mn, So, So, So, So,
    So, So, So, So, So, So, So, So, So, So, So, So, So, So, So, So,
    So, So, So, So, So, So, So, So, So, So, Mn, Mn, Mn, Mn, So, So,
    So, So, So, So, So, So, So, So, So, So, So, So, So, So, So, So,
    So, So, So, So, So, So, So, So, So, So, So, So, So, So, So, So,
    So, So, So, So, So, So, So, So, So, So, So, So, So, So, So, So,
    So, So, So, So, So, So, So, So, So, So, So, Cn, Cn, Cn, Cn, Cn,
    Cn, Cn, Cn, Cn, Cn, Cn, Cn, Cn, Cn, Cn, Cn, Cn, Cn, Cn, Cn, Cn,
];

#[verifier::opaque]
pub const CAT_PAGE_96: [GeneralCategory; 256] = [
    So, So, So, So, So, So, So, So, So, So, So, So, So, So, So, So,
    So, So, So, So, So, So, So, So, So, So, So, So, So, So, So, So,
    So, So, So, So, So, So, So, So, So, So, So, So, So, So, So, So,
    So, So, So, So, So, So, So, So, So, So, So, So, So, So, So, So,
    So, So, Mn, Mn, Mn, So, Cn, Cn, Cn, Cn, Cn, Cn, Cn, Cn, Cn, Cn,
    Cn, Cn, Cn, Cn, Cn, Cn, Cn, Cn, Cn, Cn, Cn, Cn, Cn, Cn, Cn, Cn,
    Cn, Cn, Cn, Cn, Cn, Cn, Cn, Cn, Cn, Cn, Cn, Cn, Cn, Cn, Cn, Cn,
    Cn, Cn, Cn, Cn, Cn, Cn, Cn, Cn, Cn, Cn, Cn, Cn, Cn, Cn, Cn, Cn,
    Cn, Cn, Cn, Cn, Cn, Cn, Cn, Cn, Cn, Cn, Cn, Cn, Cn, Cn, Cn, Cn,
    Cn, Cn, Cn, Cn, Cn, Cn, Cn, Cn, Cn, Cn, Cn, Cn, Cn, Cn, Cn, Cn,
    Cn, Cn, Cn, Cn, Cn, Cn, Cn, Cn, Cn, Cn, Cn, Cn, Cn, Cn, Cn, Cn,
    Cn, Cn, Cn, Cn, Cn, Cn, Cn, Cn, Cn, Cn, Cn, Cn, Cn, Cn, Cn, Cn,
    Cn, Cn, Cn, Cn, Cn, Cn, Cn, Cn, Cn, Cn, Cn, Cn, Cn, Cn, Cn, Cn,
    Cn, Cn, Cn, Cn, Cn, Cn, Cn, Cn, Cn, Cn, Cn, Cn, Cn, Cn, Cn, Cn,
    No, No, No, No, No, No, No, No, No, No, No, No, No, No, No, No,
    No, No, No, No, Cn, Cn, Cn, Cn, Cn, Cn, Cn, Cn, Cn, Cn, Cn, Cn,
];

#[verifier::opaque]
pub const CAT_PAGE_97: [GeneralCategory; 256] = [
    So, So, So, So, So, So, So, So, So, So, So, So, So, So, So, So,
    So, So, So, So, So, So, So, So, So, So, So, So, So, So, So, So,
    So, So, So, So, So, So, So, So, So, So, So, So, So, So, So, So,
    So, So, So, So, So, So, So, So, So, So, So, So, So, So, So, So,
    So, So, So, So, So, So, So, So, So, So, So, So, So, So, So, So,
    So, So, So, So, So, So, So, Cn, Cn, Cn, Cn, Cn, Cn, Cn, Cn, Cn,
    No, No, No, No, No, No, No, No, No, No, No, No, No, No, No, No,
    No, No, No, No, No, No, No, No, No, Cn, Cn, Cn, Cn, Cn, Cn, Cn,
    Cn, Cn, Cn, Cn, Cn, Cn, Cn, Cn, Cn, Cn, Cn, Cn, Cn, Cn, Cn, Cn,
    Cn, Cn, Cn, Cn, Cn, Cn, Cn, Cn, Cn, Cn, Cn, Cn, Cn, Cn, Cn, Cn,
    Cn, Cn, Cn, Cn, Cn, Cn, Cn, Cn, Cn, Cn, Cn, Cn, Cn, Cn, Cn, Cn,
    Cn, Cn, Cn, Cn, Cn, Cn, Cn, Cn, Cn, Cn, Cn, Cn, Cn, Cn, Cn, Cn,
    Cn, Cn, Cn, Cn, Cn, Cn, Cn, Cn, Cn, Cn, Cn, Cn, Cn, Cn, Cn, Cn,
    Cn, Cn, Cn, Cn, Cn, Cn, Cn, Cn, Cn, Cn, Cn, Cn, Cn, Cn, Cn, Cn,
    Cn, Cn, Cn, Cn, Cn, Cn, Cn, Cn, Cn, Cn, Cn, Cn, Cn, Cn, Cn, Cn,
    Cn, Cn, Cn, Cn, Cn, Cn, Cn, Cn, Cn, Cn, Cn, Cn, Cn, Cn, Cn, Cn,
];

#[verifier::opaque]
pub const CAT_PAGE_98: [GeneralCategory; 256] = [
    Lu, Lu, Lu, Lu, Lu, Lu, Lu, Lu, Lu, Lu, Lu, Lu, Lu, Lu, Lu, Lu,
    Lu, Lu, Lu, Lu, Lu, Lu, Lu, Lu, Lu, Lu, Ll, Ll, Ll, Ll, Ll, Ll,
    Ll, Ll, Ll, Ll, Ll, Ll, Ll, Ll, Ll, Ll, Ll, Ll, Ll, Ll, Ll, Ll,
    Ll, Ll, Ll, Ll, Lu, Lu, Lu, Lu, Lu, Lu, Lu, Lu, Lu, Lu, Lu, Lu,
    Lu, Lu, Lu, Lu, Lu, Lu, Lu, Lu, Lu, Lu, Lu, Lu, Lu, Lu, Ll, Ll,
    Ll, Ll, Ll, Ll, Ll, Cn, Ll, Ll, Ll, Ll, Ll, Ll, Ll, Ll, Ll, Ll,
    Ll, Ll, Ll, Ll, Ll, Ll, Ll, Ll, Lu, Lu, Lu, Lu, Lu, Lu, Lu, Lu,
    Lu, Lu, Lu, Lu, Lu, Lu, Lu, Lu, Lu, Lu, Lu, Lu, Lu, Lu, Lu, Lu,
    Lu, Lu, Ll, Ll, Ll, Ll, Ll, Ll, Ll, Ll, Ll, Ll, Ll, Ll, Ll, Ll,
    Ll, Ll, Ll, Ll, Ll, Ll, Ll, Ll, Ll, Ll, Ll, Ll, Lu, Cn, Lu, Lu,
    Cn, Cn, Lu, Cn, Cn, Lu, Lu, Cn, Cn, Lu, Lu, Lu, Lu, Cn, Lu, Lu,
    Lu, Lu, Lu, Lu, Lu, Lu, Ll, Ll, Ll, Ll, Cn, Ll, Cn, Ll, Ll, Ll,
    Ll, Ll, Ll, Ll, Cn, Ll, Ll, Ll, Ll, Ll, Ll, Ll, Ll, Ll, Ll, Ll,
    Lu, Lu, Lu, Lu, Lu, Lu, Lu, Lu, Lu, Lu, Lu, Lu, Lu, Lu, Lu, Lu,
    Lu, Lu, Lu, Lu, Lu, Lu, Lu, Lu, Lu, Lu, Ll, Ll, Ll, Ll, Ll, Ll,
    Ll, Ll, Ll, Ll, Ll, Ll, Ll, Ll, Ll, Ll, Ll, Ll, Ll, Ll, Ll, Ll,
];

#[verifier::opaque]
pub const CAT_PAGE_99: [GeneralCategory; 256] = [
    Ll, Ll, Ll, Ll, Lu, Lu, Cn, Lu, Lu, Lu, Lu, Cn, Cn, Lu, Lu, Lu,
    Lu, Lu, Lu, Lu, Lu, Cn, Lu, Lu, Lu, Lu, Lu, Lu, Lu, Cn, Ll, Ll,
    Ll, Ll, Ll, Ll, Ll, Ll, Ll, Ll, Ll, Ll, Ll, Ll, Ll, Ll, Ll, Ll,
    Ll, Ll, Ll, Ll, Ll, Ll, Ll, Ll, Lu, Lu, Cn, Lu, Lu, Lu, Lu, Cn,
    Lu, Lu, Lu, Lu, Lu, Cn, Lu, Cn, Cn, Cn, Lu, Lu, Lu, Lu, Lu, Lu,
    Lu, Cn, Ll, Ll, Ll, Ll, Ll, Ll, Ll, Ll, Ll, Ll, Ll, Ll, Ll, Ll,
    Ll, Ll, Ll, Ll, Ll, Ll, Ll, Ll, Ll, Ll, Ll, Ll, Lu, Lu, Lu, Lu,
    Lu, Lu, Lu, Lu, Lu, Lu, Lu, Lu, Lu, Lu, Lu, Lu, Lu, Lu, Lu, Lu,
    Lu, Lu, Lu, Lu, Lu, Lu, Ll, Ll, Ll, Ll, Ll, Ll, Ll, Ll, Ll, Ll,
    Ll, Ll, Ll, Ll, Ll, Ll, Ll, Ll, Ll, Ll, Ll, Ll, Ll, Ll, Ll, Ll,
    Lu, Lu, Lu, Lu, Lu, Lu, Lu, Lu, Lu, Lu, Lu, Lu, Lu, Lu, Lu, Lu,
    Lu, Lu, Lu, Lu, Lu, Lu, Lu, Lu, Lu, Lu, Ll, Ll, Ll, Ll, Ll, Ll,
    Ll, Ll, Ll, Ll, Ll, Ll, Ll, Ll, Ll, Ll, Ll, Ll, Ll, Ll, Ll, Ll,
    Ll, Ll, Ll, Ll, Lu, Lu, Lu, Lu, Lu, Lu, Lu, Lu, Lu, Lu, Lu, Lu,
    Lu, Lu, Lu, Lu, Lu, Lu, Lu, Lu, Lu, Lu, Lu, Lu, Lu, Lu, Ll, Ll,
    Ll, Ll, Ll, Ll, Ll, Ll, Ll, Ll, Ll, Ll, Ll, Ll, Ll, Ll, Ll, Ll,
];

#[verifier::opaque]
pub const CAT_PAGE_100: [GeneralCategory; 256] = [
    Ll, Ll, Ll, Ll, Ll, Ll, Ll, Ll, Lu, Lu, Lu, Lu, Lu, Lu, Lu, Lu,
    Lu, Lu, Lu, Lu, Lu, Lu, Lu, Lu, Lu, Lu, Lu, Lu, Lu, Lu, Lu, Lu,
    Lu, Lu, Ll, Ll, Ll, Ll, Ll, Ll, Ll, Ll, Ll, Ll, Ll, Ll, Ll, Ll,
    Ll, Ll, Ll, Ll, Ll, Ll, Ll, Ll, Ll, Ll, Ll, Ll, Lu, Lu, Lu, Lu,
    Lu, Lu, Lu, Lu, Lu, Lu, Lu, Lu, Lu, Lu, Lu, Lu, Lu, Lu, Lu, Lu,
    Lu, Lu, Lu, Lu, Lu, Lu, Ll, Ll, Ll, Ll, Ll, Ll, Ll, Ll, Ll, Ll,
    Ll, Ll, Ll, Ll, Ll, Ll, Ll, Ll, Ll, Ll, Ll, Ll, Ll, Ll, Ll, Ll,
    Lu, Lu, Lu, Lu, Lu, Lu, Lu, Lu, Lu, Lu, Lu, Lu, Lu, Lu, Lu, Lu,
    Lu, Lu, Lu, Lu, Lu, Lu, Lu, Lu, Lu, Lu, Ll, Ll, Ll, Ll, Ll, Ll,
    Ll, Ll, Ll, Ll, Ll, Ll, Ll, Ll, Ll, Ll, Ll, Ll, Ll, Ll, Ll, Ll,
    Ll, Ll, Ll, Ll, Ll, Ll, Cn, Cn, Lu, Lu, Lu, Lu, Lu, Lu, Lu, Lu,
    Lu, Lu, Lu, Lu, Lu, Lu, Lu, Lu, Lu, Lu, Lu, Lu, Lu, Lu, Lu, Lu,
    Lu, Sm, Ll, Ll, Ll, Ll, Ll, Ll, Ll, Ll, Ll, Ll, Ll, Ll, Ll, Ll,
    Ll, Ll, Ll, Ll, Ll, Ll, Ll, Ll, Ll, Ll, Ll, Sm, Ll, Ll, Ll, Ll,
    Ll, Ll, Lu, Lu, Lu, Lu, Lu, Lu, Lu, Lu, Lu, Lu, Lu, Lu, Lu, Lu,
    Lu, Lu, Lu, Lu, Lu, Lu, Lu, Lu, Lu, Lu, Lu, Sm, Ll, Ll, Ll, Ll,
];

#[verifier::opaque]
pub const CAT_PAGE_101: [GeneralCategory; 256] = [
    Ll, Ll, Ll, Ll, Ll, Ll, Ll, Ll, Ll, Ll, Ll, Ll, Ll, Ll, Ll, Ll,
    Ll, Ll, Ll, Ll, Ll, Sm, Ll, Ll, Ll, Ll, Ll, Ll, Lu, Lu, Lu, Lu,
    Lu, Lu, Lu, Lu, Lu, Lu, Lu, Lu, Lu, Lu, Lu, Lu, Lu, Lu, Lu, Lu,
    Lu, Lu, Lu, Lu, Lu, Sm, Ll, Ll, Ll, Ll, Ll, Ll, Ll, Ll, Ll, Ll,
    Ll, Ll, Ll, Ll, Ll, Ll, Ll, Ll, Ll, Ll, Ll, Ll, Ll, Ll, Ll, Sm,
    Ll, Ll, Ll, Ll, Ll, Ll, Lu, Lu, Lu, Lu, Lu, Lu, Lu, Lu, Lu, Lu,
    Lu, Lu, Lu, Lu, Lu, Lu, Lu, Lu, Lu, Lu, Lu, Lu, Lu, Lu, Lu, Sm,
    Ll, Ll, Ll, Ll, Ll, Ll, Ll, Ll, Ll, Ll, Ll, Ll, Ll, Ll, Ll, Ll,
    Ll, Ll, Ll, Ll, Ll, Ll, Ll, Ll, Ll, Sm, Ll, Ll, Ll, Ll, Ll, Ll,
    Lu, Lu, Lu, Lu, Lu, Lu, Lu, Lu, Lu, Lu, Lu, Lu, Lu, Lu, Lu, Lu,
    Lu, Lu, Lu, Lu, Lu, Lu, Lu, Lu, Lu, Sm, Ll, Ll, Ll, Ll, Ll, Ll,
    Ll, Ll, Ll, Ll, Ll, Ll, Ll, Ll, Ll, Ll, Ll, Ll, Ll, Ll, Ll, Ll,
    Ll, Ll, Ll, Sm, Ll, Ll, Ll, Ll, Ll, Ll, Lu, Ll, Cn, Cn, Nd, Nd,
    Nd, Nd, Nd, Nd, Nd, Nd, Nd, Nd, Nd, Nd, Nd, Nd, Nd, Nd, Nd, Nd,
    Nd, Nd, Nd, Nd, Nd, Nd, Nd, Nd, Nd, Nd, Nd, Nd, Nd, Nd, Nd, Nd,
    Nd, Nd, Nd, Nd, Nd, Nd, Nd, Nd, Nd, Nd, Nd, Nd, Nd, Nd, Nd, Nd,
];

#[verifier::opaque]
pub const CAT_PAGE_102: [GeneralCategory; 256] = [
    Mn, Mn, Mn, Mn, Mn, Mn, Mn, Mn, Mn, Mn, Mn, Mn, Mn, Mn, Mn, Mn,
    Mn, Mn, Mn, Mn, Mn, Mn, Mn, Mn, Mn, Mn, Mn, Mn, Mn, Mn, Mn, Mn,
    Mn, Mn, Mn, Mn, Mn, Mn, Mn, Mn, Mn, Mn, Mn, Mn, Mn, Mn, Mn, Mn,
    Mn, Mn, Mn, Mn, Mn, Mn, Mn, So, So, So, So, Mn, Mn, Mn, Mn, Mn,
    Mn, Mn, Mn, Mn, Mn, Mn, Mn, Mn, Mn, Mn, Mn, Mn, Mn, Mn, Mn, Mn,
    Mn, Mn, Mn, Mn, Mn, Mn, Mn, Mn, Mn, Mn, Mn, Mn, Mn, Mn, Mn, Mn,
    Mn, Mn, Mn, Mn, Mn, Mn, Mn, Mn, Mn, Mn, Mn, Mn, Mn, So, So, So,
    So, So, So, So, So, Mn, So, So, So, So, So, So, So, So, So, So,
    So, So, So, So, Mn, So, So, Po, Po, Po, Po, Po, Cn, Cn, Cn, Cn,
    Cn, Cn, Cn, Cn, Cn, Cn, Cn, Cn, Cn, Cn, Cn, Mn, Mn, Mn, Mn, Mn,
    Cn, Mn, Mn, Mn, Mn, Mn, Mn, Mn, Mn, Mn, Mn, Mn, Mn, Mn, Mn, Mn,
    Cn, Cn, Cn, Cn, Cn, Cn, Cn, Cn, Cn, Cn, Cn, Cn, Cn, Cn, Cn, Cn,
    Cn, Cn, Cn, Cn, Cn, Cn, Cn, Cn, Cn, Cn, Cn, Cn, Cn, Cn, Cn, Cn,
    Cn, Cn, Cn, Cn, Cn, Cn, Cn, Cn, Cn, Cn, Cn, Cn, Cn, Cn, Cn, Cn,
    Cn, Cn, Cn, Cn, Cn, Cn, Cn, Cn, Cn, Cn, Cn, Cn, Cn, Cn, Cn, Cn,
    Cn, Cn, Cn, Cn, Cn, Cn, Cn, Cn, Cn, Cn, Cn, Cn, Cn, Cn, Cn, Cn,
];

#[verifier::opaque]
pub const CAT_PAGE_103: [GeneralCategory; 256] = [
    Ll, Ll, Ll, Ll, Ll, Ll, Ll, Ll, Ll, Ll, Lo, Ll, Ll, Ll, Ll, Ll,
    Ll, Ll, Ll, Ll, Ll, Ll, Ll, Ll, Ll, Ll, Ll, Ll, Ll, Ll, Ll, Cn,
    Cn, Cn, Cn, Cn, Cn, Cn, Cn, Cn, Cn, Cn, Cn, Cn, Cn, Cn, Cn, Cn,
    Cn, Cn, Cn, Cn, Cn, Cn, Cn, Cn, Cn, Cn, Cn, Cn, Cn, Cn, Cn, Cn,
    Cn, Cn, Cn, Cn, Cn, Cn, Cn, Cn, Cn, Cn, Cn, Cn, Cn, Cn, Cn, Cn,
    Cn, Cn, Cn, Cn, Cn, Cn, Cn, Cn, Cn, Cn, Cn, Cn, Cn, Cn, Cn, Cn,
    Cn, Cn, Cn, Cn, Cn, Cn, Cn, Cn, Cn, Cn, Cn, Cn, Cn, Cn, Cn, Cn,
    Cn, Cn, Cn, Cn, Cn, Cn, Cn, Cn, Cn, Cn, Cn, Cn, Cn, Cn, Cn, Cn,
    Cn, Cn, Cn, Cn, Cn, Cn, Cn, Cn, Cn, Cn, Cn, Cn, Cn, Cn, Cn, Cn,
    Cn, Cn, Cn, Cn, Cn, Cn, Cn, Cn, Cn, Cn, Cn, Cn, Cn, Cn, Cn, Cn,
    Cn, Cn, Cn, Cn, Cn, Cn, Cn, Cn, Cn, Cn, Cn, Cn, Cn, Cn, Cn, Cn,
    Cn, Cn, Cn, Cn, Cn, Cn, Cn, Cn, Cn, Cn, Cn, Cn, Cn, Cn, Cn, Cn,
    Cn, Cn, Cn, Cn, Cn, Cn, Cn, Cn, Cn, Cn, Cn, Cn, Cn, Cn, Cn, Cn,
    Cn, Cn, Cn, Cn, Cn, Cn, Cn, Cn, Cn, Cn, Cn, Cn, Cn, Cn, Cn, Cn,
    Cn, Cn, Cn, Cn, Cn, Cn, Cn, Cn, Cn, Cn, Cn, Cn, Cn, Cn, Cn, Cn,
    Cn, Cn, Cn, Cn, Cn, Cn, Cn, Cn, Cn, Cn, Cn, Cn, Cn, Cn, Cn, Cn,
];

#[verifier::opaque]
pub const CAT_PAGE_104: [GeneralCategory; 256] = [
    Lo, Lo, Lo, Lo, Lo, Lo, Lo, Lo, Lo, Lo, Lo, Lo, Lo, Lo, Lo, Lo,
    Lo, Lo, Lo, Lo, Lo, Lo, Lo, Lo, Lo, Lo, Lo, Lo, Lo, Lo, Lo, Lo,
    Lo, Lo, Lo, Lo, Lo, Lo, Lo, Lo, Lo, Lo, Lo, Lo, Lo, Cn, Cn, Cn,
    Mn, Mn, Mn, Mn, Mn, Mn, Mn, Lm, Lm, Lm, Lm, Lm, Lm, Lm, Cn, Cn,
    Nd, Nd, Nd, Nd, Nd, Nd, Nd, Nd, Nd, Nd, Cn, Cn, Cn, Cn, Lo, So,
    Cn, Cn, Cn, Cn, Cn, Cn, Cn, Cn, Cn, Cn, Cn, Cn, Cn, Cn, Cn, Cn,
    Cn, Cn, Cn, Cn, Cn, Cn, Cn, Cn, Cn, Cn, Cn, Cn, Cn, Cn, Cn, Cn,
    Cn, Cn, Cn, Cn, Cn, Cn, Cn, Cn, Cn, Cn, Cn, Cn, Cn, Cn, Cn, Cn,
    Cn, Cn, Cn, Cn, Cn, Cn, Cn, Cn, Cn, Cn, Cn, Cn, Cn, Cn, Cn, Cn,
    Cn, Cn, Cn, Cn, Cn, Cn, Cn, Cn, Cn, Cn, Cn, Cn, Cn, Cn, Cn, Cn,
    Cn, Cn, Cn, Cn, Cn, Cn, Cn, Cn, Cn, Cn, Cn, Cn, Cn, Cn, Cn, Cn,
    Cn, Cn, Cn, Cn, Cn, Cn, Cn, Cn, Cn, Cn, Cn, Cn, Cn, Cn, Cn, Cn,
    Cn, Cn, Cn, Cn, Cn, Cn, Cn, Cn, Cn, Cn, Cn, Cn, Cn, Cn, Cn, Cn,
    Cn, Cn, Cn, Cn, Cn, Cn, Cn, Cn, Cn, Cn, Cn, Cn, Cn, Cn, Cn, Cn,
    Cn, Cn, Cn, Cn, Cn, Cn, Cn, Cn, Cn, Cn, Cn, Cn, Cn, Cn, Cn, Cn,
    Cn, Cn, Cn, Cn, Cn, Cn, Cn, Cn, Cn, Cn, Cn, Cn, Cn, Cn, Cn, Cn,
];

#[verifier::opaque]
pub const CAT_PAGE_105: [GeneralCategory; 256] = [
    Cn, Cn, Cn, Cn, Cn, Cn, Cn, Cn, Cn, Cn, Cn, Cn, Cn, Cn, Cn, Cn,
    Cn, Cn, Cn, Cn, Cn, Cn, Cn, Cn, Cn, Cn, Cn, Cn, Cn, Cn, Cn, Cn,
    Cn, Cn, Cn, Cn, Cn, Cn, Cn, Cn, Cn, Cn, Cn, Cn, Cn, Cn, Cn, Cn,
    Cn, Cn, Cn, Cn, Cn, Cn, Cn, Cn, Cn, Cn, Cn, Cn, Cn, Cn, Cn, Cn,
    Cn, Cn, Cn, Cn, Cn, Cn, Cn, Cn, Cn, Cn, Cn, Cn, Cn, Cn, Cn, Cn,
    Cn, Cn, Cn, Cn, Cn, Cn, Cn, Cn, Cn, Cn, Cn, Cn, Cn, Cn, Cn, Cn,
    Cn, Cn, Cn, Cn, Cn, Cn, Cn, Cn, Cn, Cn, Cn, Cn, Cn, Cn, Cn, Cn,
    Cn, Cn, Cn, Cn, Cn, Cn, Cn, Cn, Cn, Cn, Cn, Cn, Cn, Cn, Cn, Cn,
    Cn, Cn, Cn, Cn, Cn, Cn, Cn, Cn, Cn, Cn, Cn, Cn, Cn, Cn, Cn, Cn,
    Lo, Lo, Lo, Lo, Lo, Lo, Lo, Lo, Lo, Lo, Lo, Lo, Lo, Lo, Lo, Lo,
    Lo, Lo, Lo, Lo, Lo, Lo, Lo, Lo, Lo, Lo, Lo, Lo, Lo, Lo, Mn, Cn,
    Cn, Cn, Cn, Cn, Cn, Cn, Cn, Cn, Cn, Cn, Cn, Cn, Cn, Cn, Cn, Cn,
    Lo, Lo, Lo, Lo, Lo, Lo, Lo, Lo, Lo, Lo, Lo, Lo, Lo, Lo, Lo, Lo,
    Lo, Lo, Lo, Lo, Lo, Lo, Lo, Lo, Lo, Lo, Lo, Lo, Lo, Lo, Lo, Lo,
    Lo, Lo, Lo, Lo, Lo, Lo, Lo, Lo, Lo, Lo, Lo, Lo, Mn, Mn, Mn, Mn,
    Nd, Nd, Nd, Nd, Nd, Nd, Nd, Nd, Nd, Nd, Cn, Cn, Cn, Cn, Cn, Sc,
];

#[verifier::opaque]
pub const CAT_PAGE_106: [GeneralCategory; 256] = [
    Lo, Lo, Lo, Lo, Lo, Lo, Lo, Lo, Lo, Lo, Lo, Lo, Lo, Lo, Lo, Lo,
    Lo, Lo, Lo, Lo, Lo, Lo, Lo, Lo, Lo, Lo, Lo, Lo, Lo, Lo, Lo, Lo,
    Lo, Lo, Lo, Lo, Lo, Lo, Lo, Lo, Lo, Lo, Lo, Lo, Lo, Lo, Lo, Lo,
    Lo, Lo, Lo, Lo, Lo, Lo, Lo, Lo, Lo, Lo, Lo, Lo, Lo, Lo, Lo, Lo,
    Lo, Lo, Lo, Lo, Lo, Lo, Lo, Lo, Lo, Lo, Lo, Lo, Lo, Lo, Lo, Lo,
    Lo, Lo, Lo, Lo, Lo, Lo, Lo, Lo, Lo, Lo, Lo, Lo, Lo, Lo, Lo, Lo,
    Lo, Lo, Lo, Lo, Lo, Lo, Lo, Lo, Lo, Lo, Lo, Lo, Lo, Lo, Lo, Lo,
    Lo, Lo, Lo, Lo, Lo, Lo, Lo, Lo, Lo, Lo, Lo, Lo, Lo, Lo, Lo, Lo,
    Lo, Lo, Lo, Lo, Lo, Lo, Lo, Lo, Lo, Lo, Lo, Lo, Lo, Lo, Lo, Lo,
    Lo, Lo, Lo, Lo, Lo, Lo, Lo, Lo, Lo, Lo, Lo, Lo, Lo, Lo, Lo, Lo,
    Lo, Lo, Lo, Lo, Lo, Lo, Lo, Lo, Lo, Lo, Lo, Lo, Lo, Lo, Lo, Lo,
    Lo, Lo, Lo, Lo, Lo, Lo, Lo, Lo, Lo, Lo, Lo, Lo, Lo, Lo, Lo, Lo,
    Lo, Lo, Lo, Lo, Lo, Cn, Cn, No, No, No, No, No, No, No, No, No,
    Mn, Mn, Mn, Mn, Mn, Mn, Mn, Cn, Cn, Cn, Cn, Cn, Cn, Cn, Cn, Cn,
    Cn, Cn, Cn, Cn, Cn, Cn, Cn, Cn, Cn, Cn, Cn, Cn, Cn, Cn, Cn, Cn,
    Cn, Cn, Cn, Cn, Cn, Cn, Cn, Cn, Cn, Cn, Cn, Cn, Cn, Cn, Cn, Cn,
];

#[verifier::opaque]
pub const CAT_PAGE_107: [GeneralCategory; 256] = [
    Lu, Lu, Lu, Lu, Lu, Lu, Lu, Lu, Lu, Lu, Lu, Lu, Lu, Lu, Lu, Lu,
    Lu, Lu, Lu, Lu, Lu, Lu, Lu, Lu, Lu, Lu, Lu, Lu, Lu, Lu, Lu, Lu,
    Lu, Lu, Ll, Ll, Ll, Ll, Ll, Ll, Ll, Ll, Ll, Ll, Ll, Ll, Ll, Ll,
    Ll, Ll, Ll, Ll, Ll, Ll, Ll, Ll, Ll, Ll, Ll, Ll, Ll, Ll, Ll, Ll,
    Ll, Ll, Ll, Ll, Mn, Mn, Mn, Mn, Mn, Mn, Mn, Lm, Cn, Cn, Cn, Cn,
    Nd, Nd, Nd, Nd, Nd, Nd, Nd, Nd, Nd, Nd, Cn, Cn, Cn, Cn, Po, Po,
    Cn, Cn, Cn, Cn, Cn, Cn, Cn, Cn, Cn, Cn, Cn, Cn, Cn, Cn, Cn, Cn,
    Cn, Cn, Cn, Cn, Cn, Cn, Cn, Cn, Cn, Cn, Cn, Cn, Cn, Cn, Cn, Cn,
    Cn, Cn, Cn, Cn, Cn, Cn, Cn, Cn, Cn, Cn, Cn, Cn, Cn, Cn, Cn, Cn,
    Cn, Cn, Cn, Cn, Cn, Cn, Cn, Cn, Cn, Cn, Cn, Cn, Cn, Cn, Cn, Cn,
    Cn, Cn, Cn, Cn, Cn, Cn, Cn, Cn, Cn, Cn, Cn, Cn, Cn, Cn, Cn, Cn,
    Cn, Cn, Cn, Cn, Cn, Cn, Cn, Cn, Cn, Cn, Cn, Cn, Cn, Cn, Cn, Cn,
    Cn, Cn, Cn, Cn, Cn, Cn, Cn, Cn, Cn, Cn, Cn, Cn, Cn, Cn, Cn, Cn,
    Cn, Cn, Cn, Cn, Cn, Cn, Cn, Cn, Cn, Cn, Cn, Cn, Cn, Cn, Cn, Cn,
    Cn, Cn, Cn, Cn, Cn, Cn, Cn, Cn, Cn, Cn, Cn, Cn, Cn, Cn, Cn, Cn,
    Cn, Cn, Cn, Cn, Cn, Cn, Cn, Cn, Cn, Cn, Cn, Cn, Cn, Cn, Cn, Cn,
];

#[verifier::opaque]
pub const CAT_PAGE_108: [GeneralCategory; 256] = [
    Cn, Cn, Cn, Cn, Cn, Cn, Cn, Cn, Cn, Cn, Cn, Cn, Cn, Cn, Cn, Cn,
    Cn, Cn, Cn, Cn, Cn, Cn, Cn, Cn, Cn, Cn, Cn, Cn, Cn, Cn, Cn, Cn,
    Cn, Cn, Cn, Cn, Cn, Cn, Cn, Cn, Cn, Cn, Cn, Cn, Cn, Cn, Cn, Cn,
    Cn, Cn, Cn, Cn, Cn, Cn, Cn, Cn, Cn, Cn, Cn, Cn, Cn, Cn, Cn, Cn,
    Cn, Cn, Cn, Cn, Cn, Cn, Cn, Cn, Cn, Cn, Cn, Cn, Cn, Cn, Cn, Cn,
    Cn, Cn, Cn, Cn, Cn, Cn, Cn, Cn, Cn, Cn, Cn, Cn, Cn, Cn, Cn, Cn,
    Cn, Cn, Cn, Cn, Cn, Cn, Cn, Cn, Cn, Cn, Cn, Cn, Cn, Cn, Cn, Cn,
    Cn, No, No, No, No, No, No, No, No, No, No, No, No, No, No, No,
    No, No, No, No, No, No, No, No, No, No, No, No, No, No, No, No,
    No, No, No, No, No, No, No, No, No, No, No, No, No, No, No, No,
    No, No, No, No, No, No, No, No, No, No, No, No, So, No, No, No,
    Sc, No, No, No, No, Cn, Cn, Cn, Cn, Cn, Cn, Cn, Cn, Cn, Cn, Cn,
    Cn, Cn, Cn, Cn, Cn, Cn, Cn, Cn, Cn, Cn, Cn, Cn, Cn, Cn, Cn, Cn,
    Cn, Cn, Cn, Cn, Cn, Cn, Cn, Cn, Cn, Cn, Cn, Cn, Cn, Cn, Cn, Cn,
    Cn, Cn, Cn, Cn, Cn, Cn, Cn, Cn, Cn, Cn, Cn, Cn, Cn, Cn, Cn, Cn,
    Cn, Cn, Cn, Cn, Cn, Cn, Cn, Cn, Cn, Cn, Cn, Cn, Cn, Cn, Cn, Cn,
];

#[verifier::opaque]
pub const CAT_PAGE_109: [GeneralCategory; 256] = [
    Cn, No, No, No, No, No, No, No, No, No, No, No, No, No, No, No,
    No, No, No, No, No, No, No, No, No, No, No, No, No, No, No, No,
    No, No, No, No, No, No, No, No, No, No, No, No, No, No, So, No,
    No, No, No, No, No, No, No, No, No, No, No, No, No, No, Cn, Cn,
    Cn, Cn, Cn, Cn, Cn, Cn, Cn, Cn, Cn, Cn, Cn, Cn, Cn, Cn, Cn, Cn,
    Cn, Cn, Cn, Cn, Cn, Cn, Cn, Cn, Cn, Cn, Cn, Cn, Cn, Cn, Cn, Cn,
    Cn, Cn, Cn, Cn, Cn, Cn, Cn, Cn, Cn, Cn, Cn, Cn, Cn, Cn, Cn, Cn,
    Cn, Cn, Cn, Cn, Cn, Cn, Cn, Cn, Cn, Cn, Cn, Cn, Cn, Cn, Cn, Cn,
    Cn, Cn, Cn, Cn, Cn, Cn, Cn, Cn, Cn, Cn, Cn, Cn, Cn, Cn, Cn, Cn,
    Cn, Cn, Cn, Cn, Cn, Cn, Cn, Cn, Cn, Cn, Cn, Cn, Cn, Cn, Cn, Cn,
    Cn, Cn, Cn, Cn, Cn, Cn, Cn, Cn, Cn, Cn, Cn, Cn, Cn, Cn, Cn, Cn,
    Cn, Cn, Cn, Cn, Cn, Cn, Cn, Cn, Cn, Cn, Cn, Cn, Cn, Cn, Cn, Cn,
    Cn, Cn, Cn, Cn, Cn, Cn, Cn, Cn, Cn, Cn, Cn, Cn, Cn, Cn, Cn, Cn,
    Cn, Cn, Cn, Cn, Cn, Cn, Cn, Cn, Cn, Cn, Cn, Cn, Cn, Cn, Cn, Cn,
    Cn, Cn, Cn, Cn, Cn, Cn, Cn, Cn, Cn, Cn, Cn, Cn, Cn, Cn, Cn, Cn,
    Cn, Cn, Cn, Cn, Cn, Cn, Cn, Cn, Cn, Cn, Cn, Cn, Cn, Cn, Cn, Cn,
];

#[verifier::opaque]
pub const CAT_PAGE_110: [GeneralCategory; 256] = [
    Lo, Lo, Lo, Lo, Cn, Lo, Lo, Lo, Lo, Lo, Lo, Lo, Lo, Lo, Lo, Lo,
    Lo, Lo, Lo, Lo, Lo, Lo, Lo, Lo, Lo, Lo, Lo, Lo, Lo, Lo, Lo, Lo,
    Cn, Lo, Lo, Cn, Lo, Cn, Cn, Lo, Cn, Lo, Lo, Lo, Lo, Lo, Lo, Lo,
    Lo, Lo, Lo, Cn, Lo, Lo, Lo, Lo, Cn, Lo, Cn, Lo, Cn, Cn, Cn, Cn,
    Cn, Cn, Lo, Cn, Cn, Cn, Cn, Lo, Cn, Lo, Cn, Lo, Cn, Lo, Lo, Lo,
    Cn, Lo, Lo, Cn, Lo, Cn, Cn, Lo, Cn, Lo, Cn, Lo, Cn, Lo, Cn, Lo,
    Cn, Lo, Lo, Cn, Lo, Cn, Cn, Lo, Lo, Lo, Lo, Cn, Lo, Lo, Lo, Lo,
    Lo, Lo, Lo, Cn, Lo, Lo, Lo, Lo, Cn, Lo, Lo, Lo, Lo, Cn, Lo, Cn,
    Lo, Lo, Lo, Lo, Lo, Lo, Lo, Lo, Lo, Lo, Cn, Lo, Lo, Lo, Lo, Lo,
    Lo, Lo, Lo, Lo, Lo, Lo, Lo, Lo, Lo, Lo, Lo, Lo, Cn, Cn, Cn, Cn,
    Cn, Lo, Lo, Lo, Cn, Lo, Lo, Lo, Lo, Lo, Cn, Lo, Lo, Lo, Lo, Lo,
    Lo, Lo, Lo, Lo, Lo, Lo, Lo, Lo, Lo, Lo, Lo, Lo, Cn, Cn, Cn, Cn,
    Cn, Cn, Cn, Cn, Cn, Cn, Cn, Cn, Cn, Cn, Cn, Cn, Cn, Cn, Cn, Cn,
    Cn, Cn, Cn, Cn, Cn, Cn, Cn, Cn, Cn, Cn, Cn, Cn, Cn, Cn, Cn, Cn,
    Cn, Cn, Cn, Cn, Cn, Cn, Cn, Cn, Cn, Cn, Cn, Cn, Cn, Cn, Cn, Cn,
    Sm, Sm, Cn, Cn, Cn, Cn, Cn, Cn, Cn, Cn, Cn, Cn, Cn, Cn, Cn, Cn,
];

#[verifier::opaque]
pub const CAT_PAGE_111: [GeneralCategory; 256] = [
    No, No, No, No, No, No, No, No, No, No, No, No, No, So, So, So,
    So, So, So, So, So, So, So, So, So, So, So, So, So, So, So, So,
    So, So, So, So, So, So, So, So, So, So, So, So, So, So, So, So,
    So, So, So, So, So, So, So, So, So, So, So, So, So, So, So, So,
    So, So, So, So, So, So, So, So, So, So, So, So, So, So, So, So,
    So, So, So, So, So, So, So, So, So, So, So, So, So, So, So, So,
    So, So, So, So, So, So, So, So, So, So, So, So, So, So, So, So,
    So, So, So, So, So, So, So, So, So, So, So, So, So, So, So, So,
    So, So, So, So, So, So, So, So, So, So, So, So, So, So, So, So,
    So, So, So, So, So, So, So, So, So, So, So, So, So, So, So, So,
    So, So, So, So, So, So, So, So, So, So, So, So, So, So, Cn, Cn,
    Cn, Cn, Cn, Cn, Cn, Cn, Cn, Cn, Cn, Cn, Cn, Cn, Cn, Cn, Cn, Cn,
    Cn, Cn, Cn, Cn, Cn, Cn, Cn, Cn, Cn, Cn, Cn, Cn, Cn, Cn, Cn, Cn,
    Cn, Cn, Cn, Cn, Cn, Cn, Cn, Cn, Cn, Cn, Cn, Cn, Cn, Cn, Cn, Cn,
    Cn, Cn, Cn, Cn, Cn, Cn, So, So, So, So, So, So, So, So, So, So,
    So, So, So, So, So, So, So, So, So, So, So, So, So, So, So, So,
];

#[verifier::opaque]
pub const CAT_PAGE_112: [GeneralCategory; 256] = [
    So, So, So, So, So, So, So, So, So, So, So, So, So, So, So, So,
    So, So, So, So, So, So, So, So, So, So, So, So, So, So, So, So,
    So, So, So, So, So, So, So, So, So, So, So, So, So, So, So, So,
    So, So, So, So, So, So, So, So, So, So, So, So, So, So, So, So,
    So, So, So, So, So, So, So, So, So, So, So, So, So, So, So, So,
    So, So, So, So, So, So, So, So, So, So, So, So, So, So, So, So,
    So, So, So, So, So, So, So, So, So, So, So, So, So, So, So, So,
    So, So, So, So, So, So, So, So, So, So, So, So, So, So, So, So,
    So, So, So, So, So, So, So, So, So, So, So, So, So, So, So, So,
    So, So, So, So, So, So, So, So, So, So, So, So, So, So, So, So,
    So, So, So, So, So, So, So, So, So, So, So, So, So, So, So, So,
    So, So, So, So, So, So, So, So, So, So, So, So, So, So, So, So,
    So, So, So, So, So, So, So, So, So, So, So, So, So, So, So, So,
    So, So, So, So, So, So, So, So, So, So, So, So, So, So, So, So,
    So, So, So, So, So, So, So, So, So, So, So, So, So, So, So, So,
    So, So, So, So, So, So, So, So, So, So, So, Sk, Sk, Sk, Sk, Sk,
];

#[verifier::opaque]
pub const CAT_PAGE_113: [GeneralCategory; 256] = [
    So, So, So, So, So, So, So, So, So, So, So, So, So, So, So, So,
    So, So, So, So, So, So, So, So, So, So, So, So, So, So, So, So,
    So, So, So, So, So, So, So, So, So, So, So, So, So, So, So, So,
    So, So, So, So, So, So, So, So, So, So, So, So, So, So, So, So,
    So, So, So, So, So, So, So, So, So, So, So, So, So, So, So, So,
    So, So, So, So, So, So, So, So, So, So, So, So, So, So, So, So,
    So, So, So, So, So, So, So, So, So, So, So, So, So, So, So, So,
    So, So, So, So, So, So, So, So, So, So, So, So, So, So, So, So,
    So, So, So, So, So, So, So, So, So, So, So, So, So, So, So, So,
    So, So, So, Cn, So, So, So, So, So, So, So, So, So, So, So, So,
    So, So, So, So, So, So, So, So, So, So, So, So, So, So, So, So,
    So, So, So, So, So, So, So, So, So, So, So, So, So, So, So, So,
    So, So, So, So, So, So, So, So, So, So, So, Cn, Cn, Cn, Cn, Cn,
    Cn, Cn, Cn, Cn, Cn, Cn, Cn, Cn, Cn, Cn, Cn, Cn, Cn, Cn, Cn, Cn,
    Cn, Cn, Cn, Cn, Cn, Cn, Cn, Cn, Cn, Cn, Cn, Cn, Cn, Cn, Cn, Cn,
    Nd, Nd, Nd, Nd, Nd, Nd, Nd, Nd, Nd, Nd, Cn, Cn, Cn, Cn, Cn, Cn,
];

} // verus!
