//! Unicode general categories and extended grapheme clusters, from constant-time
//! paged property tables.
//!
//! - `categories`: the General_Category predicates on `char`.
//! - `grapheme_clusters`: the cluster state machine, the cluster iterator and cursor, and
//!   the spec model of segmentation.
//! - `cluster_laws`: what holds of every segmentation.
//! - `category_data`, `grapheme_data`: the two property tables (Unicode 14.0.0).
//! - `table_builder`, `ucd`: building those tables from the Unicode Character Database.

pub mod categories;
pub mod category_data;
pub mod cluster_laws;
pub mod grapheme_clusters;
pub mod grapheme_data;
pub mod table_builder;
pub mod ucd;
