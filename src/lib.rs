//! Reads EXIF metadata from an image or TIFF container and turns the tags of
//! interest into a typed attribute tree: one container for the primary image
//! and one for its thumbnail.

pub mod attributes;
pub mod classify;
pub mod extract;
pub mod field;
pub mod laws;
pub mod outside;

pub use attributes::{AttributeValue, Attributes, ExifAttributes};
pub use extract::{Exif, Results};
pub use field::{Context, RawField, RawValue, Section, Tag};
