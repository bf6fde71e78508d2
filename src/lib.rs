//! Assembly of OOXML presentation packages (`.pptx`) from a slide outline.
//!
//! - [`model`]: the outline (a title and slides holding a paragraph or
//!   bullets) and the parts a package is made of.
//! - [`text`]: escaping of reserved characters and decimal numerals.
//! - [`package`]: every XML part of a package as a function of the outline,
//!   with one ID allocation shared by all parts that name a slide.
//! - [`archive`]: packing parts into a ZIP archive of stored entries.
//! - [`presentation`]: from an outline to the bytes of the file, and its name.
//! - [`collector`]: the decisions of gathering an outline line by line.
//! - [`laws`]: properties of every package built.
use vstd::prelude::*;

pub mod archive;
pub mod collector;
pub mod laws;
pub mod model;
pub mod package;
pub mod presentation;
pub mod text;

verus! {

} // verus!
