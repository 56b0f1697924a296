//! A verified model of a path handle and its iteration protocol.
//!
//! A path is a finite stream of drawing commands (move, line, quadratic
//! curve, cubic curve, close subpath). The foreign graphics runtime that
//! owns real path objects is reached only through the unverified shell
//! around this crate; here the path's command stream, the tag-determined
//! point counts, the rectangle construction, and the reference-counting
//! lifetime discipline are modelled as plain verified data and proved
//! against their contracts.

pub mod geometry;
pub mod path;
pub mod refcount;
