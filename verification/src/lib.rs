//! Rectangles on a pixel canvas: the intersection predicate, a software
//! rasterizer over a flat frame buffer, and the editing session that keeps
//! the set of data rectangles hit by the search rectangle.

use vstd::prelude::*;

pub mod rect;
pub mod color;
pub mod digit;
pub mod painter;
pub mod case;
pub mod editor;

pub use rect::Rect;
pub use case::TestCase;

verus! {

/// A signed pixel coordinate.
pub type Coord = i64;

} // verus!
