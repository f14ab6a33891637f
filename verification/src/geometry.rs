//! Plain integer geometry shared by every stage of the pipeline.

use vstd::prelude::*;

verus! {

/// An axis-aligned rectangle in pixel coordinates.
///
/// The same shape is used in both coordinate spaces; which space a value
/// lives in is decided by where it came from.
#[derive(Clone, Copy, Debug, PartialEq, Eq, Structural)]
pub struct Rect {
    pub x: i32,
    pub y: i32,
    pub width: i32,
    pub height: i32,
}

/// The extent of a frame in pixels.
#[derive(Clone, Copy, Debug, PartialEq, Eq, Structural)]
pub struct Size {
    pub width: u32,
    pub height: u32,
}

} // verus!
