//! What the detector is asked, and what becomes of its answer: detections
//! are mapped back from the reduced frame to the original frame, where a
//! box is drawn around each.

use vstd::prelude::*;
use crate::geometry::{Rect, Size};
use crate::scale::{lemma_truncated_inverse_error, ScaleFactor};

verus! {

/// The growth of the search window between two detection passes, as the
/// exact fraction `numerator / denominator`.
#[derive(Clone, Copy, Debug, PartialEq, Eq, Structural)]
pub struct ScaleStep {
    pub numerator: u32,
    pub denominator: u32,
}

/// The parameters of a detector call.
#[derive(Clone, Copy, Debug, PartialEq, Eq, Structural)]
pub struct DetectionParams {
    /// Growth of the search window from one pass to the next.
    pub scale_step: ScaleStep,
    /// Votes of neighbouring candidates needed to accept one.
    pub min_neighbors: i32,
    /// Detector flags.
    pub flags: i32,
    /// Smallest face looked for, in pixels of the reduced frame.
    pub min_size: Size,
    /// Largest face looked for, in pixels of the reduced frame; without
    /// one, faces of any size are looked for.
    pub max_size: Option<Size>,
}

impl DetectionParams {
    /// The parameters the tool runs with: a step of 1.1, two votes, no
    /// flags, faces of at least 30 by 30 pixels and of any size above.
    pub open spec fn standard_params() -> DetectionParams {
        DetectionParams {
            scale_step: ScaleStep { numerator: 11, denominator: 10 },
            min_neighbors: 2,
            flags: 0,
            min_size: Size { width: 30, height: 30 },
            max_size: None,
        }
    }

    /// The parameters the tool runs with.
    pub fn standard() -> (params: DetectionParams)
        ensures
            params == DetectionParams::standard_params(),
    {
        DetectionParams {
            scale_step: ScaleStep { numerator: 11, denominator: 10 },
            min_neighbors: 2,
            flags: 0,
            min_size: Size { width: 30, height: 30 },
            max_size: None,
        }
    }
}

/// A colour by its three channels.
#[derive(Clone, Copy, Debug, PartialEq, Eq, Structural)]
pub struct Color {
    pub blue: u8,
    pub green: u8,
    pub red: u8,
}

/// How the box around a detection is drawn.
#[derive(Clone, Copy, Debug, PartialEq, Eq, Structural)]
pub struct MarkerStyle {
    /// Colour of the outline.
    pub color: Color,
    /// Width of the outline in pixels.
    pub thickness: i32,
    /// Code of the line algorithm; 8 draws a solid eight-connected line.
    pub line_type: i32,
    /// Number of fractional bits in the coordinates.
    pub shift: i32,
}

impl MarkerStyle {
    /// The outline the tool draws: solid, pure red, two pixels wide.
    pub open spec fn standard_style() -> MarkerStyle {
        MarkerStyle {
            color: Color { blue: 0, green: 0, red: 255 },
            thickness: 2,
            line_type: 8,
            shift: 0,
        }
    }

    /// The outline the tool draws.
    pub fn standard() -> (style: MarkerStyle)
        ensures
            style == MarkerStyle::standard_style(),
    {
        MarkerStyle {
            color: Color { blue: 0, green: 0, red: 255 },
            thickness: 2,
            line_type: 8,
            shift: 0,
        }
    }
}

/// `value` is within the range of `i32`.
pub open spec fn within_i32(value: int) -> bool {
    i32::MIN <= value <= i32::MAX
}

impl Rect {
    /// Each coordinate and each extent, multiplied by `by`, is within the
    /// range of `i32`.
    pub open spec fn scales_within_i32(self, by: int) -> bool {
        &&& within_i32(self.x * by)
        &&& within_i32(self.y * by)
        &&& within_i32(self.width * by)
        &&& within_i32(self.height * by)
    }

    /// The rectangle with each coordinate and each extent multiplied by
    /// `by`.
    pub open spec fn scaled(self, by: int) -> Rect
        recommends
            self.scales_within_i32(by),
    {
        Rect {
            x: (self.x * by) as i32,
            y: (self.y * by) as i32,
            width: (self.width * by) as i32,
            height: (self.height * by) as i32,
        }
    }
}

/// Every rectangle of `faces` can be multiplied by `by` within `i32`.
pub open spec fn all_scale_within_i32(faces: Seq<Rect>, by: int) -> bool {
    forall|i: int| 0 <= i < faces.len() ==> (#[trigger] faces[i]).scales_within_i32(by)
}

/// The rectangles of `faces`, each multiplied by `by`, in the same order.
pub open spec fn all_scaled(faces: Seq<Rect>, by: int) -> Seq<Rect> {
    Seq::new(faces.len(), |i: int| faces[i].scaled(by))
}

/// Maps a detection from the reduced frame to the original frame: every
/// coordinate and extent is multiplied by the truncated inverse of
/// `factor`. There is no such rectangle when a product leaves the range of
/// `i32`.
pub fn remap_to_original(face: Rect, factor: &ScaleFactor) -> (r: Option<Rect>)
    ensures
        r is Some <==> face.scales_within_i32(factor.inverse()),
        r matches Some(mapped) ==> mapped == face.scaled(factor.inverse()),
{
    let inv: i32 = factor.inverse_multiplier();
    let x: i32 = match face.x.checked_mul(inv) {
        Some(value) => value,
        None => {
            return None;
        },
    };
    let y: i32 = match face.y.checked_mul(inv) {
        Some(value) => value,
        None => {
            return None;
        },
    };
    let width: i32 = match face.width.checked_mul(inv) {
        Some(value) => value,
        None => {
            return None;
        },
    };
    let height: i32 = match face.height.checked_mul(inv) {
        Some(value) => value,
        None => {
            return None;
        },
    };
    Some(Rect { x, y, width, height })
}

/// Maps all detections of one frame to the original frame, keeping their
/// order. There is no result when one of them cannot be mapped within
/// `i32`.
pub fn remap_all(faces: &Vec<Rect>, factor: &ScaleFactor) -> (r: Option<Vec<Rect>>)
    ensures
        r is Some <==> all_scale_within_i32(faces@, factor.inverse()),
        r matches Some(mapped) ==> mapped@ == all_scaled(faces@, factor.inverse()),
{
    let ghost inv = factor.inverse();
    let mut mapped: Vec<Rect> = Vec::new();
    let mut i: usize = 0;
    while i < faces.len()
        invariant
            i <= faces.len(),
            inv == factor.inverse(),
            mapped@.len() == i,
            forall|k: int| 0 <= k < i ==> (#[trigger] faces@[k]).scales_within_i32(inv),
            forall|k: int| 0 <= k < i ==> #[trigger] mapped@[k] == faces@[k].scaled(inv),
        decreases faces.len() - i,
    {
        match remap_to_original(faces[i], factor) {
            Some(rect) => {
                mapped.push(rect);
            },
            None => {
                assert(!faces@[i as int].scales_within_i32(inv));
                return None;
            },
        }
        i = i + 1;
    }
    assert(mapped@ =~= all_scaled(faces@, inv));
    Some(mapped)
}

/// What mapping a detection back with the truncated inverse loses against
/// scaling it by the exact reciprocal `den / num` of the factor: for each
/// coordinate and extent `c`, exactly `c * (den mod num) / num`.
///
/// So the mapped rectangle is the exactly scaled one when the reciprocal is
/// a whole number, and otherwise each of its positive coordinates and
/// extents is too small, by less than what it was in the reduced frame.
pub proof fn lemma_remapped_rect_error(f: ScaleFactor, face: Rect)
    requires
        f.wf(),
        face.scales_within_i32(f.inverse()),
    ensures
        ({
            let mapped = face.scaled(f.inverse());
            let lost = f.den() % f.num();
            &&& 0 <= lost < f.num()
            &&& face.x * f.den() - mapped.x * f.num() == face.x * lost
            &&& face.y * f.den() - mapped.y * f.num() == face.y * lost
            &&& face.width * f.den() - mapped.width * f.num() == face.width * lost
            &&& face.height * f.den() - mapped.height * f.num() == face.height * lost
            &&& face.x > 0 ==> mapped.x * f.num() <= face.x * f.den() < (mapped.x + face.x)
                * f.num()
            &&& face.y > 0 ==> mapped.y * f.num() <= face.y * f.den() < (mapped.y + face.y)
                * f.num()
            &&& face.width > 0 ==> mapped.width * f.num() <= face.width * f.den() < (mapped.width
                + face.width) * f.num()
            &&& face.height > 0 ==> mapped.height * f.num() <= face.height * f.den() < (
            mapped.height + face.height) * f.num()
        }),
{
    lemma_truncated_inverse_error(f, face.x as int);
    lemma_truncated_inverse_error(f, face.y as int);
    lemma_truncated_inverse_error(f, face.width as int);
    lemma_truncated_inverse_error(f, face.height as int);
}

} // verus!
