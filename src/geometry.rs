//! Rectangles in canvas pixels and the affine map that places the unit quad
//! on one of them in clip space.
use vstd::prelude::*;

verus! {

/// A rectangle in canvas pixels. Its edges may cross (an inset rectangle
/// can turn inside out); nothing here asks them not to.
#[derive(Clone, Copy, Debug, PartialEq, Eq, Structural)]
pub struct Rect {
    pub bottom: i64,
    pub top: i64,
    pub left: i64,
    pub right: i64,
}

impl Rect {
    /// The rectangle moved inwards by `margin` on each of its four edges.
    pub fn inset(self, margin: u32) -> (r: Rect)
        requires
            i64::MIN + u32::MAX <= self.bottom <= i64::MAX - u32::MAX,
            i64::MIN + u32::MAX <= self.top <= i64::MAX - u32::MAX,
            i64::MIN + u32::MAX <= self.left <= i64::MAX - u32::MAX,
            i64::MIN + u32::MAX <= self.right <= i64::MAX - u32::MAX,
        ensures
            r.bottom == self.bottom + margin,
            r.top == self.top - margin,
            r.left == self.left + margin,
            r.right == self.right - margin,
    {
        let m = margin as i64;
        Rect {
            bottom: self.bottom + m,
            top: self.top - m,
            left: self.left + m,
            right: self.right - m,
        }
    }
}

/// The clip-space coordinate of pixel `x` on an axis of `size` pixels,
/// multiplied by `size`: clip space runs from -1 to 1 over the canvas.
pub open spec fn clip_numerator(x: int, size: int) -> int {
    2 * x - size
}

/// An affine map from the unit square to clip space, with each axis kept as
/// exact fractions over the canvas size on that axis: a point `u` of the
/// unit square maps to `(scale_x * u + translate_x) / denom_x` (and so on
/// for `y`).
#[derive(Clone, Copy, Debug, PartialEq, Eq, Structural)]
pub struct ClipTransform {
    pub scale_x: i128,
    pub translate_x: i128,
    pub denom_x: u32,
    pub scale_y: i128,
    pub translate_y: i128,
    pub denom_y: u32,
}

/// The map that sends the unit square's corner `(0, 0)` to the rectangle's
/// bottom-left corner and `(1, 1)` to its top-right corner, on a canvas of
/// `canvas_height` by `canvas_width` pixels.
pub fn clip_transform(rect: Rect, canvas_height: u32, canvas_width: u32) -> (r: ClipTransform)
    ensures
        r.denom_x == canvas_width,
        r.denom_y == canvas_height,
        r.scale_x == 2 * (rect.right - rect.left),
        r.scale_y == 2 * (rect.top - rect.bottom),
        r.translate_x == clip_numerator(rect.left as int, canvas_width as int),
        r.translate_y == clip_numerator(rect.bottom as int, canvas_height as int),
        r.scale_x + r.translate_x == clip_numerator(rect.right as int, canvas_width as int),
        r.scale_y + r.translate_y == clip_numerator(rect.top as int, canvas_height as int),
{
    let left = rect.left as i128;
    let right = rect.right as i128;
    let bottom = rect.bottom as i128;
    let top = rect.top as i128;
    ClipTransform {
        scale_x: 2 * (right - left),
        translate_x: 2 * left - canvas_width as i128,
        denom_x: canvas_width,
        scale_y: 2 * (top - bottom),
        translate_y: 2 * bottom - canvas_height as i128,
        denom_y: canvas_height,
    }
}

} // verus!
