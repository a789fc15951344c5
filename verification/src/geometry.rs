//! The bounding-box-to-square-crop geometry.
//!
//! A detected bounding box is normalized into a square crop region: the side
//! is the larger of the rectangle's two dimensions, the square is centered on
//! the rectangle's center, and the origin saturates at zero. The region is
//! deliberately not clamped against the image's right/bottom edge: the
//! downstream crop primitive clips it, and that policy is recorded in the
//! contracts here.

use vstd::prelude::*;

use crate::errors::IconError;

verus! {

/// An axis-aligned bounding box `(left, top, right, bottom)` in pixels.
///
/// Well-formedness (`left < right` and `top < bottom`) is *not* an invariant
/// of the type: the fields typically come from noisy model output and are
/// validated by [`square_crop_region`].
#[derive(Clone, Copy, Debug, PartialEq, Eq, Structural)]
pub struct Rectangle {
    pub left: u32,
    pub top: u32,
    pub right: u32,
    pub bottom: u32,
}

/// The dimensions of a source bitmap, in pixels.
#[derive(Clone, Copy, Debug, PartialEq, Eq, Structural)]
pub struct ImageDimensions {
    pub width: u32,
    pub height: u32,
}

/// The origin and side length of a square subregion of a source bitmap.
#[derive(Clone, Copy, Debug, PartialEq, Eq, Structural)]
pub struct SquareCropRegion {
    pub x: u32,
    pub y: u32,
    pub size: u32,
}

/// A rectangle is degenerate when it has no area or is inverted.
pub open spec fn rect_is_degenerate(r: Rectangle) -> bool {
    r.right <= r.left || r.bottom <= r.top
}

/// A non-degenerate rectangle intersects the image exactly when its top-left
/// corner lies inside the image bounds.
pub open spec fn rect_intersects_image(r: Rectangle, d: ImageDimensions) -> bool {
    r.left < d.width && r.top < d.height
}

/// The side of the square crop: the larger of the rectangle's dimensions.
pub open spec fn square_side(r: Rectangle) -> int {
    vstd::math::max(r.right - r.left, r.bottom - r.top)
}

/// The x origin of the square crop: the rectangle's center minus half the
/// side, saturating at zero.
pub open spec fn square_origin_x(r: Rectangle) -> int {
    let center = (r.left + r.right) / 2;
    let half = square_side(r) / 2;
    if center >= half {
        center - half
    } else {
        0
    }
}

/// The y origin of the square crop, formed like [`square_origin_x`].
pub open spec fn square_origin_y(r: Rectangle) -> int {
    let center = (r.top + r.bottom) / 2;
    let half = square_side(r) / 2;
    if center >= half {
        center - half
    } else {
        0
    }
}

/// What the square-crop computation returns for every input: `InvalidInput`
/// for a degenerate rectangle or one that misses the image entirely, and
/// otherwise the centered square region. The region may extend past the
/// image's right/bottom edge; the downstream crop primitive clips it.
pub open spec fn spec_square_crop(r: Rectangle, d: ImageDimensions) -> Result<
    SquareCropRegion,
    IconError,
> {
    if rect_is_degenerate(r) || !rect_intersects_image(r, d) {
        Err(IconError::InvalidInput)
    } else {
        Ok(
            SquareCropRegion {
                x: square_origin_x(r) as u32,
                y: square_origin_y(r) as u32,
                size: square_side(r) as u32,
            },
        )
    }
}

/// Normalize a bounding box into a square crop region centered on the box.
pub fn square_crop_region(r: &Rectangle, d: &ImageDimensions) -> (res: Result<
    SquareCropRegion,
    IconError,
>)
    ensures
        res == spec_square_crop(*r, *d),
{
    if r.right <= r.left || r.bottom <= r.top {
        return Err(IconError::InvalidInput);
    }
    if r.left >= d.width || r.top >= d.height {
        return Err(IconError::InvalidInput);
    }
    let crop_width: u32 = r.right - r.left;
    let crop_height: u32 = r.bottom - r.top;
    let size: u32 = if crop_width >= crop_height {
        crop_width
    } else {
        crop_height
    };
    let center_x: u64 = (r.left as u64 + r.right as u64) / 2;
    let center_y: u64 = (r.top as u64 + r.bottom as u64) / 2;
    let half: u64 = size as u64 / 2;
    let x: u64 = if center_x >= half {
        center_x - half
    } else {
        0
    };
    let y: u64 = if center_y >= half {
        center_y - half
    } else {
        0
    };
    proof {
        assert(center_x <= u32::MAX as u64);
        assert(center_y <= u32::MAX as u64);
        assert(x as int == square_origin_x(*r));
        assert(y as int == square_origin_y(*r));
    }
    Ok(SquareCropRegion { x: x as u32, y: y as u32, size })
}

/// The side of the centered square crop of a whole image: the smaller of the
/// two image dimensions.
pub open spec fn center_side(d: ImageDimensions) -> int {
    vstd::math::min(d.width as int, d.height as int)
}

/// What the center-crop computation returns: the largest centered square
/// that fits in the image.
pub open spec fn spec_center_crop(d: ImageDimensions) -> SquareCropRegion {
    SquareCropRegion {
        x: ((d.width - center_side(d)) / 2) as u32,
        y: ((d.height - center_side(d)) / 2) as u32,
        size: center_side(d) as u32,
    }
}

/// The largest centered square crop of an image, used when squaring a
/// freshly generated bitmap. Unlike the bounding-box crop, this region always
/// lies entirely inside the image.
pub fn center_square_crop(d: &ImageDimensions) -> (c: SquareCropRegion)
    ensures
        c == spec_center_crop(*d),
        c.x + c.size <= d.width,
        c.y + c.size <= d.height,
{
    let size: u32 = if d.width <= d.height {
        d.width
    } else {
        d.height
    };
    let x: u32 = (d.width - size) / 2;
    let y: u32 = (d.height - size) / 2;
    SquareCropRegion { x, y, size }
}

/// Law: for every well-formed rectangle that lies fully inside the image,
/// the square crop succeeds and its side is the larger of the rectangle's
/// two dimensions.
pub proof fn lemma_square_side_is_max_dimension(r: Rectangle, d: ImageDimensions)
    requires
        r.left < r.right,
        r.top < r.bottom,
        r.right <= d.width,
        r.bottom <= d.height,
    ensures
        spec_square_crop(r, d) is Ok,
        spec_square_crop(r, d)->Ok_0.size == vstd::math::max(
            r.right - r.left,
            r.bottom - r.top,
        ),
{
}

/// For every well-formed rectangle, the square region's origin never lies
/// to the right of, or below, the rectangle's top-left corner: a rectangle
/// that touches the image keeps the crop's origin inside it.
pub proof fn lemma_square_origin_at_most_corner(r: Rectangle)
    requires
        !rect_is_degenerate(r),
    ensures
        0 <= square_origin_x(r) <= r.left,
        0 <= square_origin_y(r) <= r.top,
{
    let w = r.right - r.left;
    let h = r.bottom - r.top;
    let size = square_side(r);
    vstd::arithmetic::div_mod::lemma_hoist_over_denominator(w, r.left as int, 2);
    assert(r.left + r.right == w + r.left * 2);
    vstd::arithmetic::div_mod::lemma_div_is_ordered(w, size, 2);
    vstd::arithmetic::div_mod::lemma_hoist_over_denominator(h, r.top as int, 2);
    assert(r.top + r.bottom == h + r.top * 2);
    vstd::arithmetic::div_mod::lemma_div_is_ordered(h, size, 2);
}

/// Law: whenever the square crop succeeds, the region contains the
/// rectangle's center point.
pub proof fn lemma_region_contains_center(r: Rectangle, d: ImageDimensions)
    requires
        spec_square_crop(r, d) is Ok,
    ensures
        ({
            let region = spec_square_crop(r, d)->Ok_0;
            let center_x = (r.left + r.right) / 2;
            let center_y = (r.top + r.bottom) / 2;
            &&& region.x <= center_x < region.x + region.size
            &&& region.y <= center_y < region.y + region.size
        }),
{
    let size = square_side(r);
    let half = size / 2;
    let center_x = (r.left + r.right) / 2;
    let center_y = (r.top + r.bottom) / 2;
    assert(1 <= size <= u32::MAX);
    assert(half < size);
    assert(0 <= square_origin_x(r) <= center_x);
    assert(0 <= square_origin_y(r) <= center_y);
    assert(center_x < square_origin_x(r) + size);
    assert(center_y < square_origin_y(r) + size);
}

/// Law: the square-crop computation is a pure function of its inputs; two
/// runs on identical inputs yield identical regions (or the identical error).
pub proof fn lemma_square_crop_deterministic(
    r1: Rectangle,
    d1: ImageDimensions,
    r2: Rectangle,
    d2: ImageDimensions,
)
    requires
        r1 == r2,
        d1 == d2,
    ensures
        spec_square_crop(r1, d1) == spec_square_crop(r2, d2),
{
}

} // verus!
