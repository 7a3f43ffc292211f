//! Viewport mapper: the rectangle of the complex plane that the raster shows,
//! the linear pixel-to-plane mapping and its inverse, and the recenter and
//! zoom transforms that the input handlers apply between redraws.

use vstd::prelude::*;
use crate::double::add_bits;
use crate::double::sub_bits;
use crate::double::mul_bits;
use crate::double::div_bits;
use crate::double::gt_bits;
use crate::double::of_u32_bits;
use crate::double::dadd;
use crate::double::dsub;
use crate::double::dmul;
use crate::double::ddiv;
use crate::double::dgt;
use crate::double::du32;
use crate::escape::Complex;
use crate::ZOOM_FACTOR_INT;

verus! {

/// The visible plane region, each bound the bit pattern of a double.
#[derive(Clone, Copy, PartialEq, Eq, Debug, Structural)]
pub struct Viewport {
    pub left: u64,
    pub right: u64,
    pub bottom: u64,
    pub top: u64,
}

/// A well-formed viewport: `left < right` and `bottom < top` as doubles
/// (false whenever a bound is a NaN).
pub open spec fn valid_viewport(v: Viewport) -> bool {
    gt_bits(v.right, v.left) && gt_bits(v.top, v.bottom)
}

/// Checks well-formedness of a viewport, exactly [`valid_viewport`].
pub fn is_valid(v: &Viewport) -> (r: bool)
    ensures
        r == valid_viewport(*v),
{
    dgt(v.right, v.left) && dgt(v.top, v.bottom)
}

/// The linear mapping of raster coordinates, given as doubles, into the
/// viewport: `x / width * (right - left) + left` on the real axis and
/// `y / height * (top - bottom) + bottom` on the imaginary one.
pub open spec fn map_spec(x: u64, y: u64, v: Viewport, width: u32, height: u32) -> Complex {
    Complex {
        re: add_bits(mul_bits(div_bits(x, of_u32_bits(width)), sub_bits(v.right, v.left)), v.left),
        im: add_bits(
            mul_bits(div_bits(y, of_u32_bits(height)), sub_bits(v.top, v.bottom)),
            v.bottom,
        ),
    }
}

/// Maps raster coordinates, given as doubles, into the viewport; returns
/// exactly the point [`map_spec`] names.
pub fn map_into_bounds(x: u64, y: u64, v: &Viewport, width: u32, height: u32) -> (r: Complex)
    ensures
        r == map_spec(x, y, *v, width, height),
{
    let x_span = dsub(v.right, v.left);
    let y_span = dsub(v.top, v.bottom);
    Complex {
        re: dadd(dmul(ddiv(x, du32(width)), x_span), v.left),
        im: dadd(dmul(ddiv(y, du32(height)), y_span), v.bottom),
    }
}

/// The plane coordinate of integer pixel `(px, py)`: [`map_spec`] applied to
/// the doubles nearest the two integers.
pub open spec fn to_plane_spec(px: u32, py: u32, v: Viewport, width: u32, height: u32) -> Complex {
    map_spec(of_u32_bits(px), of_u32_bits(py), v, width, height)
}

/// Maps an integer pixel coordinate to its plane coordinate.
pub fn to_plane(px: u32, py: u32, v: &Viewport, width: u32, height: u32) -> (r: Complex)
    ensures
        r == to_plane_spec(px, py, *v, width, height),
{
    map_into_bounds(du32(px), du32(py), v, width, height)
}

/// The algebraic inverse of [`map_spec`]: plane coordinate to raster
/// coordinate, both axes as doubles,
/// `(re - left) / (right - left) * width` and
/// `(im - bottom) / (top - bottom) * height`.
pub open spec fn to_pixel_spec(c: Complex, v: Viewport, width: u32, height: u32) -> (u64, u64) {
    (
        mul_bits(div_bits(sub_bits(c.re, v.left), sub_bits(v.right, v.left)), of_u32_bits(width)),
        mul_bits(
            div_bits(sub_bits(c.im, v.bottom), sub_bits(v.top, v.bottom)),
            of_u32_bits(height),
        ),
    )
}

/// Maps a plane coordinate back to raster coordinates, as doubles; the
/// inverse of [`to_plane`] up to rounding.
pub fn to_pixel(c: Complex, v: &Viewport, width: u32, height: u32) -> (r: (u64, u64))
    ensures
        r == to_pixel_spec(c, *v, width, height),
{
    let x_span = dsub(v.right, v.left);
    let y_span = dsub(v.top, v.bottom);
    (
        dmul(ddiv(dsub(c.re, v.left), x_span), du32(width)),
        dmul(ddiv(dsub(c.im, v.bottom), y_span), du32(height)),
    )
}

/// The center of a viewport: each bound plus half the span on its axis.
pub open spec fn center_spec(v: Viewport) -> Complex {
    Complex {
        re: add_bits(v.left, div_bits(sub_bits(v.right, v.left), of_u32_bits(2))),
        im: add_bits(v.bottom, div_bits(sub_bits(v.top, v.bottom), of_u32_bits(2))),
    }
}

/// The viewport translated so that `p` takes the place of the old center:
/// every bound moves by `p - center`, applied as `bound - center + p`.
pub open spec fn recenter_spec(v: Viewport, p: Complex) -> Viewport {
    let c = center_spec(v);
    Viewport {
        left: add_bits(sub_bits(v.left, c.re), p.re),
        right: add_bits(sub_bits(v.right, c.re), p.re),
        bottom: add_bits(sub_bits(v.bottom, c.im), p.im),
        top: add_bits(sub_bits(v.top, c.im), p.im),
    }
}

/// Recenters the viewport on the plane point `p` (a click target).
pub fn recenter(v: &Viewport, p: Complex) -> (r: Viewport)
    ensures
        r == recenter_spec(*v, p),
{
    let two = du32(2);
    let w = dsub(v.right, v.left);
    let h = dsub(v.top, v.bottom);
    let cx = dadd(v.left, ddiv(w, two));
    let cy = dadd(v.bottom, ddiv(h, two));
    Viewport {
        left: dadd(dsub(v.left, cx), p.re),
        right: dadd(dsub(v.right, cx), p.re),
        bottom: dadd(dsub(v.bottom, cy), p.im),
        top: dadd(dsub(v.top, cy), p.im),
    }
}

/// The viewport shrunk about its center: each new half-span is
/// `span / ZOOM_FACTOR / 2`.
pub open spec fn zoom_in_spec(v: Viewport) -> Viewport {
    let c = center_spec(v);
    let half_w = div_bits(
        div_bits(sub_bits(v.right, v.left), of_u32_bits(ZOOM_FACTOR_INT)),
        of_u32_bits(2),
    );
    let half_h = div_bits(
        div_bits(sub_bits(v.top, v.bottom), of_u32_bits(ZOOM_FACTOR_INT)),
        of_u32_bits(2),
    );
    Viewport {
        left: sub_bits(c.re, half_w),
        right: add_bits(c.re, half_w),
        bottom: sub_bits(c.im, half_h),
        top: add_bits(c.im, half_h),
    }
}

/// Halves the viewport span about its center.
pub fn zoom_in(v: &Viewport) -> (r: Viewport)
    ensures
        r == zoom_in_spec(*v),
{
    let two = du32(2);
    let factor = du32(ZOOM_FACTOR_INT);
    let w = dsub(v.right, v.left);
    let h = dsub(v.top, v.bottom);
    let cx = dadd(v.left, ddiv(w, two));
    let cy = dadd(v.bottom, ddiv(h, two));
    let half_w = ddiv(ddiv(w, factor), two);
    let half_h = ddiv(ddiv(h, factor), two);
    Viewport {
        left: dsub(cx, half_w),
        right: dadd(cx, half_w),
        bottom: dsub(cy, half_h),
        top: dadd(cy, half_h),
    }
}

/// The viewport grown about its center: each new half-span is
/// `span * ZOOM_FACTOR / 2`.
pub open spec fn zoom_out_spec(v: Viewport) -> Viewport {
    let c = center_spec(v);
    let half_w = div_bits(
        mul_bits(sub_bits(v.right, v.left), of_u32_bits(ZOOM_FACTOR_INT)),
        of_u32_bits(2),
    );
    let half_h = div_bits(
        mul_bits(sub_bits(v.top, v.bottom), of_u32_bits(ZOOM_FACTOR_INT)),
        of_u32_bits(2),
    );
    Viewport {
        left: sub_bits(c.re, half_w),
        right: add_bits(c.re, half_w),
        bottom: sub_bits(c.im, half_h),
        top: add_bits(c.im, half_h),
    }
}

/// Doubles the viewport span about its center.
pub fn zoom_out(v: &Viewport) -> (r: Viewport)
    ensures
        r == zoom_out_spec(*v),
{
    let two = du32(2);
    let factor = du32(ZOOM_FACTOR_INT);
    let w = dsub(v.right, v.left);
    let h = dsub(v.top, v.bottom);
    let cx = dadd(v.left, ddiv(w, two));
    let cy = dadd(v.bottom, ddiv(h, two));
    let half_w = ddiv(dmul(w, factor), two);
    let half_h = ddiv(dmul(h, factor), two);
    Viewport {
        left: dsub(cx, half_w),
        right: dadd(cx, half_w),
        bottom: dsub(cy, half_h),
        top: dadd(cy, half_h),
    }
}

} // verus!
