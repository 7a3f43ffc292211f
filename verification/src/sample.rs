//! Supersampler: 2x2 antialiasing. Each pixel is expanded into four
//! sub-pixel sample points, one centered in each quadrant of the pixel's
//! plane footprint, and the four escape values are averaged.

use vstd::prelude::*;
use crate::double::add_bits;
use crate::double::sub_bits;
use crate::double::mul_bits;
use crate::double::div_bits;
use crate::double::of_u32_bits;
use crate::double::dadd;
use crate::double::dsub;
use crate::double::dmul;
use crate::double::ddiv;
use crate::double::du32;
use crate::escape::Complex;
use crate::viewport::Viewport;

verus! {

/// The four sub-pixel sample points of one pixel; the first digit of a field
/// name is the half-increment factor on the real axis, the second the one on
/// the imaginary axis.
#[derive(Clone, Copy, PartialEq, Eq, Debug, Structural)]
pub struct SubSamples {
    pub s00: Complex,
    pub s01: Complex,
    pub s10: Complex,
    pub s11: Complex,
}

/// Four escape values of one pixel, as double bit patterns, in the order of
/// the [`SubSamples`] fields.
#[derive(Clone, Copy, PartialEq, Eq, Debug, Structural)]
pub struct ValueQuad {
    pub v00: u64,
    pub v01: u64,
    pub v10: u64,
    pub v11: u64,
}

/// The four sample points of the pixel whose plane corner is `corner`: the
/// pixel footprint is `(right - left) / width` by `(top - bottom) / height`;
/// each half of it, on each axis, holds one sample at its quarter-increment
/// center, so sample `ab` sits at `corner + a * inc + inc / 2` per axis.
pub open spec fn subsamples_spec(
    corner: Complex,
    v: Viewport,
    width: u32,
    height: u32,
) -> SubSamples {
    let x_inc = div_bits(
        div_bits(sub_bits(v.right, v.left), of_u32_bits(width)),
        of_u32_bits(2),
    );
    let y_inc = div_bits(
        div_bits(sub_bits(v.top, v.bottom), of_u32_bits(height)),
        of_u32_bits(2),
    );
    let x_quarter = div_bits(x_inc, of_u32_bits(2));
    let y_quarter = div_bits(y_inc, of_u32_bits(2));
    let re0 = add_bits(add_bits(corner.re, mul_bits(of_u32_bits(0), x_inc)), x_quarter);
    let re1 = add_bits(add_bits(corner.re, mul_bits(of_u32_bits(1), x_inc)), x_quarter);
    let im0 = add_bits(add_bits(corner.im, mul_bits(of_u32_bits(0), y_inc)), y_quarter);
    let im1 = add_bits(add_bits(corner.im, mul_bits(of_u32_bits(1), y_inc)), y_quarter);
    SubSamples {
        s00: Complex { re: re0, im: im0 },
        s01: Complex { re: re0, im: im1 },
        s10: Complex { re: re1, im: im0 },
        s11: Complex { re: re1, im: im1 },
    }
}

/// Expands a pixel's plane corner into its four sample points, exactly as
/// [`subsamples_spec`] names them.
pub fn subsamples(corner: Complex, v: &Viewport, width: u32, height: u32) -> (r: SubSamples)
    ensures
        r == subsamples_spec(corner, *v, width, height),
{
    let two = du32(2);
    let zero = du32(0);
    let one = du32(1);
    let x_inc = ddiv(ddiv(dsub(v.right, v.left), du32(width)), two);
    let y_inc = ddiv(ddiv(dsub(v.top, v.bottom), du32(height)), two);
    let x_quarter = ddiv(x_inc, two);
    let y_quarter = ddiv(y_inc, two);
    let re0 = dadd(dadd(corner.re, dmul(zero, x_inc)), x_quarter);
    let re1 = dadd(dadd(corner.re, dmul(one, x_inc)), x_quarter);
    let im0 = dadd(dadd(corner.im, dmul(zero, y_inc)), y_quarter);
    let im1 = dadd(dadd(corner.im, dmul(one, y_inc)), y_quarter);
    SubSamples {
        s00: Complex { re: re0, im: im0 },
        s01: Complex { re: re0, im: im1 },
        s10: Complex { re: re1, im: im0 },
        s11: Complex { re: re1, im: im1 },
    }
}

/// The arithmetic mean of the four escape values of a pixel: the sum folded
/// left from the double `0.0` in field order, divided by the double `4.0`.
pub open spec fn average_bits(q: ValueQuad) -> u64 {
    div_bits(
        add_bits(
            add_bits(add_bits(add_bits(of_u32_bits(0), q.v00), q.v01), q.v10),
            q.v11,
        ),
        of_u32_bits(4),
    )
}

/// Averages the four escape values of a pixel into its final escape value.
pub fn average(q: &ValueQuad) -> (r: u64)
    ensures
        r == average_bits(*q),
{
    let sum = dadd(dadd(dadd(dadd(du32(0), q.v00), q.v01), q.v10), q.v11);
    ddiv(sum, du32(4))
}

} // verus!
