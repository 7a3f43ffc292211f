//! Frame renderer: maps every pixel of the raster to a plane coordinate,
//! supersamples and evaluates it, and collects the outcomes into a 2D grid,
//! row-major, parallelized across rows.
//!
//! Because the logarithmic smoothing term of a diverged sample is computed
//! outside the verified arithmetic (see [`crate::escape::smooth_value`]),
//! rendering is split in two verified passes: [`render_samples`] produces the
//! grid of escape outcomes, and once the caller has turned each outcome into
//! its escape value, [`average_grid`] folds each pixel's four values into one.

use vstd::prelude::*;
use rayon::iter::IntoParallelIterator;
use rayon::iter::ParallelIterator;
use crate::escape::Escape;
use crate::escape::evaluate;
use crate::escape::evaluate_spec;
use crate::sample::ValueQuad;
use crate::sample::average;
use crate::sample::average_bits;
use crate::sample::subsamples;
use crate::sample::subsamples_spec;
use crate::viewport::Viewport;
use crate::viewport::is_valid;
use crate::viewport::to_plane;
use crate::viewport::to_plane_spec;
use crate::viewport::valid_viewport;

verus! {

/// The four escape outcomes of one pixel's sub-samples, in the field order of
/// [`SubSamples`].
#[derive(Clone, Copy, PartialEq, Eq, Debug, Structural)]
pub struct SampleQuad {
    pub e00: Escape,
    pub e01: Escape,
    pub e10: Escape,
    pub e11: Escape,
}

/// Rejected configurations: a raster dimension of zero, or a viewport that is
/// not a well-formed rectangle.
#[derive(Clone, Copy, PartialEq, Eq, Debug, Structural)]
pub enum RenderError {
    InvalidRaster,
    InvalidViewport,
}

/// The escape outcomes of pixel `(px, py)`: its plane corner, expanded into
/// four sub-samples, each evaluated.
pub open spec fn pixel_samples_spec(
    v: Viewport,
    width: u32,
    height: u32,
    px: u32,
    py: u32,
) -> SampleQuad {
    let sub = subsamples_spec(to_plane_spec(px, py, v, width, height), v, width, height);
    SampleQuad {
        e00: evaluate_spec(sub.s00),
        e01: evaluate_spec(sub.s01),
        e10: evaluate_spec(sub.s10),
        e11: evaluate_spec(sub.s11),
    }
}

/// Row `py` of the sample grid: the outcomes of pixels `(0, py)` up to
/// `(width - 1, py)`, in column order.
pub open spec fn row_samples_spec(v: Viewport, width: u32, height: u32, py: u32) -> Seq<
    SampleQuad,
> {
    Seq::new(width as nat, |j: int| pixel_samples_spec(v, width, height, j as u32, py))
}

/// The whole sample grid, row-major: row 0 first.
pub open spec fn samples_grid_spec(v: Viewport, width: u32, height: u32) -> Seq<Seq<SampleQuad>> {
    Seq::new(height as nat, |i: int| row_samples_spec(v, width, height, i as u32))
}

/// Evaluates the four sub-samples of pixel `(px, py)`.
pub fn sample_pixel(v: &Viewport, width: u32, height: u32, px: u32, py: u32) -> (r: SampleQuad)
    ensures
        r == pixel_samples_spec(*v, width, height, px, py),
{
    let corner = to_plane(px, py, v, width, height);
    let sub = subsamples(corner, v, width, height);
    SampleQuad {
        e00: evaluate(sub.s00),
        e01: evaluate(sub.s01),
        e10: evaluate(sub.s10),
        e11: evaluate(sub.s11),
    }
}

/// Computes one row of the sample grid, in column order.
pub fn sample_row(v: &Viewport, width: u32, height: u32, py: u32) -> (r: Vec<SampleQuad>)
    ensures
        r@ == row_samples_spec(*v, width, height, py),
{
    let mut row: Vec<SampleQuad> = Vec::new();
    let mut px: u32 = 0;
    while px < width
        invariant
            px <= width,
            row@.len() == px as nat,
            forall|j: int|
                0 <= j < px ==> #[trigger] row@[j] == pixel_samples_spec(
                    *v,
                    width,
                    height,
                    j as u32,
                    py,
                ),
        decreases width - px,
    {
        row.push(sample_pixel(v, width, height, px, py));
        px = px + 1;
    }
    proof {
        assert(row@ =~= row_samples_spec(*v, width, height, py));
    }
    row
}

/// Relies on rayon's `into_par_iter().map(..).collect()` over an integer
/// range: the collected vector has one entry per row index, in index order;
/// each entry comes from the verified [`sample_row`], whose contract pins it.
/// Rows are independent, so the parallel schedule cannot change the result.
#[verifier::external_body]
fn par_rows(v: &Viewport, width: u32, height: u32) -> (r: Vec<Vec<SampleQuad>>)
    ensures
        r@.len() == height as nat,
        forall|i: int|
            0 <= i < height ==> #[trigger] r@[i]@ == row_samples_spec(*v, width, height, i as u32),
{
    (0..height).into_par_iter().map(|py| sample_row(v, width, height, py)).collect()
}

/// Renders the sample grid for a viewport snapshot and raster dimensions.
/// Zero dimensions and malformed viewports are rejected; on success the grid
/// holds exactly `height` rows of `width` sample quads, row-major.
pub fn render_samples(v: &Viewport, width: u32, height: u32) -> (r: Result<
    Vec<Vec<SampleQuad>>,
    RenderError,
>)
    ensures
        (r matches Err(RenderError::InvalidRaster)) <==> (width == 0 || height == 0),
        (r matches Err(RenderError::InvalidViewport)) <==> (width > 0 && height > 0
            && !valid_viewport(*v)),
        width > 0 && height > 0 && valid_viewport(*v) ==> r is Ok,
        r matches Ok(g) ==> g@.len() == height as nat && forall|i: int|
            0 <= i < height ==> #[trigger] g@[i]@ == row_samples_spec(*v, width, height, i as u32),
{
    if width == 0 || height == 0 {
        return Err(RenderError::InvalidRaster);
    }
    if !is_valid(v) {
        return Err(RenderError::InvalidViewport);
    }
    Ok(par_rows(v, width, height))
}

/// Folds a grid of per-pixel escape-value quads into the final pixel grid:
/// the shape is kept, and every cell is the average of its quad.
pub fn average_grid(values: &Vec<Vec<ValueQuad>>) -> (r: Vec<Vec<u64>>)
    ensures
        r@.len() == values@.len(),
        forall|i: int| 0 <= i < values@.len() ==> #[trigger] r@[i]@.len() == values@[i]@.len(),
        forall|i: int, j: int|
            0 <= i < values@.len() && 0 <= j < values@[i]@.len() ==> #[trigger] r@[i]@[j]
                == average_bits(values@[i]@[j]),
{
    let mut out: Vec<Vec<u64>> = Vec::new();
    let mut i: usize = 0;
    while i < values.len()
        invariant
            i <= values@.len(),
            out@.len() == i as nat,
            forall|k: int| 0 <= k < i ==> #[trigger] out@[k]@.len() == values@[k]@.len(),
            forall|k: int, j: int|
                0 <= k < i && 0 <= j < values@[k]@.len() ==> #[trigger] out@[k]@[j]
                    == average_bits(values@[k]@[j]),
        decreases values@.len() - i,
    {
        let src_row = &values[i];
        let mut row: Vec<u64> = Vec::new();
        let mut j: usize = 0;
        while j < src_row.len()
            invariant
                j <= src_row@.len(),
                src_row@ == values@[i as int]@,
                row@.len() == j as nat,
                forall|jj: int|
                    0 <= jj < j ==> #[trigger] row@[jj] == average_bits(values@[i as int]@[jj]),
            decreases src_row@.len() - j,
        {
            row.push(average(&src_row[j]));
            j = j + 1;
        }
        out.push(row);
        i = i + 1;
    }
    out
}

/// Law: the sample grid of a frame has exactly `height` rows, each of exactly
/// `width` pixel outcomes.
pub proof fn lemma_grid_shape(v: Viewport, width: u32, height: u32)
    ensures
        samples_grid_spec(v, width, height).len() == height as nat,
        forall|i: int|
            0 <= i < height ==> #[trigger] samples_grid_spec(v, width, height)[i].len()
                == width as nat,
{
}

/// Law: the averaging pass is deterministic too. The contract of
/// [`average_grid`] pins every cell of its result to [`average_bits`] of the
/// matching input cell, so two results for the same value grid agree cell
/// for cell.
pub proof fn lemma_average_deterministic(
    values: Vec<Vec<ValueQuad>>,
    r1: Vec<Vec<u64>>,
    r2: Vec<Vec<u64>>,
)
    requires
        r1@.len() == values@.len(),
        r2@.len() == values@.len(),
        forall|i: int| 0 <= i < values@.len() ==> #[trigger] r1@[i]@.len() == values@[i]@.len(),
        forall|i: int| 0 <= i < values@.len() ==> #[trigger] r2@[i]@.len() == values@[i]@.len(),
        forall|i: int, j: int|
            0 <= i < values@.len() && 0 <= j < values@[i]@.len() ==> #[trigger] r1@[i]@[j]
                == average_bits(values@[i]@[j]),
        forall|i: int, j: int|
            0 <= i < values@.len() && 0 <= j < values@[i]@.len() ==> #[trigger] r2@[i]@[j]
                == average_bits(values@[i]@[j]),
    ensures
        forall|i: int, j: int|
            0 <= i < values@.len() && 0 <= j < values@[i]@.len() ==> #[trigger] r1@[i]@[j]
                == r2@[i]@[j],
{
}

/// Law: rendering is deterministic. The contract of [`render_samples`] pins
/// every row of a returned grid to [`row_samples_spec`], a function of the
/// viewport and raster dimensions alone, so two grids returned for identical
/// inputs agree row for row, whatever the parallel schedule did.
pub proof fn lemma_render_deterministic(
    v: Viewport,
    width: u32,
    height: u32,
    g1: Vec<Vec<SampleQuad>>,
    g2: Vec<Vec<SampleQuad>>,
)
    requires
        g1@.len() == height as nat,
        g2@.len() == height as nat,
        forall|i: int|
            0 <= i < height ==> #[trigger] g1@[i]@ == row_samples_spec(v, width, height, i as u32),
        forall|i: int|
            0 <= i < height ==> #[trigger] g2@[i]@ == row_samples_spec(v, width, height, i as u32),
    ensures
        forall|i: int| 0 <= i < height ==> #[trigger] g1@[i]@ == g2@[i]@,
{
}

} // verus!
