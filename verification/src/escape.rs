//! Escape evaluator: smoothed escape-time of one complex-plane sample.
//!
//! The orbit `z <- z^2 + c` is iterated from `z = 0` for at most [`crate::MAX_ITER`]
//! steps; the first iteration whose squared magnitude exceeds the double `4.0`
//! diverges. The whole orbit is pinned, bit for bit, as a composition of the
//! trusted arithmetic names of [`crate::double`].

use vstd::prelude::*;
use crate::double::add_bits;
use crate::double::sub_bits;
use crate::double::mul_bits;
use crate::double::gt_bits;
use crate::double::of_u32_bits;
use crate::double::dadd;
use crate::double::dsub;
use crate::double::dmul;
use crate::double::dgt;
use crate::double::du32;
use crate::MAX_ITER;
use crate::DIVERGE_THRESH_SQ_INT;

verus! {

/// A complex-plane sample; each coordinate is the bit pattern of a double.
#[derive(Clone, Copy, PartialEq, Eq, Debug, Structural)]
pub struct Complex {
    pub re: u64,
    pub im: u64,
}

/// One state of the iterated orbit: `z` and the squares of its parts, all as
/// bit patterns, the squares kept to avoid recomputation.
#[derive(Clone, Copy, PartialEq, Eq, Debug, Structural)]
pub struct OrbitState {
    pub x: u64,
    pub y: u64,
    pub x_sq: u64,
    pub y_sq: u64,
}

/// What evaluating one sample yields: either the 1-indexed iteration at which
/// the orbit diverged, together with the squared magnitude that crossed the
/// threshold, or the fact that the iteration budget never saw it diverge.
#[derive(Clone, Copy, PartialEq, Eq, Debug, Structural)]
pub enum Escape {
    Diverged { iterations: u32, magnitude_sq: u64 },
    Inside,
}

/// The orbit starts at `z = 0`, with zero squares.
pub open spec fn orbit_start() -> OrbitState {
    OrbitState {
        x: of_u32_bits(0),
        y: of_u32_bits(0),
        x_sq: of_u32_bits(0),
        y_sq: of_u32_bits(0),
    }
}

/// One step of `z <- z^2 + c`: the imaginary part is updated first from the
/// old `z`, then the real part from the kept squares, then both squares.
pub open spec fn step_spec(st: OrbitState, c: Complex) -> OrbitState {
    let y = add_bits(mul_bits(add_bits(st.x, st.x), st.y), c.im);
    let x = add_bits(sub_bits(st.x_sq, st.y_sq), c.re);
    OrbitState { x, y, x_sq: mul_bits(x, x), y_sq: mul_bits(y, y) }
}

/// The squared magnitude of the orbit point, as the sum of the kept squares.
pub open spec fn orbit_magnitude_sq(st: OrbitState) -> u64 {
    add_bits(st.x_sq, st.y_sq)
}

/// Whether the orbit point has left the escape radius: its squared magnitude
/// compares strictly above the double `4.0`.
pub open spec fn orbit_diverged(st: OrbitState) -> bool {
    gt_bits(orbit_magnitude_sq(st), of_u32_bits(DIVERGE_THRESH_SQ_INT))
}

/// The outcome of running the orbit from state `st` with the next step
/// numbered `i`, until it diverges or the budget is spent.
pub open spec fn eval_from(c: Complex, st: OrbitState, i: nat) -> Escape
    decreases MAX_ITER + 1 - i,
{
    if i > MAX_ITER {
        Escape::Inside
    } else {
        let next = step_spec(st, c);
        if orbit_diverged(next) {
            Escape::Diverged { iterations: i as u32, magnitude_sq: orbit_magnitude_sq(next) }
        } else {
            eval_from(c, next, i + 1)
        }
    }
}

/// The outcome of evaluating a sample: the orbit run from `z = 0`, steps
/// numbered from 1.
pub open spec fn evaluate_spec(c: Complex) -> Escape {
    eval_from(c, orbit_start(), 1)
}

/// One executed orbit step; returns exactly the state [`step_spec`] names.
pub fn orbit_step(st: OrbitState, c: Complex) -> (r: OrbitState)
    ensures
        r == step_spec(st, c),
{
    let y = dadd(dmul(dadd(st.x, st.x), st.y), c.im);
    let x = dadd(dsub(st.x_sq, st.y_sq), c.re);
    let x_sq = dmul(x, x);
    let y_sq = dmul(y, y);
    OrbitState { x, y, x_sq, y_sq }
}

/// Runs the orbit of `c` for at most [`MAX_ITER`] steps and reports the first
/// divergence, or that none occurred.
pub fn evaluate(c: Complex) -> (r: Escape)
    ensures
        r == evaluate_spec(c),
{
    let zero = du32(0);
    let thresh = du32(DIVERGE_THRESH_SQ_INT);
    let mut st = OrbitState { x: zero, y: zero, x_sq: zero, y_sq: zero };
    let mut i: u32 = 1;
    while i <= MAX_ITER
        invariant
            1 <= i <= MAX_ITER + 1,
            thresh == of_u32_bits(DIVERGE_THRESH_SQ_INT),
            evaluate_spec(c) == eval_from(c, st, i as nat),
        decreases MAX_ITER + 1 - i,
    {
        st = orbit_step(st, c);
        let mag = dadd(st.x_sq, st.y_sq);
        if dgt(mag, thresh) {
            return Escape::Diverged { iterations: i, magnitude_sq: mag };
        }
        i = i + 1;
    }
    Escape::Inside
}

/// The budget bound of [`eval_from`]: a divergence reported from step `i`
/// onward carries an iteration count between `i` and [`MAX_ITER`].
pub proof fn lemma_eval_from_budget(c: Complex, st: OrbitState, i: nat)
    requires
        1 <= i <= MAX_ITER + 1,
    ensures
        eval_from(c, st, i) matches Escape::Diverged { iterations, .. } ==> i <= iterations
            <= MAX_ITER,
    decreases MAX_ITER + 1 - i,
{
    if i <= MAX_ITER {
        let next = step_spec(st, c);
        if !orbit_diverged(next) {
            lemma_eval_from_budget(c, next, i + 1);
        }
    }
}

/// Law: every divergence that [`evaluate`] reports happened within the
/// iteration budget: its 1-indexed iteration count lies in `[1, MAX_ITER]`.
/// A sample that never diverges within the budget is reported `Inside`.
pub proof fn lemma_evaluate_budget(c: Complex)
    ensures
        evaluate_spec(c) matches Escape::Diverged { iterations, .. } ==> 1 <= iterations
            <= MAX_ITER,
{
    lemma_eval_from_budget(c, orbit_start(), 1);
}

/// The smoothed escape value of a divergence at iteration `iterations` whose
/// logarithmic correction a caller computed as `log_term`: the double
/// `iterations + 1 - log_term`.
pub open spec fn smooth_bits(iterations: u32, log_term: u64) -> u64 {
    sub_bits(add_bits(of_u32_bits(iterations), of_u32_bits(1)), log_term)
}

/// Combines an escape iteration count with its logarithmic correction term
/// into the smoothed escape value.
pub fn smooth_value(iterations: u32, log_term: u64) -> (r: u64)
    ensures
        r == smooth_bits(iterations, log_term),
{
    dsub(dadd(du32(iterations), du32(1)), log_term)
}

/// The escape value of a sample that never diverged: the double
/// `MAX_ITER + 1`, the sentinel for "inside the set".
pub fn sentinel_value() -> (r: u64)
    ensures
        r == of_u32_bits((MAX_ITER + 1) as u32),
{
    du32(MAX_ITER + 1)
}

} // verus!
