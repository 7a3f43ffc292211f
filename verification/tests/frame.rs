//! Tests of the frame renderer pipeline: grid shape, value range,
//! determinism, the canonical 4x4 scenario, the zoom invariant, and the
//! coloring and key decisions.

use mandelbrot::controls::key_action;
use mandelbrot::controls::KeyAction;
use mandelbrot::controls::KEY_ZOOM_IN;
use mandelbrot::controls::KEY_ZOOM_OUT;
use mandelbrot::escape::evaluate;
use mandelbrot::escape::sentinel_value;
use mandelbrot::escape::smooth_value;
use mandelbrot::escape::Complex;
use mandelbrot::escape::Escape;
use mandelbrot::palette::ramp_position;
use mandelbrot::render::average_grid;
use mandelbrot::render::render_samples;
use mandelbrot::render::RenderError;
use mandelbrot::render::SampleQuad;
use mandelbrot::sample::ValueQuad;
use mandelbrot::viewport::recenter;
use mandelbrot::viewport::zoom_in;
use mandelbrot::viewport::Viewport;
use mandelbrot::MAX_ITER;

fn c(re: f64, im: f64) -> Complex {
    Complex { re: re.to_bits(), im: im.to_bits() }
}

fn vp(left: f64, right: f64, bottom: f64, top: f64) -> Viewport {
    Viewport {
        left: left.to_bits(),
        right: right.to_bits(),
        bottom: bottom.to_bits(),
        top: top.to_bits(),
    }
}

fn log_term(magnitude_sq: u64) -> u64 {
    f64::from_bits(magnitude_sq)
        .sqrt()
        .log(std::f64::consts::E)
        .log(2.0)
        .to_bits()
}

fn escape_value_bits(e: Escape) -> u64 {
    match e {
        Escape::Diverged { iterations, magnitude_sq } => {
            smooth_value(iterations, log_term(magnitude_sq))
        }
        Escape::Inside => sentinel_value(),
    }
}

fn quad_values(q: &SampleQuad) -> ValueQuad {
    ValueQuad {
        v00: escape_value_bits(q.e00),
        v01: escape_value_bits(q.e01),
        v10: escape_value_bits(q.e10),
        v11: escape_value_bits(q.e11),
    }
}

/// The full per-frame pipeline: sample grid, smoothing, per-pixel average.
fn render_grid(v: &Viewport, width: u32, height: u32) -> Vec<Vec<u64>> {
    let samples = match render_samples(v, width, height) {
        Ok(g) => g,
        Err(e) => panic!("valid frame rejected: {e:?}"),
    };
    let values: Vec<Vec<ValueQuad>> = samples
        .iter()
        .map(|row| row.iter().map(quad_values).collect())
        .collect();
    average_grid(&values)
}

#[test]
fn grid_has_the_requested_shape_and_range() {
    let v = vp(-2.0, 1.0, -1.5, 1.5);
    let grid = render_grid(&v, 5, 3);
    assert_eq!(grid.len(), 3);
    for row in grid.iter() {
        assert_eq!(row.len(), 5);
        for &value in row.iter() {
            let value = f64::from_bits(value);
            assert!(0.0 <= value && value <= (MAX_ITER + 1) as f64);
        }
    }
}

#[test]
fn degenerate_configurations_are_rejected() {
    let good = vp(-2.0, 1.0, -1.5, 1.5);
    assert_eq!(render_samples(&good, 0, 4).unwrap_err(), RenderError::InvalidRaster);
    assert_eq!(render_samples(&good, 4, 0).unwrap_err(), RenderError::InvalidRaster);
    let flat = vp(-2.0, -2.0, -1.5, 1.5);
    assert_eq!(render_samples(&flat, 4, 4).unwrap_err(), RenderError::InvalidViewport);
    let inverted = vp(-2.0, 1.0, 1.5, -1.5);
    assert_eq!(render_samples(&inverted, 4, 4).unwrap_err(), RenderError::InvalidViewport);
    let poisoned = vp(f64::NAN, 1.0, -1.5, 1.5);
    assert_eq!(render_samples(&poisoned, 4, 4).unwrap_err(), RenderError::InvalidViewport);
    assert!(render_samples(&good, 4, 4).is_ok());
}

#[test]
fn rendering_twice_gives_bit_identical_grids() {
    let v = vp(-2.96444, 1.44444, -1.24, 1.24);
    let first = render_grid(&v, 24, 16);
    let second = render_grid(&v, 24, 16);
    assert_eq!(first, second);
}

#[test]
fn canonical_four_by_four_frame() {
    let v = vp(-2.0, 1.0, -1.5, 1.5);
    let grid = render_grid(&v, 4, 4);
    let top_left = f64::from_bits(grid[0][0]);
    assert!(top_left < 10.0, "pixel (0,0) near re = -2 must diverge fast, got {top_left}");
    let center = f64::from_bits(grid[2][2]);
    assert_eq!(center.to_bits(), ((MAX_ITER + 1) as f64).to_bits());
}

#[test]
fn zoom_onto_a_clicked_point_keeps_its_escape_value_at_the_center() {
    let v = vp(-2.96444, 1.44444, -1.24, 1.24);
    let clicked = c(-0.5, 0.0);
    let recentered = recenter(&v, clicked);
    let zoomed = zoom_in(&recentered);
    // The documented transform: the new half-width is half the old one.
    let old_half = (f64::from_bits(recentered.right) - f64::from_bits(recentered.left)) / 2.0;
    let new_half = (f64::from_bits(zoomed.right) - f64::from_bits(zoomed.left)) / 2.0;
    assert!((new_half - old_half / 2.0).abs() < 1e-12);
    let grid = render_grid(&zoomed, 16, 16);
    let center_pixel = f64::from_bits(grid[8][8]);
    let direct = f64::from_bits(escape_value_bits(evaluate(clicked)));
    assert_eq!(center_pixel.to_bits(), direct.to_bits());
    assert_eq!(direct.to_bits(), 201.0f64.to_bits());
}

#[test]
fn ramp_position_normalizes_and_pins_the_sentinel() {
    assert_eq!(ramp_position(100.0f64.to_bits()), 0.5f64.to_bits());
    assert_eq!(ramp_position(50.0f64.to_bits()), 0.25f64.to_bits());
    assert_eq!(ramp_position(200.0f64.to_bits()), 0.0f64.to_bits());
    assert_eq!(ramp_position(201.0f64.to_bits()), 0.0f64.to_bits());
    assert_eq!(ramp_position(f64::NAN.to_bits()), 0.0f64.to_bits());
}

#[test]
fn key_codes_map_to_their_zoom_actions() {
    assert_eq!(key_action(KEY_ZOOM_IN), KeyAction::ZoomIn);
    assert_eq!(key_action(KEY_ZOOM_OUT), KeyAction::ZoomOut);
    assert_eq!(key_action(0), KeyAction::Ignore);
    assert_eq!(key_action(65), KeyAction::Ignore);
}
