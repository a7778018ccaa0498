//! The camera zoom. Scroll deltas are whole scroll steps, a positive step
//! zooms in (shrinks the factor); converting raw wheel values into steps is
//! up to the caller. Drag deltas are in screen pixels with y pointing down.
use vstd::prelude::*;
use crate::geometry::{Point, within};

verus! {

/// Scale factors are kept in thousandths: 1000 stands for 1.0.
pub const FACTOR_ONE: i64 = 1000;
pub const MIN_ZOOM_FACTOR: u32 = 1000;
pub const MAX_ZOOM_FACTOR: u32 = 4500;
/// Change of the factor per scroll step, in thousandths of the factor.
pub const DEFAULT_ZOOM_RATE: u32 = 100;

/// The camera's scale: how many world pixels one screen pixel covers.
#[derive(Clone, Copy, Debug, PartialEq, Eq, Structural)]
pub struct ZoomState {
    /// In thousandths.
    pub current_zoom_factor: u32,
    /// In thousandths of the factor, per scroll step.
    pub zoom_rate: u32,
}

pub open spec fn clamp_int(v: int, lo: int, hi: int) -> int {
    if v < lo {
        lo
    } else if v > hi {
        hi
    } else {
        v
    }
}

/// `factor * (1 - delta * rate)`, all in thousandths, rounded down, then
/// clamped to the zoom range.
pub open spec fn zoom_target(factor: int, rate: int, delta: int) -> int {
    clamp_int(
        (factor * (FACTOR_ONE - delta * rate)) / (FACTOR_ONE as int),
        MIN_ZOOM_FACTOR as int,
        MAX_ZOOM_FACTOR as int,
    )
}

/// The factor after a sequence of scroll steps, oldest first.
pub open spec fn zoom_after(factor: int, rate: int, deltas: Seq<i32>) -> int
    decreases deltas.len(),
{
    if deltas.len() == 0 {
        factor
    } else {
        zoom_after(zoom_target(factor, rate, deltas[0] as int), rate, deltas.drop_first())
    }
}

/// `v * factor / 1000`, rounded toward zero.
pub open spec fn scaled(v: int, factor: int) -> int {
    if v * factor >= 0 {
        (v * factor) / (FACTOR_ONE as int)
    } else {
        -((-(v * factor)) / (FACTOR_ONE as int))
    }
}

/// A screen-space drag delta in world pixels: y is flipped, then both
/// coordinates are scaled by the zoom factor.
pub open spec fn world_delta(factor: int, dx: int, dy: int) -> Point {
    Point::new_spec(scaled(dx, factor), scaled(-dy, factor))
}

impl ZoomState {
    pub open spec fn in_bounds(&self) -> bool {
        MIN_ZOOM_FACTOR <= self.current_zoom_factor <= MAX_ZOOM_FACTOR
    }

    pub open spec fn new_spec() -> ZoomState {
        ZoomState { current_zoom_factor: MAX_ZOOM_FACTOR, zoom_rate: DEFAULT_ZOOM_RATE }
    }

    /// Fully zoomed out, at the default rate.
    pub fn new() -> (r: ZoomState)
        ensures
            r == ZoomState::new_spec(),
            r.in_bounds(),
    {
        ZoomState { current_zoom_factor: MAX_ZOOM_FACTOR, zoom_rate: DEFAULT_ZOOM_RATE }
    }

    /// Applies one scroll delta; tells whether the factor changed, so that
    /// the camera's projection is synced only then.
    pub fn zoom(&mut self, delta: i32) -> (changed: bool)
        ensures
            final(self).current_zoom_factor == zoom_target(
                old(self).current_zoom_factor as int,
                old(self).zoom_rate as int,
                delta as int,
            ),
            final(self).zoom_rate == old(self).zoom_rate,
            final(self).in_bounds(),
            changed == (final(self).current_zoom_factor != old(self).current_zoom_factor),
    {
        let f = self.current_zoom_factor as i128;
        let d = delta as i128;
        let rate = self.zoom_rate as i128;
        assert(-0x1_0000_0000_0000_0000 <= d * rate <= 0x1_0000_0000_0000_0000) by (nonlinear_arith)
            requires
                -0x8000_0000 <= d <= 0x7fff_ffff,
                0 <= rate <= 0xffff_ffff;
        let step: i128 = 1000 - d * rate;
        assert(-0x2_0000_0000_0000_0000_0000_0000 <= f * step <= 0x2_0000_0000_0000_0000_0000_0000)
            by (nonlinear_arith)
            requires
                -0x2_0000_0000_0000_0000 <= step <= 0x2_0000_0000_0000_0000,
                0 <= f <= 0xffff_ffff;
        let product: i128 = f * step;
        let new_factor: u32 = if product < MIN_ZOOM_FACTOR as i128 * 1000 {
            MIN_ZOOM_FACTOR
        } else if product >= MAX_ZOOM_FACTOR as i128 * 1000 {
            MAX_ZOOM_FACTOR
        } else {
            (product / 1000) as u32
        };
        proof {
            let t = product as int / 1000;
            if product < 1000 * 1000 {
                assert(t < 1000) by (nonlinear_arith)
                    requires t == product as int / 1000, product < 1000 * 1000;
            } else if product >= 4500 * 1000 {
                assert(t >= 4500) by (nonlinear_arith)
                    requires t == product as int / 1000, product >= 4500 * 1000;
            } else {
                assert(1000 <= t < 4500) by (nonlinear_arith)
                    requires t == product as int / 1000, 1000 * 1000 <= product < 4500 * 1000;
            }
        }
        let changed = new_factor != self.current_zoom_factor;
        self.current_zoom_factor = new_factor;
        changed
    }

    /// A screen-space drag delta converted to world pixels.
    pub fn screen_to_world(&self, dx: i32, dy: i32) -> (r: Point)
        ensures
            r == world_delta(self.current_zoom_factor as int, dx as int, dy as int),
            within(r, 0x40_0000_0000_0000),
    {
        let f = self.current_zoom_factor as i64;
        Point { x: scale(dx as i64, f), y: scale(-(dy as i64), f) }
    }
}

impl Default for ZoomState {
    fn default() -> (r: ZoomState)
        ensures
            r == ZoomState::new_spec(),
    {
        ZoomState::new()
    }
}

/// `v * factor / 1000`, rounded toward zero.
fn scale(v: i64, factor: i64) -> (r: i64)
    requires
        -0x8000_0000 <= v <= 0x8000_0000,
        0 <= factor <= 0xffff_ffff,
    ensures
        r == scaled(v as int, factor as int),
        -0x40_0000_0000_0000 <= r <= 0x40_0000_0000_0000,
{
    assert(-0x8000_0000_0000_0000 < v * factor < 0x8000_0000_0000_0000) by (nonlinear_arith)
        requires -0x8000_0000 <= v <= 0x8000_0000, 0 <= factor <= 0xffff_ffff;
    let p = v * factor;
    if p >= 0 {
        assert(p / 1000 <= 0x40_0000_0000_0000) by (nonlinear_arith)
            requires 0 <= p < 0x8000_0000_0000_0000;
        p / 1000
    } else {
        assert((-p) / 1000 <= 0x40_0000_0000_0000) by (nonlinear_arith)
            requires 0 < -p <= 0x8000_0000_0000_0000;
        -((-p) / 1000)
    }
}

/// However large the scroll deltas, the zoom factor stays within its range.
pub proof fn lemma_zoom_stays_in_bounds(factor: int, rate: int, deltas: Seq<i32>)
    requires
        MIN_ZOOM_FACTOR <= factor <= MAX_ZOOM_FACTOR,
    ensures
        MIN_ZOOM_FACTOR <= zoom_after(factor, rate, deltas) <= MAX_ZOOM_FACTOR,
    decreases deltas.len(),
{
    if deltas.len() > 0 {
        lemma_zoom_stays_in_bounds(zoom_target(factor, rate, deltas[0] as int), rate, deltas.drop_first());
    }
}

} // verus!
