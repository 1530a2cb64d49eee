use vstd::prelude::*;

use crate::color::{Rgb, COLOR_ONE, MAX_LINEAR};

verus! {

/// The sky colour at the zenith, (0.5, 0.7, 1.0) in fixed point.
pub const SKY_RED: i64 = 32768;

pub const SKY_GREEN: i64 = 45875;

pub const SKY_BLUE: i64 = 65536;

/// A colour whose channels all lie in `[0, MAX_LINEAR]`.
pub open spec fn is_color(c: Rgb) -> bool {
    0 <= c.0 <= MAX_LINEAR && 0 <= c.1 <= MAX_LINEAR && 0 <= c.2 <= MAX_LINEAR
}

/// Product of two fixed-point channels, rounded down and saturated at `MAX_LINEAR`.
pub open spec fn mul_channel_spec(a: int, b: int) -> int {
    let p = a * b / COLOR_ONE as int;
    if p > MAX_LINEAR {
        MAX_LINEAR as int
    } else {
        p
    }
}

pub open spec fn mul_color_spec(a: Rgb, b: Rgb) -> Rgb {
    (
        mul_channel_spec(a.0 as int, b.0 as int) as i64,
        mul_channel_spec(a.1 as int, b.1 as int) as i64,
        mul_channel_spec(a.2 as int, b.2 as int) as i64,
    )
}

/// How far up a direction points: `(y + 1) / 2` for the unit direction's height `y`.
pub open spec fn blend_spec(unit_y: int) -> int {
    (unit_y + COLOR_ONE) / 2
}

/// One channel of the vertical gradient: white weighted by `1 - a` plus the sky
/// channel weighted by `a`.
pub open spec fn gradient_channel(a: int, sky: int) -> int {
    ((COLOR_ONE - a) * COLOR_ONE + sky * a) / COLOR_ONE as int
}

/// The background seen along a direction whose unit vector has height `unit_y`.
pub open spec fn background_spec(unit_y: int) -> Rgb {
    let a = blend_spec(unit_y);
    (
        gradient_channel(a, SKY_RED as int) as i64,
        gradient_channel(a, SKY_GREEN as int) as i64,
        gradient_channel(a, SKY_BLUE as int) as i64,
    )
}

pub open spec fn black() -> Rgb {
    (0, 0, 0)
}

pub open spec fn white() -> Rgb {
    (COLOR_ONE, COLOR_ONE, COLOR_ONE)
}

fn mul_channel(a: i64, b: i64) -> (r: i64)
    requires
        0 <= a <= MAX_LINEAR,
        0 <= b <= MAX_LINEAR,
    ensures
        r == mul_channel_spec(a as int, b as int),
        0 <= r <= MAX_LINEAR,
{
    assert(0 <= (a as int) * (b as int) <= (MAX_LINEAR as int) * (MAX_LINEAR as int))
        by (nonlinear_arith)
        requires
            0 <= a <= MAX_LINEAR,
            0 <= b <= MAX_LINEAR,
    ;
    let p: i128 = (a as i128) * (b as i128) / (COLOR_ONE as i128);
    if p > MAX_LINEAR as i128 {
        MAX_LINEAR
    } else {
        p as i64
    }
}

/// Channel-by-channel product of two colours.
pub fn mul_color(a: Rgb, b: Rgb) -> (r: Rgb)
    requires
        is_color(a),
        is_color(b),
    ensures
        r == mul_color_spec(a, b),
        is_color(r),
{
    (mul_channel(a.0, b.0), mul_channel(a.1, b.1), mul_channel(a.2, b.2))
}

/// The background gradient between white at the horizon and sky blue at the zenith.
pub fn background(unit_y: i64) -> (r: Rgb)
    requires
        -COLOR_ONE <= unit_y <= COLOR_ONE,
    ensures
        r == background_spec(unit_y as int),
        is_color(r),
{
    let a: i64 = (unit_y + COLOR_ONE) / 2;
    assert(0 <= a <= COLOR_ONE);
    assert(0 <= SKY_GREEN * a <= SKY_GREEN * COLOR_ONE) by (nonlinear_arith)
        requires
            0 <= a <= COLOR_ONE,
    ;
    assert(0 <= SKY_RED * a <= SKY_RED * COLOR_ONE) by (nonlinear_arith)
        requires
            0 <= a <= COLOR_ONE,
    ;
    assert(0 <= SKY_BLUE * a <= SKY_BLUE * COLOR_ONE) by (nonlinear_arith)
        requires
            0 <= a <= COLOR_ONE,
    ;
    assert(0 <= (COLOR_ONE - a) * COLOR_ONE <= COLOR_ONE * COLOR_ONE) by (nonlinear_arith)
        requires
            0 <= a <= COLOR_ONE,
    ;
    let w: i64 = (COLOR_ONE - a) * COLOR_ONE;
    let r = ((w + SKY_RED * a) / COLOR_ONE, (w + SKY_GREEN * a) / COLOR_ONE, (w + SKY_BLUE * a)
        / COLOR_ONE);
    assert(is_color(r)) by (nonlinear_arith)
        requires
            r.0 == (w + SKY_RED * a) / (COLOR_ONE as int),
            r.1 == (w + SKY_GREEN * a) / (COLOR_ONE as int),
            r.2 == (w + SKY_BLUE * a) / (COLOR_ONE as int),
            0 <= w + SKY_RED * a <= 2 * COLOR_ONE * COLOR_ONE,
            0 <= w + SKY_GREEN * a <= 2 * COLOR_ONE * COLOR_ONE,
            0 <= w + SKY_BLUE * a <= 2 * COLOR_ONE * COLOR_ONE,
    ;
    r
}

/// What tracing the current ray against the scene found.
pub enum Event {
    /// Nothing was hit; the payload is the height of the ray's unit direction,
    /// in fixed point.
    Miss(i64),
    /// A surface was hit and absorbed the ray.
    Absorbed,
    /// A surface was hit and sent a new ray on, dimmed by this attenuation.
    Scattered(Rgb),
}

pub open spec fn event_ok(e: Event) -> bool {
    match e {
        Event::Miss(y) => -COLOR_ONE <= y <= COLOR_ONE,
        Event::Absorbed => true,
        Event::Scattered(att) => is_color(att),
    }
}

/// A light path being followed: the attenuation gathered so far and how many
/// more bounces may be traced.
#[derive(Clone, Copy, Debug)]
pub struct PathState {
    pub throughput: Rgb,
    pub depth: usize,
}

/// Either the path's final colour, or the path to follow next.
pub enum Step {
    Done(Rgb),
    Continue(PathState),
}

pub open spec fn step_spec(s: PathState, e: Event) -> Step {
    if s.depth == 0 {
        Step::Done(black())
    } else {
        match e {
            Event::Miss(y) => Step::Done(mul_color_spec(s.throughput, background_spec(y as int))),
            Event::Absorbed => Step::Done(black()),
            Event::Scattered(att) => Step::Continue(
                PathState { throughput: mul_color_spec(s.throughput, att), depth: (s.depth - 1) as usize },
            ),
        }
    }
}

impl PathState {
    /// A fresh path from the camera, allowed `max_depth` bounces.
    pub fn new(max_depth: usize) -> (r: PathState)
        ensures
            r.throughput == white(),
            r.depth == max_depth,
    {
        PathState { throughput: (COLOR_ONE, COLOR_ONE, COLOR_ONE), depth: max_depth }
    }

    /// Whether the current ray still needs tracing; when it does not, any event
    /// ends the path in black.
    pub fn can_bounce(&self) -> (r: bool)
        ensures
            r == (self.depth > 0),
    {
        self.depth > 0
    }

    /// One turn of the colour integrator. With no bounces left the path is black;
    /// a miss ends it with the background dimmed by what was gathered; an
    /// absorption ends it in black; a scatter gathers the attenuation and uses
    /// up one bounce.
    pub fn step(&self, event: Event) -> (r: Step)
        requires
            is_color(self.throughput),
            event_ok(event),
        ensures
            r == step_spec(*self, event),
            r matches Step::Continue(n) ==> is_color(n.throughput) && n.depth < self.depth,
    {
        if self.depth == 0 {
            return Step::Done((0, 0, 0));
        }
        match event {
            Event::Miss(y) => Step::Done(mul_color(self.throughput, background(y))),
            Event::Absorbed => Step::Done((0, 0, 0)),
            Event::Scattered(att) => Step::Continue(
                PathState { throughput: mul_color(self.throughput, att), depth: self.depth - 1 },
            ),
        }
    }
}

/// A path with no bounces left is black, whatever the scene and the ray.
pub proof fn lemma_exhausted_is_black(s: PathState, e: Event)
    requires
        s.depth == 0,
    ensures
        step_spec(s, e) == Step::Done(black()),
{
}

/// A camera ray that hits nothing shows exactly the background for its direction.
pub proof fn lemma_first_miss_is_background(max_depth: usize, unit_y: i64)
    requires
        max_depth > 0,
        -COLOR_ONE <= unit_y <= COLOR_ONE,
    ensures
        step_spec(PathState { throughput: white(), depth: max_depth }, Event::Miss(unit_y))
            == Step::Done(background_spec(unit_y as int)),
{
    let b = background_spec(unit_y as int);
    let a = blend_spec(unit_y as int);
    assert(0 <= a <= COLOR_ONE);
    assert(0 <= b.0 <= COLOR_ONE && 0 <= b.1 <= COLOR_ONE && 0 <= b.2 <= COLOR_ONE)
        by (nonlinear_arith)
        requires
            0 <= a <= COLOR_ONE,
            b == background_spec(unit_y as int),
            a == blend_spec(unit_y as int),
    ;
    assert(mul_color_spec(white(), b) == b);
}

} // verus!
