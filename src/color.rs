use vstd::prelude::*;

use crate::interval::{clamp_spec, Interval};
use crate::vec3::{is_isqrt, isqrt, isqrt_spec, lemma_isqrt_unique};

verus! {

/// Colour channels are fixed-point numbers: `COLOR_ONE` stands for intensity 1.
pub const COLOR_ONE: i64 = 65536;

/// The brightest channel value written out, 0.999 in fixed point (rounded down).
pub const MAX_INTENSITY: i64 = 65470;

/// Largest linear channel value that gamma correction accepts.
pub const MAX_LINEAR: i64 = 0x7fff_ffff_ffff;

/// A pixel colour: red, green and blue channels in fixed point.
pub type Rgb = (i64, i64, i64);

/// Gamma 2: the square root of the channel, in the same fixed point, rounded down.
pub open spec fn gamma_spec(c: int) -> int {
    if c > 0 {
        isqrt_spec(c * COLOR_ONE)
    } else {
        0
    }
}

/// The byte written for a linear channel value: gamma corrected, clamped to
/// `[0, 0.999]`, scaled by 256 and truncated.
pub open spec fn channel_byte(c: int) -> int {
    256 * clamp_spec(0, MAX_INTENSITY as int, gamma_spec(c)) / COLOR_ONE as int
}

pub open spec fn valid_channel(c: i64) -> bool {
    c <= MAX_LINEAR
}

pub open spec fn valid_rgb(p: Rgb) -> bool {
    valid_channel(p.0) && valid_channel(p.1) && valid_channel(p.2)
}

pub open spec fn rgb_bytes(p: Rgb) -> Seq<u8> {
    seq![channel_byte(p.0 as int) as u8, channel_byte(p.1 as int) as u8, channel_byte(p.2 as int) as u8]
}

/// Gamma correction keeps both ends of the range: black stays 0 and full
/// intensity stays exactly 1.
pub proof fn lemma_gamma_extremes()
    ensures
        gamma_spec(0) == 0,
        gamma_spec(COLOR_ONE as int) == COLOR_ONE,
{
    assert(is_isqrt(COLOR_ONE * COLOR_ONE, COLOR_ONE as int));
    lemma_isqrt_unique(COLOR_ONE * COLOR_ONE, COLOR_ONE as int);
}

/// Gamma correction of one linear channel; zero and below map to zero.
pub fn linear_to_gamma(linear_component: i64) -> (r: i64)
    requires
        valid_channel(linear_component),
    ensures
        r == gamma_spec(linear_component as int),
        r >= 0,
{
    if linear_component > 0 {
        let s = isqrt((linear_component * COLOR_ONE) as u64);
        s as i64
    } else {
        0
    }
}

/// The byte for one linear channel value.
pub fn channel_to_byte(c: i64) -> (r: u8)
    requires
        valid_channel(c),
    ensures
        r == channel_byte(c as int),
        r <= 255,
{
    let intensity = Interval::new(0, MAX_INTENSITY);
    let g = intensity.clamp(linear_to_gamma(c));
    ((256 * g) / COLOR_ONE) as u8
}

/// The three bytes written for one pixel.
pub fn write_color(pixel_color: Rgb) -> (r: Vec<u8>)
    requires
        valid_rgb(pixel_color),
    ensures
        r@ == rgb_bytes(pixel_color),
{
    let r = channel_to_byte(pixel_color.0);
    let g = channel_to_byte(pixel_color.1);
    let b = channel_to_byte(pixel_color.2);
    vec![r, g, b]
}

/// The bytes of a whole pixel buffer, three per pixel, in buffer order.
pub fn encode_pixels(pixels: &Vec<Rgb>) -> (r: Vec<u8>)
    requires
        forall|i: int| 0 <= i < pixels@.len() ==> valid_rgb(#[trigger] pixels@[i]),
        pixels@.len() * 3 <= usize::MAX,
    ensures
        r@.len() == 3 * pixels@.len(),
        forall|i: int|
            0 <= i < pixels@.len() ==> #[trigger] r@.subrange(3 * i, 3 * i + 3) == rgb_bytes(
                pixels@[i],
            ),
{
    let mut out: Vec<u8> = Vec::new();
    let mut i: usize = 0;
    while i < pixels.len()
        invariant
            i <= pixels@.len(),
            forall|j: int| 0 <= j < pixels@.len() ==> valid_rgb(#[trigger] pixels@[j]),
            out@.len() == 3 * i,
            forall|j: int| 0 <= j < i ==> #[trigger] out@.subrange(3 * j, 3 * j + 3) == rgb_bytes(
                pixels@[j],
            ),
        decreases pixels@.len() - i,
    {
        let bytes = write_color(pixels[i]);
        let ghost before = out@;
        out.push(bytes[0]);
        out.push(bytes[1]);
        out.push(bytes[2]);
        assert forall|j: int| 0 <= j < i + 1 implies #[trigger] out@.subrange(3 * j, 3 * j + 3)
            == rgb_bytes(pixels@[j]) by {
            if j < i {
                assert(out@.subrange(3 * j, 3 * j + 3) =~= before.subrange(3 * j, 3 * j + 3));
            } else {
                assert(out@.subrange(3 * j, 3 * j + 3) =~= bytes@);
            }
        }
        i = i + 1;
    }
    out
}

} // verus!
