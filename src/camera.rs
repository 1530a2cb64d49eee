use vstd::prelude::*;

use crate::color::{Rgb, MAX_LINEAR};
use crate::integrator::is_color;

verus! {

/// The image height for a width and an aspect ratio `num : den`: the width
/// divided by the ratio, rounded down, and at least one row.
pub open spec fn image_height_spec(width: int, num: int, den: int) -> int {
    let h = width * den / num;
    if h < 1 {
        1
    } else {
        h
    }
}

pub fn image_height(image_width: usize, aspect_num: usize, aspect_den: usize) -> (r: usize)
    requires
        aspect_num > 0,
        image_width * aspect_den <= usize::MAX,
    ensures
        r == image_height_spec(image_width as int, aspect_num as int, aspect_den as int),
        r >= 1,
{
    let h = image_width * aspect_den / aspect_num;
    if h < 1 {
        1
    } else {
        h
    }
}

/// Sum of channel `k` (0, 1 or 2) over the first `n` samples.
pub open spec fn channel_sum(s: Seq<Rgb>, k: int, n: int) -> int
    decreases n,
{
    if n <= 0 {
        0
    } else {
        channel_sum(s, k, n - 1) + channel(s[n - 1], k)
    }
}

pub open spec fn channel(c: Rgb, k: int) -> int {
    if k == 0 {
        c.0 as int
    } else if k == 1 {
        c.1 as int
    } else {
        c.2 as int
    }
}

/// The mean of the samples, channel by channel, rounded down.
pub open spec fn average_spec(s: Seq<Rgb>) -> Rgb {
    (
        (channel_sum(s, 0, s.len() as int) / s.len() as int) as i64,
        (channel_sum(s, 1, s.len() as int) / s.len() as int) as i64,
        (channel_sum(s, 2, s.len() as int) / s.len() as int) as i64,
    )
}

proof fn lemma_sum_bounds(s: Seq<Rgb>, k: int, n: int)
    requires
        0 <= n <= s.len(),
        forall|i: int| 0 <= i < s.len() ==> is_color(#[trigger] s[i]),
    ensures
        0 <= channel_sum(s, k, n) <= n * MAX_LINEAR,
    decreases n,
{
    if n > 0 {
        lemma_sum_bounds(s, k, n - 1);
        assert(is_color(s[n - 1]));
    }
}

/// The colour of a pixel: the mean of its samples.
pub fn average(samples: &Vec<Rgb>) -> (r: Rgb)
    requires
        samples@.len() > 0,
        forall|i: int| 0 <= i < samples@.len() ==> is_color(#[trigger] samples@[i]),
    ensures
        r == average_spec(samples@),
        is_color(r),
{
    let n = samples.len();
    let mut s0: i128 = 0;
    let mut s1: i128 = 0;
    let mut s2: i128 = 0;
    let mut i: usize = 0;
    while i < n
        invariant
            n == samples@.len(),
            i <= n,
            forall|j: int| 0 <= j < samples@.len() ==> is_color(#[trigger] samples@[j]),
            s0 == channel_sum(samples@, 0, i as int),
            s1 == channel_sum(samples@, 1, i as int),
            s2 == channel_sum(samples@, 2, i as int),
        decreases n - i,
    {
        proof {
            lemma_sum_bounds(samples@, 0, i as int);
            lemma_sum_bounds(samples@, 1, i as int);
            lemma_sum_bounds(samples@, 2, i as int);
            assert(is_color(samples@[i as int]));
            assert(i * MAX_LINEAR <= 0x1_0000_0000_0000_0000 * MAX_LINEAR) by (nonlinear_arith)
                requires
                    i < 0x1_0000_0000_0000_0000,
            ;
        }
        let c = samples[i];
        s0 = s0 + c.0 as i128;
        s1 = s1 + c.1 as i128;
        s2 = s2 + c.2 as i128;
        i = i + 1;
    }
    proof {
        lemma_sum_bounds(samples@, 0, n as int);
        lemma_sum_bounds(samples@, 1, n as int);
        lemma_sum_bounds(samples@, 2, n as int);
        lemma_mean_bound(s0 as int, n as int);
        lemma_mean_bound(s1 as int, n as int);
        lemma_mean_bound(s2 as int, n as int);
    }
    let d = n as i128;
    ((s0 / d) as i64, (s1 / d) as i64, (s2 / d) as i64)
}

proof fn lemma_mean_bound(sum: int, n: int)
    requires
        n > 0,
        0 <= sum <= n * MAX_LINEAR,
    ensures
        0 <= sum / n <= MAX_LINEAR,
{
    assert(0 <= sum / n <= MAX_LINEAR) by (nonlinear_arith)
        requires
            n > 0,
            0 <= sum <= n * MAX_LINEAR,
    ;
}

/// With a single sample per pixel, the pixel's colour is that sample.
pub proof fn lemma_single_sample(c: Rgb)
    ensures
        average_spec(seq![c]) == c,
{
    let s = seq![c];
    assert(s[0] == c);
    assert(channel_sum(s, 0, 0) == 0 && channel_sum(s, 1, 0) == 0 && channel_sum(s, 2, 0) == 0);
    assert(channel_sum(s, 0, 1) == c.0);
    assert(channel_sum(s, 1, 1) == c.1);
    assert(channel_sum(s, 2, 1) == c.2);
    assert(s.len() == 1);
    assert(average_spec(s).0 == c.0 && average_spec(s).1 == c.1 && average_spec(s).2 == c.2);
}

} // verus!
