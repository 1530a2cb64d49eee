use vstd::prelude::*;

verus! {

/// The decimal digits of `n`, most significant first, in ASCII.
pub open spec fn dec(n: nat) -> Seq<u8>
    decreases n,
{
    if n < 10 {
        seq![(48 + n) as u8]
    } else {
        dec(n / 10) + seq![(48 + n % 10) as u8]
    }
}

/// The values of `s` in decimal, separated by single spaces.
pub open spec fn spaced(s: Seq<u8>) -> Seq<u8>
    decreases s.len(),
{
    if s.len() == 0 {
        seq![]
    } else if s.len() == 1 {
        dec(s[0] as nat)
    } else {
        spaced(s.drop_last()) + seq![32u8] + dec(s.last() as nat)
    }
}

/// Where row `k` ends when `data` is cut into rows of `w` values (the last may be short).
pub open spec fn row_end(len: nat, w: nat, k: nat) -> nat {
    if (k + 1) * w <= len {
        (k + 1) * w
    } else {
        len
    }
}

/// The first `n` rows of `data`, each written with `spaced` and ended by a newline.
pub open spec fn rows(data: Seq<u8>, w: nat, n: nat) -> Seq<u8>
    decreases n,
{
    if n == 0 {
        seq![]
    } else {
        rows(data, w, (n - 1) as nat) + spaced(
            data.subrange(((n - 1) * w) as int, row_end(data.len(), w, (n - 1) as nat) as int),
        ) + seq![10u8]
    }
}

/// How many rows of `w` values `len` values fill, a short last one included.
pub open spec fn row_count(len: nat, w: nat) -> nat
    recommends
        w > 0,
{
    ((len + w - 1) as nat / w) as nat
}

/// The plain-text image: `P3`, the size, the largest value, then one line per row
/// of pixels with three decimal values per pixel.
pub open spec fn ppm_text(width: nat, height: nat, max_value: nat, data: Seq<u8>) -> Seq<u8> {
    seq![80u8, 51u8, 10u8] + dec(width) + seq![32u8] + dec(height) + seq![10u8] + dec(max_value)
        + seq![10u8] + rows(data, 3 * width, row_count(data.len(), 3 * width))
}

/// Appends the decimal digits of `n`.
pub fn push_dec(out: &mut Vec<u8>, n: u64)
    ensures
        final(out)@ == old(out)@ + dec(n as nat),
    decreases n,
{
    if n >= 10 {
        push_dec(out, n / 10);
    }
    out.push((48 + n % 10) as u8);
    proof {
        if n >= 10 {
            assert(final(out)@ =~= old(out)@ + dec(n as nat));
        } else {
            assert(final(out)@ =~= old(out)@ + dec(n as nat));
        }
    }
}

/// Appends the values of `s[start..end]` in decimal, separated by spaces.
pub fn push_spaced(out: &mut Vec<u8>, s: &Vec<u8>, start: usize, end: usize)
    requires
        start <= end <= s@.len(),
    ensures
        final(out)@ == old(out)@ + spaced(s@.subrange(start as int, end as int)),
{
    let mut i: usize = start;
    while i < end
        invariant
            start <= i <= end <= s@.len(),
            out@ == old(out)@ + spaced(s@.subrange(start as int, i as int)),
        decreases end - i,
    {
        let ghost before = out@;
        if i > start {
            out.push(32u8);
        }
        push_dec(out, s[i] as u64);
        proof {
            let part = s@.subrange(start as int, i + 1);
            assert(part.drop_last() =~= s@.subrange(start as int, i as int));
            if i == start {
                assert(part.len() == 1);
            }
            assert(out@ =~= old(out)@ + spaced(part));
        }
        i = i + 1;
    }
}

/// A plain-text ("P3") image: `width` by `height` pixels, three values per pixel.
pub struct Ppm {
    pub width: usize,
    pub height: usize,
    pub max_color_value: u8,
    pub data: Vec<u8>,
}

impl Ppm {
    pub fn new(width: usize, height: usize, max_color_value: u8, data: Vec<u8>) -> (r: Ppm)
        ensures
            r.width == width,
            r.height == height,
            r.max_color_value == max_color_value,
            r.data@ == data@,
    {
        Ppm { width, height, max_color_value, data }
    }

    /// The text of the image, ready to be stored.
    pub fn encode(&self) -> (r: Vec<u8>)
        requires
            self.width > 0,
            3 * self.width + self.data@.len() <= usize::MAX,
        ensures
            r@ == ppm_text(
                self.width as nat,
                self.height as nat,
                self.max_color_value as nat,
                self.data@,
            ),
    {
        let mut out: Vec<u8> = Vec::new();
        out.push(80u8);
        out.push(51u8);
        out.push(10u8);
        push_dec(&mut out, self.width as u64);
        out.push(32u8);
        push_dec(&mut out, self.height as u64);
        out.push(10u8);
        push_dec(&mut out, self.max_color_value as u64);
        out.push(10u8);
        let ghost header = out@;
        let w: usize = 3 * self.width;
        let len: usize = self.data.len();
        let n: usize = (len + w - 1) / w;
        assert(n == row_count(len as nat, w as nat));
        let mut k: usize = 0;
        while k < n
            invariant
                w == 3 * self.width,
                w > 0,
                len == self.data@.len(),
                w + len <= usize::MAX,
                n == row_count(len as nat, w as nat),
                k <= n,
                out@ == header + rows(self.data@, w as nat, k as nat),
            decreases n - k,
        {
            proof {
                lemma_row_inside(len as nat, w as nat, k as nat);
            }
            let start: usize = k * w;
            let end: usize = if len - start >= w {
                start + w
            } else {
                len
            };
            assert(end == row_end(len as nat, w as nat, k as nat)) by (nonlinear_arith)
                requires
                    start == k * w,
                    end == (if len - start >= w {
                        start + w
                    } else {
                        len as int
                    }),
                    row_end(len as nat, w as nat, k as nat) == (if (k + 1) * w <= len {
                        (k + 1) * w
                    } else {
                        len as int
                    }),
            ;
            push_spaced(&mut out, &self.data, start, end);
            out.push(10u8);
            assert(out@ =~= header + rows(self.data@, w as nat, (k + 1) as nat));
            k = k + 1;
        }
        assert(out@ =~= ppm_text(
            self.width as nat,
            self.height as nat,
            self.max_color_value as nat,
            self.data@,
        ));
        out
    }
}

/// A row that the count includes starts inside the data.
proof fn lemma_row_inside(len: nat, w: nat, k: nat)
    requires
        w > 0,
        k < row_count(len, w),
    ensures
        k * w < len,
{
    let n = row_count(len, w);
    assert(n * w <= len + w - 1) by (nonlinear_arith)
        requires
            w > 0,
            n == (len + w - 1) / (w as int),
    ;
    assert(k * w < len) by (nonlinear_arith)
        requires
            w > 0,
            k + 1 <= n,
            n * w <= len + w - 1,
    ;
}

} // verus!
