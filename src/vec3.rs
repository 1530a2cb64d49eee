use vstd::prelude::*;

verus! {

/// A vector of three integer coordinates, standing for a point or a direction.
#[derive(Clone, Copy, Debug, PartialEq, Eq, Structural)]
pub struct Vec3 {
    pub e0: i64,
    pub e1: i64,
    pub e2: i64,
}

/// The dot product.
pub open spec fn dot_spec(a: Vec3, b: Vec3) -> int {
    a.e0 * b.e0 + a.e1 * b.e1 + a.e2 * b.e2
}

/// The squared Euclidean length.
pub open spec fn length_squared_spec(a: Vec3) -> int {
    dot_spec(a, a)
}

/// The cross product, coordinate by coordinate.
pub open spec fn cross_spec(a: Vec3, b: Vec3) -> (int, int, int) {
    (
        a.e1 * b.e2 - a.e2 * b.e1,
        a.e2 * b.e0 - a.e0 * b.e2,
        a.e0 * b.e1 - a.e1 * b.e0,
    )
}

/// The coordinate at position `i`.
pub open spec fn coord(a: Vec3, i: int) -> int {
    if i == 0 {
        a.e0 as int
    } else if i == 1 {
        a.e1 as int
    } else {
        a.e2 as int
    }
}

/// `a` with every coordinate divided by `c`, rounded toward zero.
pub open spec fn scale_down(a: Vec3, c: int) -> Vec3 {
    Vec3 {
        e0: trunc_div(a.e0 as int, c) as i64,
        e1: trunc_div(a.e1 as int, c) as i64,
        e2: trunc_div(a.e2 as int, c) as i64,
    }
}

/// `v` can be held in an `i64`.
pub open spec fn fits(v: int) -> bool {
    i64::MIN <= v <= i64::MAX
}

/// Quotient of `a` by `b` rounded toward zero, as integer division in Rust does.
pub open spec fn trunc_div(a: int, b: int) -> int {
    let q = abs(a) / abs(b);
    if (a >= 0) == (b > 0) || a == 0 {
        q
    } else {
        -q
    }
}

/// The absolute value.
pub open spec fn abs(a: int) -> int {
    if a < 0 {
        -a
    } else {
        a
    }
}

/// `r` is the square root of `n` rounded down.
pub open spec fn is_isqrt(n: int, r: int) -> bool {
    r >= 0 && r * r <= n && n < (r + 1) * (r + 1)
}

/// The floor of the square root of a non-negative integer.
pub open spec fn isqrt_spec(n: int) -> int {
    choose|r: int| is_isqrt(n, r)
}

/// A rounded-down square root of `n` is unique: it is the one `isqrt_spec` names.
pub proof fn lemma_isqrt_unique(n: int, r: int)
    requires
        is_isqrt(n, r),
    ensures
        isqrt_spec(n) == r,
{
    let s = isqrt_spec(n);
    assert(is_isqrt(n, s));
    if s < r {
        assert((s + 1) * (s + 1) <= r * r) by (nonlinear_arith)
            requires
                0 <= s < r,
        ;
    } else if r < s {
        assert((r + 1) * (r + 1) <= s * s) by (nonlinear_arith)
            requires
                0 <= r < s,
        ;
    }
}

/// A quotient that `i64` can hold: a nonzero divisor, and not `i64::MIN / -1`.
pub open spec fn divisible(a: i64, c: i64) -> bool {
    c != 0 && !(a == i64::MIN && c == -1)
}

/// `a / c` rounded toward zero, as Rust's integer division gives it.
pub fn div_trunc(a: i64, c: i64) -> (r: i64)
    requires
        divisible(a, c),
    ensures
        r == trunc_div(a as int, c as int),
{
    let pa: i128 = if a < 0 {
        -(a as i128)
    } else {
        a as i128
    };
    let pc: i128 = if c < 0 {
        -(c as i128)
    } else {
        c as i128
    };
    let q: i128 = pa / pc;
    assert(0 <= q <= pa) by (nonlinear_arith)
        requires
            pc >= 1,
            pa >= 0,
            q == pa / pc,
    ;
    assert(q == pa ==> pc == 1 || pa == 0) by (nonlinear_arith)
        requires
            pc >= 1,
            pa >= 0,
            q == pa / pc,
    ;
    if (a >= 0) == (c > 0) || a == 0 {
        q as i64
    } else {
        (-q) as i64
    }
}

/// Floor of the square root of a non-negative integer, by bisection.
pub fn isqrt(n: u64) -> (r: u64)
    ensures
        is_isqrt(n as int, r as int),
        r == isqrt_spec(n as int),
        r < 0x1_0000_0000,
{
    let mut lo: u64 = 0;
    let mut hi: u64 = 0x1_0000_0000;
    assert(hi * hi > n) by (nonlinear_arith)
        requires
            hi == 0x1_0000_0000,
            n <= u64::MAX,
    ;
    while hi - lo > 1
        invariant
            lo < hi <= 0x1_0000_0000,
            lo * lo <= n,
            n < hi * hi,
        decreases hi - lo,
    {
        let mid: u64 = lo + (hi - lo) / 2;
        assert((mid as u128) * (mid as u128) < 0x1_0000_0000_0000_0000) by (nonlinear_arith)
            requires
                mid < 0x1_0000_0000,
        ;
        if (mid as u128) * (mid as u128) <= n as u128 {
            lo = mid;
        } else {
            hi = mid;
        }
    }
    assert(lo + 1 == hi);
    proof {
        lemma_isqrt_unique(n as int, lo as int);
    }
    lo
}

impl Vec3 {
    pub fn new(x: i64, y: i64, z: i64) -> (r: Vec3)
        ensures
            r.e0 == x,
            r.e1 == y,
            r.e2 == z,
    {
        Vec3 { e0: x, e1: y, e2: z }
    }

    pub fn x(&self) -> (r: i64)
        ensures
            r == self.e0,
    {
        self.e0
    }

    pub fn y(&self) -> (r: i64)
        ensures
            r == self.e1,
    {
        self.e1
    }

    pub fn z(&self) -> (r: i64)
        ensures
            r == self.e2,
    {
        self.e2
    }

    pub fn length_squared(&self) -> (r: i64)
        requires
            fits(length_squared_spec(*self)),
        ensures
            r == length_squared_spec(*self),
            r >= 0,
    {
        let (a, b, c) = (self.e0, self.e1, self.e2);
        assert(0 <= a * a && 0 <= b * b && 0 <= c * c) by (nonlinear_arith);
        a * a + b * b + c * c
    }

    pub fn dot(&self, other: Vec3) -> (r: i64)
        requires
            fits(self.e0 * other.e0),
            fits(self.e1 * other.e1),
            fits(self.e2 * other.e2),
            fits(self.e0 * other.e0 + self.e1 * other.e1),
            fits(dot_spec(*self, other)),
        ensures
            r == dot_spec(*self, other),
    {
        self.e0 * other.e0 + self.e1 * other.e1 + self.e2 * other.e2
    }

    pub fn cross(&self, other: Vec3) -> (r: Vec3)
        requires
            fits(self.e1 * other.e2),
            fits(self.e2 * other.e1),
            fits(self.e2 * other.e0),
            fits(self.e0 * other.e2),
            fits(self.e0 * other.e1),
            fits(self.e1 * other.e0),
            fits(cross_spec(*self, other).0),
            fits(cross_spec(*self, other).1),
            fits(cross_spec(*self, other).2),
        ensures
            r.e0 == cross_spec(*self, other).0,
            r.e1 == cross_spec(*self, other).1,
            r.e2 == cross_spec(*self, other).2,
    {
        Vec3::new(
            self.e1 * other.e2 - self.e2 * other.e1,
            self.e2 * other.e0 - self.e0 * other.e2,
            self.e0 * other.e1 - self.e1 * other.e0,
        )
    }

    /// The Euclidean length, rounded down to an integer.
    pub fn length(&self) -> (r: i64)
        requires
            fits(length_squared_spec(*self)),
        ensures
            r == isqrt_spec(length_squared_spec(*self)),
            is_isqrt(length_squared_spec(*self), r as int),
    {
        let l = isqrt(self.length_squared() as u64);
        l as i64
    }

    /// This vector divided by its (rounded-down) length, each coordinate rounded
    /// toward zero.
    pub fn unit_vec(&self) -> (r: Vec3)
        requires
            fits(length_squared_spec(*self)),
            length_squared_spec(*self) > 0,
        ensures
            r == scale_down(*self, isqrt_spec(length_squared_spec(*self))),
    {
        let l = self.length();
        assert(l > 0) by (nonlinear_arith)
            requires
                is_isqrt(length_squared_spec(*self), l as int),
                length_squared_spec(*self) > 0,
        ;
        self.div(l)
    }

    pub fn neg(&self) -> (r: Vec3)
        requires
            self.e0 != i64::MIN,
            self.e1 != i64::MIN,
            self.e2 != i64::MIN,
        ensures
            r.e0 == -self.e0,
            r.e1 == -self.e1,
            r.e2 == -self.e2,
    {
        Vec3::new(-self.e0, -self.e1, -self.e2)
    }

    /// The coordinate at position `i`: 0, 1 or 2.
    pub fn index(&self, i: usize) -> (r: i64)
        requires
            i < 3,
        ensures
            r == coord(*self, i as int),
    {
        if i == 0 {
            self.e0
        } else if i == 1 {
            self.e1
        } else {
            self.e2
        }
    }

    pub fn add(&self, other: Vec3) -> (r: Vec3)
        requires
            fits(self.e0 + other.e0),
            fits(self.e1 + other.e1),
            fits(self.e2 + other.e2),
        ensures
            r.e0 == self.e0 + other.e0,
            r.e1 == self.e1 + other.e1,
            r.e2 == self.e2 + other.e2,
    {
        Vec3::new(self.e0 + other.e0, self.e1 + other.e1, self.e2 + other.e2)
    }

    pub fn sub(&self, other: Vec3) -> (r: Vec3)
        requires
            fits(self.e0 - other.e0),
            fits(self.e1 - other.e1),
            fits(self.e2 - other.e2),
        ensures
            r.e0 == self.e0 - other.e0,
            r.e1 == self.e1 - other.e1,
            r.e2 == self.e2 - other.e2,
    {
        Vec3::new(self.e0 - other.e0, self.e1 - other.e1, self.e2 - other.e2)
    }

    /// Componentwise product.
    pub fn mul(&self, other: Vec3) -> (r: Vec3)
        requires
            fits(self.e0 * other.e0),
            fits(self.e1 * other.e1),
            fits(self.e2 * other.e2),
        ensures
            r.e0 == self.e0 * other.e0,
            r.e1 == self.e1 * other.e1,
            r.e2 == self.e2 * other.e2,
    {
        Vec3::new(self.e0 * other.e0, self.e1 * other.e1, self.e2 * other.e2)
    }

    /// Every coordinate multiplied by `c`.
    pub fn scale(&self, c: i64) -> (r: Vec3)
        requires
            fits(self.e0 * c),
            fits(self.e1 * c),
            fits(self.e2 * c),
        ensures
            r.e0 == self.e0 * c,
            r.e1 == self.e1 * c,
            r.e2 == self.e2 * c,
    {
        Vec3::new(self.e0 * c, self.e1 * c, self.e2 * c)
    }

    /// Every coordinate divided by `c`, rounded toward zero.
    pub fn div(&self, c: i64) -> (r: Vec3)
        requires
            divisible(self.e0, c),
            divisible(self.e1, c),
            divisible(self.e2, c),
        ensures
            r == scale_down(*self, c as int),
    {
        Vec3::new(div_trunc(self.e0, c), div_trunc(self.e1, c), div_trunc(self.e2, c))
    }

    pub fn add_assign(&mut self, rhs: Vec3)
        requires
            fits(old(self).e0 + rhs.e0),
            fits(old(self).e1 + rhs.e1),
            fits(old(self).e2 + rhs.e2),
        ensures
            final(self).e0 == old(self).e0 + rhs.e0,
            final(self).e1 == old(self).e1 + rhs.e1,
            final(self).e2 == old(self).e2 + rhs.e2,
    {
        *self = self.add(rhs);
    }

    /// Componentwise product in place.
    pub fn mul_assign(&mut self, rhs: Vec3)
        requires
            fits(old(self).e0 * rhs.e0),
            fits(old(self).e1 * rhs.e1),
            fits(old(self).e2 * rhs.e2),
        ensures
            final(self).e0 == old(self).e0 * rhs.e0,
            final(self).e1 == old(self).e1 * rhs.e1,
            final(self).e2 == old(self).e2 * rhs.e2,
    {
        *self = self.mul(rhs);
    }

    /// Componentwise quotient in place, each rounded toward zero.
    pub fn div_assign(&mut self, rhs: Vec3)
        requires
            divisible(old(self).e0, rhs.e0),
            divisible(old(self).e1, rhs.e1),
            divisible(old(self).e2, rhs.e2),
        ensures
            final(self).e0 == trunc_div(old(self).e0 as int, rhs.e0 as int),
            final(self).e1 == trunc_div(old(self).e1 as int, rhs.e1 as int),
            final(self).e2 == trunc_div(old(self).e2 as int, rhs.e2 as int),
    {
        *self = Vec3::new(
            div_trunc(self.e0, rhs.e0),
            div_trunc(self.e1, rhs.e1),
            div_trunc(self.e2, rhs.e2),
        );
    }
}

} // verus!
