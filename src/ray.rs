use vstd::prelude::*;

use crate::vec3::{fits, Vec3};

verus! {

/// A half-line given by an origin and a direction; the direction may be zero.
#[derive(Clone, Copy, Debug, PartialEq, Eq, Structural)]
pub struct Ray {
    orig: Vec3,
    dir: Vec3,
}

/// The point `origin + direction * t`, coordinate by coordinate.
pub open spec fn at_spec(origin: Vec3, direction: Vec3, t: int) -> (int, int, int) {
    (
        origin.e0 + direction.e0 * t,
        origin.e1 + direction.e1 * t,
        origin.e2 + direction.e2 * t,
    )
}

impl Ray {
    pub closed spec fn origin_spec(&self) -> Vec3 {
        self.orig
    }

    pub closed spec fn direction_spec(&self) -> Vec3 {
        self.dir
    }

    pub fn new(origin: Vec3, direction: Vec3) -> (r: Ray)
        ensures
            r.origin_spec() == origin,
            r.direction_spec() == direction,
    {
        Ray { orig: origin, dir: direction }
    }

    pub fn origin(&self) -> (r: Vec3)
        ensures
            r == self.origin_spec(),
    {
        self.orig
    }

    pub fn direction(&self) -> (r: Vec3)
        ensures
            r == self.direction_spec(),
    {
        self.dir
    }

    /// The point reached after travelling `t` times the direction.
    pub fn at(&self, t: i64) -> (r: Vec3)
        requires
            fits(self.direction_spec().e0 * t),
            fits(self.direction_spec().e1 * t),
            fits(self.direction_spec().e2 * t),
            fits(at_spec(self.origin_spec(), self.direction_spec(), t as int).0),
            fits(at_spec(self.origin_spec(), self.direction_spec(), t as int).1),
            fits(at_spec(self.origin_spec(), self.direction_spec(), t as int).2),
        ensures
            r.e0 == at_spec(self.origin_spec(), self.direction_spec(), t as int).0,
            r.e1 == at_spec(self.origin_spec(), self.direction_spec(), t as int).1,
            r.e2 == at_spec(self.origin_spec(), self.direction_spec(), t as int).2,
    {
        self.orig.add(self.dir.scale(t))
    }
}

} // verus!
