use vstd::prelude::*;

pub mod camera;
pub mod color;
pub mod hittable;
pub mod integrator;
pub mod interval;
pub mod ppm;
pub mod ray;
pub mod vec3;

verus! {

} // verus!
