//! Transform value types: fixed-point 3-vectors and quaternions.

use crate::fixed::{lerp_scalar, scalar_in_bounds, spec_lerp};
use vstd::prelude::*;

verus! {

/// A translation or scale value, one fixed-point scalar per axis.
#[derive(Clone, Copy, PartialEq, Eq, Structural, Debug)]
pub struct Vec3 {
    pub x: i64,
    pub y: i64,
    pub z: i64,
}

/// A rotation value, a quaternion with fixed-point components.
///
/// The library never renormalizes a quaternion: it holds keyframe values,
/// hands them back, or reports an interpolation request; unit length is the
/// clip author's concern.
#[derive(Clone, Copy, PartialEq, Eq, Structural, Debug)]
pub struct Quat {
    pub x: i64,
    pub y: i64,
    pub z: i64,
    pub w: i64,
}

impl Vec3 {
    /// Every component within the interpolation bound.
    pub open spec fn wf(self) -> bool {
        &&& scalar_in_bounds(self.x as int)
        &&& scalar_in_bounds(self.y as int)
        &&& scalar_in_bounds(self.z as int)
    }

    pub fn new(x: i64, y: i64, z: i64) -> (r: Vec3)
        requires
            scalar_in_bounds(x as int),
            scalar_in_bounds(y as int),
            scalar_in_bounds(z as int),
        ensures
            r == (Vec3 { x, y, z }),
            r.wf(),
    {
        Vec3 { x, y, z }
    }
}

impl Quat {
    /// Every component within the interpolation bound.
    pub open spec fn wf(self) -> bool {
        &&& scalar_in_bounds(self.x as int)
        &&& scalar_in_bounds(self.y as int)
        &&& scalar_in_bounds(self.z as int)
        &&& scalar_in_bounds(self.w as int)
    }

    pub fn new(x: i64, y: i64, z: i64, w: i64) -> (r: Quat)
        requires
            scalar_in_bounds(x as int),
            scalar_in_bounds(y as int),
            scalar_in_bounds(z as int),
            scalar_in_bounds(w as int),
        ensures
            r == (Quat { x, y, z, w }),
            r.wf(),
    {
        Quat { x, y, z, w }
    }
}

/// Componentwise linear interpolation between two vectors.
pub open spec fn spec_lerp_vec3(a: Vec3, b: Vec3, num: int, den: int) -> Vec3 {
    Vec3 {
        x: spec_lerp(a.x as int, b.x as int, num, den) as i64,
        y: spec_lerp(a.y as int, b.y as int, num, den) as i64,
        z: spec_lerp(a.z as int, b.z as int, num, den) as i64,
    }
}

/// Interpolate `a` toward `b` by `num / den`, componentwise and exactly.
pub fn lerp_vec3(a: Vec3, b: Vec3, num: u64, den: u64) -> (r: Vec3)
    requires
        den > 0,
        num <= den,
        a.wf(),
        b.wf(),
    ensures
        r == spec_lerp_vec3(a, b, num as int, den as int),
        r.wf(),
{
    Vec3 {
        x: lerp_scalar(a.x, b.x, num, den),
        y: lerp_scalar(a.y, b.y, num, den),
        z: lerp_scalar(a.z, b.z, num, den),
    }
}

/// A full fraction lands exactly on the destination vector; a zero fraction
/// stays exactly on the source.
pub proof fn lemma_lerp_vec3_endpoints(a: Vec3, b: Vec3, den: int)
    requires
        den > 0,
    ensures
        spec_lerp_vec3(a, b, den, den) == b,
        spec_lerp_vec3(a, b, 0, den) == a,
{
    crate::fixed::lemma_lerp_at_end(a.x as int, b.x as int, den);
    crate::fixed::lemma_lerp_at_end(a.y as int, b.y as int, den);
    crate::fixed::lemma_lerp_at_end(a.z as int, b.z as int, den);
    crate::fixed::lemma_lerp_at_start(a.x as int, b.x as int, den);
    crate::fixed::lemma_lerp_at_start(a.y as int, b.y as int, den);
    crate::fixed::lemma_lerp_at_start(a.z as int, b.z as int, den);
}

/// At the half fraction each axis lands on the arithmetic midpoint of its
/// operands, whenever that midpoint is an integer.
pub proof fn lemma_lerp_vec3_midpoint(a: Vec3, b: Vec3)
    requires
        (a.x + b.x) % 2 == 0,
        (a.y + b.y) % 2 == 0,
        (a.z + b.z) % 2 == 0,
    ensures
        spec_lerp_vec3(a, b, 1, 2) == (Vec3 {
            x: ((a.x + b.x) / 2) as i64,
            y: ((a.y + b.y) / 2) as i64,
            z: ((a.z + b.z) / 2) as i64,
        }),
{
    crate::fixed::lemma_lerp_midpoint(a.x as int, b.x as int);
    crate::fixed::lemma_lerp_midpoint(a.y as int, b.y as int);
    crate::fixed::lemma_lerp_midpoint(a.z as int, b.z as int);
    crate::fixed::lemma_lerp_in_interval(a.x as int, b.x as int, 1, 2);
    crate::fixed::lemma_lerp_in_interval(a.y as int, b.y as int, 1, 2);
    crate::fixed::lemma_lerp_in_interval(a.z as int, b.z as int, 1, 2);
}

} // verus!
