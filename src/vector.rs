//! Three-component fixed-point vectors.

use vstd::prelude::*;
use crate::fixed::{fmul, fx_mul, in_i64};

verus! {

/// A point or direction in world space, each component in fixed point.
#[derive(Clone, Copy, Debug, PartialEq, Eq, Structural)]
pub struct Vec3i {
    pub x: i64,
    pub y: i64,
    pub z: i64,
}

/// The mathematical model of a vector: its three components as integers.
pub type V3 = (int, int, int);

impl View for Vec3i {
    type V = V3;

    open spec fn view(&self) -> V3 {
        (self.x as int, self.y as int, self.z as int)
    }
}

pub open spec fn v_zero() -> V3 {
    (0, 0, 0)
}

pub open spec fn v_add(a: V3, b: V3) -> V3 {
    (a.0 + b.0, a.1 + b.1, a.2 + b.2)
}

pub open spec fn v_sub(a: V3, b: V3) -> V3 {
    (a.0 - b.0, a.1 - b.1, a.2 - b.2)
}

pub open spec fn v_neg(a: V3) -> V3 {
    (-a.0, -a.1, -a.2)
}

/// Each component multiplied by the fixed-point scalar `s`.
pub open spec fn v_scale(a: V3, s: int) -> V3 {
    (fmul(a.0, s), fmul(a.1, s), fmul(a.2, s))
}

/// The cross product `a × b`.
pub open spec fn v_cross(a: V3, b: V3) -> V3 {
    (
        fmul(a.1, b.2) - fmul(a.2, b.1),
        fmul(a.2, b.0) - fmul(a.0, b.2),
        fmul(a.0, b.1) - fmul(a.1, b.0),
    )
}

/// Every component lies in `[-b, b]`.
pub open spec fn v_within(a: V3, b: int) -> bool {
    -b <= a.0 <= b && -b <= a.1 <= b && -b <= a.2 <= b
}

pub open spec fn v_fits(a: V3) -> bool {
    in_i64(a.0) && in_i64(a.1) && in_i64(a.2)
}

impl Vec3i {
    pub fn new(x: i64, y: i64, z: i64) -> (r: Vec3i)
        ensures
            r@ == (x as int, y as int, z as int),
    {
        Vec3i { x, y, z }
    }

    pub fn zero() -> (r: Vec3i)
        ensures
            r@ == v_zero(),
    {
        Vec3i { x: 0, y: 0, z: 0 }
    }

    pub fn add(&self, o: &Vec3i) -> (r: Vec3i)
        requires
            v_fits(v_add(self@, o@)),
        ensures
            r@ == v_add(self@, o@),
    {
        Vec3i { x: self.x + o.x, y: self.y + o.y, z: self.z + o.z }
    }

    pub fn sub(&self, o: &Vec3i) -> (r: Vec3i)
        requires
            v_fits(v_sub(self@, o@)),
        ensures
            r@ == v_sub(self@, o@),
    {
        Vec3i { x: self.x - o.x, y: self.y - o.y, z: self.z - o.z }
    }

    pub fn neg(&self) -> (r: Vec3i)
        requires
            v_fits(v_neg(self@)),
        ensures
            r@ == v_neg(self@),
    {
        Vec3i { x: -self.x, y: -self.y, z: -self.z }
    }

    pub fn scale(&self, s: i64) -> (r: Vec3i)
        requires
            v_fits(v_scale(self@, s as int)),
        ensures
            r@ == v_scale(self@, s as int),
    {
        Vec3i { x: fx_mul(self.x, s), y: fx_mul(self.y, s), z: fx_mul(self.z, s) }
    }

    pub fn cross(&self, o: &Vec3i) -> (r: Vec3i)
        requires
            v_within(self@, 0x100_0000),
            v_within(o@, 0x4000_0000_0000),
        ensures
            r@ == v_cross(self@, o@),
    {
        proof {
            crate::fixed::lemma_fmul_bound(self.y as int, o.z as int, 0x100_0000, 0x4000_0000_0000);
            crate::fixed::lemma_fmul_bound(self.z as int, o.y as int, 0x100_0000, 0x4000_0000_0000);
            crate::fixed::lemma_fmul_bound(self.z as int, o.x as int, 0x100_0000, 0x4000_0000_0000);
            crate::fixed::lemma_fmul_bound(self.x as int, o.z as int, 0x100_0000, 0x4000_0000_0000);
            crate::fixed::lemma_fmul_bound(self.x as int, o.y as int, 0x100_0000, 0x4000_0000_0000);
            crate::fixed::lemma_fmul_bound(self.y as int, o.x as int, 0x100_0000, 0x4000_0000_0000);
        }
        let x = fx_mul(self.y, o.z) - fx_mul(self.z, o.y);
        let y = fx_mul(self.z, o.x) - fx_mul(self.x, o.z);
        let z = fx_mul(self.x, o.y) - fx_mul(self.y, o.x);
        Vec3i { x, y, z }
    }
}

/// An orientation as a fixed-point unit quaternion. Nothing here computes with
/// it: it is carried from the chassis to the heading reference.
#[derive(Clone, Copy, Debug, PartialEq, Eq, Structural)]
pub struct Rotation {
    pub x: i64,
    pub y: i64,
    pub z: i64,
    pub w: i64,
}

/// A position with an orientation.
#[derive(Clone, Copy, Debug, PartialEq, Eq, Structural)]
pub struct Pose {
    pub translation: Vec3i,
    pub rotation: Rotation,
}

} // verus!
