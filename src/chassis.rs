//! The chassis frame and the four wheel mount points.

use vstd::prelude::*;
use crate::fixed::{lemma_fmul_bound, lemma_fmul_neg, EXTENT_MAX, POS_MAX, SCALE};
use crate::vector::{v_add, v_neg, v_scale, v_sub, v_within, Vec3i, V3};

verus! {

/// Number of wheels on the chassis, in the order front-right, front-left,
/// back-right, back-left.
pub const WHEEL_COUNT: usize = 4;

/// Where the chassis is and which way its axes point, in world space.
#[derive(Clone, Copy, Debug, PartialEq, Eq, Structural)]
pub struct ChassisFrame {
    pub position: Vec3i,
    pub right: Vec3i,
    pub up: Vec3i,
    pub forward: Vec3i,
}

/// An axis of a rotation: no component exceeds one unit.
pub open spec fn unit_axis(a: V3) -> bool {
    v_within(a, SCALE as int)
}

impl ChassisFrame {
    pub open spec fn wf(&self) -> bool {
        &&& v_within(self.position@, POS_MAX as int)
        &&& unit_axis(self.right@)
        &&& unit_axis(self.up@)
        &&& unit_axis(self.forward@)
    }
}

/// Half-extents of the chassis box within the supported range.
pub open spec fn extents_ok(half: V3) -> bool {
    0 <= half.0 <= EXTENT_MAX && 0 <= half.1 <= EXTENT_MAX && 0 <= half.2 <= EXTENT_MAX
}

pub open spec fn is_front(i: int) -> bool {
    i == 0 || i == 1
}

pub open spec fn is_right(i: int) -> bool {
    i == 0 || i == 2
}

/// The mount point of wheel `i` in chassis coordinates (right, up, forward):
/// on the bottom face, at the front or back end, on the right or left side.
pub open spec fn local_mount(half: V3, i: int) -> V3 {
    (
        if is_right(i) { half.0 } else { -half.0 },
        -half.1,
        if is_front(i) { half.2 } else { -half.2 },
    )
}

/// A point given in chassis coordinates, as an offset in world space.
pub open spec fn to_world(f: ChassisFrame, l: V3) -> V3 {
    v_add(v_add(v_scale(f.right@, l.0), v_scale(f.up@, l.1)), v_scale(f.forward@, l.2))
}

/// The rest mount point of wheel `i`: the chassis origin, moved down by the ride
/// height, forward or back by the half wheelbase, right or left by the half track.
pub open spec fn mount_point(f: ChassisFrame, half: V3, i: int) -> V3 {
    let down = v_neg(f.up@);
    let along = if is_front(i) { f.forward@ } else { v_neg(f.forward@) };
    let side = if is_right(i) { f.right@ } else { v_neg(f.right@) };
    v_add(v_add(f.position@, v_add(v_scale(down, half.1), v_scale(along, half.2))), v_scale(side, half.0))
}

/// A quarter turn about the world's vertical axis.
pub open spec fn quarter_turn(v: V3) -> V3 {
    (v.2, v.1, -v.0)
}

pub open spec fn turned(f: ChassisFrame) -> ChassisFrame {
    ChassisFrame {
        position: Vec3i { x: f.position.z, y: f.position.y, z: (-f.position.x) as i64 },
        right: Vec3i { x: f.right.z, y: f.right.y, z: (-f.right.x) as i64 },
        up: Vec3i { x: f.up.z, y: f.up.y, z: (-f.up.x) as i64 },
        forward: Vec3i { x: f.forward.z, y: f.forward.y, z: (-f.forward.x) as i64 },
    }
}

proof fn lemma_scale_neg(a: V3, s: int)
    ensures
        v_scale(v_neg(a), s) == v_neg(v_scale(a, s)),
        v_scale(a, -s) == v_neg(v_scale(a, s)),
{
    lemma_fmul_neg(a.0, s);
    lemma_fmul_neg(a.1, s);
    lemma_fmul_neg(a.2, s);
}

/// Each mount point is the chassis origin plus a fixed offset in chassis
/// coordinates: below the centre, ahead of it exactly for the front pair and to
/// its right exactly for the right pair, whatever the orientation.
pub proof fn lemma_mount_point_on_face(f: ChassisFrame, half: V3, i: int)
    requires
        0 <= i < 4,
        extents_ok(half),
        half.0 > 0 && half.1 > 0 && half.2 > 0,
    ensures
        mount_point(f, half, i) == v_add(f.position@, to_world(f, local_mount(half, i))),
        local_mount(half, i).1 < 0,
        local_mount(half, i).0 > 0 <==> is_right(i),
        local_mount(half, i).2 > 0 <==> is_front(i),
{
    lemma_scale_neg(f.up@, half.1);
    lemma_scale_neg(f.forward@, half.2);
    lemma_scale_neg(f.right@, half.0);
}

/// Turning the chassis a quarter turn about the vertical turns each of its
/// mount points with it.
pub proof fn lemma_mount_point_turns_with_chassis(f: ChassisFrame, half: V3, i: int)
    requires
        f.wf(),
        0 <= i < 4,
    ensures
        mount_point(turned(f), half, i) == quarter_turn(mount_point(f, half, i)),
{
    lemma_fmul_neg(f.up.x as int, half.1);
    lemma_fmul_neg(f.forward.x as int, half.2);
    lemma_fmul_neg(f.right.x as int, half.0);
    lemma_fmul_neg(-f.up.x as int, half.1);
    lemma_fmul_neg(-f.forward.x as int, half.2);
    lemma_fmul_neg(-f.right.x as int, half.0);
}

/// Bounds of a mount point and of its offset from the chassis origin.
pub proof fn lemma_mount_point_bounds(f: ChassisFrame, half: V3, i: int)
    requires
        f.wf(),
        extents_ok(half),
    ensures
        v_within(v_sub(mount_point(f, half, i), f.position@), 3 * EXTENT_MAX),
        v_within(mount_point(f, half, i), POS_MAX + 3 * EXTENT_MAX),
{
    let s = SCALE as int;
    lemma_fmul_bound(-f.up.x, half.1, s, EXTENT_MAX as int);
    lemma_fmul_bound(-f.up.y, half.1, s, EXTENT_MAX as int);
    lemma_fmul_bound(-f.up.z, half.1, s, EXTENT_MAX as int);
    lemma_fmul_bound(f.forward.x as int, half.2, s, EXTENT_MAX as int);
    lemma_fmul_bound(f.forward.y as int, half.2, s, EXTENT_MAX as int);
    lemma_fmul_bound(f.forward.z as int, half.2, s, EXTENT_MAX as int);
    lemma_fmul_bound(-f.forward.x, half.2, s, EXTENT_MAX as int);
    lemma_fmul_bound(-f.forward.y, half.2, s, EXTENT_MAX as int);
    lemma_fmul_bound(-f.forward.z, half.2, s, EXTENT_MAX as int);
    lemma_fmul_bound(f.right.x as int, half.0, s, EXTENT_MAX as int);
    lemma_fmul_bound(f.right.y as int, half.0, s, EXTENT_MAX as int);
    lemma_fmul_bound(f.right.z as int, half.0, s, EXTENT_MAX as int);
    lemma_fmul_bound(-f.right.x, half.0, s, EXTENT_MAX as int);
    lemma_fmul_bound(-f.right.y, half.0, s, EXTENT_MAX as int);
    lemma_fmul_bound(-f.right.z, half.0, s, EXTENT_MAX as int);
}

/// A unit axis scaled by a length is no longer than the length.
pub proof fn lemma_axis_scale_bound(a: V3, h: int)
    requires
        unit_axis(a),
        0 <= h <= EXTENT_MAX,
    ensures
        v_within(v_scale(a, h), h),
{
    lemma_fmul_bound(a.0, h, SCALE as int, h);
    lemma_fmul_bound(a.1, h, SCALE as int, h);
    lemma_fmul_bound(a.2, h, SCALE as int, h);
}

impl ChassisFrame {
    /// The rest mount point of wheel `i`.
    pub fn mount_point(&self, half: &Vec3i, i: usize) -> (r: Vec3i)
        requires
            self.wf(),
            extents_ok(half@),
            i < WHEEL_COUNT,
        ensures
            r@ == mount_point(*self, half@, i as int),
            v_within(v_sub(r@, self.position@), 3 * EXTENT_MAX),
            v_within(r@, POS_MAX + 3 * EXTENT_MAX),
    {
        proof {
            lemma_mount_point_bounds(*self, half@, i as int);
        }
        let down = Vec3i { x: -self.up.x, y: -self.up.y, z: -self.up.z };
        let along = if i == 0 || i == 1 {
            self.forward
        } else {
            Vec3i { x: -self.forward.x, y: -self.forward.y, z: -self.forward.z }
        };
        let side = if i == 0 || i == 2 {
            self.right
        } else {
            Vec3i { x: -self.right.x, y: -self.right.y, z: -self.right.z }
        };
        proof {
            lemma_axis_scale_bound(down@, half.y as int);
            lemma_axis_scale_bound(along@, half.z as int);
            lemma_axis_scale_bound(side@, half.x as int);
        }
        let offset = down.scale(half.y).add(&along.scale(half.z));
        self.position.add(&offset).add(&side.scale(half.x))
    }
}

} // verus!
