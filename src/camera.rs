//! The chase camera: a target behind the vehicle along the heading reference,
//! and a camera position that follows the target with a lag.

use vstd::prelude::*;
use crate::chassis::unit_axis;
use crate::fixed::{
    abs, fmul, fx_mul, lemma_fmul_bound, lemma_fmul_zero, tdiv, DT_MAX, EXTENT_MAX, POS_MAX, SCALE,
    SPEED_MAX,
};
use crate::vector::{v_add, v_scale, v_sub, v_within, v_zero, Pose, Vec3i, V3};

verus! {

/// How far above the trailing point the camera target is lifted.
pub const CAMERA_LIFT: i64 = 2000;

pub struct CameraFollow {
    /// Rate at which the camera closes on its target.
    pub camera_translation_speed: i64,
    /// The target pose of the camera, recomputed every tick.
    pub fake_transform: Pose,
    /// How far behind the vehicle the camera trails.
    pub distance_behind: i64,
}

impl CameraFollow {
    pub open spec fn wf(&self) -> bool {
        &&& 0 <= self.camera_translation_speed <= SPEED_MAX
        &&& 0 <= self.distance_behind <= EXTENT_MAX
    }
}

/// `r` is the integer square root of `n`.
pub open spec fn is_isqrt(n: int, r: int) -> bool {
    0 <= r && r * r <= n < (r + 1) * (r + 1)
}

pub open spec fn isqrt(n: int) -> int {
    choose|r: int| is_isqrt(n, r)
}

pub proof fn lemma_isqrt_unique(n: int, a: int, b: int)
    requires
        is_isqrt(n, a),
        is_isqrt(n, b),
    ensures
        a == b,
{
    if a < b {
        assert((a + 1) * (a + 1) <= b * b) by (nonlinear_arith)
            requires
                0 <= a + 1 <= b,
        ;
    } else if b < a {
        assert((b + 1) * (b + 1) <= a * a) by (nonlinear_arith)
            requires
                0 <= b + 1 <= a,
        ;
    }
}

/// The horizontal part of `v`, brought to unit length; nothing when `v` is vertical.
pub open spec fn flat_direction(v: V3) -> V3 {
    let len = isqrt(v.0 * v.0 + v.2 * v.2);
    if len == 0 {
        v_zero()
    } else {
        (tdiv(v.0 * SCALE, len), 0, tdiv(v.2 * SCALE, len))
    }
}

/// Where the camera aims to be: behind the vehicle along the horizontal part of
/// the heading reference's back axis, at the trailing distance, lifted a little.
pub open spec fn camera_target(car: V3, back: V3, distance: int) -> V3 {
    v_add(v_add(car, v_scale(flat_direction(back), distance)), (0, CAMERA_LIFT as int, 0))
}

/// The point a share `t` of the way from `a` to `b`.
pub open spec fn lerp(a: V3, b: V3, t: int) -> V3 {
    v_add(a, v_scale(v_sub(b, a), t))
}

/// A camera already at its target stays there, whatever the share of the way
/// it is asked to move.
pub proof fn lemma_camera_at_target_stays(p: V3, car: V3, back: V3, distance: int, t: int)
    requires
        p == camera_target(car, back, distance),
    ensures
        lerp(p, camera_target(car, back, distance), t) == p,
{
    lemma_fmul_zero(t);
}

fn isqrt_exec(n: i64) -> (r: i64)
    requires
        0 <= n <= 0x100_0000,
    ensures
        r == isqrt(n as int),
        is_isqrt(n as int, r as int),
        0 <= r <= 0x1000,
{
    let mut r: i64 = 0;
    let mut next_square: i64 = 1;
    while next_square <= n
        invariant
            0 <= r <= 0x1000,
            r * r <= n,
            next_square == (r + 1) * (r + 1),
            0 <= n <= 0x100_0000,
        decreases n - r,
    {
        proof {
            assert(r + 1 <= 0x1000) by (nonlinear_arith)
                requires
                    (r + 1) * (r + 1) <= n,
                    n <= 0x100_0000,
                    r >= 0,
            ;
            assert(r + 1 <= n) by (nonlinear_arith)
                requires
                    (r + 1) * (r + 1) <= n,
                    r >= 0,
            ;
            assert((r + 2) * (r + 2) == (r + 1) * (r + 1) + 2 * (r + 1) + 1) by (nonlinear_arith);
        }
        r = r + 1;
        next_square = next_square + 2 * r + 1;
    }
    proof {
        assert(is_isqrt(n as int, r as int));
        lemma_isqrt_unique(n as int, r as int, isqrt(n as int));
    }
    r
}

proof fn lemma_flat_component_bound(c: int, n: int, len: int)
    requires
        0 <= c * c <= n,
        is_isqrt(n, len),
        len > 0,
    ensures
        abs(tdiv(c * SCALE, len)) <= SCALE,
{
    assert(abs(c) <= len) by (nonlinear_arith)
        requires
            c * c <= n < (len + 1) * (len + 1),
            len >= 0,
    ;
    crate::fixed::lemma_tdiv_bound(c * SCALE, len);
    assert(abs(c * SCALE) <= len * SCALE) by (nonlinear_arith)
        requires
            abs(c) <= len,
    ;
    assert(len * SCALE / len == SCALE) by (nonlinear_arith)
        requires
            len > 0,
    ;
    vstd::arithmetic::div_mod::lemma_div_is_ordered(abs(c * SCALE), len * SCALE, len);
}

/// The horizontal part of a unit axis, at unit length.
pub fn flat_direction_of(v: &Vec3i) -> (r: Vec3i)
    requires
        unit_axis(v@),
    ensures
        r@ == flat_direction(v@),
        unit_axis(r@),
{
    assert(0 <= v.x * v.x <= 1_000_000 && 0 <= v.z * v.z <= 1_000_000) by (nonlinear_arith)
        requires
            -1000 <= v.x <= 1000,
            -1000 <= v.z <= 1000,
    ;
    let n = v.x * v.x + v.z * v.z;
    let len = isqrt_exec(n);
    if len == 0 {
        Vec3i::zero()
    } else {
        proof {
            assert(0 <= v.x * v.x && 0 <= v.z * v.z) by (nonlinear_arith);
            lemma_flat_component_bound(v.x as int, n as int, len as int);
            lemma_flat_component_bound(v.z as int, n as int, len as int);
        }
        let px = v.x * SCALE;
        let pz = v.z * SCALE;
        let x = if px >= 0 {
            px / len
        } else {
            -((-px) / len)
        };
        let z = if pz >= 0 {
            pz / len
        } else {
            -((-pz) / len)
        };
        Vec3i { x, y: 0, z }
    }
}

/// Moves the chase camera one tick: recomputes its target behind the vehicle
/// and moves the camera a share of the way there, the share being the
/// camera's speed times the tick.
pub fn camera_follow(
    cam: &mut CameraFollow,
    camera_translation: &mut Vec3i,
    car_position: &Vec3i,
    reference_back: &Vec3i,
    dt: i64,
)
    requires
        old(cam).wf(),
        unit_axis(reference_back@),
        v_within(car_position@, POS_MAX as int),
        v_within(old(camera_translation)@, POS_MAX as int),
        0 <= dt <= DT_MAX,
    ensures
        final(cam).camera_translation_speed == old(cam).camera_translation_speed,
        final(cam).distance_behind == old(cam).distance_behind,
        final(cam).fake_transform.rotation == old(cam).fake_transform.rotation,
        final(cam).fake_transform.translation@ == camera_target(
            car_position@,
            reference_back@,
            old(cam).distance_behind as int,
        ),
        final(camera_translation)@ == lerp(
            old(camera_translation)@,
            final(cam).fake_transform.translation@,
            fmul(old(cam).camera_translation_speed as int, dt as int),
        ),
{
    let dir = flat_direction_of(reference_back);
    proof {
        crate::chassis::lemma_axis_scale_bound(dir@, cam.distance_behind as int);
    }
    let behind = dir.scale(cam.distance_behind);
    let target = car_position.add(&behind).add(&Vec3i { x: 0, y: CAMERA_LIFT, z: 0 });
    cam.fake_transform.translation = target;
    proof {
        lemma_fmul_bound(cam.camera_translation_speed as int, dt as int, SPEED_MAX as int, DT_MAX as int);
    }
    let t = fx_mul(cam.camera_translation_speed, dt);
    let gap = target.sub(camera_translation);
    proof {
        let b = 0x300_0000_0000int;
        let tb = 0x1000_0000int;
        lemma_fmul_bound(gap.x as int, t as int, b, tb);
        lemma_fmul_bound(gap.y as int, t as int, b, tb);
        lemma_fmul_bound(gap.z as int, t as int, b, tb);
    }
    let step = gap.scale(t);
    *camera_translation = camera_translation.add(&step);
}

} // verus!
