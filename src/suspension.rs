//! Ground probes, the spring-damper force of each wheel, and the total force
//! and torque that the suspension puts on the chassis in one tick.

use vstd::prelude::*;
use crate::chassis::{
    extents_ok, lemma_axis_scale_bound, mount_point, ChassisFrame, WHEEL_COUNT,
};
use crate::fixed::{
    abs, fmul, fx_mul, lemma_fmul_bound, lemma_fmul_monotone, lemma_fmul_zero, lemma_tdiv_bound,
    tdiv, DT_MAX, EXTENT_MAX, GAIN_MAX, POS_MAX, SCALE, SPEED_MAX,
};
use crate::vector::{v_add, v_cross, v_scale, v_sub, v_within, v_zero, Pose, Vec3i, V3};

verus! {

/// Spring stiffness of each wheel's suspension.
pub const SUSPENSION_STIFFNESS: i64 = 15_000_000;

/// Damping of each wheel's suspension against vertical speed.
pub const SUSPENSION_DAMPING: i64 = 1_200_000;

/// Height of a wheel's centre above the ground it touches.
pub const WHEEL_CLEARANCE: i64 = 200;

/// How far above the mount point a probe starts.
pub const PROBE_LIFT: i64 = 10;

/// Largest magnitude of one wheel's spring force in a tick.
pub const WHEEL_FORCE_MAX: i64 = 0x20_0000_0000;

/// Largest magnitude of a component of one wheel's torque in a tick.
pub const WHEEL_TORQUE_MAX: i64 = 0x1_0000_0000_0000;

/// One wheel: whether its last probe touched the ground, and the scene entity
/// that shows it.
#[derive(Clone, Copy, Debug, PartialEq, Eq, Structural)]
pub struct WheelInfo {
    pub hit: bool,
    pub entity: u64,
}

/// The suspension rig of the vehicle.
pub struct CarPhysics {
    pub plane: Vec3i,
    /// Half-extents of the chassis box: half track, ride height, half wheelbase.
    pub car_size: Vec3i,
    /// Front-right, front-left, back-right, back-left.
    pub wheel_infos: Vec<WheelInfo>,
    /// The heading reference that the camera follows.
    pub car_transform_camera: Pose,
    pub wheels_animation_speed: i64,
    pub wheels_stationary_animation_speed: i64,
    /// Length of each ground probe: the suspension travel.
    pub suspension_travel: i64,
}

/// The ray that senses the ground under one wheel.
#[derive(Clone, Copy, Debug, PartialEq, Eq, Structural)]
pub struct ProbeRay {
    pub origin: Vec3i,
    pub direction: Vec3i,
    pub max_distance: i64,
}

/// Where a probe met static ground: its distance along the ray and the point.
#[derive(Clone, Copy, Debug, PartialEq, Eq, Structural)]
pub struct ProbeHit {
    pub distance: i64,
    pub point: Vec3i,
}

/// What the suspension decides in one tick: the force and torque on the chassis,
/// where each wheel is drawn, and the blend factor of the rear wheels' rotation
/// toward the chassis orientation.
pub struct SuspensionOutput {
    pub force: Vec3i,
    pub torque: Vec3i,
    pub wheel_targets: Vec<Vec3i>,
    pub rear_alignment: i64,
}

impl CarPhysics {
    pub open spec fn wf(&self) -> bool {
        &&& self.wheel_infos.len() == WHEEL_COUNT
        &&& extents_ok(self.car_size@)
        &&& WHEEL_CLEARANCE <= self.suspension_travel <= EXTENT_MAX
        &&& 0 <= self.wheels_stationary_animation_speed <= GAIN_MAX
    }
}

/// A probe result that a cast of at most `travel` can give.
pub open spec fn hit_ok(h: Option<ProbeHit>, travel: int) -> bool {
    match h {
        Some(p) => 0 <= p.distance <= travel && v_within(p.point@, POS_MAX as int),
        None => true,
    }
}

/// Share of the travel used up by a contact at `distance`: one minus the
/// distance over the travel.
pub open spec fn compression(distance: int, travel: int) -> int {
    SCALE - tdiv(distance * SCALE, travel)
}

/// Spring-damper force along the chassis up axis for one tick.
pub open spec fn spring_force(compression: int, vertical_speed: int, dt: int) -> int {
    fmul(
        fmul(compression, SUSPENSION_STIFFNESS as int) - fmul(
            SUSPENSION_DAMPING as int,
            vertical_speed,
        ),
        dt,
    )
}

pub open spec fn wheel_force(f: ChassisFrame, travel: int, vy: int, dt: int, h: Option<ProbeHit>) -> V3 {
    match h {
        Some(p) => v_scale(f.up@, spring_force(compression(p.distance as int, travel), vy, dt)),
        None => v_zero(),
    }
}

/// The force of a wheel applied at its mount point turns the chassis about its
/// centre.
pub open spec fn wheel_torque(
    f: ChassisFrame,
    half: V3,
    travel: int,
    vy: int,
    dt: int,
    h: Option<ProbeHit>,
    i: int,
) -> V3 {
    match h {
        Some(p) => v_cross(v_sub(mount_point(f, half, i), f.position@), wheel_force(f, travel, vy, dt, h)),
        None => v_zero(),
    }
}

/// Where wheel `i` is drawn: above the contact by the clearance, or hanging at
/// the end of its travel.
pub open spec fn wheel_target(f: ChassisFrame, half: V3, travel: int, h: Option<ProbeHit>, i: int) -> V3 {
    match h {
        Some(p) => v_add(p.point@, v_scale(f.up@, WHEEL_CLEARANCE as int)),
        None => v_sub(mount_point(f, half, i), v_scale(f.up@, travel - WHEEL_CLEARANCE)),
    }
}

pub open spec fn force_sum(
    f: ChassisFrame,
    travel: int,
    vy: int,
    dt: int,
    hits: Seq<Option<ProbeHit>>,
    n: nat,
) -> V3
    decreases n,
{
    if n == 0 {
        v_zero()
    } else {
        v_add(
            force_sum(f, travel, vy, dt, hits, (n - 1) as nat),
            wheel_force(f, travel, vy, dt, hits[n - 1]),
        )
    }
}

pub open spec fn torque_sum(
    f: ChassisFrame,
    half: V3,
    travel: int,
    vy: int,
    dt: int,
    hits: Seq<Option<ProbeHit>>,
    n: nat,
) -> V3
    decreases n,
{
    if n == 0 {
        v_zero()
    } else {
        v_add(
            torque_sum(f, half, travel, vy, dt, hits, (n - 1) as nat),
            wheel_torque(f, half, travel, vy, dt, hits[n - 1], n - 1),
        )
    }
}

/// The ground probe of wheel `i`: from just above its mount point, straight
/// down the chassis, as long as the travel.
pub open spec fn probe_ray(f: ChassisFrame, half: V3, travel: int, i: int) -> (V3, V3, int) {
    (
        v_add(mount_point(f, half, i), v_scale(f.up@, PROBE_LIFT as int)),
        (-f.up.x, -f.up.y, -f.up.z),
        travel,
    )
}

/// The rear pair turns its rotation toward the chassis; the front pair keeps its own.
pub open spec fn aligns_rotation(i: int) -> bool {
    i == 2 || i == 3
}

/// Whether wheel `i` turns its rotation toward the chassis each tick.
pub fn wheel_aligns_rotation(i: usize) -> (r: bool)
    ensures
        r == aligns_rotation(i as int),
{
    i == 2 || i == 3
}

/// More compression never gives less force, at a fixed vertical speed.
pub proof fn lemma_force_monotone_in_compression(c1: int, c2: int, vy: int, dt: int)
    requires
        c1 <= c2,
        dt >= 0,
    ensures
        spring_force(c1, vy, dt) <= spring_force(c2, vy, dt),
{
    lemma_fmul_monotone(c1, c2, SUSPENSION_STIFFNESS as int);
    let d = fmul(SUSPENSION_DAMPING as int, vy);
    lemma_fmul_monotone(
        fmul(c1, SUSPENSION_STIFFNESS as int) - d,
        fmul(c2, SUSPENSION_STIFFNESS as int) - d,
        dt,
    );
}

/// A contact at the very end of the travel, with no vertical speed, is not
/// compressed and pushes with no force.
pub proof fn lemma_rest_length_no_force(travel: int, dt: int)
    requires
        travel > 0,
    ensures
        compression(travel, travel) == 0,
        spring_force(compression(travel, travel), 0, dt) == 0,
{
    assert(travel * SCALE / travel == SCALE) by (nonlinear_arith)
        requires
            travel > 0,
    ;
    lemma_fmul_zero(SUSPENSION_STIFFNESS as int);
    lemma_fmul_zero(SUSPENSION_DAMPING as int);
    lemma_fmul_zero(dt);
}

/// When no probe touches the ground, the suspension puts no force and no
/// torque on the chassis.
pub proof fn lemma_all_miss_no_force(
    f: ChassisFrame,
    half: V3,
    travel: int,
    vy: int,
    dt: int,
    hits: Seq<Option<ProbeHit>>,
)
    requires
        hits.len() == WHEEL_COUNT,
        forall|i: int| 0 <= i < hits.len() ==> hits[i] is None,
    ensures
        force_sum(f, travel, vy, dt, hits, 4) == v_zero(),
        torque_sum(f, half, travel, vy, dt, hits, 4) == v_zero(),
{
    reveal_with_fuel(force_sum, 5);
    reveal_with_fuel(torque_sum, 5);
}

/// Bounds of a wheel's spring force.
proof fn lemma_spring_force_bound(c: int, vy: int, dt: int)
    requires
        0 <= c <= SCALE,
        abs(vy) <= SPEED_MAX,
        0 <= dt <= DT_MAX,
    ensures
        abs(spring_force(c, vy, dt)) <= WHEEL_FORCE_MAX,
{
    lemma_fmul_bound(c, SUSPENSION_STIFFNESS as int, SCALE as int, SUSPENSION_STIFFNESS as int);
    lemma_fmul_bound(SUSPENSION_DAMPING as int, vy, SUSPENSION_DAMPING as int, SPEED_MAX as int);
    let inner = fmul(c, SUSPENSION_STIFFNESS as int) - fmul(SUSPENSION_DAMPING as int, vy);
    lemma_fmul_bound(inner, dt, 20_200_000_000, DT_MAX as int);
}

proof fn lemma_compression_range(distance: int, travel: int)
    requires
        0 <= distance <= travel,
        travel > 0,
    ensures
        0 <= compression(distance, travel) <= SCALE,
{
    lemma_tdiv_bound(distance * SCALE, travel);
    assert(distance * SCALE <= travel * SCALE) by (nonlinear_arith)
        requires
            distance <= travel,
    ;
    assert(travel * SCALE / travel == SCALE) by (nonlinear_arith)
        requires
            travel > 0,
    ;
    vstd::arithmetic::div_mod::lemma_div_is_ordered(distance * SCALE, travel * SCALE, travel);
}

/// Share of the travel used up by a contact at `distance`.
pub fn compression_of(distance: i64, travel: i64) -> (r: i64)
    requires
        0 <= distance <= travel,
        0 < travel <= EXTENT_MAX,
    ensures
        r == compression(distance as int, travel as int),
        0 <= r <= SCALE,
{
    proof {
        lemma_compression_range(distance as int, travel as int);
    }
    let used: i64 = (distance * SCALE) / travel;
    SCALE - used
}

/// Spring-damper force of one grounded wheel for a tick of length `dt`.
pub fn spring_force_of(compression: i64, vertical_speed: i64, dt: i64) -> (r: i64)
    requires
        0 <= compression <= SCALE,
        -SPEED_MAX <= vertical_speed <= SPEED_MAX,
        0 <= dt <= DT_MAX,
    ensures
        r == spring_force(compression as int, vertical_speed as int, dt as int),
        -WHEEL_FORCE_MAX <= r <= WHEEL_FORCE_MAX,
{
    proof {
        lemma_spring_force_bound(compression as int, vertical_speed as int, dt as int);
        lemma_fmul_bound(compression as int, SUSPENSION_STIFFNESS as int, SCALE as int, SUSPENSION_STIFFNESS as int);
        lemma_fmul_bound(SUSPENSION_DAMPING as int, vertical_speed as int, SUSPENSION_DAMPING as int, SPEED_MAX as int);
    }
    let spring = fx_mul(compression, SUSPENSION_STIFFNESS);
    let damper = fx_mul(SUSPENSION_DAMPING, vertical_speed);
    fx_mul(spring - damper, dt)
}

proof fn lemma_wheel_bounds(f: ChassisFrame, half: V3, travel: int, vy: int, dt: int, h: Option<ProbeHit>, i: int)
    requires
        f.wf(),
        extents_ok(half),
        WHEEL_CLEARANCE <= travel <= EXTENT_MAX,
        hit_ok(h, travel),
        abs(vy) <= SPEED_MAX,
        0 <= dt <= DT_MAX,
    ensures
        v_within(wheel_force(f, travel, vy, dt, h), WHEEL_FORCE_MAX as int),
        v_within(wheel_torque(f, half, travel, vy, dt, h, i), WHEEL_TORQUE_MAX as int),
{
    crate::chassis::lemma_mount_point_bounds(f, half, i);
    if let Some(p) = h {
        lemma_compression_range(p.distance as int, travel);
        let m = spring_force(compression(p.distance as int, travel), vy, dt);
        lemma_spring_force_bound(compression(p.distance as int, travel), vy, dt);
        let s = SCALE as int;
        let w = WHEEL_FORCE_MAX as int;
        lemma_fmul_bound(f.up.x as int, m, s, w);
        lemma_fmul_bound(f.up.y as int, m, s, w);
        lemma_fmul_bound(f.up.z as int, m, s, w);
        let l = v_sub(mount_point(f, half, i), f.position@);
        let fo = wheel_force(f, travel, vy, dt, h);
        let e = 3 * EXTENT_MAX;
        lemma_fmul_bound(l.1, fo.2, e, w);
        lemma_fmul_bound(l.2, fo.1, e, w);
        lemma_fmul_bound(l.2, fo.0, e, w);
        lemma_fmul_bound(l.0, fo.2, e, w);
        lemma_fmul_bound(l.0, fo.1, e, w);
        lemma_fmul_bound(l.1, fo.0, e, w);
    }
}

impl CarPhysics {
    /// The ground probe of wheel `i`.
    pub fn probe_ray(&self, frame: &ChassisFrame, i: usize) -> (r: ProbeRay)
        requires
            self.wf(),
            frame.wf(),
            i < WHEEL_COUNT,
        ensures
            (r.origin@, r.direction@, r.max_distance as int) == probe_ray(
                *frame,
                self.car_size@,
                self.suspension_travel as int,
                i as int,
            ),
    {
        let mount = frame.mount_point(&self.car_size, i);
        proof {
            lemma_axis_scale_bound(frame.up@, PROBE_LIFT as int);
        }
        let origin = mount.add(&frame.up.scale(PROBE_LIFT));
        let direction = Vec3i { x: -frame.up.x, y: -frame.up.y, z: -frame.up.z };
        ProbeRay { origin, direction, max_distance: self.suspension_travel }
    }

    /// Force, torque and drawn position of wheel `i`, given its probe result.
    fn wheel_step(
        &self,
        frame: &ChassisFrame,
        vertical_speed: i64,
        dt: i64,
        h: Option<ProbeHit>,
        i: usize,
    ) -> (r: (Vec3i, Vec3i, Vec3i))
        requires
            self.wf(),
            frame.wf(),
            i < WHEEL_COUNT,
            hit_ok(h, self.suspension_travel as int),
            -SPEED_MAX <= vertical_speed <= SPEED_MAX,
            0 <= dt <= DT_MAX,
        ensures
            r.0@ == wheel_force(*frame, self.suspension_travel as int, vertical_speed as int, dt as int, h),
            r.1@ == wheel_torque(
                *frame,
                self.car_size@,
                self.suspension_travel as int,
                vertical_speed as int,
                dt as int,
                h,
                i as int,
            ),
            r.2@ == wheel_target(*frame, self.car_size@, self.suspension_travel as int, h, i as int),
            v_within(r.0@, WHEEL_FORCE_MAX as int),
            v_within(r.1@, WHEEL_TORQUE_MAX as int),
    {
        proof {
            lemma_wheel_bounds(
                *frame,
                self.car_size@,
                self.suspension_travel as int,
                vertical_speed as int,
                dt as int,
                h,
                i as int,
            );
        }
        let mount = frame.mount_point(&self.car_size, i);
        match h {
            Some(p) => {
                let c = compression_of(p.distance, self.suspension_travel);
                let magnitude = spring_force_of(c, vertical_speed, dt);
                let force = frame.up.scale(magnitude);
                let lever = mount.sub(&frame.position);
                let torque = lever.cross(&force);
                proof {
                    lemma_axis_scale_bound(frame.up@, WHEEL_CLEARANCE as int);
                }
                let target = p.point.add(&frame.up.scale(WHEEL_CLEARANCE));
                (force, torque, target)
            },
            None => {
                proof {
                    lemma_axis_scale_bound(frame.up@, self.suspension_travel - WHEEL_CLEARANCE);
                }
                let drop = frame.up.scale(self.suspension_travel - WHEEL_CLEARANCE);
                (Vec3i::zero(), Vec3i::zero(), mount.sub(&drop))
            },
        }
    }
}

/// Runs the suspension for one tick: records which wheels touch the ground and
/// returns the total force and torque of the four springs, which replace those
/// of the last tick, and where each wheel is drawn.
pub fn update_car_suspension(
    car: &mut CarPhysics,
    frame: &ChassisFrame,
    vertical_speed: i64,
    dt: i64,
    hits: &Vec<Option<ProbeHit>>,
) -> (out: SuspensionOutput)
    requires
        old(car).wf(),
        frame.wf(),
        hits.len() == WHEEL_COUNT,
        forall|i: int| 0 <= i < hits.len() ==> hit_ok(#[trigger] hits[i], old(car).suspension_travel as int),
        -SPEED_MAX <= vertical_speed <= SPEED_MAX,
        0 <= dt <= DT_MAX,
    ensures
        final(car).wf(),
        forall|i: int| 0 <= i < WHEEL_COUNT ==> #[trigger] final(car).wheel_infos[i] == (WheelInfo {
            hit: hits[i] is Some,
            entity: old(car).wheel_infos[i].entity,
        }),
        final(car).plane == old(car).plane,
        final(car).car_size == old(car).car_size,
        final(car).car_transform_camera == old(car).car_transform_camera,
        final(car).wheels_animation_speed == old(car).wheels_animation_speed,
        final(car).wheels_stationary_animation_speed == old(car).wheels_stationary_animation_speed,
        final(car).suspension_travel == old(car).suspension_travel,
        out.force@ == force_sum(
            *frame,
            old(car).suspension_travel as int,
            vertical_speed as int,
            dt as int,
            hits@,
            4,
        ),
        out.torque@ == torque_sum(
            *frame,
            old(car).car_size@,
            old(car).suspension_travel as int,
            vertical_speed as int,
            dt as int,
            hits@,
            4,
        ),
        out.wheel_targets.len() == WHEEL_COUNT,
        forall|i: int| 0 <= i < WHEEL_COUNT ==> #[trigger] out.wheel_targets[i]@ == wheel_target(
            *frame,
            old(car).car_size@,
            old(car).suspension_travel as int,
            hits[i],
            i,
        ),
        out.rear_alignment == fmul(old(car).wheels_stationary_animation_speed as int, dt as int),
{
    let travel = car.suspension_travel;
    let ghost half = car.car_size@;
    let mut force = Vec3i::zero();
    let mut torque = Vec3i::zero();
    let mut infos: Vec<WheelInfo> = Vec::new();
    let mut targets: Vec<Vec3i> = Vec::new();
    let mut i: usize = 0;
    while i < WHEEL_COUNT
        invariant
            car.wf(),
            *car == *old(car),
            hits.len() == WHEEL_COUNT,
            forall|j: int| 0 <= j < hits.len() ==> hit_ok(#[trigger] hits[j], travel as int),
            travel == car.suspension_travel,
            half == car.car_size@,
            -SPEED_MAX <= vertical_speed <= SPEED_MAX,
            0 <= dt <= DT_MAX,
            frame.wf(),
            i <= WHEEL_COUNT,
            infos.len() == i,
            targets.len() == i,
            force@ == force_sum(*frame, travel as int, vertical_speed as int, dt as int, hits@, i as nat),
            torque@ == torque_sum(*frame, half, travel as int, vertical_speed as int, dt as int, hits@, i as nat),
            v_within(force@, i * WHEEL_FORCE_MAX),
            v_within(torque@, i * WHEEL_TORQUE_MAX),
            forall|j: int| 0 <= j < i ==> #[trigger] infos[j] == (WheelInfo {
                hit: hits[j] is Some,
                entity: car.wheel_infos[j].entity,
            }),
            forall|j: int| 0 <= j < i ==> #[trigger] targets[j]@ == wheel_target(*frame, half, travel as int, hits[j], j),
        decreases WHEEL_COUNT - i,
    {
        let h = hits[i];
        let (wf, wt, target) = car.wheel_step(frame, vertical_speed, dt, h, i);
        force = force.add(&wf);
        torque = torque.add(&wt);
        infos.push(WheelInfo { hit: h.is_some(), entity: car.wheel_infos[i].entity });
        targets.push(target);
        i = i + 1;
    }
    proof {
        lemma_fmul_bound(car.wheels_stationary_animation_speed as int, dt as int, GAIN_MAX as int, DT_MAX as int);
    }
    let rear_alignment = fx_mul(car.wheels_stationary_animation_speed, dt);
    car.wheel_infos = infos;
    SuspensionOutput { force, torque, wheel_targets: targets, rear_alignment }
}

} // verus!
