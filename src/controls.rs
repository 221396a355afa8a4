//! Player input to drive force, steering torque and impulses, and the heading
//! reference that the camera follows.

use vstd::prelude::*;
use crate::chassis::ChassisFrame;
use crate::fixed::{fmul, fx_mul, lemma_fmul_bound, DT_MAX, GAIN_MAX, SCALE};
use crate::vector::{v_add, v_neg, v_scale, v_sub, v_zero, Pose, Rotation, Vec3i, V3};

verus! {

/// Upward impulse of a jump.
pub const JUMP_IMPULSE: i64 = 400_000;

/// Torque impulse about the forward axis that comes with a jump.
pub const JUMP_SPIN: i64 = 50_000;

/// Torque impulse about the left axis when the throttle is first pressed.
pub const THROTTLE_KICK: i64 = 100_000;

/// How far below the chassis the centre of mass is put, to keep it upright.
pub const CENTER_OF_MASS_DROP: i64 = 100_000;

/// One flag per logical key.
#[derive(Clone, Copy, Debug, PartialEq, Eq, Structural)]
pub struct KeySet {
    pub forward: bool,
    pub back: bool,
    pub left: bool,
    pub right: bool,
    pub jump: bool,
}

/// The keys held during this tick, and those pressed at its start.
#[derive(Clone, Copy, Debug, PartialEq, Eq, Structural)]
pub struct DriveInput {
    pub held: KeySet,
    pub pressed: KeySet,
}

impl KeySet {
    pub fn none() -> (r: KeySet)
        ensures
            !r.forward && !r.back && !r.left && !r.right && !r.jump,
    {
        KeySet { forward: false, back: false, left: false, right: false, jump: false }
    }

    /// The keys held now that were not held before.
    pub fn just_pressed(&self, before: &KeySet) -> (r: KeySet)
        ensures
            r.forward == (self.forward && !before.forward),
            r.back == (self.back && !before.back),
            r.left == (self.left && !before.left),
            r.right == (self.right && !before.right),
            r.jump == (self.jump && !before.jump),
    {
        KeySet {
            forward: self.forward && !before.forward,
            back: self.back && !before.back,
            left: self.left && !before.left,
            right: self.right && !before.right,
            jump: self.jump && !before.jump,
        }
    }
}

impl DriveInput {
    /// The input of a tick from the keys held in the last tick and in this one.
    pub fn from_levels(before: &KeySet, now: &KeySet) -> (r: DriveInput)
        ensures
            r.held == *now,
            r.pressed == now.just_pressed_spec(*before),
    {
        DriveInput { held: *now, pressed: now.just_pressed(before) }
    }
}

impl KeySet {
    pub open spec fn just_pressed_spec(self, before: KeySet) -> KeySet {
        KeySet {
            forward: self.forward && !before.forward,
            back: self.back && !before.back,
            left: self.left && !before.left,
            right: self.right && !before.right,
            jump: self.jump && !before.jump,
        }
    }
}

/// Whether the low centre of mass has been put on the body yet.
#[derive(Clone, Copy, Debug, PartialEq, Eq, Structural)]
pub enum MassSetup {
    Pending,
    Applied,
}

/// Drive tuning and state of the vehicle.
pub struct CarController {
    pub car_linear_damping: i64,
    /// The chassis orientation seen in the last tick.
    pub rotate_to_rotation: Rotation,
    /// Rate at which the heading reference turns toward the chassis.
    pub slerp_speed: i64,
    pub rotated_last_frame: bool,
    pub center_of_mass: MassSetup,
    /// Strength of the drive force.
    pub speed: i64,
    /// Strength of the steering torque.
    pub rotate_speed: i64,
}

impl CarController {
    pub open spec fn wf(&self) -> bool {
        0 <= self.speed <= GAIN_MAX && 0 <= self.rotate_speed <= GAIN_MAX && 0 <= self.slerp_speed
            <= GAIN_MAX
    }
}

/// What the controller puts on the body in one tick: force and torque added to
/// this tick's, the impulses of this tick, and the centre of mass to set, if any.
#[derive(Clone, Copy, Debug, PartialEq, Eq, Structural)]
pub struct DriveOutput {
    pub force: Vec3i,
    pub torque: Vec3i,
    pub impulse: Vec3i,
    pub torque_impulse: Vec3i,
    pub center_of_mass: Option<Vec3i>,
}

pub open spec fn when(on: bool, v: V3) -> V3 {
    if on {
        v
    } else {
        v_zero()
    }
}

/// Forward when the forward key is held, backward when the back key is.
pub open spec fn drive_force(f: ChassisFrame, held: KeySet, speed: int, dt: int) -> V3 {
    let push = v_scale(f.forward@, fmul(speed, dt));
    v_sub(when(held.forward, push), when(held.back, push))
}

/// About the chassis up axis: positive (to the left) for the left key, negative
/// for the right key.
pub open spec fn steer_torque(f: ChassisFrame, held: KeySet, rotate_speed: int, dt: int) -> V3 {
    let turn = v_scale(f.up@, fmul(rotate_speed, dt));
    v_sub(when(held.left, turn), when(held.right, turn))
}

pub open spec fn jump_impulse(pressed: KeySet) -> V3 {
    when(pressed.jump, (0, JUMP_IMPULSE as int, 0))
}

/// A spin about the forward axis on a jump, and a kick about the left axis on
/// each first press of the forward or back key.
pub open spec fn kick_torque(f: ChassisFrame, pressed: KeySet) -> V3 {
    let kick = v_scale(v_neg(f.right@), THROTTLE_KICK as int);
    v_add(
        v_add(when(pressed.jump, v_scale(f.forward@, JUMP_SPIN as int)), when(pressed.forward, kick)),
        when(pressed.back, kick),
    )
}

/// Share of the way from the heading reference to the chassis orientation
/// covered in a tick.
pub open spec fn heading_blend(slerp_speed: int, dt: int) -> int {
    fmul(slerp_speed, dt)
}

fn when_exec(on: bool, v: Vec3i) -> (r: Vec3i)
    ensures
        r@ == when(on, v@),
{
    if on {
        v
    } else {
        Vec3i::zero()
    }
}

/// Turns one tick of player input into what is put on the body. The first tick
/// also sets the low centre of mass, once for the life of the controller.
pub fn car_controls(ctrl: &mut CarController, frame: &ChassisFrame, input: &DriveInput, dt: i64) -> (out: DriveOutput)
    requires
        old(ctrl).wf(),
        frame.wf(),
        0 <= dt <= DT_MAX,
    ensures
        final(ctrl).center_of_mass == MassSetup::Applied,
        out.center_of_mass == (if old(ctrl).center_of_mass == MassSetup::Pending {
            Some(Vec3i { x: 0, y: (-CENTER_OF_MASS_DROP) as i64, z: 0 })
        } else {
            None::<Vec3i>
        }),
        final(ctrl).speed == old(ctrl).speed,
        final(ctrl).rotate_speed == old(ctrl).rotate_speed,
        final(ctrl).slerp_speed == old(ctrl).slerp_speed,
        final(ctrl).rotate_to_rotation == old(ctrl).rotate_to_rotation,
        final(ctrl).car_linear_damping == old(ctrl).car_linear_damping,
        final(ctrl).rotated_last_frame == old(ctrl).rotated_last_frame,
        out.force@ == drive_force(*frame, input.held, old(ctrl).speed as int, dt as int),
        out.torque@ == steer_torque(*frame, input.held, old(ctrl).rotate_speed as int, dt as int),
        out.impulse@ == jump_impulse(input.pressed),
        out.torque_impulse@ == kick_torque(*frame, input.pressed),
{
    let center_of_mass = match ctrl.center_of_mass {
        MassSetup::Pending => Some(Vec3i { x: 0, y: -CENTER_OF_MASS_DROP, z: 0 }),
        MassSetup::Applied => None,
    };
    ctrl.center_of_mass = MassSetup::Applied;
    proof {
        lemma_fmul_bound(ctrl.speed as int, dt as int, GAIN_MAX as int, DT_MAX as int);
        lemma_fmul_bound(ctrl.rotate_speed as int, dt as int, GAIN_MAX as int, DT_MAX as int);
        let p = fmul(ctrl.speed as int, dt as int);
        let q = fmul(ctrl.rotate_speed as int, dt as int);
        let b = 0x400_0000_0000;
        lemma_fmul_bound(frame.forward.x as int, p, SCALE as int, b);
        lemma_fmul_bound(frame.forward.y as int, p, SCALE as int, b);
        lemma_fmul_bound(frame.forward.z as int, p, SCALE as int, b);
        lemma_fmul_bound(frame.up.x as int, q, SCALE as int, b);
        lemma_fmul_bound(frame.up.y as int, q, SCALE as int, b);
        lemma_fmul_bound(frame.up.z as int, q, SCALE as int, b);
        lemma_fmul_bound(-frame.right.x, THROTTLE_KICK as int, SCALE as int, THROTTLE_KICK as int);
        lemma_fmul_bound(-frame.right.y, THROTTLE_KICK as int, SCALE as int, THROTTLE_KICK as int);
        lemma_fmul_bound(-frame.right.z, THROTTLE_KICK as int, SCALE as int, THROTTLE_KICK as int);
        lemma_fmul_bound(frame.forward.x as int, JUMP_SPIN as int, SCALE as int, JUMP_SPIN as int);
        lemma_fmul_bound(frame.forward.y as int, JUMP_SPIN as int, SCALE as int, JUMP_SPIN as int);
        lemma_fmul_bound(frame.forward.z as int, JUMP_SPIN as int, SCALE as int, JUMP_SPIN as int);
    }
    let push = frame.forward.scale(fx_mul(ctrl.speed, dt));
    let force = when_exec(input.held.forward, push).sub(&when_exec(input.held.back, push));
    let turn = frame.up.scale(fx_mul(ctrl.rotate_speed, dt));
    let torque = when_exec(input.held.left, turn).sub(&when_exec(input.held.right, turn));
    let impulse = when_exec(input.pressed.jump, Vec3i { x: 0, y: JUMP_IMPULSE, z: 0 });
    let left = Vec3i { x: -frame.right.x, y: -frame.right.y, z: -frame.right.z };
    let kick = left.scale(THROTTLE_KICK);
    let spin = when_exec(input.pressed.jump, frame.forward.scale(JUMP_SPIN));
    let torque_impulse = spin.add(&when_exec(input.pressed.forward, kick)).add(
        &when_exec(input.pressed.back, kick),
    );
    DriveOutput { force, torque, impulse, torque_impulse, center_of_mass }
}

/// Share of the way toward the chassis orientation that the heading reference
/// turns in a tick of length `dt`.
pub fn heading_blend_of(ctrl: &CarController, dt: i64) -> (r: i64)
    requires
        ctrl.wf(),
        0 <= dt <= DT_MAX,
    ensures
        r == heading_blend(ctrl.slerp_speed as int, dt as int),
{
    proof {
        lemma_fmul_bound(ctrl.slerp_speed as int, dt as int, GAIN_MAX as int, DT_MAX as int);
    }
    fx_mul(ctrl.slerp_speed, dt)
}

/// Moves the heading reference with the chassis: its position snaps to the
/// chassis, its orientation becomes `blended` (the reference turned toward the
/// chassis by the tick's blend), or the chassis orientation itself once the
/// blend covers the whole way.
pub fn update_heading_reference(
    ctrl: &mut CarController,
    reference: &mut Pose,
    chassis: &Pose,
    dt: i64,
    blended: Rotation,
)
    requires
        old(ctrl).wf(),
        0 <= dt <= DT_MAX,
    ensures
        final(ctrl).rotate_to_rotation == chassis.rotation,
        final(ctrl).speed == old(ctrl).speed,
        final(ctrl).rotate_speed == old(ctrl).rotate_speed,
        final(ctrl).slerp_speed == old(ctrl).slerp_speed,
        final(ctrl).center_of_mass == old(ctrl).center_of_mass,
        final(ctrl).car_linear_damping == old(ctrl).car_linear_damping,
        final(ctrl).rotated_last_frame == old(ctrl).rotated_last_frame,
        final(reference).translation == chassis.translation,
        final(reference).rotation == (if heading_blend(old(ctrl).slerp_speed as int, dt as int) >= SCALE {
            chassis.rotation
        } else {
            blended
        }),
{
    let t = heading_blend_of(ctrl, dt);
    ctrl.rotate_to_rotation = chassis.rotation;
    reference.translation = chassis.translation;
    reference.rotation = if t >= SCALE {
        chassis.rotation
    } else {
        blended
    };
}

} // verus!
