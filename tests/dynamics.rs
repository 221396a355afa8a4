use car_dynamics::camera::{camera_follow, flat_direction_of, CameraFollow};
use car_dynamics::chassis::ChassisFrame;
use car_dynamics::coin::{neg_or_pos, sign_of_draw};
use car_dynamics::controls::{
    car_controls, heading_blend_of, update_heading_reference, CarController, DriveInput, KeySet,
    MassSetup,
};
use car_dynamics::hud::{map_setup_due, text_update_system, Completion, MapStatus, TimerText};
use car_dynamics::suspension::{
    compression_of, spring_force_of, update_car_suspension, CarPhysics, ProbeHit, WheelInfo,
};
use car_dynamics::vector::{Pose, Rotation, Vec3i};

fn v(x: i64, y: i64, z: i64) -> Vec3i {
    Vec3i::new(x, y, z)
}

fn level_frame(position: Vec3i) -> ChassisFrame {
    ChassisFrame {
        position,
        right: v(1000, 0, 0),
        up: v(0, 1000, 0),
        forward: v(0, 0, -1000),
    }
}

fn identity() -> Rotation {
    Rotation { x: 0, y: 0, z: 0, w: 1000 }
}

fn rig(half: Vec3i, travel: i64) -> CarPhysics {
    CarPhysics {
        plane: v(0, 0, 0),
        car_size: half,
        wheel_infos: (0..4u64).map(|e| WheelInfo { hit: false, entity: 10 + e }).collect(),
        car_transform_camera: Pose { translation: v(0, 0, 0), rotation: identity() },
        wheels_animation_speed: 3000,
        wheels_stationary_animation_speed: 10_000,
        suspension_travel: travel,
    }
}

fn controller() -> CarController {
    CarController {
        car_linear_damping: 500,
        rotate_to_rotation: identity(),
        slerp_speed: 5000,
        rotated_last_frame: false,
        center_of_mass: MassSetup::Pending,
        speed: 50_000_000,
        rotate_speed: 5_200_000,
    }
}

#[test]
fn level_chassis_on_flat_ground_pushes_straight_up() {
    let mut car = rig(v(500, 300, 700), 400);
    let frame = level_frame(v(0, 0, 0));
    let mounts: Vec<Vec3i> = (0..4).map(|i| frame.mount_point(&car.car_size, i)).collect();
    let hits: Vec<Option<ProbeHit>> = mounts
        .iter()
        .map(|m| Some(ProbeHit { distance: 110, point: v(m.x, -400, m.z) }))
        .collect();
    let out = update_car_suspension(&mut car, &frame, 0, 16, &hits);
    assert_eq!(compression_of(110, 400), 725);
    assert_eq!(out.force, v(0, 696_000, 0));
    assert_eq!(out.torque, v(0, 0, 0));
    assert!(car.wheel_infos.iter().all(|w| w.hit));
    assert_eq!(car.wheel_infos[3].entity, 13);
    assert_eq!(out.wheel_targets[0], v(500, -200, -700));
    assert_eq!(out.rear_alignment, 160);
}

#[test]
fn all_probes_missing_gives_no_force() {
    let mut car = rig(v(500, 300, 935), 200);
    car.wheel_infos[1].hit = true;
    let frame = level_frame(v(1000, 2000, 3000));
    let hits: Vec<Option<ProbeHit>> = vec![None, None, None, None];
    let out = update_car_suspension(&mut car, &frame, -5000, 16, &hits);
    assert_eq!(out.force, v(0, 0, 0));
    assert_eq!(out.torque, v(0, 0, 0));
    assert!(car.wheel_infos.iter().all(|w| !w.hit));
    // hanging wheels stay at their mount points when travel equals clearance
    assert_eq!(out.wheel_targets[2], v(1500, 1700, 3935));
}

#[test]
fn one_grounded_wheel_gives_torque() {
    let mut car = rig(v(500, 300, 700), 400);
    let frame = level_frame(v(0, 0, 0));
    let hits = vec![Some(ProbeHit { distance: 110, point: v(500, -400, -700) }), None, None, None];
    let out = update_car_suspension(&mut car, &frame, 0, 16, &hits);
    assert_eq!(out.force, v(0, 174_000, 0));
    assert_eq!(out.torque, v(121_800, 0, 87_000));
    assert!(car.wheel_infos[0].hit && !car.wheel_infos[1].hit);
}

#[test]
fn rest_length_probe_has_no_compression_or_force() {
    assert_eq!(compression_of(400, 400), 0);
    assert_eq!(spring_force_of(0, 0, 16), 0);
    assert_eq!(compression_of(0, 200), 1000);
}

#[test]
fn spring_force_grows_with_compression() {
    let mut last = i64::MIN;
    for c in [0, 100, 250, 500, 999, 1000] {
        let f = spring_force_of(c, 3000, 16);
        assert!(f >= last);
        last = f;
    }
    // (1 * 15000 - 1200 * 3) units, times 0.016 s
    assert_eq!(spring_force_of(1000, 3000, 16), 182_400);
}

#[test]
fn mount_points_sit_on_their_faces() {
    let half = v(500, 300, 935);
    let frame = level_frame(v(0, 1000, 0));
    assert_eq!(frame.mount_point(&half, 0), v(500, 700, -935));
    assert_eq!(frame.mount_point(&half, 1), v(-500, 700, -935));
    assert_eq!(frame.mount_point(&half, 2), v(500, 700, 935));
    assert_eq!(frame.mount_point(&half, 3), v(-500, 700, 935));
    // a quarter turn about the vertical turns each point with the chassis
    let turned = ChassisFrame {
        position: v(0, 1000, 0),
        right: v(0, 0, -1000),
        up: v(0, 1000, 0),
        forward: v(-1000, 0, 0),
    };
    for i in 0..4 {
        let p = frame.mount_point(&half, i);
        assert_eq!(turned.mount_point(&half, i), v(p.z, p.y, -p.x));
    }
}

#[test]
fn probe_starts_above_mount_and_points_down() {
    let car = rig(v(500, 300, 700), 200);
    let frame = level_frame(v(0, 0, 0));
    let ray = car.probe_ray(&frame, 3);
    assert_eq!(ray.origin, v(-500, -290, 700));
    assert_eq!(ray.direction, v(0, -1000, 0));
    assert_eq!(ray.max_distance, 200);
}

#[test]
fn throttle_press_then_hold() {
    let mut ctrl = controller();
    let frame = level_frame(v(0, 0, 0));
    let none = KeySet::none();
    let fwd = KeySet { forward: true, ..KeySet::none() };
    let first = car_controls(&mut ctrl, &frame, &DriveInput::from_levels(&none, &fwd), 16);
    assert_eq!(first.force, v(0, 0, -800_000));
    assert_eq!(first.torque_impulse, v(-100_000, 0, 0));
    for _ in 0..2 {
        let held = car_controls(&mut ctrl, &frame, &DriveInput::from_levels(&fwd, &fwd), 16);
        assert_eq!(held.force, v(0, 0, -800_000));
        assert_eq!(held.torque_impulse, v(0, 0, 0));
    }
}

#[test]
fn reverse_and_steering() {
    let mut ctrl = controller();
    let frame = level_frame(v(0, 0, 0));
    let keys = KeySet { back: true, left: true, ..KeySet::none() };
    let out = car_controls(&mut ctrl, &frame, &DriveInput { held: keys, pressed: KeySet::none() }, 16);
    assert_eq!(out.force, v(0, 0, 800_000));
    assert_eq!(out.torque, v(0, 83_200, 0));
    let both = KeySet { left: true, right: true, ..KeySet::none() };
    let out = car_controls(&mut ctrl, &frame, &DriveInput { held: both, pressed: KeySet::none() }, 16);
    assert_eq!(out.torque, v(0, 0, 0));
}

#[test]
fn jump_gives_one_impulse() {
    let mut ctrl = controller();
    let frame = level_frame(v(0, 0, 0));
    let none = KeySet::none();
    let jump = KeySet { jump: true, ..KeySet::none() };
    let first = car_controls(&mut ctrl, &frame, &DriveInput::from_levels(&none, &jump), 16);
    assert_eq!(first.impulse, v(0, 400_000, 0));
    assert_eq!(first.torque_impulse, v(0, 0, -50_000));
    let second = car_controls(&mut ctrl, &frame, &DriveInput::from_levels(&jump, &none), 16);
    assert_eq!(second.impulse, v(0, 0, 0));
    assert_eq!(second.torque_impulse, v(0, 0, 0));
}

#[test]
fn center_of_mass_is_set_once() {
    let mut ctrl = controller();
    let frame = level_frame(v(0, 0, 0));
    let input = DriveInput { held: KeySet::none(), pressed: KeySet::none() };
    let first = car_controls(&mut ctrl, &frame, &input, 16);
    assert_eq!(first.center_of_mass, Some(v(0, -100_000, 0)));
    assert_eq!(ctrl.center_of_mass, MassSetup::Applied);
    let second = car_controls(&mut ctrl, &frame, &input, 16);
    assert_eq!(second.center_of_mass, None);
}

#[test]
fn heading_reference_snaps_after_full_blend() {
    let mut ctrl = controller();
    ctrl.slerp_speed = 100_000;
    let chassis = Pose { translation: v(1, 2, 3), rotation: Rotation { x: 0, y: 707, z: 0, w: 707 } };
    let mut reference = Pose { translation: v(0, 0, 0), rotation: identity() };
    assert_eq!(heading_blend_of(&ctrl, 16), 1600);
    update_heading_reference(&mut ctrl, &mut reference, &chassis, 16, identity());
    assert_eq!(reference, chassis);
    assert_eq!(ctrl.rotate_to_rotation, chassis.rotation);
}

#[test]
fn heading_reference_takes_blend_below_full_step() {
    let mut ctrl = controller();
    let chassis = Pose { translation: v(1, 2, 3), rotation: Rotation { x: 0, y: 707, z: 0, w: 707 } };
    let mut reference = Pose { translation: v(0, 0, 0), rotation: identity() };
    let blended = Rotation { x: 0, y: 80, z: 0, w: 997 };
    assert_eq!(heading_blend_of(&ctrl, 16), 80);
    update_heading_reference(&mut ctrl, &mut reference, &chassis, 16, blended);
    assert_eq!(reference.translation, v(1, 2, 3));
    assert_eq!(reference.rotation, blended);
}

#[test]
fn flat_direction_drops_vertical_part() {
    assert_eq!(flat_direction_of(&v(0, 0, 1000)), v(0, 0, 1000));
    assert_eq!(flat_direction_of(&v(300, 866, 400)), v(600, 0, 800));
    assert_eq!(flat_direction_of(&v(0, 1000, 0)), v(0, 0, 0));
}

#[test]
fn camera_closes_on_target() {
    let mut cam = CameraFollow {
        camera_translation_speed: 10_000,
        fake_transform: Pose { translation: v(0, 0, 0), rotation: identity() },
        distance_behind: 10_000,
    };
    let mut position = v(0, 0, 0);
    camera_follow(&mut cam, &mut position, &v(0, 0, 0), &v(0, 0, 1000), 16);
    assert_eq!(cam.fake_transform.translation, v(0, 2000, 10_000));
    assert_eq!(position, v(0, 320, 1600));
}

#[test]
fn camera_at_target_stays() {
    let mut cam = CameraFollow {
        camera_translation_speed: 1_000_000,
        fake_transform: Pose { translation: v(0, 0, 0), rotation: identity() },
        distance_behind: 10_000,
    };
    let mut position = v(5000, 2000, -10_000);
    camera_follow(&mut cam, &mut position, &v(5000, 0, 0), &v(0, 0, -1000), 16);
    assert_eq!(position, v(5000, 2000, -10_000));
}

#[test]
fn timer_runs_only_during_race() {
    let mut timer = TimerText { value: 0 };
    text_update_system(&Completion { started: false, finished: false }, &mut timer, 16);
    assert_eq!(timer.value, 0);
    text_update_system(&Completion { started: true, finished: false }, &mut timer, 16);
    assert_eq!(timer.value, 16);
    text_update_system(&Completion { started: true, finished: true }, &mut timer, 16);
    assert_eq!(timer.value, 16);
}

#[test]
fn map_is_built_once() {
    assert!(map_setup_due(true, &MapStatus { loaded: false }));
    assert!(!map_setup_due(true, &MapStatus { loaded: true }));
    assert!(!map_setup_due(false, &MapStatus { loaded: false }));
}

#[test]
fn random_sign_is_one_or_minus_one() {
    assert_eq!(sign_of_draw(1), 1);
    assert_eq!(sign_of_draw(0), -1);
    let mut rng = rand::thread_rng();
    for _ in 0..20 {
        let s = neg_or_pos(&mut rng);
        assert!(s == 1 || s == -1);
    }
}
