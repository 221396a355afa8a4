//! Vehicle dynamics for a driving game, on fixed-point integer quantities:
//! suspension probes, drive input, heading smoothing and a chase camera.
//!
//! Every length, speed, force, gain and duration is held as an integer count of
//! thousandths (see `fixed::SCALE`): 1.5 units is 1500, a 16 ms tick is 16.
//! Each tick the caller casts the four ground probes that the suspension asks
//! for, hands their results to `suspension::update_car_suspension`, then runs
//! `controls::car_controls`, the heading reference and `camera::camera_follow`.

pub mod fixed;
pub mod vector;
pub mod chassis;
pub mod suspension;
pub mod controls;
pub mod camera;
pub mod hud;
pub mod coin;
