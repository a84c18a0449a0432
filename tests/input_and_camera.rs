use minigolf::actions::{reset, set_movement_actions, Actions, BurstActions, MovementKeys};
use minigolf::camera::{camera_position, CameraControls};
use minigolf::fixed::{Vec2, Vec3};
use minigolf::round::GameState;

fn keys(up: bool, down: bool, left: bool, right: bool) -> MovementKeys {
    MovementKeys { up, down, left, right }
}

fn empty_actions() -> Actions {
    Actions { player_movement: None, camera_movement: None }
}

#[test]
fn movement_from_keys() {
    let mut a = empty_actions();
    set_movement_actions(&mut a, &keys(true, false, false, false), &vec![]);
    assert_eq!(a.player_movement, Some(Vec2::new(0, 1000)));
    set_movement_actions(&mut a, &keys(true, false, false, true), &vec![]);
    assert_eq!(a.player_movement, Some(Vec2::new(707, 707)));
    set_movement_actions(&mut a, &keys(false, true, true, false), &vec![]);
    assert_eq!(a.player_movement, Some(Vec2::new(-707, -707)));
    set_movement_actions(&mut a, &keys(true, true, false, false), &vec![]);
    assert_eq!(a.player_movement, None);
    set_movement_actions(&mut a, &keys(false, false, false, false), &vec![]);
    assert_eq!(a.player_movement, None);
}

#[test]
fn camera_movement_sums_mouse_motion() {
    let mut a = empty_actions();
    set_movement_actions(&mut a, &keys(false, false, false, false), &vec![Vec2::new(1, 2), Vec2::new(3, -4)]);
    assert_eq!(a.camera_movement, Some(Vec2::new(4, -2)));
    set_movement_actions(&mut a, &keys(false, false, false, false), &vec![]);
    assert_eq!(a.camera_movement, None);
}

#[test]
fn reset_reloads_level() {
    assert_eq!(reset(&vec![]), None);
    assert_eq!(reset(&vec![BurstActions::Reset]), Some(GameState::LoadLevel));
}

#[test]
fn camera_starts_behind_ball() {
    let c = CameraControls::new();
    assert_eq!(c, CameraControls { radius: 27_000, pitch: -500, yaw: 0 });
}

#[test]
fn camera_turns_with_mouse() {
    let mut c = CameraControls::new();
    c.camera_control(Some(Vec2::new(100_000, 1_000)), 16);
    assert_eq!(c.yaw, -320);
    assert_eq!(c.pitch, -503);
    c.camera_control(None, 16);
    assert_eq!(c.yaw, -320);
    assert_eq!(c.pitch, -503);
}

#[test]
fn camera_pitch_is_clamped() {
    let mut c = CameraControls::new();
    c.camera_control(Some(Vec2::new(0, 1_000_000)), 16);
    assert_eq!(c.pitch, -1100);
    c.camera_control(Some(Vec2::new(0, -1_000_000)), 1000);
    assert_eq!(c.pitch, 200);
}

#[test]
fn camera_yaw_wraps_by_remainder() {
    let mut c = CameraControls { radius: 27_000, pitch: 0, yaw: 359_900 };
    c.camera_control(Some(Vec2::new(-1_000_000, 0)), 1000);
    assert_eq!(c.yaw, 199_900);
    let mut d = CameraControls { radius: 27_000, pitch: 0, yaw: -359_900 };
    d.camera_control(Some(Vec2::new(1_000_000, 0)), 1000);
    assert_eq!(d.yaw, -199_900);
}

#[test]
fn camera_stops_short_of_obstacles() {
    let target = Vec3::new(0, 1000, 0);
    let dir = Vec3::new(0, 0, 1000);
    assert_eq!(camera_position(&target, &dir, 27_000, None), Vec3::new(0, 1000, 27_000));
    assert_eq!(camera_position(&target, &dir, 27_000, Some(10_000)), Vec3::new(0, 1000, 8000));
}
