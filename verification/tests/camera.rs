use ennona::camera::{
    framing_distance, Camera, CameraController, Key, ScrollDelta, DEFAULT_FOVY, DIST_FLOOR,
};
use ennona::fixed::Vec3;

#[test]
fn forward_motion_integrates_additively() {
    let mut c = CameraController::new(2_000_000, 800);
    assert!(c.process_keyboard(Key::W, true));
    let u1 = c.update_camera(10_000);
    let u2 = c.update_camera(20_000);
    let mut single = CameraController::new(2_000_000, 800);
    assert!(single.process_keyboard(Key::W, true));
    let u = single.update_camera(30_000);
    assert_eq!(u1.move_z + u2.move_z, u.move_z);
    assert_eq!(u.move_z, -(2_000_000i128 * 30_000));
    assert_eq!(u.move_x, 0);
    assert_eq!(u.move_y, 0);
}

#[test]
fn opposing_directions_cancel() {
    let mut c = CameraController::new(1_000_000, 800);
    c.process_keyboard(Key::W, true);
    c.process_keyboard(Key::S, true);
    let u = c.update_camera(5_000);
    assert_eq!(u.move_z, 0);
}

#[test]
fn rotation_is_consumed_exactly_once() {
    let mut c = CameraController::new(500_000, 818);
    assert!(c.process_keyboard(Key::Escape, true));
    assert!(c.mouse_captured);
    c.process_mouse(10, -5);
    let u1 = c.update_camera(1_000);
    assert_eq!(u1.yaw, -(818i128 * 1_000 * 10));
    assert_eq!(u1.pitch, 818i128 * 1_000 * -5);
    let u2 = c.update_camera(1_000);
    assert_eq!(u2.yaw, 0);
    assert_eq!(u2.pitch, 0);
    assert_eq!(u2.roll, 0);
}

#[test]
fn mouse_ignored_unless_captured() {
    let mut c = CameraController::new(500_000, 818);
    c.process_mouse(10, 10);
    let u = c.update_camera(1_000);
    assert_eq!(u.yaw, 0);
    assert_eq!(u.pitch, 0);
}

#[test]
fn spurious_mouse_jump_is_ignored() {
    let mut c = CameraController::new(500_000, 818);
    c.process_keyboard(Key::Escape, true);
    c.process_mouse(2_000_000_000, 3);
    assert_eq!(c.rot_horizontal, 0);
    assert_eq!(c.rot_vertical, 3);
}

#[test]
fn scroll_is_sign_inverted_and_scaled() {
    let mut c = CameraController::new(500_000, 818);
    c.process_scroll(ScrollDelta::Lines(3));
    assert_eq!(c.scroll, -300);
    c.process_scroll(ScrollDelta::Pixels(50));
    assert_eq!(c.scroll, -50);
}

#[test]
fn keyboard_flags_follow_press_and_release() {
    let mut c = CameraController::new(500_000, 818);
    assert!(c.process_keyboard(Key::Space, true));
    assert!(c.is_up_pressed);
    assert!(c.process_keyboard(Key::Space, false));
    assert!(!c.is_up_pressed);
    assert!(c.process_keyboard(Key::LShift, true));
    assert!(c.is_down_pressed);
    assert!(c.process_keyboard(Key::A, true));
    assert!(c.is_left_pressed);
    assert!(c.process_keyboard(Key::D, true));
    assert!(c.is_right_pressed);
    assert!(c.process_keyboard(Key::R, true));
    assert!(c.is_counter_clock_pressed);
    assert!(c.process_keyboard(Key::T, true));
    assert!(c.is_clock_pressed);
    assert!(!c.process_keyboard(Key::Other, true));
}

#[test]
fn facing_scales_clip_planes_and_places_camera() {
    let mut cam = Camera::new(800, 600);
    let target = Vec3 { x: 1_000_000, y: 2_000_000, z: 3_000_000 };
    cam.set_camera_facing(target, 500_000);
    assert_eq!(cam.znear, 5_000);
    assert_eq!(cam.zfar, 50_000_000);
    assert_eq!(cam.position, Vec3 { x: 1_000_000, y: 2_000_000, z: 2_500_000 });
}

#[test]
fn resize_updates_aspect_and_nothing_else() {
    let mut cam = Camera::new(800, 600);
    cam.set_camera_facing(Vec3 { x: 0, y: 0, z: 0 }, 1_000_000);
    let (znear, zfar, fovy) = (cam.znear, cam.zfar, cam.fovy);
    cam.resize(1024, 768);
    assert_eq!(cam.aspect_w, 1024);
    assert_eq!(cam.aspect_h, 768);
    assert_eq!(cam.znear, znear);
    assert_eq!(cam.zfar, zfar);
    assert_eq!(cam.fovy, fovy);
    assert_eq!(fovy, DEFAULT_FOVY);
}

#[test]
fn framing_distance_floors_degenerate_scenes() {
    assert_eq!(framing_distance(0), DIST_FLOOR);
    assert_eq!(framing_distance(1_000_000), 5_000_000);
    assert_eq!(framing_distance(3_500_000_000_000_000), 10_000_000_000_000_000);
}

#[test]
fn escape_toggles_mouse_capture() {
    let mut c = CameraController::new(500_000, 818);
    assert!(!c.mouse_captured);
    c.process_keyboard(Key::Escape, true);
    assert!(c.mouse_captured);
    c.process_keyboard(Key::Escape, false);
    assert!(c.mouse_captured);
    c.process_keyboard(Key::Escape, true);
    assert!(!c.mouse_captured);
}

#[test]
fn out_of_range_scroll_is_ignored() {
    let mut c = CameraController::new(500_000, 818);
    c.process_scroll(ScrollDelta::Lines(2));
    c.process_scroll(ScrollDelta::Lines(i64::MAX));
    assert_eq!(c.scroll, -200);
}

#[test]
fn a_fresh_camera_has_ordered_clip_planes() {
    let cam = Camera::new(1920, 1080);
    assert!(cam.znear > 0);
    assert!(cam.znear < cam.zfar);
    assert_eq!(cam.aspect_w, 1920);
    assert_eq!(cam.aspect_h, 1080);
}
