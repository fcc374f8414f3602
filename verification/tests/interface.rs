use ennona::camera::{Key, ScrollDelta};
use ennona::interface::{InputEvent, Interface, DEFAULT_SENSITIVITY, DEFAULT_SPEED};

#[test]
fn a_fresh_interface_has_the_stock_controller() {
    let ui = Interface::new(String::new(), 1920, 1080);
    assert_eq!(ui.window_width, 1920);
    assert_eq!(ui.window_height, 1080);
    assert_eq!(ui.camera_controller.speed, DEFAULT_SPEED);
    assert_eq!(ui.camera_controller.sensitivity, DEFAULT_SENSITIVITY);
    assert!(ui.images.is_empty());
    assert_eq!(ui.displayed_image_idx, 0);
}

#[test]
fn one_import_registers_one_texture_with_its_size() {
    let mut ui = Interface::new(String::new(), 800, 600);
    ui.add_image(7, 320, 200);
    assert_eq!(ui.images.len(), 1);
    assert_eq!(ui.images[0].texture_id, 7);
    assert_eq!(ui.images[0].width, 320);
    assert_eq!(ui.images[0].height, 200);
}

#[test]
fn selection_clamps_and_never_fails() {
    let mut ui = Interface::new(String::new(), 800, 600);
    ui.select_image(9);
    assert_eq!(ui.displayed_image_idx, 0);
    assert!(ui.displayed_image().is_none());
    ui.add_image(1, 10, 10);
    ui.add_image(2, 20, 20);
    ui.select_image(1);
    assert_eq!(ui.displayed_image_idx, 1);
    ui.select_image(9);
    assert_eq!(ui.displayed_image_idx, 1);
    let shown = ui.displayed_image().unwrap();
    assert_eq!(shown.texture_id, 2);
}

#[test]
fn camera_scale_drives_the_speed() {
    let mut ui = Interface::new(String::new(), 800, 600);
    ui.set_camera_scale(2_000_000);
    assert_eq!(ui.camera_scale, 2_000_000);
    assert_eq!(ui.camera_controller.speed, 10_000_000);
}

#[test]
fn window_resize_only_moves_the_layout_size() {
    let mut ui = Interface::new(String::new(), 800, 600);
    ui.add_image(3, 1, 1);
    ui.resize(640, 480);
    assert_eq!(ui.window_width, 640);
    assert_eq!(ui.window_height, 480);
    assert_eq!(ui.images.len(), 1);
}

#[test]
fn interface_integration_delegates_to_the_controller() {
    let mut ui = Interface::new(String::new(), 800, 600);
    ui.camera_controller.process_keyboard(Key::Up, true);
    let u = ui.update_camera(1_000);
    assert_eq!(u.move_z, -(DEFAULT_SPEED as i128) * 1_000);
    assert!(ui.camera_controller.is_forward_pressed);
}

#[test]
fn input_events_reach_the_controller() {
    let mut ui = Interface::new(String::new(), 800, 600);
    ui.input(InputEvent::Keyboard { key: Key::W, pressed: true });
    assert!(ui.camera_controller.is_forward_pressed);
    ui.input(InputEvent::Wheel(ScrollDelta::Pixels(40)));
    assert_eq!(ui.camera_controller.scroll, -40);
}
