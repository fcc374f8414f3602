//! The settings overlay's data: window size, the camera controller the
//! sliders mutate in place, and the registry of imported images.
//!
//! The overlay widgets themselves belong to the GUI collaborator outside the
//! library; everything they read and write lives here, with exact rules: one
//! import registers exactly one texture with its recorded size, and selecting
//! an image by index clamps into range and never fails.

use crate::camera::{keyboard_step, scroll_step, CameraController, CameraUpdate, Key, ScrollDelta, DT_MAX};
use vstd::prelude::*;

verus! {

/// Movement speed of a fresh controller, in micro-units per second.
pub const DEFAULT_SPEED: i64 = 500_000;

/// Rotation sensitivity of a fresh controller, in micro-radians per pixel.
pub const DEFAULT_SENSITIVITY: i64 = 818;

/// The camera speed is five times the scene scale, so the scale may be at
/// most a fifth of the largest speed.
pub const SCALE_MAX: i64 = 200_000_000_000;

/// One window input event the overlay routes to the camera controller.
#[derive(Clone, Copy, Debug, PartialEq, Eq, Structural)]
pub enum InputEvent {
    Keyboard { key: Key, pressed: bool },
    Wheel(ScrollDelta),
}

/// One registered image: the opaque handle the GUI backend returned for its
/// texture, and the pixel size it was decoded at.
#[derive(Clone, Copy, Debug, PartialEq, Eq, Structural)]
pub struct ImageTextureId {
    pub texture_id: u64,
    pub width: u32,
    pub height: u32,
}

/// What the settings overlay owns and mutates.
pub struct Interface {
    pub file_name: String,
    pub window_width: u32,
    pub window_height: u32,
    pub camera_controller: CameraController,
    pub images: Vec<ImageTextureId>,
    pub displayed_image_idx: u32,
    /// Scene scale from the latest import, in micro-units.
    pub camera_scale: i64,
}

impl Interface {
    pub open spec fn wf(self) -> bool {
        self.camera_controller.wf() && 0 <= self.camera_scale <= SCALE_MAX
    }

    pub fn new(file_name: String, window_width: u32, window_height: u32) -> (r: Interface)
        ensures
            r.file_name@ == file_name@,
            r.window_width == window_width,
            r.window_height == window_height,
            r.camera_controller.speed == DEFAULT_SPEED,
            r.camera_controller.sensitivity == DEFAULT_SENSITIVITY,
            !r.camera_controller.mouse_captured,
            r.images@ =~= Seq::<ImageTextureId>::empty(),
            r.displayed_image_idx == 0,
            r.camera_scale == crate::fixed::UNIT,
            r.wf(),
    {
        Interface {
            file_name,
            window_width,
            window_height,
            camera_controller: CameraController::new(DEFAULT_SPEED, DEFAULT_SENSITIVITY),
            images: Vec::new(),
            displayed_image_idx: 0,
            camera_scale: crate::fixed::UNIT,
        }
    }

    /// Record the new window size for layout; nothing else moves.
    pub fn resize(&mut self, width: u32, height: u32)
        ensures
            *final(self) == (Interface { window_width: width, window_height: height, ..*old(self) }),
            old(self).wf() ==> final(self).wf(),
    {
        self.window_width = width;
        self.window_height = height;
    }

    /// Integrate the controller over one frame (see
    /// [`CameraController::update_camera`]); nothing else moves.
    pub fn update_camera(&mut self, dt: u64) -> (u: CameraUpdate)
        requires
            old(self).wf(),
            dt <= DT_MAX,
        ensures
            u.move_x == crate::camera::translation_x(old(self).camera_controller, dt),
            u.move_y == crate::camera::translation_y(old(self).camera_controller, dt),
            u.move_z == crate::camera::translation_z(old(self).camera_controller, dt),
            u.yaw == crate::camera::rotation_yaw(old(self).camera_controller, dt),
            u.pitch == crate::camera::rotation_pitch(old(self).camera_controller, dt),
            u.roll == crate::camera::rotation_roll(old(self).camera_controller, dt),
            *final(self) == (Interface {
                camera_controller: crate::camera::after_update(old(self).camera_controller),
                ..*old(self)
            }),
            final(self).wf(),
    {
        self.camera_controller.update_camera(dt)
    }

    /// Adopt the scale of a newly framed scene: the movement speed becomes
    /// five times the scale, so navigation stays proportionate.
    pub fn set_camera_scale(&mut self, scale: i64)
        requires
            old(self).wf(),
            0 <= scale <= SCALE_MAX,
        ensures
            final(self).camera_scale == scale,
            final(self).camera_controller.speed == 5 * scale,
            *final(self) == (Interface {
                camera_scale: scale,
                camera_controller: CameraController {
                    speed: (5 * scale) as i64,
                    ..old(self).camera_controller
                },
                ..*old(self)
            }),
            final(self).wf(),
    {
        self.camera_scale = scale;
        self.camera_controller.speed = 5 * scale;
    }

    /// Register exactly one texture for a decoded image, with its recorded
    /// size; nothing else moves.
    pub fn add_image(&mut self, texture_id: u64, width: u32, height: u32)
        ensures
            final(self).images@ == old(self).images@.push(
                ImageTextureId { texture_id, width, height },
            ),
            *final(self) == (Interface { images: final(self).images, ..*old(self) }),
            old(self).wf() ==> final(self).wf(),
    {
        self.images.push(ImageTextureId { texture_id, width, height });
    }

    /// Select the image to display. An out-of-range index is clamped to the
    /// last image; with no images at all the selection stays untouched. Never
    /// fails.
    pub fn select_image(&mut self, idx: u32)
        ensures
            old(self).images@.len() == 0 ==> *final(self) == *old(self),
            old(self).images@.len() > 0 ==> *final(self) == (Interface {
                displayed_image_idx: (if idx < old(self).images@.len() {
                    idx as int
                } else {
                    old(self).images@.len() - 1
                }) as u32,
                ..*old(self)
            }),
            old(self).wf() ==> final(self).wf(),
    {
        let n = self.images.len();
        if n == 0 {
            return ;
        }
        if (idx as usize) < n {
            self.displayed_image_idx = idx;
        } else {
            self.displayed_image_idx = (n - 1) as u32;
        }
    }

    /// Feed one window input event to the camera controller: key presses and
    /// releases move the directional flags, wheel deltas land in the scroll
    /// store. Anything else is not the overlay's business.
    pub fn input(&mut self, event: InputEvent)
        requires
            old(self).wf(),
        ensures
            *final(self) == (Interface {
                camera_controller: match event {
                    InputEvent::Keyboard { key, pressed } => keyboard_step(
                        old(self).camera_controller,
                        key,
                        pressed,
                    ),
                    InputEvent::Wheel(delta) => scroll_step(old(self).camera_controller, delta),
                },
                ..*old(self)
            }),
            final(self).wf(),
    {
        match event {
            InputEvent::Keyboard { key, pressed } => {
                let _ = self.camera_controller.process_keyboard(key, pressed);
            },
            InputEvent::Wheel(delta) => {
                self.camera_controller.process_scroll(delta);
            },
        }
    }

    /// The image currently displayed, if the selection lands inside the
    /// registry.
    pub fn displayed_image(&self) -> (r: Option<ImageTextureId>)
        ensures
            r is Some <==> self.displayed_image_idx < self.images@.len(),
            r matches Some(img) ==> img == self.images@[self.displayed_image_idx as int],
    {
        if (self.displayed_image_idx as usize) < self.images.len() {
            Some(self.images[self.displayed_image_idx as usize])
        } else {
            None
        }
    }
}

} // verus!
