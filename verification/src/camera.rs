//! Camera model and camera controller.
//!
//! The camera holds the projection parameters (aspect ratio as an exact pair,
//! vertical field of view, near and far clip distances) and the placement
//! established by the latest framing. The controller holds the input-driven
//! state: held direction flags, speed, sensitivity, the mouse-capture toggle
//! and the rotation accumulated from mouse motion since the last frame. Once
//! per frame `update_camera` integrates that state over the elapsed time into
//! an exact [`CameraUpdate`], which the render shell applies to its
//! floating-point view transform; the rotation accumulators are consumed by
//! exactly one update.

use crate::fixed::{dist_sq, Vec3};
use vstd::prelude::*;

verus! {

/// Largest movement speed, in micro-units per second.
pub const SPEED_MAX: i64 = 1_000_000_000_000;

/// Largest rotation sensitivity, in micro-radians per pixel of mouse motion.
pub const SENS_MAX: i64 = 1_000_000_000;

/// Largest magnitude the per-frame rotation accumulators may reach.
pub const ROT_ACC_MAX: i64 = 1_000_000_000_000_000;

/// Largest single mouse-move delta that is believed; anything larger is a
/// spurious jump (for example from the cursor being warped back to the window
/// center) and is ignored.
pub const MOUSE_DELTA_MAX: i64 = 1_000_000_000;

/// Largest wheel delta, in lines, that is believed.
pub const SCROLL_LINE_MAX: i64 = 1_000_000_000_000;

/// Largest wheel delta, in micro-pixels, that is believed.
pub const SCROLL_PIXEL_MAX: i64 = 100_000_000_000_000;

/// Largest frame time handed to one integration step, in microseconds.
pub const DT_MAX: u64 = 1_000_000_000;

/// Smallest framing distance, in micro-units: the minimum-distance floor that
/// keeps the projection away from degenerate clip planes.
pub const DIST_FLOOR: i64 = 100;

/// Largest framing distance, in micro-units.
pub const DIST_MAX: i64 = 10_000_000_000_000_000;

/// Default vertical field of view, in micro-radians (about a quarter turn).
pub const DEFAULT_FOVY: i64 = 785_398;

/// Default near clip distance, in micro-units.
pub const DEFAULT_ZNEAR: i64 = 1_000;

/// Default far clip distance, in micro-units.
pub const DEFAULT_ZFAR: i64 = 1_000_000_000_000;

/// The camera: projection parameters and the placement set by the latest
/// framing. The aspect ratio is kept as the exact width/height pair.
pub struct Camera {
    pub aspect_w: u32,
    pub aspect_h: u32,
    /// Vertical field of view in micro-radians.
    pub fovy: i64,
    /// Near clip distance in micro-units.
    pub znear: i64,
    /// Far clip distance in micro-units.
    pub zfar: i64,
    /// World position the latest framing placed the camera at.
    pub position: Vec3,
}

impl Camera {
    /// Both clip planes are in front of the camera, in order, and the
    /// projection parameters are non-degenerate.
    pub open spec fn wf(self) -> bool {
        self.aspect_w > 0 && self.aspect_h > 0 && self.fovy > 0 && 0 < self.znear < self.zfar
    }

    pub fn new(width: u32, height: u32) -> (c: Camera)
        requires
            width > 0,
            height > 0,
        ensures
            c.aspect_w == width,
            c.aspect_h == height,
            c.fovy == DEFAULT_FOVY,
            c.znear == DEFAULT_ZNEAR,
            c.zfar == DEFAULT_ZFAR,
            c.position == (Vec3 { x: 0, y: 0, z: 0 }),
            c.wf(),
    {
        Camera {
            aspect_w: width,
            aspect_h: height,
            fovy: DEFAULT_FOVY,
            znear: DEFAULT_ZNEAR,
            zfar: DEFAULT_ZFAR,
            position: Vec3 { x: 0, y: 0, z: 0 },
        }
    }

    /// A window resize changes the aspect ratio and nothing else: the clip
    /// distances, the field of view and the placement all stay as they were.
    pub fn resize(&mut self, width: u32, height: u32)
        requires
            width > 0,
            height > 0,
        ensures
            final(self).aspect_w == width,
            final(self).aspect_h == height,
            final(self).fovy == old(self).fovy,
            final(self).znear == old(self).znear,
            final(self).zfar == old(self).zfar,
            final(self).position == old(self).position,
            old(self).wf() ==> final(self).wf(),
    {
        self.aspect_w = width;
        self.aspect_h = height;
    }

    /// Auto-framing: place the camera `distance` micro-units back from
    /// `target` along the viewing axis, looking at `target`, and refit the
    /// clip planes to the scene scale: the near plane at a hundredth of the
    /// distance, the far plane at a hundred times the distance.
    pub fn set_camera_facing(&mut self, target: Vec3, distance: i64)
        requires
            target.wf(),
            DIST_FLOOR <= distance <= DIST_MAX,
        ensures
            final(self).znear == distance as int / 100,
            final(self).zfar == 100 * distance,
            final(self).position.x == target.x,
            final(self).position.y == target.y,
            final(self).position.z == target.z - distance,
            dist_sq(final(self).position, target) == distance * distance,
            final(self).aspect_w == old(self).aspect_w,
            final(self).aspect_h == old(self).aspect_h,
            final(self).fovy == old(self).fovy,
            old(self).wf() ==> final(self).wf(),
    {
        self.zfar = 100 * distance;
        self.znear = ((distance as u64) / 100) as i64;
        self.position = Vec3 { x: target.x, y: target.y, z: target.z - distance };
        proof {
            assert((-(distance as int)) * (-(distance as int)) == (distance as int) * (
            distance as int)) by (nonlinear_arith);
        }
    }
}

/// One key the controller reacts to. `Other` stands for every key it does not.
#[derive(Clone, Copy, Debug, PartialEq, Eq, Structural)]
pub enum Key {
    Space,
    LShift,
    W,
    Up,
    Comma,
    A,
    Left,
    S,
    Down,
    O,
    D,
    Right,
    E,
    R,
    T,
    Escape,
    Other,
}

/// A mouse-wheel delta: whole lines or micro-pixels.
#[derive(Clone, Copy, Debug, PartialEq, Eq, Structural)]
pub enum ScrollDelta {
    Lines(i64),
    Pixels(i64),
}

/// The exact motion one integration step asks of the view transform.
///
/// Translations are along the camera's local axes in micro-units times
/// microseconds (divide by `UNIT * UNIT` for whole units). `yaw` and `pitch`
/// carry micro-radians times pixels times microseconds; `roll` carries
/// micro-radians times microseconds and is to be scaled by the roll rate of
/// one twentieth.
#[derive(Clone, Copy, Debug, PartialEq, Eq, Structural)]
pub struct CameraUpdate {
    pub move_x: i128,
    pub move_y: i128,
    pub move_z: i128,
    pub yaw: i128,
    pub pitch: i128,
    pub roll: i128,
}

/// Movement and rotation input state, integrated once per frame.
pub struct CameraController {
    /// Movement speed in micro-units per second.
    pub speed: i64,
    /// Rotation sensitivity in micro-radians per pixel.
    pub sensitivity: i64,
    pub is_up_pressed: bool,
    pub is_down_pressed: bool,
    pub is_forward_pressed: bool,
    pub is_backward_pressed: bool,
    pub is_left_pressed: bool,
    pub is_right_pressed: bool,
    pub is_counter_clock_pressed: bool,
    pub is_clock_pressed: bool,
    pub mouse_captured: bool,
    /// Last wheel delta, sign-inverted, in micro-pixels.
    pub scroll: i64,
    /// Mouse motion accumulated since the last integration step, horizontal.
    pub rot_horizontal: i64,
    /// Mouse motion accumulated since the last integration step, vertical.
    pub rot_vertical: i64,
}

/// -1, 0 or 1: the net direction of two opposing held flags.
pub open spec fn net(pos: bool, neg: bool) -> int {
    (if pos {
        1int
    } else {
        0int
    }) - (if neg {
        1int
    } else {
        0int
    })
}

/// Translation one step of `dt` microseconds asks for along local x.
pub open spec fn translation_x(c: CameraController, dt: u64) -> int {
    net(c.is_left_pressed, c.is_right_pressed) * c.speed * dt
}

/// Translation one step of `dt` microseconds asks for along local y.
pub open spec fn translation_y(c: CameraController, dt: u64) -> int {
    net(c.is_up_pressed, c.is_down_pressed) * c.speed * dt
}

/// Translation one step of `dt` microseconds asks for along local z.
pub open spec fn translation_z(c: CameraController, dt: u64) -> int {
    net(c.is_backward_pressed, c.is_forward_pressed) * c.speed * dt
}

/// Yaw one step of `dt` microseconds asks for.
pub open spec fn rotation_yaw(c: CameraController, dt: u64) -> int {
    -(c.sensitivity * dt * c.rot_horizontal)
}

/// Pitch one step of `dt` microseconds asks for.
pub open spec fn rotation_pitch(c: CameraController, dt: u64) -> int {
    c.sensitivity * dt * c.rot_vertical
}

/// Roll one step of `dt` microseconds asks for.
pub open spec fn rotation_roll(c: CameraController, dt: u64) -> int {
    net(c.is_counter_clock_pressed, c.is_clock_pressed) * c.sensitivity * dt
}

/// The controller state an integration step leaves behind: the one-shot
/// rotation accumulators are consumed, everything else persists.
pub open spec fn after_update(c: CameraController) -> CameraController {
    CameraController { rot_horizontal: 0, rot_vertical: 0, ..c }
}

/// What one key event does to the controller.
pub open spec fn keyboard_step(c: CameraController, key: Key, pressed: bool) -> CameraController {
    match key {
        Key::Space => CameraController { is_up_pressed: pressed, ..c },
        Key::LShift => CameraController { is_down_pressed: pressed, ..c },
        Key::W | Key::Up | Key::Comma => CameraController { is_forward_pressed: pressed, ..c },
        Key::A | Key::Left => CameraController { is_left_pressed: pressed, ..c },
        Key::S | Key::Down | Key::O => CameraController { is_backward_pressed: pressed, ..c },
        Key::D | Key::Right | Key::E => CameraController { is_right_pressed: pressed, ..c },
        Key::R => CameraController { is_counter_clock_pressed: pressed, ..c },
        Key::T => CameraController { is_clock_pressed: pressed, ..c },
        Key::Escape => if pressed {
            CameraController { mouse_captured: !c.mouse_captured, ..c }
        } else {
            c
        },
        Key::Other => c,
    }
}

/// Whether the controller reacts to the key at all.
pub open spec fn key_handled(key: Key) -> bool {
    !(key is Other)
}

/// How one axis of mouse motion accumulates: a delta beyond the believable
/// range, or one that would push the accumulator out of range, is ignored.
pub open spec fn axis_accum(acc: i64, delta: i64) -> i64 {
    if -MOUSE_DELTA_MAX <= delta <= MOUSE_DELTA_MAX && -ROT_ACC_MAX <= acc + delta <= ROT_ACC_MAX {
        (acc + delta) as i64
    } else {
        acc
    }
}

/// What one mouse-move event does: while captured, the deltas accumulate
/// (each axis on its own); while not captured, nothing changes.
pub open spec fn mouse_step(c: CameraController, dx: i64, dy: i64) -> CameraController {
    if c.mouse_captured {
        CameraController {
            rot_horizontal: axis_accum(c.rot_horizontal, dx),
            rot_vertical: axis_accum(c.rot_vertical, dy),
            ..c
        }
    } else {
        c
    }
}

/// What one wheel event does: the stored scroll is overwritten with the
/// sign-inverted delta, a line counting as a hundred pixels; a delta beyond
/// the believable range is ignored.
pub open spec fn scroll_step(c: CameraController, delta: ScrollDelta) -> CameraController {
    match delta {
        ScrollDelta::Lines(l) => if -SCROLL_LINE_MAX <= l <= SCROLL_LINE_MAX {
            CameraController { scroll: (-100 * l) as i64, ..c }
        } else {
            c
        },
        ScrollDelta::Pixels(p) => if -SCROLL_PIXEL_MAX <= p <= SCROLL_PIXEL_MAX {
            CameraController { scroll: (-p) as i64, ..c }
        } else {
            c
        },
    }
}

impl CameraController {
    /// Speed, sensitivity and the accumulators are within their ranges.
    pub open spec fn wf(self) -> bool {
        &&& 0 <= self.speed <= SPEED_MAX
        &&& 0 <= self.sensitivity <= SENS_MAX
        &&& -ROT_ACC_MAX <= self.rot_horizontal <= ROT_ACC_MAX
        &&& -ROT_ACC_MAX <= self.rot_vertical <= ROT_ACC_MAX
        &&& -SCROLL_PIXEL_MAX <= self.scroll <= SCROLL_PIXEL_MAX
    }

    pub fn new(speed: i64, sensitivity: i64) -> (c: CameraController)
        requires
            0 <= speed <= SPEED_MAX,
            0 <= sensitivity <= SENS_MAX,
        ensures
            c.speed == speed,
            c.sensitivity == sensitivity,
            !c.is_up_pressed && !c.is_down_pressed && !c.is_forward_pressed
                && !c.is_backward_pressed && !c.is_left_pressed && !c.is_right_pressed
                && !c.is_counter_clock_pressed && !c.is_clock_pressed && !c.mouse_captured,
            c.scroll == 0 && c.rot_horizontal == 0 && c.rot_vertical == 0,
            c.wf(),
    {
        CameraController {
            speed,
            sensitivity,
            is_up_pressed: false,
            is_down_pressed: false,
            is_forward_pressed: false,
            is_backward_pressed: false,
            is_left_pressed: false,
            is_right_pressed: false,
            is_counter_clock_pressed: false,
            is_clock_pressed: false,
            mouse_captured: false,
            scroll: 0,
            rot_horizontal: 0,
            rot_vertical: 0,
        }
    }

    /// A key press or release toggles the matching directional flag; a press
    /// of the capture key toggles mouse capture. Returns whether the key was
    /// one the controller reacts to.
    pub fn process_keyboard(&mut self, key: Key, pressed: bool) -> (handled: bool)
        ensures
            *final(self) == keyboard_step(*old(self), key, pressed),
            handled == key_handled(key),
            old(self).wf() ==> final(self).wf(),
    {
        match key {
            Key::Space => {
                self.is_up_pressed = pressed;
                true
            },
            Key::LShift => {
                self.is_down_pressed = pressed;
                true
            },
            Key::W | Key::Up | Key::Comma => {
                self.is_forward_pressed = pressed;
                true
            },
            Key::A | Key::Left => {
                self.is_left_pressed = pressed;
                true
            },
            Key::S | Key::Down | Key::O => {
                self.is_backward_pressed = pressed;
                true
            },
            Key::D | Key::Right | Key::E => {
                self.is_right_pressed = pressed;
                true
            },
            Key::R => {
                self.is_counter_clock_pressed = pressed;
                true
            },
            Key::T => {
                self.is_clock_pressed = pressed;
                true
            },
            Key::Escape => {
                if pressed {
                    self.mouse_captured = !self.mouse_captured;
                }
                true
            },
            Key::Other => false,
        }
    }

    /// While captured, accumulate one mouse-move delta into the pending
    /// rotation; spurious jumps beyond the believable range are ignored.
    pub fn process_mouse(&mut self, dx: i64, dy: i64)
        requires
            old(self).wf(),
        ensures
            *final(self) == mouse_step(*old(self), dx, dy),
            final(self).wf(),
    {
        if !self.mouse_captured {
            return ;
        }
        if -MOUSE_DELTA_MAX <= dx && dx <= MOUSE_DELTA_MAX {
            let sum = self.rot_horizontal + dx;
            if -ROT_ACC_MAX <= sum && sum <= ROT_ACC_MAX {
                self.rot_horizontal = sum;
            }
        }
        if -MOUSE_DELTA_MAX <= dy && dy <= MOUSE_DELTA_MAX {
            let sum = self.rot_vertical + dy;
            if -ROT_ACC_MAX <= sum && sum <= ROT_ACC_MAX {
                self.rot_vertical = sum;
            }
        }
    }

    /// Store one wheel delta, sign-inverted, a line counting as a hundred
    /// pixels.
    pub fn process_scroll(&mut self, delta: ScrollDelta)
        requires
            old(self).wf(),
        ensures
            *final(self) == scroll_step(*old(self), delta),
            final(self).wf(),
    {
        match delta {
            ScrollDelta::Lines(l) => {
                if -SCROLL_LINE_MAX <= l && l <= SCROLL_LINE_MAX {
                    self.scroll = -100 * l;
                }
            },
            ScrollDelta::Pixels(p) => {
                if -SCROLL_PIXEL_MAX <= p && p <= SCROLL_PIXEL_MAX {
                    self.scroll = -p;
                }
            },
        }
    }

    /// One integration step over `dt` microseconds: each held direction asks
    /// for `speed * dt` of translation along its local axis, the accumulated
    /// mouse motion asks for rotation scaled by `sensitivity * dt`, and the
    /// rotation accumulators are consumed so that no mouse motion is applied
    /// twice. Held flags persist until released.
    pub fn update_camera(&mut self, dt: u64) -> (u: CameraUpdate)
        requires
            old(self).wf(),
            dt <= DT_MAX,
        ensures
            u.move_x == translation_x(*old(self), dt),
            u.move_y == translation_y(*old(self), dt),
            u.move_z == translation_z(*old(self), dt),
            u.yaw == rotation_yaw(*old(self), dt),
            u.pitch == rotation_pitch(*old(self), dt),
            u.roll == rotation_roll(*old(self), dt),
            *final(self) == after_update(*old(self)),
            final(self).wf(),
    {
        proof {
            lemma_step_products_bounded(*self, dt);
        }
        let speed = self.speed as i128;
        let d = dt as i128;
        let sd = (self.sensitivity as i128) * d;
        let mut u = CameraUpdate { move_x: 0, move_y: 0, move_z: 0, yaw: 0, pitch: 0, roll: 0 };
        if self.is_left_pressed {
            u.move_x = u.move_x + speed * d;
        }
        if self.is_right_pressed {
            u.move_x = u.move_x - speed * d;
        }
        if self.is_up_pressed {
            u.move_y = u.move_y + speed * d;
        }
        if self.is_down_pressed {
            u.move_y = u.move_y - speed * d;
        }
        if self.is_backward_pressed {
            u.move_z = u.move_z + speed * d;
        }
        if self.is_forward_pressed {
            u.move_z = u.move_z - speed * d;
        }
        u.yaw = -(sd * (self.rot_horizontal as i128));
        u.pitch = sd * (self.rot_vertical as i128);
        if self.is_counter_clock_pressed {
            u.roll = u.roll + sd;
        }
        if self.is_clock_pressed {
            u.roll = u.roll - sd;
        }
        self.rot_horizontal = 0;
        self.rot_vertical = 0;
        proof {
            let o = *old(self);
            lemma_net_scale(o.is_left_pressed, o.is_right_pressed, o.speed as int, dt as int);
            lemma_net_scale(o.is_up_pressed, o.is_down_pressed, o.speed as int, dt as int);
            lemma_net_scale(o.is_backward_pressed, o.is_forward_pressed, o.speed as int, dt as int);
            lemma_net_scale(
                o.is_counter_clock_pressed,
                o.is_clock_pressed,
                o.sensitivity as int,
                dt as int,
            );
        }
        u
    }
}

/// The framing distance for a scene whose average vertex distance is
/// `avg_dist`: five times the average, held to the representable range, with
/// the minimum-distance floor standing in for a degenerate scene (no points,
/// or all points in one place, make the average zero).
pub fn framing_distance(avg_dist: i64) -> (r: i64)
    requires
        0 <= avg_dist <= crate::import::DIST_TERM_MAX,
    ensures
        r == (if 5 * avg_dist < DIST_FLOOR {
            DIST_FLOOR as int
        } else if 5 * avg_dist > DIST_MAX {
            DIST_MAX as int
        } else {
            5 * avg_dist
        }),
        DIST_FLOOR <= r <= DIST_MAX,
{
    let d = 5 * avg_dist;
    if d < DIST_FLOOR {
        DIST_FLOOR
    } else if d > DIST_MAX {
        DIST_MAX
    } else {
        d
    }
}

/// How the net direction factor distributes over a product.
pub proof fn lemma_net_scale(p: bool, q: bool, s: int, d: int)
    ensures
        p && !q ==> net(p, q) * s * d == s * d,
        q && !p ==> net(p, q) * s * d == -(s * d),
        p == q ==> net(p, q) * s * d == 0,
{
    assert(1 * s * d == s * d) by (nonlinear_arith);
    assert((-1) * s * d == -(s * d)) by (nonlinear_arith);
    assert(0 * s * d == 0) by (nonlinear_arith);
}

/// The products one integration step forms stay well inside `i128`.
proof fn lemma_step_products_bounded(c: CameraController, dt: u64)
    requires
        c.wf(),
        dt <= DT_MAX,
    ensures
        0 <= c.speed * dt <= SPEED_MAX * DT_MAX,
        0 <= c.sensitivity * dt <= SENS_MAX * DT_MAX,
        -(SENS_MAX * DT_MAX * ROT_ACC_MAX) <= c.sensitivity * dt * c.rot_horizontal <= SENS_MAX
            * DT_MAX * ROT_ACC_MAX,
        -(SENS_MAX * DT_MAX * ROT_ACC_MAX) <= c.sensitivity * dt * c.rot_vertical <= SENS_MAX
            * DT_MAX * ROT_ACC_MAX,
{
    assert(0 <= c.speed * dt <= SPEED_MAX * DT_MAX) by (nonlinear_arith)
        requires
            0 <= c.speed <= SPEED_MAX,
            0 <= dt <= DT_MAX,
    ;
    assert(0 <= c.sensitivity * dt <= SENS_MAX * DT_MAX) by (nonlinear_arith)
        requires
            0 <= c.sensitivity <= SENS_MAX,
            0 <= dt <= DT_MAX,
    ;
    assert(-(SENS_MAX * DT_MAX * ROT_ACC_MAX) <= c.sensitivity * dt * c.rot_horizontal <= SENS_MAX
        * DT_MAX * ROT_ACC_MAX) by (nonlinear_arith)
        requires
            0 <= c.sensitivity * dt <= SENS_MAX * DT_MAX,
            -ROT_ACC_MAX <= c.rot_horizontal <= ROT_ACC_MAX,
    ;
    assert(-(SENS_MAX * DT_MAX * ROT_ACC_MAX) <= c.sensitivity * dt * c.rot_vertical <= SENS_MAX
        * DT_MAX * ROT_ACC_MAX) by (nonlinear_arith)
        requires
            0 <= c.sensitivity * dt <= SENS_MAX * DT_MAX,
            -ROT_ACC_MAX <= c.rot_vertical <= ROT_ACC_MAX,
    ;
}

/// Uniform motion integrates additively: whatever directions are held, the
/// net translation of two consecutive steps over `dt1` then `dt2` equals the
/// translation of one step over `dt1 + dt2`. The rotation accumulators the
/// first step consumes play no part in translation, so the flags persisting
/// between the steps carry the whole effect.
pub proof fn lemma_translation_additive(c: CameraController, dt1: u64, dt2: u64, dt_sum: u64)
    requires
        dt_sum == dt1 + dt2,
    ensures
        translation_x(c, dt1) + translation_x(after_update(c), dt2) == translation_x(c, dt_sum),
        translation_y(c, dt1) + translation_y(after_update(c), dt2) == translation_y(c, dt_sum),
        translation_z(c, dt1) + translation_z(after_update(c), dt2) == translation_z(c, dt_sum),
{
    assert forall|p: bool, q: bool|
        net(p, q) * c.speed * dt1 + net(p, q) * c.speed * dt2 == net(p, q) * c.speed * (
    dt1 + dt2) by {
        let f = net(p, q);
        assert(f * c.speed * dt1 + f * c.speed * dt2 == f * c.speed * (dt1 + dt2))
            by (nonlinear_arith);
    }
}

/// Mouse rotation is consumed exactly once: after one integration step, a
/// second step without an intervening mouse-move event asks for no yaw and no
/// pitch at all, and no roll either while neither roll key is held.
pub proof fn lemma_rotation_consumed_once(c: CameraController, dt2: u64)
    ensures
        rotation_yaw(after_update(c), dt2) == 0,
        rotation_pitch(after_update(c), dt2) == 0,
        !c.is_counter_clock_pressed && !c.is_clock_pressed ==> rotation_roll(
            after_update(c),
            dt2,
        ) == 0,
{
    assert(c.sensitivity * dt2 * 0 == 0) by (nonlinear_arith);
    lemma_net_scale(
        c.is_counter_clock_pressed,
        c.is_clock_pressed,
        c.sensitivity as int,
        dt2 as int,
    );
}

} // verus!
