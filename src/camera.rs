use vstd::prelude::*;

use crate::input::{Action, InputControl, Key, KeyEvent, MouseEvent};

verus! {

/// One degree, in the millionths of a degree that angles are held in.
pub const DEGREE: i64 = 1_000_000;
/// The smallest field of view that zooming reaches.
pub const ZOOM_MIN: i64 = 1 * DEGREE;
/// The widest field of view, which is also the default.
pub const ZOOM_MAX: i64 = 45 * DEGREE;
/// How far up or down the camera may look while the pitch is constrained.
pub const PITCH_LIMIT: i64 = 89 * DEGREE;
/// Default yaw: looking along the negative z axis.
pub const DEFAULT_YAW: i64 = -90 * DEGREE;
/// Default speed: 2.5 units per second, in thousandths of a unit per second.
pub const DEFAULT_MOVEMENT_SPEED: u64 = 2500;
/// Default sensitivity: 0.1 degree per pixel, in thousandths of a degree per
/// pixel.
pub const DEFAULT_MOUSE_SENSITIVITY: i64 = 100;
/// Thousandths of a wheel step times this give millionths of a degree: one
/// wheel step narrows the field of view by one degree.
pub const ZOOM_PER_WHEEL_UNIT: i64 = 1000;

/// The direction of a step relative to the camera's basis.
#[derive(Clone, Copy, PartialEq, Eq, Structural, Debug)]
pub enum Direction {
    /// Along `front`.
    Forward,
    /// Against `front`.
    Backward,
    /// Against `right`.
    Left,
    /// Along `right`.
    Right,
}

/// A step that the camera takes along its current basis. The distance is in
/// billionths of a unit: speed in thousandths of a unit per second times the
/// frame delta in microseconds.
#[derive(Clone, Copy, PartialEq, Eq, Structural, Debug)]
pub struct Move {
    pub direction: Direction,
    pub distance: u128,
}

/// An Euler-angle camera controller. Angles are in millionths of a degree.
/// Its steps queue up in `moves` until the owner of the position and the
/// basis (which are computed in floating point) takes them.
#[derive(Debug)]
pub struct Camera {
    pub yaw: i64,
    pub pitch: i64,
    pub constrain_pitch: bool,
    /// Thousandths of a unit per second.
    pub movement_speed: u64,
    /// Thousandths of a degree per pixel.
    pub mouse_sensitivity: i64,
    /// The field of view.
    pub zoom: i64,
    pub moves: Vec<Move>,
}

/// `v` held to the range of `i64`.
pub open spec fn saturate(v: int) -> int {
    if v > i64::MAX {
        i64::MAX as int
    } else if v < i64::MIN {
        i64::MIN as int
    } else {
        v
    }
}

/// `v` held to `[lo, hi]`.
pub open spec fn clamp(v: int, lo: int, hi: int) -> int {
    if v < lo {
        lo
    } else if v > hi {
        hi
    } else {
        v
    }
}

/// An angle after a cursor offset scaled by the sensitivity is added to it.
pub open spec fn turned(angle: int, offset: int, sensitivity: int) -> int {
    saturate(angle + offset * sensitivity)
}

/// The pitch after a cursor move of vertical offset `dy`.
pub open spec fn pitch_after(c: &Camera, dy: int) -> int {
    let p = turned(c.pitch as int, dy, c.mouse_sensitivity as int);
    if c.constrain_pitch {
        clamp(p, -PITCH_LIMIT, PITCH_LIMIT as int)
    } else {
        p
    }
}

/// The field of view after a wheel turn of vertical offset `dy`: the offset
/// is subtracted, and the result is held to `[ZOOM_MIN, ZOOM_MAX]`.
pub open spec fn zoom_after(zoom: int, dy: int) -> int {
    clamp(zoom - dy * ZOOM_PER_WHEEL_UNIT, ZOOM_MIN as int, ZOOM_MAX as int)
}

/// The direction a key event moves the camera in: a press of W, S, A or D.
pub open spec fn step_of(e: KeyEvent) -> Option<Direction> {
    match e {
        KeyEvent(Key::W, _, Action::Press, _) => Some(Direction::Forward),
        KeyEvent(Key::S, _, Action::Press, _) => Some(Direction::Backward),
        KeyEvent(Key::A, _, Action::Press, _) => Some(Direction::Left),
        KeyEvent(Key::D, _, Action::Press, _) => Some(Direction::Right),
        _ => None,
    }
}

/// The settings that no event changes are equal.
pub open spec fn same_settings(a: &Camera, b: &Camera) -> bool {
    &&& a.constrain_pitch == b.constrain_pitch
    &&& a.movement_speed == b.movement_speed
    &&& a.mouse_sensitivity == b.mouse_sensitivity
}

/// The zoom and, while constrained, the pitch are in range.
pub open spec fn camera_in_range(c: &Camera) -> bool {
    &&& ZOOM_MIN <= c.zoom <= ZOOM_MAX
    &&& c.constrain_pitch ==> -PITCH_LIMIT <= c.pitch <= PITCH_LIMIT
}

/// `offset * factor` added to `angle`, held to the range of `i64`.
fn turn(angle: i64, offset: i64, factor: i64) -> (r: i64)
    ensures
        r == turned(angle as int, offset as int, factor as int),
{
    proof {
        let (o, f) = (offset as int, factor as int);
        assert(-0x4000_0000_0000_0000_0000_0000_0000_0000 <= o * f
            <= 0x4000_0000_0000_0000_0000_0000_0000_0000) by (nonlinear_arith)
            requires
                -0x8000_0000_0000_0000 <= o <= 0x8000_0000_0000_0000,
                -0x8000_0000_0000_0000 <= f <= 0x8000_0000_0000_0000,
        ;
    }
    let sum: i128 = angle as i128 + offset as i128 * factor as i128;
    if sum > i64::MAX as i128 {
        i64::MAX
    } else if sum < i64::MIN as i128 {
        i64::MIN
    } else {
        sum as i64
    }
}

/// A wheel event leaves the field of view within `[ZOOM_MIN, ZOOM_MAX]`,
/// whatever it was before; and no mouse event takes a camera out of range,
/// so a constrained pitch stays within `[-PITCH_LIMIT, PITCH_LIMIT]`.
pub proof fn lemma_mouse_step_in_range(c: Camera, after: Camera, e: MouseEvent, dt: u64)
    requires
        c.mouse_step(&after, e, dt),
    ensures
        e.is_scroll ==> ZOOM_MIN <= after.zoom <= ZOOM_MAX,
        camera_in_range(&c) ==> camera_in_range(&after),
{
}

/// Along any sequence of mouse events, scroll or cursor move, a camera that
/// starts in range stays in range: the zoom never leaves `[ZOOM_MIN, ZOOM_MAX]`
/// and, while the pitch is constrained, it never leaves
/// `[-PITCH_LIMIT, PITCH_LIMIT]`. `cams[i + 1]` is `cams[i]` after `events[i]`.
pub proof fn lemma_mouse_sequence_in_range(cams: Seq<Camera>, events: Seq<MouseEvent>, dt: u64)
    requires
        cams.len() == events.len() + 1,
        camera_in_range(&cams[0]),
        forall|i: int| 0 <= i < events.len() ==> #[trigger] cams[i].mouse_step(&cams[i + 1], events[i], dt),
    ensures
        forall|i: int| 0 <= i < cams.len() ==> #[trigger] camera_in_range(&cams[i]),
    decreases events.len(),
{
    if events.len() > 0 {
        let n = events.len() - 1;
        lemma_mouse_sequence_in_range(cams.drop_last(), events.drop_last(), dt);
        assert(cams.drop_last()[n].mouse_step(&cams[n + 1], events[n], dt));
        assert(camera_in_range(&cams.drop_last()[n]));
        lemma_mouse_step_in_range(cams[n], cams[n + 1], events[n], dt);
        assert forall|i: int| 0 <= i < cams.len() implies #[trigger] camera_in_range(&cams[i]) by {
            if i < cams.len() - 1 {
                assert(camera_in_range(&cams.drop_last()[i]));
            }
        }
    }
}

/// Along any sequence of wheel events, every camera after the first event has
/// its field of view within `[ZOOM_MIN, ZOOM_MAX]`, whatever it started at.
pub proof fn lemma_scroll_sequence_zoom_in_range(cams: Seq<Camera>, events: Seq<MouseEvent>, dt: u64)
    requires
        cams.len() == events.len() + 1,
        forall|i: int| 0 <= i < events.len() ==> (#[trigger] events[i]).is_scroll,
        forall|i: int| 0 <= i < events.len() ==> #[trigger] cams[i].mouse_step(&cams[i + 1], events[i], dt),
    ensures
        forall|i: int| 1 <= i < cams.len() ==> ZOOM_MIN <= #[trigger] cams[i].zoom <= ZOOM_MAX,
{
    assert forall|i: int| 1 <= i < cams.len() implies ZOOM_MIN <= #[trigger] cams[i].zoom <= ZOOM_MAX by {
        assert(cams[i - 1].mouse_step(&cams[(i - 1) + 1], events[i - 1], dt));
        assert(events[i - 1].is_scroll);
    }
}

impl Default for Camera {
    /// Looking along the negative z axis, level, at the widest field of view.
    fn default() -> (r: Camera)
        ensures
            r.yaw == DEFAULT_YAW,
            r.pitch == 0,
            r.constrain_pitch,
            r.movement_speed == DEFAULT_MOVEMENT_SPEED,
            r.mouse_sensitivity == DEFAULT_MOUSE_SENSITIVITY,
            r.zoom == ZOOM_MAX,
            r.moves@.len() == 0,
            camera_in_range(&r),
    {
        Camera {
            yaw: DEFAULT_YAW,
            pitch: 0,
            constrain_pitch: true,
            movement_speed: DEFAULT_MOVEMENT_SPEED,
            mouse_sensitivity: DEFAULT_MOUSE_SENSITIVITY,
            zoom: ZOOM_MAX,
            moves: Vec::new(),
        }
    }
}

impl Camera {
    /// Hands out the queued steps, oldest first, and empties the queue.
    pub fn take_moves(&mut self) -> (r: Vec<Move>)
        ensures
            r@ == old(self).moves@,
            final(self).moves@.len() == 0,
            final(self).yaw == old(self).yaw,
            final(self).pitch == old(self).pitch,
            final(self).zoom == old(self).zoom,
            same_settings(old(self), final(self)),
    {
        let mut taken: Vec<Move> = Vec::new();
        std::mem::swap(&mut taken, &mut self.moves);
        taken
    }
}

impl InputControl for Camera {
    open spec fn mouse_step(&self, after: &Camera, e: MouseEvent, dt: u64) -> bool {
        &&& same_settings(self, after)
        &&& after.moves@ == self.moves@
        &&& if e.is_scroll {
            &&& after.zoom == zoom_after(self.zoom as int, e.y_offset as int)
            &&& after.yaw == self.yaw
            &&& after.pitch == self.pitch
        } else {
            &&& after.yaw == turned(
                self.yaw as int,
                e.x_offset as int,
                self.mouse_sensitivity as int,
            )
            &&& after.pitch == pitch_after(self, e.y_offset as int)
            &&& after.zoom == self.zoom
        }
    }

    open spec fn keyboard_step(&self, after: &Camera, e: KeyEvent, dt: u64) -> bool {
        &&& same_settings(self, after)
        &&& after.yaw == self.yaw
        &&& after.pitch == self.pitch
        &&& after.zoom == self.zoom
        &&& after.moves@ == match step_of(e) {
            Some(d) => self.moves@.push(
                Move { direction: d, distance: (self.movement_speed * dt) as u128 },
            ),
            None => self.moves@,
        }
    }

    /// A wheel event narrows or widens the field of view; a cursor event
    /// turns the camera.
    fn on_mouse(&mut self, mouse: MouseEvent, delta_time: u64) {
        if mouse.is_scroll {
            assert(mouse.y_offset * ZOOM_PER_WHEEL_UNIT == mouse.y_offset * 1000);
            let mut zoom: i128 = self.zoom as i128 - mouse.y_offset as i128
                * ZOOM_PER_WHEEL_UNIT as i128;
            if zoom <= ZOOM_MIN as i128 {
                zoom = ZOOM_MIN as i128;
            }
            if zoom >= ZOOM_MAX as i128 {
                zoom = ZOOM_MAX as i128;
            }
            self.zoom = zoom as i64;
        } else {
            self.yaw = turn(self.yaw, mouse.x_offset, self.mouse_sensitivity);
            self.pitch = turn(self.pitch, mouse.y_offset, self.mouse_sensitivity);
            if self.constrain_pitch {
                if self.pitch > PITCH_LIMIT {
                    self.pitch = PITCH_LIMIT;
                }
                if self.pitch < -PITCH_LIMIT {
                    self.pitch = -PITCH_LIMIT;
                }
            }
        }
    }

    /// A press of W, S, A or D queues a step of `movement_speed * delta_time`;
    /// every other key event, a repeat or release included, is ignored.
    fn on_keyboard(&mut self, key: KeyEvent, delta_time: u64) {
        let direction = match key {
            KeyEvent(Key::W, _, Action::Press, _) => Some(Direction::Forward),
            KeyEvent(Key::S, _, Action::Press, _) => Some(Direction::Backward),
            KeyEvent(Key::A, _, Action::Press, _) => Some(Direction::Left),
            KeyEvent(Key::D, _, Action::Press, _) => Some(Direction::Right),
            _ => None,
        };
        if let Some(d) = direction {
            proof {
                let (s, t) = (self.movement_speed as int, delta_time as int);
                assert(0 <= s * t <= u64::MAX * u64::MAX) by (nonlinear_arith)
                    requires
                        0 <= s <= u64::MAX,
                        0 <= t <= u64::MAX,
                ;
            }
            let distance: u128 = self.movement_speed as u128 * delta_time as u128;
            self.moves.push(Move { direction: d, distance });
        }
    }
}

} // verus!
