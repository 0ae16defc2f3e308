use vstd::prelude::*;

verus! {

/// Key code of the W key in the windowing backend's numbering.
pub const KEY_CODE_W: i32 = 87;
/// Key code of the A key.
pub const KEY_CODE_A: i32 = 65;
/// Key code of the S key.
pub const KEY_CODE_S: i32 = 83;
/// Key code of the D key.
pub const KEY_CODE_D: i32 = 68;
/// Key code of the Escape key.
pub const KEY_CODE_ESCAPE: i32 = 256;

/// The keys that the bindings of this library read; every other key keeps
/// its backend code.
#[derive(Clone, Copy, PartialEq, Eq, Structural, Debug)]
pub enum Key {
    W,
    A,
    S,
    D,
    Escape,
    Other(i32),
}

/// The key that a backend key code stands for.
pub open spec fn key_of_code(code: i32) -> Key {
    if code == KEY_CODE_W {
        Key::W
    } else if code == KEY_CODE_A {
        Key::A
    } else if code == KEY_CODE_S {
        Key::S
    } else if code == KEY_CODE_D {
        Key::D
    } else if code == KEY_CODE_ESCAPE {
        Key::Escape
    } else {
        Key::Other(code)
    }
}

impl Key {
    /// Classifies a backend key code.
    pub fn from_code(code: i32) -> (r: Key)
        ensures
            r == key_of_code(code),
    {
        if code == KEY_CODE_W {
            Key::W
        } else if code == KEY_CODE_A {
            Key::A
        } else if code == KEY_CODE_S {
            Key::S
        } else if code == KEY_CODE_D {
            Key::D
        } else if code == KEY_CODE_ESCAPE {
            Key::Escape
        } else {
            Key::Other(code)
        }
    }
}

/// What happened to a key.
#[derive(Clone, Copy, PartialEq, Eq, Structural, Debug)]
pub enum Action {
    Release,
    Press,
    Repeat,
}

/// A keyboard event: key, platform scancode, action and modifier bits.
#[derive(Clone, Copy, PartialEq, Eq, Structural, Debug)]
pub struct KeyEvent(pub Key, pub i32, pub Action, pub i32);

/// A cursor or wheel event. Positions are in thousandths of a pixel; the
/// offsets are in thousandths of a pixel for cursor moves and in thousandths
/// of a wheel step for scrolls.
#[derive(Clone, Copy, PartialEq, Eq, Structural, Debug)]
pub struct MouseEvent {
    pub x_pos: i32,
    pub y_pos: i32,
    pub x_offset: i64,
    pub y_offset: i64,
    pub is_scroll: bool,
}

/// The event that a cursor sample at `(x, y)` yields after the last known
/// position `last`; with none known, the sample is its own baseline. The
/// vertical offset grows as the cursor moves up the screen.
pub open spec fn cursor_event(last: Option<(i32, i32)>, x: i32, y: i32) -> MouseEvent {
    let (lx, ly) = match last {
        Some(p) => p,
        None => (x, y),
    };
    MouseEvent {
        x_pos: x,
        y_pos: y,
        x_offset: (x - lx) as i64,
        y_offset: (ly - y) as i64,
        is_scroll: false,
    }
}

/// The event that a wheel turn of `(dx, dy)` yields: it sits at the last known
/// cursor position, or at the origin when none is known.
pub open spec fn scroll_event(last: Option<(i32, i32)>, dx: i64, dy: i64) -> MouseEvent {
    let (x, y) = match last {
        Some(p) => p,
        None => (0i32, 0i32),
    };
    MouseEvent { x_pos: x, y_pos: y, x_offset: dx, y_offset: dy, is_scroll: true }
}

/// Turns raw cursor samples and wheel turns into `MouseEvent`s, remembering
/// the last cursor position seen.
#[derive(Clone, Copy, Debug)]
pub struct MouseTracker {
    pub last_mouse_pos: Option<(i32, i32)>,
}

impl MouseTracker {
    /// A tracker that has seen no cursor sample yet.
    pub fn new() -> (r: MouseTracker)
        ensures
            r.last_mouse_pos is None,
    {
        MouseTracker { last_mouse_pos: None }
    }

    /// Forgets the last known position, so that the next sample is its own
    /// baseline.
    pub fn reset(&mut self)
        ensures
            final(self).last_mouse_pos is None,
    {
        self.last_mouse_pos = None;
    }

    /// Normalises a cursor sample and makes it the new baseline.
    pub fn cursor_moved(&mut self, x_pos: i32, y_pos: i32) -> (r: MouseEvent)
        ensures
            r == cursor_event(old(self).last_mouse_pos, x_pos, y_pos),
            final(self).last_mouse_pos == Some((x_pos, y_pos)),
    {
        let (x_last, y_last) = match self.last_mouse_pos {
            Some(p) => p,
            None => (x_pos, y_pos),
        };
        let x_offset = x_pos as i64 - x_last as i64;
        let y_offset = y_last as i64 - y_pos as i64;
        self.last_mouse_pos = Some((x_pos, y_pos));
        MouseEvent { x_pos, y_pos, x_offset, y_offset, is_scroll: false }
    }

    /// Normalises a wheel turn; the baseline stays as it is.
    pub fn scrolled(&self, x_offset: i64, y_offset: i64) -> (r: MouseEvent)
        ensures
            r == scroll_event(self.last_mouse_pos, x_offset, y_offset),
    {
        let (x_pos, y_pos) = match self.last_mouse_pos {
            Some(p) => p,
            None => (0i32, 0i32),
        };
        MouseEvent { x_pos, y_pos, x_offset, y_offset, is_scroll: true }
    }
}

/// The first cursor sample after construction or a reset yields a zero offset.
pub proof fn lemma_first_cursor_sample_is_still(x: i32, y: i32)
    ensures
        cursor_event(None, x, y).x_offset == 0,
        cursor_event(None, x, y).y_offset == 0,
{
}

/// Receives normalised events; implemented by the loop driver.
pub trait InputEvent: Sized {
    /// `after` is what `self` becomes on receiving the mouse event `e`.
    spec fn mouse_step(&self, after: &Self, e: MouseEvent) -> bool;

    /// `after` is what `self` becomes on receiving the key event `e`.
    spec fn keyboard_step(&self, after: &Self, e: KeyEvent) -> bool;

    fn mouse_event(&mut self, event: MouseEvent)
        ensures
            old(self).mouse_step(final(self), event),
    ;

    fn keyboard_event(&mut self, event: KeyEvent)
        ensures
            old(self).keyboard_step(final(self), event),
    ;
}

/// Consumes normalised events together with the current frame delta in
/// microseconds; implemented by every reactive object.
pub trait InputControl: Sized {
    /// `after` is what `self` becomes on `on_mouse(e, dt)`.
    spec fn mouse_step(&self, after: &Self, e: MouseEvent, dt: u64) -> bool;

    /// `after` is what `self` becomes on `on_keyboard(e, dt)`.
    spec fn keyboard_step(&self, after: &Self, e: KeyEvent, dt: u64) -> bool;

    fn on_mouse(&mut self, mouse: MouseEvent, delta_time: u64)
        ensures
            old(self).mouse_step(final(self), mouse, delta_time),
    ;

    fn on_keyboard(&mut self, key: KeyEvent, delta_time: u64)
        ensures
            old(self).keyboard_step(final(self), key, delta_time),
    ;
}

} // verus!
