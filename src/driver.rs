use vstd::prelude::*;

use crate::input::{
    cursor_event, scroll_event, Action, InputControl, InputEvent, Key, KeyEvent, MouseEvent,
    MouseTracker,
};
use crate::timing::Timing;

verus! {

/// A raw event as the windowing backend reports it, with cursor positions and
/// wheel turns already in thousandths of a pixel or wheel step.
#[derive(Clone, Copy, PartialEq, Eq, Structural, Debug)]
pub enum RawEvent {
    /// The framebuffer now has this width and height.
    FramebufferSize(i32, i32),
    /// The cursor is at this position.
    CursorPos(i32, i32),
    /// The wheel turned by this horizontal and vertical amount.
    Scroll(i64, i64),
    Key(KeyEvent),
    /// Any event this core does not react to.
    Other,
}

/// Whether a key event asks the loop to end: a press of Escape.
pub open spec fn closes_on(e: KeyEvent) -> bool {
    e.0 == Key::Escape && e.2 == Action::Press
}

/// Each object of `after` is its counterpart in `before` after `on_mouse(e, dt)`.
pub open spec fn delivered_mouse<C: InputControl>(
    before: Seq<C>,
    after: Seq<C>,
    e: MouseEvent,
    dt: u64,
) -> bool {
    &&& after.len() == before.len()
    &&& forall|i: int| 0 <= i < before.len() ==> #[trigger] before[i].mouse_step(&after[i], e, dt)
}

/// Each object of `after` is its counterpart in `before` after `on_keyboard(e, dt)`.
pub open spec fn delivered_key<C: InputControl>(
    before: Seq<C>,
    after: Seq<C>,
    e: KeyEvent,
    dt: u64,
) -> bool {
    &&& after.len() == before.len()
    &&& forall|i: int| 0 <= i < before.len() ==> #[trigger] before[i].keyboard_step(&after[i], e, dt)
}

/// Dispatch over an empty registry changes nothing: a mouse event leaves the
/// driver as it was, and so does a key event other than a press of Escape.
pub proof fn lemma_empty_registry_dispatch<C: InputControl>(
    d: LoopDriver<C>,
    after_mouse: LoopDriver<C>,
    m: MouseEvent,
    after_key: LoopDriver<C>,
    k: KeyEvent,
)
    requires
        d.controls@.len() == 0,
        d.mouse_step(&after_mouse, m),
        d.keyboard_step(&after_key, k),
    ensures
        after_mouse.controls@ == d.controls@,
        after_mouse.timing == d.timing,
        after_mouse.mouse.last_mouse_pos == d.mouse.last_mouse_pos,
        after_mouse.should_close == d.should_close,
        after_key.controls@ == d.controls@,
        after_key.timing == d.timing,
        after_key.mouse.last_mouse_pos == d.mouse.last_mouse_pos,
        !closes_on(k) ==> after_key.should_close == d.should_close,
{
    assert(after_mouse.controls@ =~= d.controls@);
    assert(after_key.controls@ =~= d.controls@);
}

/// Owns the frame timing, the cursor baseline, the close flag and the
/// registry of controllable objects, and fans normalised events out to them
/// in registration order.
pub struct LoopDriver<C: InputControl> {
    pub controls: Vec<C>,
    pub timing: Timing,
    pub mouse: MouseTracker,
    pub should_close: bool,
}

impl<C: InputControl> LoopDriver<C> {
    /// A driver with no controllables, zero timing and no cursor baseline.
    pub fn new() -> (r: Self)
        ensures
            r.controls@.len() == 0,
            r.timing.delta_time == 0,
            r.timing.last_frame == 0,
            r.mouse.last_mouse_pos is None,
            !r.should_close,
    {
        LoopDriver {
            controls: Vec::new(),
            timing: Timing::default(),
            mouse: MouseTracker::new(),
            should_close: false,
        }
    }

    /// Adds a controllable; it receives events after those registered before.
    pub fn register(&mut self, control: C)
        ensures
            final(self).controls@ == old(self).controls@.push(control),
            final(self).timing == old(self).timing,
            final(self).mouse.last_mouse_pos == old(self).mouse.last_mouse_pos,
            final(self).should_close == old(self).should_close,
    {
        self.controls.push(control);
    }

    /// Starts a frame at `now` on a monotonic clock, in microseconds.
    pub fn begin_frame(&mut self, now: u64)
        requires
            old(self).timing.last_frame <= now,
        ensures
            final(self).timing.delta_time == now - old(self).timing.last_frame,
            final(self).timing.last_frame == now,
            final(self).controls@ == old(self).controls@,
            final(self).mouse.last_mouse_pos == old(self).mouse.last_mouse_pos,
            final(self).should_close == old(self).should_close,
    {
        self.timing.advance(now);
    }

    /// Asks the loop to end.
    pub fn request_close(&mut self)
        ensures
            final(self).should_close,
            final(self).controls@ == old(self).controls@,
            final(self).timing == old(self).timing,
            final(self).mouse.last_mouse_pos == old(self).mouse.last_mouse_pos,
    {
        self.should_close = true;
    }

    /// Normalises one raw event and dispatches it. A framebuffer resize is
    /// handed back as the viewport size to set; every other event gives `None`.
    pub fn process_event(&mut self, event: RawEvent) -> (r: Option<(i32, i32)>)
        ensures
            r == match event {
                RawEvent::FramebufferSize(w, h) => Some((w, h)),
                _ => None::<(i32, i32)>,
            },
            final(self).timing == old(self).timing,
            match event {
                RawEvent::CursorPos(x, y) => {
                    &&& final(self).mouse.last_mouse_pos == Some((x, y))
                    &&& final(self).should_close == old(self).should_close
                    &&& delivered_mouse(
                        old(self).controls@,
                        final(self).controls@,
                        cursor_event(old(self).mouse.last_mouse_pos, x, y),
                        old(self).timing.delta_time,
                    )
                },
                RawEvent::Scroll(dx, dy) => {
                    &&& final(self).mouse.last_mouse_pos == old(self).mouse.last_mouse_pos
                    &&& final(self).should_close == old(self).should_close
                    &&& delivered_mouse(
                        old(self).controls@,
                        final(self).controls@,
                        scroll_event(old(self).mouse.last_mouse_pos, dx, dy),
                        old(self).timing.delta_time,
                    )
                },
                RawEvent::Key(k) => old(self).keyboard_step(final(self), k),
                _ => {
                    &&& final(self).mouse.last_mouse_pos == old(self).mouse.last_mouse_pos
                    &&& final(self).should_close == old(self).should_close
                    &&& final(self).controls@ == old(self).controls@
                },
            },
    {
        match event {
            RawEvent::FramebufferSize(width, height) => Some((width, height)),
            RawEvent::CursorPos(x_pos, y_pos) => {
                let e = self.mouse.cursor_moved(x_pos, y_pos);
                self.mouse_event(e);
                None
            },
            RawEvent::Scroll(x_offset, y_offset) => {
                let e = self.mouse.scrolled(x_offset, y_offset);
                self.mouse_event(e);
                None
            },
            RawEvent::Key(k) => {
                self.keyboard_event(k);
                None
            },
            RawEvent::Other => None,
        }
    }
}

impl<C: InputControl> InputEvent for LoopDriver<C> {
    open spec fn mouse_step(&self, after: &Self, e: MouseEvent) -> bool {
        &&& delivered_mouse(self.controls@, after.controls@, e, self.timing.delta_time)
        &&& after.timing == self.timing
        &&& after.mouse.last_mouse_pos == self.mouse.last_mouse_pos
        &&& after.should_close == self.should_close
    }

    open spec fn keyboard_step(&self, after: &Self, e: KeyEvent) -> bool {
        &&& delivered_key(self.controls@, after.controls@, e, self.timing.delta_time)
        &&& after.timing == self.timing
        &&& after.mouse.last_mouse_pos == self.mouse.last_mouse_pos
        &&& after.should_close == (self.should_close || closes_on(e))
    }

    /// Delivers the event to every controllable, in registration order, with
    /// the current frame delta.
    fn mouse_event(&mut self, event: MouseEvent) {
        let dt = self.timing.delta_time;
        let n = self.controls.len();
        let mut i: usize = 0;
        while i < n
            invariant
                n == old(self).controls@.len(),
                self.controls@.len() == n,
                0 <= i <= n,
                dt == old(self).timing.delta_time,
                self.timing == old(self).timing,
                self.mouse.last_mouse_pos == old(self).mouse.last_mouse_pos,
                self.should_close == old(self).should_close,
                forall|j: int| 0 <= j < i ==> #[trigger] old(self).controls@[j].mouse_step(
                    &self.controls@[j],
                    event,
                    dt,
                ),
                forall|j: int| i <= j < n ==> self.controls@[j] == old(self).controls@[j],
            decreases n - i,
        {
            self.controls[i].on_mouse(event, dt);
            i = i + 1;
        }
    }

    /// A press of Escape asks the loop to end; the event then goes to every
    /// controllable all the same, in registration order.
    fn keyboard_event(&mut self, event: KeyEvent) {
        match event {
            KeyEvent(Key::Escape, _, Action::Press, _) => self.should_close = true,
            _ => {},
        }
        let dt = self.timing.delta_time;
        let n = self.controls.len();
        let mut i: usize = 0;
        while i < n
            invariant
                n == old(self).controls@.len(),
                self.controls@.len() == n,
                0 <= i <= n,
                dt == old(self).timing.delta_time,
                self.timing == old(self).timing,
                self.mouse.last_mouse_pos == old(self).mouse.last_mouse_pos,
                self.should_close == (old(self).should_close || closes_on(event)),
                forall|j: int| 0 <= j < i ==> #[trigger] old(self).controls@[j].keyboard_step(
                    &self.controls@[j],
                    event,
                    dt,
                ),
                forall|j: int| i <= j < n ==> self.controls@[j] == old(self).controls@[j],
            decreases n - i,
        {
            self.controls[i].on_keyboard(event, dt);
            i = i + 1;
        }
    }
}

} // verus!
