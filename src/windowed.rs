use vstd::prelude::*;

use crate::events::{MouseData, PressAction};

verus! {

/// A key (by key code) and the key state (by state code) that reports it.
#[derive(Clone, Copy, Debug, PartialEq, Eq, Structural)]
pub struct WindowedKeyHandler {
    pub key: i32,
    pub action: i32,
}

/// What the window system reported in one tick of the host loop.
pub struct InputSample {
    /// The framebuffer size now.
    pub framebuffer: (u32, u32),
    /// The cursor position now, in whole pixels.
    pub cursor: (i32, i32),
    /// The state of each registered key, in the order of the key handlers.
    pub key_states: Vec<i32>,
    /// Framebuffer resizes the window reported since the last tick, in order.
    pub resized: Vec<(u32, u32)>,
}

/// An event the host loop dispatches on the engine's behalf.
#[derive(Clone, Copy, Debug, PartialEq, Eq)]
pub enum TickEvent {
    /// Dispatch an action with the new surface size.
    Resize { width: u32, height: u32 },
    /// Dispatch a mouse interaction with this cursor data.
    Mouse(MouseData),
    /// Dispatch a keyboard interaction for this key.
    Key(i32),
}

/// The window settings and what the host loop remembers between ticks.
pub struct Windowed {
    pub width: u32,
    pub height: u32,
    pub title: String,
    pub disable_cursor: bool,
    pub fps: i32,
    pub key_handlers: Vec<WindowedKeyHandler>,
    pub last_framebuffer: (u32, u32),
    pub last_cursor: (i32, i32),
    pub should_close: bool,
}

/// The key events of a tick: one for each handler whose key is in its state.
pub open spec fn key_events(handlers: Seq<WindowedKeyHandler>, states: Seq<i32>) -> Seq<TickEvent>
    decreases handlers.len(),
{
    if handlers.len() == 0 {
        seq![]
    } else {
        let rest = key_events(handlers.drop_last(), states);
        let i = handlers.len() - 1;
        if i < states.len() && states[i] == handlers[i].action {
            rest.push(TickEvent::Key(handlers[i].key))
        } else {
            rest
        }
    }
}

pub open spec fn resize_events(resized: Seq<(u32, u32)>) -> Seq<TickEvent> {
    resized.map_values(|p: (u32, u32)| TickEvent::Resize { width: p.0, height: p.1 })
}

/// The events of one tick, in order: a resize when the framebuffer size
/// changed, a mouse event when the cursor moved, the key events, and the
/// resizes the window reported.
pub open spec fn tick_events(w: Windowed, sample: InputSample) -> Seq<TickEvent> {
    let size = if sample.framebuffer != w.last_framebuffer {
        seq![TickEvent::Resize { width: sample.framebuffer.0, height: sample.framebuffer.1 }]
    } else {
        seq![]
    };
    let delta = (
        sample.cursor.0.wrapping_sub(w.last_cursor.0),
        sample.cursor.1.wrapping_sub(w.last_cursor.1),
    );
    let mouse = if delta != (0i32, 0i32) {
        seq![TickEvent::Mouse(MouseData { cursor: sample.cursor, delta, pressed: PressAction::NONE })]
    } else {
        seq![]
    };
    size + mouse + key_events(w.key_handlers@, sample.key_states@) + resize_events(sample.resized@)
}

impl Windowed {
    pub fn new(width: u32, height: u32, title: &str, disable_cursor: bool, fps: i32) -> (r: Self)
        ensures
            r.width == width,
            r.height == height,
            r.title@ == title@,
            r.disable_cursor == disable_cursor,
            r.fps == fps,
            r.key_handlers@.len() == 0,
            r.last_framebuffer == (0u32, 0u32),
            r.last_cursor == (0i32, 0i32),
            !r.should_close,
    {
        Windowed {
            width,
            height,
            title: String::from_str(title),
            disable_cursor,
            fps,
            key_handlers: Vec::new(),
            last_framebuffer: (0, 0),
            last_cursor: (0, 0),
            should_close: false,
        }
    }

    /// Reports `key` whenever it is found in state `action`.
    pub fn add_key_handler(&mut self, key: i32, action: i32)
        ensures
            final(self).key_handlers@ == old(self).key_handlers@.push(
                WindowedKeyHandler { key, action },
            ),
            final(self).should_close == old(self).should_close,
    {
        self.key_handlers.push(WindowedKeyHandler { key, action });
    }

    /// Asks the host loop to close the window after the current tick.
    pub fn close_window(&mut self)
        ensures
            final(self).should_close,
            final(self).key_handlers@ == old(self).key_handlers@,
    {
        self.should_close = true;
    }

    /// The pause between frames that holds the frame rate, in milliseconds.
    pub fn frame_delay_ms(&self) -> (r: u64)
        requires
            self.fps > 0,
        ensures
            r == 1000int / (self.fps as int),
    {
        (1000 / self.fps) as u64
    }

    /// Turns one sample of the window system into the events to dispatch,
    /// and remembers the framebuffer size and cursor position for the next.
    pub fn tick(&mut self, sample: &InputSample) -> (r: Vec<TickEvent>)
        ensures
            r@ == tick_events(*old(self), *sample),
            final(self).last_framebuffer == sample.framebuffer,
            final(self).last_cursor == sample.cursor,
            final(self).key_handlers@ == old(self).key_handlers@,
            final(self).should_close == old(self).should_close,
    {
        let ghost w = *self;
        let mut events: Vec<TickEvent> = Vec::new();
        if sample.framebuffer.0 != self.last_framebuffer.0 || sample.framebuffer.1 != self.last_framebuffer.1 {
            events.push(TickEvent::Resize { width: sample.framebuffer.0, height: sample.framebuffer.1 });
        }
        self.last_framebuffer = sample.framebuffer;
        let delta = (
            sample.cursor.0.wrapping_sub(self.last_cursor.0),
            sample.cursor.1.wrapping_sub(self.last_cursor.1),
        );
        self.last_cursor = sample.cursor;
        if delta.0 != 0 || delta.1 != 0 {
            events.push(
                TickEvent::Mouse(MouseData { cursor: sample.cursor, delta, pressed: PressAction::NONE }),
            );
        }
        let ghost head = events@;
        let n = self.key_handlers.len();
        let mut i: usize = 0;
        while i < n
            invariant
                n == self.key_handlers@.len(),
                self.key_handlers@ == w.key_handlers@,
                i <= n,
                events@ == head + key_events(self.key_handlers@.take(i as int), sample.key_states@),
            decreases n - i,
        {
            let ghost hs = self.key_handlers@.take(i as int + 1);
            assert(hs.drop_last() =~= self.key_handlers@.take(i as int));
            let h = self.key_handlers[i];
            if i < sample.key_states.len() && sample.key_states[i] == h.action {
                events.push(TickEvent::Key(h.key));
            }
            i = i + 1;
        }
        assert(self.key_handlers@.take(n as int) =~= self.key_handlers@);
        let ghost keyed = events@;
        let m = sample.resized.len();
        let mut j: usize = 0;
        while j < m
            invariant
                m == sample.resized@.len(),
                j <= m,
                events@ == keyed + resize_events(sample.resized@.take(j as int)),
            decreases m - j,
        {
            let p = sample.resized[j];
            events.push(TickEvent::Resize { width: p.0, height: p.1 });
            assert(resize_events(sample.resized@.take(j as int + 1)) =~= resize_events(
                sample.resized@.take(j as int),
            ).push(TickEvent::Resize { width: p.0, height: p.1 }));
            j = j + 1;
        }
        assert(sample.resized@.take(m as int) =~= sample.resized@);
        assert(events@ =~= tick_events(w, *sample));
        events
    }
}

} // verus!
