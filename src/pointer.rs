use vstd::prelude::*;

use crate::geometry::{Coord, FingerState, MousePos};
use crate::tracker::Publish;

verus! {

/// The last published pointer snapshot in screen space.
///
/// The ingestion side writes it only through `publish`, once per
/// synchronisation marker; the consumer reads a copy with `read`.
pub struct PointerState {
    snapshot: MousePos,
}

impl View for PointerState {
    type V = MousePos;

    closed spec fn view(&self) -> MousePos {
        self.snapshot
    }
}

/// The snapshot after `p` is published over `s`.
pub open spec fn after_publish(s: MousePos, p: Publish) -> MousePos {
    match p {
        Publish::Down(n) => n,
        Publish::Lift => FingerState { is_down: false, x: s.x, y: s.y },
        Publish::Nothing => s,
    }
}

impl PointerState {
    /// A lifted pointer at the origin.
    pub fn new() -> (r: PointerState)
        ensures
            r@.idle(),
    {
        PointerState { snapshot: FingerState::new() }
    }

    /// Stores what the tracker asked for: a new snapshot, a lift that keeps
    /// the last position, or nothing.
    pub fn publish(&mut self, p: Publish)
        ensures
            final(self)@ == after_publish(old(self)@, p),
    {
        match p {
            Publish::Down(n) => {
                self.snapshot = n;
            },
            Publish::Lift => {
                self.snapshot.is_down = false;
            },
            Publish::Nothing => {},
        }
    }

    /// A copy of the current snapshot; reading changes nothing.
    pub fn read(&self) -> (r: MousePos)
        ensures
            r == self@,
    {
        self.snapshot
    }
}

/// Two reads with no publish between them return the same snapshot, and a
/// publish of nothing keeps what a read returns.
pub proof fn lemma_read_is_stable(s: MousePos, first: MousePos, second: MousePos)
    requires
        first == s,
        second == after_publish(s, Publish::Nothing),
    ensures
        first == second,
{
}

/// What the consumer's handler is told each frame.
#[derive(Clone, Copy, Debug, PartialEq, Eq, Structural)]
pub enum Event {
    /// The pointer is down at this logical position.
    MouseMoving(Coord, Coord),
    /// No finger is down.
    MouseUp,
}

/// The event a snapshot stands for.
pub open spec fn event_of(s: MousePos) -> Event {
    if s.is_down {
        Event::MouseMoving(s.x, s.y)
    } else {
        Event::MouseUp
    }
}

/// The consumer side of the run loop: the last snapshot it managed to read.
pub struct FrameState {
    cache: MousePos,
}

impl View for FrameState {
    type V = MousePos;

    closed spec fn view(&self) -> MousePos {
        self.cache
    }
}

impl FrameState {
    /// Starts with a lifted pointer at the origin.
    pub fn new() -> (r: FrameState)
        ensures
            r@.idle(),
    {
        FrameState { cache: FingerState::new() }
    }

    /// One frame: keeps `read` when the shared state could be read, else the
    /// snapshot of the frame before, and returns the event for it.
    pub fn next_event(&mut self, read: Option<MousePos>) -> (r: Event)
        ensures
            final(self)@ == match read {
                Some(s) => s,
                None => old(self)@,
            },
            r == event_of(final(self)@),
    {
        if let Some(s) = read {
            self.cache = s;
        }
        if self.cache.is_down {
            Event::MouseMoving(self.cache.x, self.cache.y)
        } else {
            Event::MouseUp
        }
    }
}

} // verus!
