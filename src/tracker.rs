use vstd::prelude::*;

use crate::geometry::{rotated, touch_2_screen, Calibration, Coord, FingerState, MousePos};
use crate::protocol::TouchEvent;

verus! {

/// Number of simultaneously tracked multi-touch slots.
pub const SLOT_COUNT: usize = 10;

/// What a processed event asks of the shared pointer state.
#[derive(Clone, Copy, Debug, PartialEq, Eq, Structural)]
pub enum Publish {
    /// Store this snapshot.
    Down(MousePos),
    /// Mark the pointer as lifted, keeping its last position.
    Lift,
    /// Leave the shared state alone.
    Nothing,
}

/// The slot a slot-select value refers to, clamped into `[0, SLOT_COUNT)`.
pub open spec fn clamp_slot(v: i32) -> int {
    if v < 0 {
        0
    } else if v >= SLOT_COUNT {
        SLOT_COUNT - 1
    } else {
        v as int
    }
}

/// The slots and the selected slot after one event.
pub open spec fn next_slots(cal: Calibration, s: (Seq<FingerState>, int), ev: TouchEvent) -> (
    Seq<FingerState>,
    int,
) {
    let f = s.0[s.1];
    match ev {
        TouchEvent::SlotSelect(v) => (s.0, clamp_slot(v)),
        TouchEvent::TrackingId(v) => (
            s.0.update(s.1, FingerState { is_down: v != -1, x: f.x, y: f.y }),
            s.1,
        ),
        TouchEvent::PositionX(v) => (
            s.0.update(
                s.1,
                FingerState {
                    is_down: f.is_down,
                    x: Coord {
                        num: (v as int * cal.screen_width as int) as i128,
                        den: cal.phy_max_x as i128,
                    },
                    y: f.y,
                },
            ),
            s.1,
        ),
        TouchEvent::PositionY(v) => (
            s.0.update(
                s.1,
                FingerState {
                    is_down: f.is_down,
                    x: f.x,
                    y: Coord {
                        num: (v as int * cal.screen_height as int) as i128,
                        den: cal.phy_max_y as i128,
                    },
                },
            ),
            s.1,
        ),
        _ => s,
    }
}

/// The request an event makes of the shared pointer state, given the slots
/// before it and the orientation, if one could be read.
pub open spec fn published(
    cal: Calibration,
    s: (Seq<FingerState>, int),
    ev: TouchEvent,
    orientation: Option<u8>,
    r: Publish,
) -> bool {
    let f = s.0[s.1];
    if ev == TouchEvent::Sync {
        if f.is_down {
            match orientation {
                Some(o) => match r {
                    Publish::Down(p) => rotated(
                        cal.screen_width as int,
                        cal.screen_height as int,
                        o,
                        f,
                        p,
                    ),
                    _ => false,
                },
                None => r == Publish::Nothing,
            }
        } else {
            r == Publish::Lift
        }
    } else {
        r == Publish::Nothing
    }
}

/// Per-slot finger state, fed one protocol event at a time.
pub struct SlotTracker {
    calibration: Calibration,
    fingers: Vec<FingerState>,
    current: usize,
}

impl View for SlotTracker {
    type V = (Seq<FingerState>, int);

    closed spec fn view(&self) -> (Seq<FingerState>, int) {
        (self.fingers@, self.current as int)
    }
}

impl SlotTracker {
    pub closed spec fn calibration_spec(&self) -> Calibration {
        self.calibration
    }

    pub closed spec fn wf(&self) -> bool {
        &&& self.calibration.wf()
        &&& self.fingers@.len() == SLOT_COUNT
        &&& self.current < SLOT_COUNT
        &&& forall|i: int| 0 <= i < self.fingers@.len() ==> (#[trigger] self.fingers@[i]).bounded()
    }

    /// All slots lifted at the origin, slot 0 selected.
    pub fn new(calibration: Calibration) -> (r: SlotTracker)
        requires
            calibration.wf(),
        ensures
            r.wf(),
            r.calibration_spec() == calibration,
            r@.1 == 0,
            r@.0.len() == SLOT_COUNT,
            forall|i: int| 0 <= i < SLOT_COUNT ==> (#[trigger] r@.0[i]).idle(),
    {
        let mut fingers: Vec<FingerState> = Vec::new();
        let mut i: usize = 0;
        while i < SLOT_COUNT
            invariant
                i <= SLOT_COUNT,
                fingers@.len() == i,
                forall|j: int| 0 <= j < i ==> (#[trigger] fingers@[j]).idle(),
            decreases SLOT_COUNT - i,
        {
            fingers.push(FingerState::new());
            i += 1;
        }
        SlotTracker { calibration, fingers, current: 0 }
    }

    /// The calibration the tracker scales with.
    pub fn calibration(&self) -> (r: Calibration)
        ensures
            r == self.calibration_spec(),
    {
        self.calibration
    }

    /// The selected slot.
    pub fn current_slot(&self) -> (r: usize)
        ensures
            r == self@.1,
    {
        self.current
    }

    /// The state of slot `i`.
    pub fn finger(&self, i: usize) -> (r: FingerState)
        requires
            self.wf(),
            i < SLOT_COUNT,
        ensures
            r == self@.0[i as int],
    {
        self.fingers[i]
    }

    /// Applies one event. A slot-select value outside the tracked range is
    /// clamped into it; position updates are scaled into screen units; a
    /// synchronisation marker asks for the selected finger to be published,
    /// rotated by `orientation`, or for a lift when it is up.
    pub fn apply(&mut self, ev: TouchEvent, orientation: Option<u8>) -> (r: Publish)
        requires
            old(self).wf(),
        ensures
            final(self).wf(),
            final(self).calibration_spec() == old(self).calibration_spec(),
            final(self)@ == next_slots(old(self).calibration_spec(), old(self)@, ev),
            published(old(self).calibration_spec(), old(self)@, ev, orientation, r),
    {
        let cur = self.current;
        let f = self.fingers[cur];
        match ev {
            TouchEvent::SlotSelect(v) => {
                self.current = if v < 0 {
                    0
                } else if v >= SLOT_COUNT as i32 {
                    SLOT_COUNT - 1
                } else {
                    v as usize
                };
                Publish::Nothing
            },
            TouchEvent::TrackingId(v) => {
                self.fingers.set(cur, FingerState { is_down: v != -1, x: f.x, y: f.y });
                Publish::Nothing
            },
            TouchEvent::PositionX(v) => {
                let x = self.calibration.scale_x(v);
                self.fingers.set(cur, FingerState { is_down: f.is_down, x, y: f.y });
                Publish::Nothing
            },
            TouchEvent::PositionY(v) => {
                let y = self.calibration.scale_y(v);
                self.fingers.set(cur, FingerState { is_down: f.is_down, x: f.x, y });
                Publish::Nothing
            },
            TouchEvent::Sync => {
                if f.is_down {
                    match orientation {
                        Some(o) => Publish::Down(
                            touch_2_screen(
                                self.calibration.screen_width,
                                self.calibration.screen_height,
                                o,
                                f,
                            ),
                        ),
                        None => Publish::Nothing,
                    }
                } else {
                    Publish::Lift
                }
            },
            TouchEvent::Other => Publish::Nothing,
        }
    }
}

/// The slots after a run of slot-select events.
pub open spec fn select_all(cal: Calibration, s: (Seq<FingerState>, int), vs: Seq<i32>) -> (
    Seq<FingerState>,
    int,
)
    decreases vs.len(),
{
    if vs.len() == 0 {
        s
    } else {
        select_all(cal, next_slots(cal, s, TouchEvent::SlotSelect(vs[0])), vs.drop_first())
    }
}

/// Slot-select events, whatever their values, keep the selected slot inside
/// the tracked range and leave every slot's state untouched.
pub proof fn lemma_slot_selects_stay_in_range(
    cal: Calibration,
    s: (Seq<FingerState>, int),
    vs: Seq<i32>,
)
    requires
        s.0.len() == SLOT_COUNT,
        0 <= s.1 < SLOT_COUNT,
    ensures
        0 <= select_all(cal, s, vs).1 < SLOT_COUNT,
        select_all(cal, s, vs).0 == s.0,
    decreases vs.len(),
{
    if vs.len() > 0 {
        lemma_slot_selects_stay_in_range(
            cal,
            next_slots(cal, s, TouchEvent::SlotSelect(vs[0])),
            vs.drop_first(),
        );
    }
}

} // verus!
