use vstd::prelude::*;

verus! {

/// Event type of synchronisation markers.
pub const EV_SYN: u16 = 0x00;

/// Event type of absolute-axis updates.
pub const EV_ABS: u16 = 0x03;

/// Code of the marker that closes a burst of updates.
pub const SYN_REPORT: u16 = 0x00;

/// Absolute axis that selects the multi-touch slot the next updates refer to.
pub const ABS_MT_SLOT: u16 = 0x2f;

/// Absolute axis of a contact's X position.
pub const ABS_MT_POSITION_X: u16 = 0x35;

/// Absolute axis of a contact's Y position.
pub const ABS_MT_POSITION_Y: u16 = 0x36;

/// Absolute axis of a contact's tracking id; -1 means the finger was lifted.
pub const ABS_MT_TRACKING_ID: u16 = 0x39;

/// One field update of the multi-touch protocol.
#[derive(Clone, Copy, Debug, PartialEq, Eq, Structural)]
pub enum TouchEvent {
    SlotSelect(i32),
    TrackingId(i32),
    PositionX(i32),
    PositionY(i32),
    Sync,
    Other,
}

/// What a raw `(type, code, value)` event means to the slot tracker.
pub open spec fn event_meaning(kind: u16, code: u16, value: i32) -> TouchEvent {
    if kind == EV_ABS && code == ABS_MT_SLOT {
        TouchEvent::SlotSelect(value)
    } else if kind == EV_ABS && code == ABS_MT_TRACKING_ID {
        TouchEvent::TrackingId(value)
    } else if kind == EV_ABS && code == ABS_MT_POSITION_X {
        TouchEvent::PositionX(value)
    } else if kind == EV_ABS && code == ABS_MT_POSITION_Y {
        TouchEvent::PositionY(value)
    } else if kind == EV_SYN && code == SYN_REPORT {
        TouchEvent::Sync
    } else {
        TouchEvent::Other
    }
}

/// Classifies a raw input event.
pub fn decode_event(kind: u16, code: u16, value: i32) -> (r: TouchEvent)
    ensures
        r == event_meaning(kind, code, value),
{
    if kind == EV_ABS {
        if code == ABS_MT_SLOT {
            TouchEvent::SlotSelect(value)
        } else if code == ABS_MT_TRACKING_ID {
            TouchEvent::TrackingId(value)
        } else if code == ABS_MT_POSITION_X {
            TouchEvent::PositionX(value)
        } else if code == ABS_MT_POSITION_Y {
            TouchEvent::PositionY(value)
        } else {
            TouchEvent::Other
        }
    } else if kind == EV_SYN && code == SYN_REPORT {
        TouchEvent::Sync
    } else {
        TouchEvent::Other
    }
}

/// A device is a touchscreen when it reports both multi-touch position axes.
pub fn is_touch(supported_axes: &Vec<u16>) -> (r: bool)
    ensures
        r == (supported_axes@.contains(ABS_MT_POSITION_X) && supported_axes@.contains(
            ABS_MT_POSITION_Y,
        )),
{
    let mut has_x = false;
    let mut has_y = false;
    let mut i: usize = 0;
    while i < supported_axes.len()
        invariant
            i <= supported_axes@.len(),
            has_x == supported_axes@.subrange(0, i as int).contains(ABS_MT_POSITION_X),
            has_y == supported_axes@.subrange(0, i as int).contains(ABS_MT_POSITION_Y),
        decreases supported_axes@.len() - i,
    {
        let a = supported_axes[i];
        proof {
            let s = supported_axes@;
            assert(s.subrange(0, i + 1) == s.subrange(0, i as int).push(a));
            assert(forall|c: u16| s.subrange(0, i + 1).contains(c) <==> (s.subrange(0, i as int).contains(c) || c == a)) by {
                assert(s.subrange(0, i + 1).last() == a);
                assert forall|c: u16| s.subrange(0, i as int).contains(c) implies s.subrange(0, i + 1).contains(c) by {
                    let j = choose|j: int| 0 <= j < i && s.subrange(0, i as int)[j] == c;
                    assert(s.subrange(0, i + 1)[j] == c);
                }
            }
        }
        if a == ABS_MT_POSITION_X {
            has_x = true;
        }
        if a == ABS_MT_POSITION_Y {
            has_y = true;
        }
        i += 1;
    }
    proof {
        assert(supported_axes@.subrange(0, i as int) == supported_axes@);
    }
    has_x && has_y
}


/// The maximum reported for `code` by the last descriptor that names it, or 0
/// when none does.
pub open spec fn axis_maximum(axes: Seq<(u16, i32)>, code: u16) -> i32
    decreases axes.len(),
{
    if axes.len() == 0 {
        0
    } else if axes.last().0 == code {
        axes.last().1
    } else {
        axis_maximum(axes.drop_last(), code)
    }
}

/// Picks the multi-touch X and Y maxima out of a device's absolute-axis
/// descriptors, given as `(axis code, maximum)` pairs. An axis that is not
/// described reads as 0, which calibration rejects.
pub fn position_maxima(axes: &Vec<(u16, i32)>) -> (r: (i32, i32))
    ensures
        r.0 == axis_maximum(axes@, ABS_MT_POSITION_X),
        r.1 == axis_maximum(axes@, ABS_MT_POSITION_Y),
{
    let mut phy_x: i32 = 0;
    let mut phy_y: i32 = 0;
    let mut i: usize = 0;
    while i < axes.len()
        invariant
            i <= axes@.len(),
            phy_x == axis_maximum(axes@.subrange(0, i as int), ABS_MT_POSITION_X),
            phy_y == axis_maximum(axes@.subrange(0, i as int), ABS_MT_POSITION_Y),
        decreases axes@.len() - i,
    {
        let (code, maximum) = axes[i];
        proof {
            assert(axes@.subrange(0, i + 1).drop_last() == axes@.subrange(0, i as int));
        }
        if code == ABS_MT_POSITION_X {
            phy_x = maximum;
        }
        if code == ABS_MT_POSITION_Y {
            phy_y = maximum;
        }
        i += 1;
    }
    proof {
        assert(axes@.subrange(0, i as int) == axes@);
    }
    (phy_x, phy_y)
}

} // verus!
