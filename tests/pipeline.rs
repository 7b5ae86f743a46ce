use touch_window::geometry::{touch_2_screen, Calibration, CalibrationError, Coord, FingerState};
use touch_window::pointer::{Event, FrameState, PointerState};
use touch_window::protocol::{
    decode_event, is_touch, position_maxima, TouchEvent, ABS_MT_POSITION_X, ABS_MT_POSITION_Y,
    ABS_MT_SLOT, ABS_MT_TRACKING_ID, EV_ABS, EV_SYN, SYN_REPORT,
};
use touch_window::tracker::{Publish, SlotTracker, SLOT_COUNT};
use touch_window::window::Window;

fn value(c: Coord) -> f64 {
    c.num as f64 / c.den as f64
}

fn finger(is_down: bool, x: i128, y: i128) -> FingerState {
    FingerState { is_down, x: Coord { num: x, den: 1 }, y: Coord { num: y, den: 1 } }
}

/// Scale 2 on both axes for a 800 x 600 display.
fn scale_two() -> Calibration {
    Calibration::calibrate(1200, 1600, 800, 600).unwrap()
}

fn burst(tracking_id: i32) -> Publish {
    let mut t = SlotTracker::new(scale_two());
    let events = [
        TouchEvent::SlotSelect(2),
        TouchEvent::TrackingId(tracking_id),
        TouchEvent::PositionX(100),
        TouchEvent::PositionY(200),
    ];
    for ev in events {
        assert_eq!(t.apply(ev, Some(0)), Publish::Nothing);
    }
    t.apply(TouchEvent::Sync, Some(0))
}

#[test]
fn quarter_turn_maps_to_screen() {
    let r = touch_2_screen(600, 800, 1, finger(true, 50, 100));
    assert!(r.is_down);
    assert_eq!(value(r.x), 100.0);
    assert_eq!(value(r.y), 550.0);
}

#[test]
fn three_quarter_turn_maps_to_screen() {
    let r = touch_2_screen(600, 800, 3, finger(true, 50, 100));
    assert_eq!(value(r.x), 700.0);
    assert_eq!(value(r.y), 50.0);
}

#[test]
fn other_orientations_leave_position() {
    let f = finger(true, 50, 100);
    for o in [0u8, 2, 4, 255] {
        assert_eq!(touch_2_screen(600, 800, o, f), f);
        assert_eq!(touch_2_screen(600, 800, o, touch_2_screen(600, 800, o, f)), f);
    }
}

#[test]
fn quarter_then_three_quarter_round_trips_on_square_screen() {
    let f = FingerState {
        is_down: true,
        x: Coord { num: 37, den: 3 },
        y: Coord { num: 410, den: 7 },
    };
    let g = touch_2_screen(500, 500, 1, f);
    assert_ne!(g, f);
    assert_eq!(touch_2_screen(500, 500, 3, g), f);
}

#[test]
fn rotated_corners_stay_on_screen() {
    let cal = scale_two();
    for (rx, ry) in [(0, 0), (1200, 1600), (0, 1600), (1200, 0), (600, 800)] {
        let f = FingerState { is_down: true, x: cal.scale_x(rx), y: cal.scale_y(ry) };
        for o in [1u8, 3] {
            let r = touch_2_screen(cal.screen_width, cal.screen_height, o, f);
            for c in [r.x, r.y] {
                assert!(value(c) >= 0.0 && value(c) <= 800.0);
            }
        }
    }
}

#[test]
fn burst_on_slot_two_publishes_down() {
    match burst(5) {
        Publish::Down(p) => {
            assert!(p.is_down);
            assert_eq!(value(p.x), 50.0);
            assert_eq!(value(p.y), 100.0);
        }
        other => panic!("expected a snapshot, got {:?}", other),
    }
}

#[test]
fn burst_with_lift_publishes_up() {
    assert_eq!(burst(-1), Publish::Lift);
    let mut s = PointerState::new();
    s.publish(Publish::Down(finger(true, 3, 4)));
    s.publish(burst(-1));
    assert_eq!(s.read(), finger(false, 3, 4));
}

#[test]
fn sync_without_orientation_publishes_nothing() {
    let mut t = SlotTracker::new(scale_two());
    t.apply(TouchEvent::TrackingId(1), None);
    assert_eq!(t.apply(TouchEvent::Sync, None), Publish::Nothing);
}

#[test]
fn out_of_range_slots_are_clamped_and_keep_state() {
    let mut t = SlotTracker::new(scale_two());
    t.apply(TouchEvent::SlotSelect(4), Some(0));
    t.apply(TouchEvent::TrackingId(9), Some(0));
    t.apply(TouchEvent::PositionX(240), Some(0));
    let before: Vec<FingerState> = (0..SLOT_COUNT).map(|i| t.finger(i)).collect();
    t.apply(TouchEvent::SlotSelect(42), Some(0));
    assert_eq!(t.current_slot(), SLOT_COUNT - 1);
    t.apply(TouchEvent::SlotSelect(-7), Some(0));
    assert_eq!(t.current_slot(), 0);
    t.apply(TouchEvent::SlotSelect(i32::MAX), Some(0));
    assert_eq!(t.current_slot(), SLOT_COUNT - 1);
    let after: Vec<FingerState> = (0..SLOT_COUNT).map(|i| t.finger(i)).collect();
    assert_eq!(before, after);
    assert!(after[4].is_down);
    assert_eq!(value(after[4].x), 120.0);
}

#[test]
fn new_tracker_is_idle() {
    let t = SlotTracker::new(scale_two());
    assert_eq!(t.current_slot(), 0);
    for i in 0..SLOT_COUNT {
        assert_eq!(t.finger(i), finger(false, 0, 0));
    }
    assert_eq!(t.calibration(), scale_two());
}

#[test]
fn reading_twice_gives_the_same_snapshot() {
    let mut s = PointerState::new();
    assert_eq!(s.read(), finger(false, 0, 0));
    s.publish(Publish::Down(finger(true, 10, 20)));
    let a = s.read();
    let b = s.read();
    assert_eq!(a, b);
    s.publish(Publish::Nothing);
    assert_eq!(s.read(), a);
}

#[test]
fn calibration_rejects_missing_axes() {
    assert_eq!(
        Calibration::calibrate(0, 1600, 800, 600),
        Err(CalibrationError::BadAxisRange { phy_max_x: 0, phy_max_y: 1600 })
    );
    assert_eq!(
        Calibration::calibrate(1200, 0, 800, 600),
        Err(CalibrationError::BadAxisRange { phy_max_x: 1200, phy_max_y: 0 })
    );
    assert!(Calibration::calibrate(-5, 10, 800, 600).is_err());
}

#[test]
fn calibration_normalises_to_portrait() {
    let c = Calibration::calibrate(1200, 1600, 800, 600).unwrap();
    assert_eq!((c.screen_width, c.screen_height), (600, 800));
    let c = Calibration::calibrate(1200, 1600, 600, 800).unwrap();
    assert_eq!((c.screen_width, c.screen_height), (600, 800));
}

#[test]
fn scaling_and_scale_factor() {
    let c = scale_two();
    assert_eq!(value(c.scale_x(100)), 50.0);
    assert_eq!(value(c.scale_y(200)), 100.0);
    assert_eq!(c.scale_factor_ratio(), (1200, 6000));
}

#[test]
fn decodes_protocol_events() {
    assert_eq!(decode_event(EV_ABS, ABS_MT_SLOT, 3), TouchEvent::SlotSelect(3));
    assert_eq!(decode_event(EV_ABS, ABS_MT_TRACKING_ID, -1), TouchEvent::TrackingId(-1));
    assert_eq!(decode_event(EV_ABS, ABS_MT_POSITION_X, 7), TouchEvent::PositionX(7));
    assert_eq!(decode_event(EV_ABS, ABS_MT_POSITION_Y, 8), TouchEvent::PositionY(8));
    assert_eq!(decode_event(EV_SYN, SYN_REPORT, 0), TouchEvent::Sync);
    assert_eq!(decode_event(EV_SYN, 2, 0), TouchEvent::Other);
    assert_eq!(decode_event(0x01, ABS_MT_SLOT, 1), TouchEvent::Other);
}

#[test]
fn protocol_codes_match_evdev() {
    assert_eq!(EV_ABS, evdev::EventType::ABSOLUTE.0);
    assert_eq!(EV_SYN, evdev::EventType::SYNCHRONIZATION.0);
    assert_eq!(SYN_REPORT, evdev::SynchronizationCode::SYN_REPORT.0);
    assert_eq!(ABS_MT_SLOT, evdev::AbsoluteAxisCode::ABS_MT_SLOT.0);
    assert_eq!(ABS_MT_TRACKING_ID, evdev::AbsoluteAxisCode::ABS_MT_TRACKING_ID.0);
    assert_eq!(ABS_MT_POSITION_X, evdev::AbsoluteAxisCode::ABS_MT_POSITION_X.0);
    assert_eq!(ABS_MT_POSITION_Y, evdev::AbsoluteAxisCode::ABS_MT_POSITION_Y.0);
}

#[test]
fn touch_devices_need_both_axes() {
    assert!(is_touch(&vec![0, ABS_MT_POSITION_Y, ABS_MT_SLOT, ABS_MT_POSITION_X]));
    assert!(!is_touch(&vec![ABS_MT_POSITION_X, 1]));
    assert!(!is_touch(&vec![ABS_MT_POSITION_Y]));
    assert!(!is_touch(&vec![]));
}

#[test]
fn axis_maxima_take_last_descriptor() {
    let axes = vec![(ABS_MT_POSITION_X, 100), (0, 5), (ABS_MT_POSITION_Y, 200), (ABS_MT_POSITION_X, 1080)];
    assert_eq!(position_maxima(&axes), (1080, 200));
    assert_eq!(position_maxima(&vec![(0, 5)]), (0, 0));
}

#[test]
fn frame_keeps_last_read_snapshot() {
    let mut frame = FrameState::new();
    assert_eq!(frame.next_event(None), Event::MouseUp);
    let down = finger(true, 12, 34);
    assert_eq!(frame.next_event(Some(down)), Event::MouseMoving(down.x, down.y));
    assert_eq!(frame.next_event(None), Event::MouseMoving(down.x, down.y));
    assert_eq!(frame.next_event(Some(finger(false, 12, 34))), Event::MouseUp);
}

#[test]
fn window_is_square_on_longer_side() {
    let wh = raw_window_handle::RawWindowHandle::Web(raw_window_handle::WebWindowHandle::new(1));
    let dh = raw_window_handle::RawDisplayHandle::Web(raw_window_handle::WebDisplayHandle::new());
    let w = Window::new(wh, dh, 1080, 2400);
    assert_eq!(w.get_width(), 2400);
    assert_eq!(w.get_height(), 2400);
    assert_eq!(w.window_handle(), wh);
    assert_eq!(w.display_handle(), dh);
    let w = Window::new(wh, dh, 2400, 1080);
    assert_eq!((w.get_width(), w.get_height()), (2400, 2400));
}

#[test]
fn surface_covers_both_orientations() {
    assert_eq!(touch_window::window::surface_side(1080, 2400), 2400);
    assert_eq!(touch_window::window::surface_side(2400, 1080), 2400);
    assert_eq!(touch_window::window::surface_side(0, 0), 0);
}

#[test]
fn default_finger_is_lifted_at_origin() {
    assert_eq!(FingerState::default(), finger(false, 0, 0));
    assert_eq!(FingerState::default(), FingerState::new());
}
