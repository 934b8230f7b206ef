use screen_board::event::{RawInputEvent, TabletButton, TabletEvent, EV_ABS, EV_KEY, EV_SYN, MAX_PRESSURE, MAX_X, MAX_Y};
use screen_board::pen::{clamp_axis, PenDecoder, ABS_PRESSURE, ABS_TILT_X, ABS_TILT_Y, ABS_X, ABS_Y, BTN_TOOL_PEN, BTN_TOUCH};

fn abs(code: u16, value: i32) -> RawInputEvent {
    RawInputEvent::new(EV_ABS, code, value)
}

fn key(code: u16, value: i32) -> RawInputEvent {
    RawInputEvent::new(EV_KEY, code, value)
}

fn syn() -> RawInputEvent {
    RawInputEvent::new(EV_SYN, 0, 0)
}

fn feed(d: &mut PenDecoder, evs: &[RawInputEvent]) -> Vec<TabletEvent> {
    let mut out = Vec::new();
    for ev in evs {
        out.extend(d.handle(*ev));
    }
    out
}

#[test]
fn axis_updates_are_reported_once_per_frame() {
    let mut d = PenDecoder::new();
    assert!(d.handle(abs(ABS_X, 100)).is_empty());
    assert!(d.handle(abs(ABS_Y, 200)).is_empty());
    assert!(d.handle(abs(ABS_X, 300)).is_empty());
    assert!(d.handle(abs(ABS_PRESSURE, 50)).is_empty());
    assert!(d.handle(abs(ABS_TILT_X, -5)).is_empty());
    assert!(d.handle(abs(ABS_TILT_Y, 7)).is_empty());
    let out = d.handle(syn());
    assert_eq!(
        out,
        vec![TabletEvent::PenMotion { x: 300, y: 200, pressure: 50, tilt_x: -5, tilt_y: 7 }]
    );
    // A frame with no change reports nothing.
    assert!(d.handle(syn()).is_empty());
}

#[test]
fn motion_is_limited_to_the_device_ranges() {
    let mut d = PenDecoder::new();
    let out = feed(&mut d, &[abs(ABS_X, 50000), abs(ABS_Y, -3), abs(ABS_PRESSURE, 20000), syn()]);
    assert_eq!(
        out,
        vec![TabletEvent::PenMotion { x: MAX_X, y: 0, pressure: MAX_PRESSURE, tilt_x: 0, tilt_y: 0 }]
    );
    let out = feed(&mut d, &[abs(ABS_Y, MAX_Y), syn()]);
    assert_eq!(
        out,
        vec![TabletEvent::PenMotion { x: MAX_X, y: MAX_Y, pressure: MAX_PRESSURE, tilt_x: 0, tilt_y: 0 }]
    );
}

#[test]
fn clamp_axis_values() {
    assert_eq!(clamp_axis(-1, 10), 0);
    assert_eq!(clamp_axis(0, 10), 0);
    assert_eq!(clamp_axis(7, 10), 7);
    assert_eq!(clamp_axis(10, 10), 10);
    assert_eq!(clamp_axis(11, 10), 10);
}

#[test]
fn untracked_axes_and_other_types_are_ignored() {
    let mut d = PenDecoder::new();
    let out = feed(&mut d, &[abs(40, 9), RawInputEvent::new(4, 4, 123), key(331, 1), syn()]);
    assert!(out.is_empty());
}

#[test]
fn frame_order_proximity_touch_motion() {
    let mut d = PenDecoder::new();
    let out = feed(
        &mut d,
        &[key(BTN_TOOL_PEN, 1), key(BTN_TOUCH, 1), abs(ABS_X, 10), abs(ABS_PRESSURE, 400), syn()],
    );
    assert_eq!(
        out,
        vec![
            TabletEvent::Proximity { in_range: true },
            TabletEvent::PenTouch { touching: true },
            TabletEvent::PenMotion { x: 10, y: 0, pressure: 400, tilt_x: 0, tilt_y: 0 },
        ]
    );
    let out = feed(&mut d, &[key(BTN_TOUCH, 0), abs(ABS_PRESSURE, 0), syn()]);
    assert_eq!(
        out,
        vec![
            TabletEvent::PenTouch { touching: false },
            TabletEvent::PenMotion { x: 10, y: 0, pressure: 0, tilt_x: 0, tilt_y: 0 },
        ]
    );
    let out = feed(&mut d, &[key(BTN_TOOL_PEN, 0), syn()]);
    assert_eq!(out, vec![TabletEvent::Proximity { in_range: false }]);
}

#[test]
fn leaving_range_releases_held_barrel_buttons() {
    let mut d = PenDecoder::new();
    d.stylus1_held = true;
    d.stylus2_held = true;
    let out = feed(&mut d, &[key(BTN_TOOL_PEN, 0), syn()]);
    assert_eq!(
        out,
        vec![
            TabletEvent::Proximity { in_range: false },
            TabletEvent::Button { button: TabletButton::Stylus1, pressed: false },
            TabletEvent::Button { button: TabletButton::Stylus2, pressed: false },
        ]
    );
    assert!(!d.stylus1_held && !d.stylus2_held);
}

#[test]
fn release_with_tip_press_in_same_frame_is_suppressed() {
    let mut d = PenDecoder::new();
    d.stylus1_held = true;
    d.frame_stylus1_release = true;
    let out = feed(&mut d, &[key(BTN_TOUCH, 1), syn()]);
    assert_eq!(out, vec![TabletEvent::PenTouch { touching: true }]);
    assert!(d.stylus1_held);

    // A release in a frame without a tip press goes through.
    d.frame_stylus1_release = true;
    let out = d.handle(syn());
    assert_eq!(out, vec![TabletEvent::Button { button: TabletButton::Stylus1, pressed: false }]);
    assert!(!d.stylus1_held);
}

#[test]
fn barrel_press_is_reported_and_held() {
    let mut d = PenDecoder::new();
    d.frame_stylus2_press = true;
    let out = d.handle(syn());
    assert_eq!(out, vec![TabletEvent::Button { button: TabletButton::Stylus2, pressed: true }]);
    assert!(d.stylus2_held);
    assert!(!d.frame_stylus2_press);
}

#[test]
fn frame_end_resets_accumulators() {
    let mut d = PenDecoder::new();
    feed(&mut d, &[key(BTN_TOUCH, 1), key(BTN_TOUCH, 0), key(BTN_TOOL_PEN, 1), abs(ABS_Y, 5), syn()]);
    assert!(!d.frame_touch_press && !d.frame_touch_release && !d.abs_changed);
    assert_eq!(d.frame_proximity, None);
    assert_eq!(d.last_y, 5);
}
