use screen_board::event::{RawInputEvent, TabletButton, TabletEvent, EV_KEY, EV_SYN};
use screen_board::keyboard::{
    KeyboardDecoder, KEY_F13, KEY_F14, KEY_F15, KEY_F16, KEY_F17, KEY_F18, KEY_F19, KEY_F20, KEY_F21,
    KEY_PRESS, KEY_RELEASE, KEY_REPEAT,
};

fn key(code: u16, value: i32) -> RawInputEvent {
    RawInputEvent::new(EV_KEY, code, value)
}

fn pressed(b: TabletButton) -> Option<TabletEvent> {
    Some(TabletEvent::Button { button: b, pressed: true })
}

fn released(b: TabletButton) -> Option<TabletEvent> {
    Some(TabletEvent::Button { button: b, pressed: false })
}

#[test]
fn single_keys_report_their_express_button() {
    let cases = [
        (KEY_F13, TabletButton::Express1),
        (KEY_F14, TabletButton::Express2),
        (KEY_F15, TabletButton::Express3),
        (KEY_F16, TabletButton::Express4),
        (KEY_F17, TabletButton::Express5),
        (KEY_F18, TabletButton::Express6),
    ];
    for (code, button) in cases {
        let mut d = KeyboardDecoder::new();
        assert_eq!(d.handle(key(code, KEY_PRESS)), pressed(button));
    }
}

#[test]
fn repeats_report_nothing() {
    let mut d = KeyboardDecoder::new();
    assert_eq!(d.handle(key(KEY_F15, KEY_PRESS)), pressed(TabletButton::Express3));
    assert_eq!(d.handle(key(KEY_F15, KEY_REPEAT)), None);
    assert!(d.f15_down);
    assert_eq!(d.handle(key(KEY_F15, KEY_RELEASE)), released(TabletButton::Express3));
    assert!(!d.f15_down);
}

#[test]
fn pen_key_releases_are_not_reported() {
    let mut d = KeyboardDecoder::new();
    d.handle(key(KEY_F13, KEY_PRESS));
    assert_eq!(d.handle(key(KEY_F13, KEY_RELEASE)), None);
    d.handle(key(KEY_F14, KEY_PRESS));
    assert_eq!(d.handle(key(KEY_F14, KEY_RELEASE)), None);
}

#[test]
fn releases_of_express_keys_are_reported() {
    let mut d = KeyboardDecoder::new();
    assert_eq!(d.handle(key(KEY_F16, KEY_RELEASE)), released(TabletButton::Express4));
    assert_eq!(d.handle(key(KEY_F17, KEY_RELEASE)), released(TabletButton::Express5));
    assert_eq!(d.handle(key(KEY_F18, KEY_RELEASE)), released(TabletButton::Express6));
    assert_eq!(d.handle(key(KEY_F21, KEY_RELEASE)), released(TabletButton::Express8));
    assert_eq!(d.handle(key(KEY_F19, KEY_RELEASE)), None);
    assert_eq!(d.handle(key(KEY_F20, KEY_RELEASE)), None);
}

#[test]
fn ctrl_alt_z_chord_is_express8() {
    let mut d = KeyboardDecoder::new();
    assert_eq!(d.handle(key(KEY_F19, KEY_PRESS)), None);
    assert_eq!(d.handle(key(KEY_F20, KEY_PRESS)), None);
    assert_eq!(d.handle(key(KEY_F21, KEY_PRESS)), pressed(TabletButton::Express8));
}

#[test]
fn ctrl_e_chord_is_express7_not_express2() {
    let mut d = KeyboardDecoder::new();
    assert_eq!(d.handle(key(KEY_F19, KEY_PRESS)), None);
    assert_eq!(d.handle(key(KEY_F14, KEY_PRESS)), pressed(TabletButton::Express7));
    // While the chord is held, a further F14 press still counts as the chord.
    assert_eq!(d.handle(key(KEY_F14, KEY_RELEASE)), None);
    assert_eq!(d.handle(key(KEY_F14, KEY_PRESS)), pressed(TabletButton::Express7));
    // F14 after F19 went up is express key 2 again.
    assert_eq!(d.handle(key(KEY_F19, KEY_RELEASE)), None);
    assert_eq!(d.handle(key(KEY_F14, KEY_RELEASE)), None);
    assert_eq!(d.handle(key(KEY_F14, KEY_PRESS)), pressed(TabletButton::Express2));
}

#[test]
fn non_key_records_are_ignored() {
    let mut d = KeyboardDecoder::new();
    assert_eq!(d.handle(RawInputEvent::new(EV_SYN, KEY_F13, KEY_PRESS)), None);
    assert!(!d.f13_down);
    assert_eq!(d.handle(RawInputEvent::new(4, 4, 458757)), None);
    assert_eq!(d, KeyboardDecoder::new());
}

#[test]
fn unknown_keys_report_nothing() {
    let mut d = KeyboardDecoder::new();
    assert_eq!(d.handle(key(30, KEY_PRESS)), None);
    assert_eq!(d.handle(key(30, KEY_RELEASE)), None);
    assert_eq!(d, KeyboardDecoder::new());
}
