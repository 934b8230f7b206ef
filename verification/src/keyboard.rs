use vstd::prelude::*;

use crate::event::{RawInputEvent, TabletButton, TabletEvent, EV_KEY};

verus! {

// The tablet's keys are remapped (see the udev hwdb rule) to F13–F21:
// F13 = pen lower button / express key 1, F14 = pen upper button / express key 2,
// F15–F18 = express keys 3–6, and F19, F20, F21 stand for the Ctrl, Alt and Z
// that express keys 7 (Ctrl+E) and 8 (Ctrl+Alt+Z) send together with other keys.

/// `KEY_F13`.
pub const KEY_F13: u16 = 183;
/// `KEY_F14`.
pub const KEY_F14: u16 = 184;
/// `KEY_F15`.
pub const KEY_F15: u16 = 185;
/// `KEY_F16`.
pub const KEY_F16: u16 = 186;
/// `KEY_F17`.
pub const KEY_F17: u16 = 187;
/// `KEY_F18`.
pub const KEY_F18: u16 = 188;
/// `KEY_F19`.
pub const KEY_F19: u16 = 189;
/// `KEY_F20`.
pub const KEY_F20: u16 = 190;
/// `KEY_F21`.
pub const KEY_F21: u16 = 191;

/// `EV_KEY` value of a key going down.
pub const KEY_PRESS: i32 = 1;
/// `EV_KEY` value of a key going up.
pub const KEY_RELEASE: i32 = 0;
/// `EV_KEY` value of a held key repeating.
pub const KEY_REPEAT: i32 = 2;

/// The express-key decoder: which of the remapped keys are down.
#[derive(Clone, Copy, Debug, PartialEq, Eq, Structural)]
pub struct KeyboardDecoder {
    pub f13_down: bool,
    pub f14_down: bool,
    pub f15_down: bool,
    pub f16_down: bool,
    pub f17_down: bool,
    pub f18_down: bool,
    pub f19_down: bool,
    pub f20_down: bool,
    pub f21_down: bool,
}

/// A press of an express key.
pub open spec fn express(button: TabletButton, pressed: bool) -> TabletEvent {
    TabletEvent::Button { button, pressed }
}

impl KeyboardDecoder {
    /// No key down.
    pub open spec fn initial() -> KeyboardDecoder {
        KeyboardDecoder {
            f13_down: false,
            f14_down: false,
            f15_down: false,
            f16_down: false,
            f17_down: false,
            f18_down: false,
            f19_down: false,
            f20_down: false,
            f21_down: false,
        }
    }

    /// The state once `key` is known to be down (`down`) or up.
    pub open spec fn with_key(self, key: u16, down: bool) -> KeyboardDecoder {
        if key == KEY_F13 {
            KeyboardDecoder { f13_down: down, ..self }
        } else if key == KEY_F14 {
            KeyboardDecoder { f14_down: down, ..self }
        } else if key == KEY_F15 {
            KeyboardDecoder { f15_down: down, ..self }
        } else if key == KEY_F16 {
            KeyboardDecoder { f16_down: down, ..self }
        } else if key == KEY_F17 {
            KeyboardDecoder { f17_down: down, ..self }
        } else if key == KEY_F18 {
            KeyboardDecoder { f18_down: down, ..self }
        } else if key == KEY_F19 {
            KeyboardDecoder { f19_down: down, ..self }
        } else if key == KEY_F20 {
            KeyboardDecoder { f20_down: down, ..self }
        } else if key == KEY_F21 {
            KeyboardDecoder { f21_down: down, ..self }
        } else {
            self
        }
    }

    /// What the first press of `key` reports, with `self` the state that
    /// already counts `key` as down: the chords of express keys 8 and 7 come
    /// first, then the single keys.
    pub open spec fn press_event(self, key: u16) -> Option<TabletEvent> {
        if self.f19_down && self.f20_down && self.f21_down {
            Some(express(TabletButton::Express8, true))
        } else if self.f19_down && self.f14_down {
            Some(express(TabletButton::Express7, true))
        } else if key == KEY_F13 {
            Some(express(TabletButton::Express1, true))
        } else if key == KEY_F14 && !self.f19_down {
            Some(express(TabletButton::Express2, true))
        } else if key == KEY_F15 {
            Some(express(TabletButton::Express3, true))
        } else if key == KEY_F16 {
            Some(express(TabletButton::Express4, true))
        } else if key == KEY_F17 {
            Some(express(TabletButton::Express5, true))
        } else if key == KEY_F18 {
            Some(express(TabletButton::Express6, true))
        } else {
            None
        }
    }

    /// What the release of `key` reports. Releases of F13 and F14 are never
    /// reported, so that the firmware letting go of the pen buttons does not
    /// disturb modes that the presses toggle.
    pub open spec fn release_event(key: u16) -> Option<TabletEvent> {
        if key == KEY_F15 {
            Some(express(TabletButton::Express3, false))
        } else if key == KEY_F16 {
            Some(express(TabletButton::Express4, false))
        } else if key == KEY_F17 {
            Some(express(TabletButton::Express5, false))
        } else if key == KEY_F18 {
            Some(express(TabletButton::Express6, false))
        } else if key == KEY_F21 {
            Some(express(TabletButton::Express8, false))
        } else {
            None
        }
    }

    /// The state after one record: a key record updates the key it names
    /// (down on press and on repeat, up on release); other records change nothing.
    pub open spec fn step(self, ev: RawInputEvent) -> KeyboardDecoder {
        if ev.event_type == EV_KEY {
            self.with_key(ev.code, ev.value == KEY_PRESS || ev.value == KEY_REPEAT)
        } else {
            self
        }
    }

    /// What one record reports: only first presses and releases of keys do;
    /// repeats never do.
    pub open spec fn output(self, ev: RawInputEvent) -> Option<TabletEvent> {
        if ev.event_type != EV_KEY {
            None
        } else if ev.value == KEY_PRESS {
            self.step(ev).press_event(ev.code)
        } else if ev.value == KEY_RELEASE {
            Self::release_event(ev.code)
        } else {
            None
        }
    }

    /// A decoder with no key down.
    pub fn new() -> (d: KeyboardDecoder)
        ensures
            d == KeyboardDecoder::initial(),
    {
        KeyboardDecoder {
            f13_down: false,
            f14_down: false,
            f15_down: false,
            f16_down: false,
            f17_down: false,
            f18_down: false,
            f19_down: false,
            f20_down: false,
            f21_down: false,
        }
    }

    /// Feeds one record from the keyboard node; returns the button event it reports, if any.
    pub fn handle(&mut self, ev: RawInputEvent) -> (out: Option<TabletEvent>)
        ensures
            *final(self) == old(self).step(ev),
            out == old(self).output(ev),
    {
        if ev.event_type != EV_KEY {
            return None;
        }
        let key = ev.code;
        let is_down = ev.value == KEY_PRESS || ev.value == KEY_REPEAT;
        let is_initial_press = ev.value == KEY_PRESS;
        let is_release = ev.value == KEY_RELEASE;

        // Key state, repeats included, for chord detection.
        if key == KEY_F13 {
            self.f13_down = is_down;
        } else if key == KEY_F14 {
            self.f14_down = is_down;
        } else if key == KEY_F15 {
            self.f15_down = is_down;
        } else if key == KEY_F16 {
            self.f16_down = is_down;
        } else if key == KEY_F17 {
            self.f17_down = is_down;
        } else if key == KEY_F18 {
            self.f18_down = is_down;
        } else if key == KEY_F19 {
            self.f19_down = is_down;
        } else if key == KEY_F20 {
            self.f20_down = is_down;
        } else if key == KEY_F21 {
            self.f21_down = is_down;
        }

        // Buttons are reported on the first press only, so holding a key
        // does not toggle a mode back and forth.
        if is_initial_press {
            if self.f19_down && self.f20_down && self.f21_down {
                Some(TabletEvent::Button { button: TabletButton::Express8, pressed: true })
            } else if self.f19_down && self.f14_down {
                Some(TabletEvent::Button { button: TabletButton::Express7, pressed: true })
            } else if key == KEY_F13 {
                Some(TabletEvent::Button { button: TabletButton::Express1, pressed: true })
            } else if key == KEY_F14 && !self.f19_down {
                Some(TabletEvent::Button { button: TabletButton::Express2, pressed: true })
            } else if key == KEY_F15 {
                Some(TabletEvent::Button { button: TabletButton::Express3, pressed: true })
            } else if key == KEY_F16 {
                Some(TabletEvent::Button { button: TabletButton::Express4, pressed: true })
            } else if key == KEY_F17 {
                Some(TabletEvent::Button { button: TabletButton::Express5, pressed: true })
            } else if key == KEY_F18 {
                Some(TabletEvent::Button { button: TabletButton::Express6, pressed: true })
            } else {
                None
            }
        } else if is_release {
            if key == KEY_F15 {
                Some(TabletEvent::Button { button: TabletButton::Express3, pressed: false })
            } else if key == KEY_F16 {
                Some(TabletEvent::Button { button: TabletButton::Express4, pressed: false })
            } else if key == KEY_F17 {
                Some(TabletEvent::Button { button: TabletButton::Express5, pressed: false })
            } else if key == KEY_F18 {
                Some(TabletEvent::Button { button: TabletButton::Express6, pressed: false })
            } else if key == KEY_F21 {
                Some(TabletEvent::Button { button: TabletButton::Express8, pressed: false })
            } else {
                None
            }
        } else {
            None
        }
    }
}

/// Whether a button is one of the eight express keys.
pub open spec fn is_express(b: TabletButton) -> bool {
    !(b is Stylus1) && !(b is Stylus2)
}

/// The keyboard node reports only express-key events: pressed on a first
/// press, released on a release, and nothing for repeats or other records.
pub proof fn lemma_reports_express_keys_only(s: KeyboardDecoder, ev: RawInputEvent)
    ensures
        s.output(ev) matches Some(e) ==> (e matches TabletEvent::Button { button, pressed } && is_express(
            button,
        ) && pressed == (ev.value == KEY_PRESS) && ev.event_type == EV_KEY),
        ev.value != KEY_PRESS && ev.value != KEY_RELEASE ==> s.output(ev) is None,
{
}

/// Releases of F13 and F14 are never reported.
pub proof fn lemma_pen_key_releases_silent(s: KeyboardDecoder, ev: RawInputEvent)
    requires
        ev.code == KEY_F13 || ev.code == KEY_F14,
        ev.value == KEY_RELEASE,
    ensures
        s.output(ev) is None,
{
}

/// Records other than key records change nothing and report nothing.
pub proof fn lemma_other_records_ignored(s: KeyboardDecoder, ev: RawInputEvent)
    requires
        ev.event_type != EV_KEY,
    ensures
        s.step(ev) == s,
        s.output(ev) is None,
{
}

/// A key record of value `value` on `key`.
pub open spec fn key_record(key: u16, value: i32) -> RawInputEvent {
    RawInputEvent { event_type: EV_KEY, code: key, value }
}

/// Express key 8 sends F19, F20 and F21 together: pressing them one after
/// the other, from any state, reports express key 8 on the last press.
pub proof fn lemma_express8_chord(s: KeyboardDecoder)
    ensures
        s.step(key_record(KEY_F19, KEY_PRESS)).step(key_record(KEY_F20, KEY_PRESS)).output(
            key_record(KEY_F21, KEY_PRESS),
        ) == Some(express(TabletButton::Express8, true)),
{
}

/// Express key 7 sends F19 and F14 together: with F20 and F21 not both down,
/// pressing F19 then F14 reports express key 7 on the second press, and
/// never express key 2.
pub proof fn lemma_express7_chord(s: KeyboardDecoder)
    requires
        !(s.f20_down && s.f21_down),
    ensures
        s.step(key_record(KEY_F19, KEY_PRESS)).output(key_record(KEY_F14, KEY_PRESS)) == Some(
            express(TabletButton::Express7, true),
        ),
{
}

/// A single express key pressed alone reports itself: from a state with no
/// key down, the first press of F13, F15, F16, F17 or F18 reports express
/// key 1, 3, 4, 5 or 6, and F14 reports express key 2.
pub proof fn lemma_single_keys(key: u16)
    ensures
        key == KEY_F13 ==> KeyboardDecoder::initial().output(key_record(key, KEY_PRESS)) == Some(
            express(TabletButton::Express1, true),
        ),
        key == KEY_F14 ==> KeyboardDecoder::initial().output(key_record(key, KEY_PRESS)) == Some(
            express(TabletButton::Express2, true),
        ),
        key == KEY_F15 ==> KeyboardDecoder::initial().output(key_record(key, KEY_PRESS)) == Some(
            express(TabletButton::Express3, true),
        ),
        key == KEY_F16 ==> KeyboardDecoder::initial().output(key_record(key, KEY_PRESS)) == Some(
            express(TabletButton::Express4, true),
        ),
        key == KEY_F17 ==> KeyboardDecoder::initial().output(key_record(key, KEY_PRESS)) == Some(
            express(TabletButton::Express5, true),
        ),
        key == KEY_F18 ==> KeyboardDecoder::initial().output(key_record(key, KEY_PRESS)) == Some(
            express(TabletButton::Express6, true),
        ),
{
}

/// Whether `key` is one of the nine remapped keys the decoder follows.
pub open spec fn is_followed_key(key: u16) -> bool {
    KEY_F13 <= key <= KEY_F21
}

/// Whether the decoder counts `key` as down; keys it does not follow never are.
pub open spec fn is_down(d: KeyboardDecoder, key: u16) -> bool {
    if key == KEY_F13 {
        d.f13_down
    } else if key == KEY_F14 {
        d.f14_down
    } else if key == KEY_F15 {
        d.f15_down
    } else if key == KEY_F16 {
        d.f16_down
    } else if key == KEY_F17 {
        d.f17_down
    } else if key == KEY_F18 {
        d.f18_down
    } else if key == KEY_F19 {
        d.f19_down
    } else if key == KEY_F20 {
        d.f20_down
    } else if key == KEY_F21 {
        d.f21_down
    } else {
        false
    }
}

/// A key record sets the key it names exactly as its value says: down after
/// a press or a repeat, up after a release (or any other value), and leaves
/// every other key as it was.
pub proof fn lemma_key_record_sets_its_key(s: KeyboardDecoder, key: u16, value: i32, other: u16)
    requires
        is_followed_key(key),
        other != key,
    ensures
        is_down(s.step(key_record(key, value)), key) == (value == KEY_PRESS || value == KEY_REPEAT),
        value == KEY_RELEASE ==> !is_down(s.step(key_record(key, KEY_RELEASE)), key),
        is_down(s.step(key_record(key, value)), other) == is_down(s, other),
{
}

/// Clicking any key (a press, then its release) from the idle decoder leaves
/// the decoder idle again, so a later F19 press alone reports nothing.
pub proof fn lemma_click_returns_to_idle(key: u16)
    ensures
        KeyboardDecoder::initial().step(key_record(key, KEY_PRESS)).step(
            key_record(key, KEY_RELEASE),
        ) == KeyboardDecoder::initial(),
        KeyboardDecoder::initial().step(key_record(key, KEY_PRESS)).step(
            key_record(key, KEY_RELEASE),
        ).output(key_record(KEY_F19, KEY_PRESS)) is None,
{
}

} // verus!
