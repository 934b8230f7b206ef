use vstd::prelude::*;

use crate::event::{
    RawInputEvent, TabletButton, TabletEvent, EV_ABS, EV_KEY, EV_SYN, MAX_PRESSURE, MAX_X, MAX_Y,
};

verus! {

/// `ABS_X`: horizontal pen position.
pub const ABS_X: u16 = 0;
/// `ABS_Y`: vertical pen position.
pub const ABS_Y: u16 = 1;
/// `ABS_PRESSURE`: tip pressure.
pub const ABS_PRESSURE: u16 = 24;
/// `ABS_TILT_X`: left-to-right tilt.
pub const ABS_TILT_X: u16 = 26;
/// `ABS_TILT_Y`: bottom-to-top tilt.
pub const ABS_TILT_Y: u16 = 27;
/// `BTN_TOOL_PEN`: the pen entered (1) or left (0) the tablet's range.
pub const BTN_TOOL_PEN: u16 = 320;
/// `BTN_TOUCH`: the tip touched (non-zero) or left (0) the surface.
pub const BTN_TOUCH: u16 = 330;

/// `v` limited to `0..=max`.
pub open spec fn clamped(v: int, max: int) -> int {
    if v < 0 {
        0
    } else if v > max {
        max
    } else {
        v
    }
}

/// Limits a raw axis value to `0..=max`.
pub fn clamp_axis(v: i32, max: i32) -> (r: i32)
    requires
        0 <= max,
    ensures
        r == clamped(v as int, max as int),
        0 <= r <= max,
{
    if v < 0 {
        0
    } else if v > max {
        max
    } else {
        v
    }
}

/// `seq![e]` when `c` holds, else the empty sequence.
pub open spec fn emit_if(c: bool, e: TabletEvent) -> Seq<TabletEvent> {
    if c {
        seq![e]
    } else {
        Seq::empty()
    }
}

/// Whether an `EV_ABS` code is one of the five axes the decoder follows.
pub open spec fn is_tracked_axis(code: u16) -> bool {
    code == ABS_X || code == ABS_Y || code == ABS_PRESSURE || code == ABS_TILT_X || code
        == ABS_TILT_Y
}

/// The state of the pen decoder.
///
/// The axis values are the latest raw values; `abs_changed` says that one of
/// them changed since the last frame was reported. The `frame_*` fields gather
/// what happened within the current hardware frame (up to the next `EV_SYN`),
/// and `stylus1_held` / `stylus2_held` remember the barrel buttons across
/// frames.
#[derive(Clone, Copy, Debug)]
pub struct PenDecoder {
    pub last_x: i32,
    pub last_y: i32,
    pub last_pressure: i32,
    pub last_tilt_x: i32,
    pub last_tilt_y: i32,
    pub abs_changed: bool,
    pub frame_stylus1_press: bool,
    pub frame_stylus1_release: bool,
    pub frame_stylus2_press: bool,
    pub frame_stylus2_release: bool,
    pub frame_touch_press: bool,
    pub frame_touch_release: bool,
    pub frame_proximity: Option<bool>,
    pub stylus1_held: bool,
    pub stylus2_held: bool,
}

impl PenDecoder {
    /// The decoder before any event: all axes at 0, nothing pending, no button held.
    pub open spec fn initial() -> PenDecoder {
        PenDecoder {
            last_x: 0,
            last_y: 0,
            last_pressure: 0,
            last_tilt_x: 0,
            last_tilt_y: 0,
            abs_changed: false,
            frame_stylus1_press: false,
            frame_stylus1_release: false,
            frame_stylus2_press: false,
            frame_stylus2_release: false,
            frame_touch_press: false,
            frame_touch_release: false,
            frame_proximity: None,
            stylus1_held: false,
            stylus2_held: false,
        }
    }

    /// Nothing has been gathered for the current frame.
    pub open spec fn frame_is_empty(self) -> bool {
        &&& !self.abs_changed
        &&& !self.frame_stylus1_press
        &&& !self.frame_stylus1_release
        &&& !self.frame_stylus2_press
        &&& !self.frame_stylus2_release
        &&& !self.frame_touch_press
        &&& !self.frame_touch_release
        &&& self.frame_proximity is None
    }

    /// The state after an `EV_ABS` record.
    pub open spec fn after_abs(self, code: u16, value: i32) -> PenDecoder {
        if code == ABS_X {
            PenDecoder { last_x: value, abs_changed: true, ..self }
        } else if code == ABS_Y {
            PenDecoder { last_y: value, abs_changed: true, ..self }
        } else if code == ABS_PRESSURE {
            PenDecoder { last_pressure: value, abs_changed: true, ..self }
        } else if code == ABS_TILT_X {
            PenDecoder { last_tilt_x: value, abs_changed: true, ..self }
        } else if code == ABS_TILT_Y {
            PenDecoder { last_tilt_y: value, abs_changed: true, ..self }
        } else {
            self
        }
    }

    /// The state after an `EV_KEY` record.
    pub open spec fn after_key(self, code: u16, value: i32) -> PenDecoder {
        if code == BTN_TOUCH {
            if value != 0 {
                PenDecoder { frame_touch_press: true, ..self }
            } else {
                PenDecoder { frame_touch_release: true, ..self }
            }
        } else if code == BTN_TOOL_PEN {
            PenDecoder { frame_proximity: Some(value != 0), ..self }
        } else {
            self
        }
    }

    /// Whether a barrel button is still held after the proximity part of a
    /// frame: the pen leaving range releases it.
    pub open spec fn held_after_proximity(held: bool, proximity: Option<bool>) -> bool {
        if proximity == Some(false) {
            false
        } else {
            held
        }
    }

    /// Whether a barrel button is held after its own part of a frame: a press
    /// holds it, and a release lets it go unless the tip was pressed in the
    /// same frame (the firmware releases the barrel button on tip contact
    /// while the user still holds it).
    pub open spec fn held_after_button(held: bool, press: bool, release: bool, touch_press: bool) -> bool {
        if release && !touch_press {
            false
        } else if press {
            true
        } else {
            held
        }
    }

    /// Whether a barrel button is held once a frame has been reported.
    pub open spec fn held_after_frame(
        held: bool,
        proximity: Option<bool>,
        press: bool,
        release: bool,
        touch_press: bool,
    ) -> bool {
        Self::held_after_button(Self::held_after_proximity(held, proximity), press, release, touch_press)
    }

    /// The events of a barrel button within a frame.
    pub open spec fn button_events(
        button: TabletButton,
        press: bool,
        release: bool,
        touch_press: bool,
    ) -> Seq<TabletEvent> {
        emit_if(press, TabletEvent::Button { button, pressed: true }) + emit_if(
            release && !touch_press,
            TabletEvent::Button { button, pressed: false },
        )
    }

    /// The proximity events of a frame, with the releases it forces.
    pub open spec fn proximity_events(proximity: Option<bool>, held1: bool, held2: bool) -> Seq<TabletEvent> {
        match proximity {
            Some(in_range) => seq![TabletEvent::Proximity { in_range }] + if !in_range {
                emit_if(held1, TabletEvent::Button { button: TabletButton::Stylus1, pressed: false })
                    + emit_if(held2, TabletEvent::Button { button: TabletButton::Stylus2, pressed: false })
            } else {
                Seq::empty()
            },
            None => Seq::empty(),
        }
    }

    /// The motion event carrying the latest axis values, limited to their ranges.
    pub open spec fn motion(self) -> TabletEvent {
        TabletEvent::PenMotion {
            x: clamped(self.last_x as int, MAX_X as int) as i32,
            y: clamped(self.last_y as int, MAX_Y as int) as i32,
            pressure: clamped(self.last_pressure as int, MAX_PRESSURE as int) as i32,
            tilt_x: self.last_tilt_x,
            tilt_y: self.last_tilt_y,
        }
    }

    /// What a frame reports, in order: proximity (and the releases it forces),
    /// the first barrel button, the second, the tip, then the motion.
    pub open spec fn frame_events(self) -> Seq<TabletEvent> {
        Self::proximity_events(self.frame_proximity, self.stylus1_held, self.stylus2_held)
            + Self::button_events(
            TabletButton::Stylus1,
            self.frame_stylus1_press,
            self.frame_stylus1_release,
            self.frame_touch_press,
        ) + Self::button_events(
            TabletButton::Stylus2,
            self.frame_stylus2_press,
            self.frame_stylus2_release,
            self.frame_touch_press,
        ) + emit_if(self.frame_touch_press, TabletEvent::PenTouch { touching: true }) + emit_if(
            self.frame_touch_release,
            TabletEvent::PenTouch { touching: false },
        ) + emit_if(self.abs_changed, self.motion())
    }

    /// The state once a frame has been reported: the axis values stay, the
    /// frame is emptied and the barrel buttons are updated.
    pub open spec fn after_frame(self) -> PenDecoder {
        PenDecoder {
            abs_changed: false,
            frame_stylus1_press: false,
            frame_stylus1_release: false,
            frame_stylus2_press: false,
            frame_stylus2_release: false,
            frame_touch_press: false,
            frame_touch_release: false,
            frame_proximity: None,
            stylus1_held: Self::held_after_frame(
                self.stylus1_held,
                self.frame_proximity,
                self.frame_stylus1_press,
                self.frame_stylus1_release,
                self.frame_touch_press,
            ),
            stylus2_held: Self::held_after_frame(
                self.stylus2_held,
                self.frame_proximity,
                self.frame_stylus2_press,
                self.frame_stylus2_release,
                self.frame_touch_press,
            ),
            ..self
        }
    }

    /// The state after one record.
    pub open spec fn step(self, ev: RawInputEvent) -> PenDecoder {
        if ev.event_type == EV_ABS {
            self.after_abs(ev.code, ev.value)
        } else if ev.event_type == EV_KEY {
            self.after_key(ev.code, ev.value)
        } else if ev.event_type == EV_SYN {
            self.after_frame()
        } else {
            self
        }
    }

    /// What one record reports: a frame's events on `EV_SYN`, nothing otherwise.
    pub open spec fn output(self, ev: RawInputEvent) -> Seq<TabletEvent> {
        if ev.event_type == EV_SYN {
            self.frame_events()
        } else {
            Seq::empty()
        }
    }

    /// A decoder in its initial state.
    pub fn new() -> (d: PenDecoder)
        ensures
            d == PenDecoder::initial(),
    {
        PenDecoder {
            last_x: 0,
            last_y: 0,
            last_pressure: 0,
            last_tilt_x: 0,
            last_tilt_y: 0,
            abs_changed: false,
            frame_stylus1_press: false,
            frame_stylus1_release: false,
            frame_stylus2_press: false,
            frame_stylus2_release: false,
            frame_touch_press: false,
            frame_touch_release: false,
            frame_proximity: None,
            stylus1_held: false,
            stylus2_held: false,
        }
    }

    /// Reports the proximity part of a frame.
    fn report_proximity(
        out: &mut Vec<TabletEvent>,
        proximity: Option<bool>,
        held1: &mut bool,
        held2: &mut bool,
    )
        ensures
            final(out)@ == old(out)@ + Self::proximity_events(proximity, *old(held1), *old(held2)),
            *final(held1) == Self::held_after_proximity(*old(held1), proximity),
            *final(held2) == Self::held_after_proximity(*old(held2), proximity),
    {
        if let Some(in_range) = proximity {
            out.push(TabletEvent::Proximity { in_range });
            if !in_range {
                // The pen left the range: release the held buttons.
                if *held1 {
                    *held1 = false;
                    out.push(TabletEvent::Button { button: TabletButton::Stylus1, pressed: false });
                }
                if *held2 {
                    *held2 = false;
                    out.push(TabletEvent::Button { button: TabletButton::Stylus2, pressed: false });
                }
            }
        }
    }

    /// Reports the part of a frame that concerns one barrel button.
    fn report_button(
        out: &mut Vec<TabletEvent>,
        button: TabletButton,
        press: bool,
        release: bool,
        touch_press: bool,
        held: &mut bool,
    )
        ensures
            final(out)@ == old(out)@ + Self::button_events(button, press, release, touch_press),
            *final(held) == Self::held_after_button(*old(held), press, release, touch_press),
    {
        if press {
            *held = true;
            out.push(TabletEvent::Button { button, pressed: true });
        }
        if release {
            if touch_press {
                // Released by the firmware on tip contact: the user still holds it.
            } else {
                *held = false;
                out.push(TabletEvent::Button { button, pressed: false });
            }
        }
    }

    /// Reports the tip part of a frame.
    fn report_touch(out: &mut Vec<TabletEvent>, press: bool, release: bool)
        ensures
            final(out)@ == old(out)@ + emit_if(press, TabletEvent::PenTouch { touching: true })
                + emit_if(release, TabletEvent::PenTouch { touching: false }),
    {
        if press {
            out.push(TabletEvent::PenTouch { touching: true });
        }
        if release {
            out.push(TabletEvent::PenTouch { touching: false });
        }
    }

    /// The motion event of the current axis values.
    fn current_motion(&self) -> (ev: TabletEvent)
        ensures
            ev == self.motion(),
    {
        TabletEvent::PenMotion {
            x: clamp_axis(self.last_x, MAX_X),
            y: clamp_axis(self.last_y, MAX_Y),
            pressure: clamp_axis(self.last_pressure, MAX_PRESSURE),
            tilt_x: self.last_tilt_x,
            tilt_y: self.last_tilt_y,
        }
    }

    /// Reports the gathered frame and starts a new one.
    fn finish_frame(&mut self) -> (out: Vec<TabletEvent>)
        ensures
            out@ == old(self).frame_events(),
            *final(self) == old(self).after_frame(),
    {
        let ghost s = *self;
        let mut out: Vec<TabletEvent> = Vec::new();
        let mut held1 = self.stylus1_held;
        let mut held2 = self.stylus2_held;
        Self::report_proximity(&mut out, self.frame_proximity, &mut held1, &mut held2);
        Self::report_button(
            &mut out,
            TabletButton::Stylus1,
            self.frame_stylus1_press,
            self.frame_stylus1_release,
            self.frame_touch_press,
            &mut held1,
        );
        Self::report_button(
            &mut out,
            TabletButton::Stylus2,
            self.frame_stylus2_press,
            self.frame_stylus2_release,
            self.frame_touch_press,
            &mut held2,
        );
        Self::report_touch(&mut out, self.frame_touch_press, self.frame_touch_release);
        let ghost o4 = out@;
        if self.abs_changed {
            let m = self.current_motion();
            out.push(m);
        }
        assert(out@ == o4 + emit_if(s.abs_changed, s.motion()));
        assert(out@ =~= s.frame_events());
        *self = PenDecoder {
            abs_changed: false,
            frame_stylus1_press: false,
            frame_stylus1_release: false,
            frame_stylus2_press: false,
            frame_stylus2_release: false,
            frame_touch_press: false,
            frame_touch_release: false,
            frame_proximity: None,
            stylus1_held: held1,
            stylus2_held: held2,
            ..*self
        };
        out
    }

    /// Feeds one record from the pen node; returns the events it completes.
    ///
    /// Axis and key records are gathered; the `EV_SYN` that ends a hardware
    /// frame reports the whole frame at once. Other records are ignored.
    pub fn handle(&mut self, ev: RawInputEvent) -> (out: Vec<TabletEvent>)
        ensures
            *final(self) == old(self).step(ev),
            out@ == old(self).output(ev),
    {
        if ev.event_type == EV_ABS {
            if ev.code == ABS_X {
                self.last_x = ev.value;
                self.abs_changed = true;
            } else if ev.code == ABS_Y {
                self.last_y = ev.value;
                self.abs_changed = true;
            } else if ev.code == ABS_PRESSURE {
                self.last_pressure = ev.value;
                self.abs_changed = true;
            } else if ev.code == ABS_TILT_X {
                self.last_tilt_x = ev.value;
                self.abs_changed = true;
            } else if ev.code == ABS_TILT_Y {
                self.last_tilt_y = ev.value;
                self.abs_changed = true;
            }
            Vec::new()
        } else if ev.event_type == EV_KEY {
            if ev.code == BTN_TOUCH {
                if ev.value != 0 {
                    self.frame_touch_press = true;
                } else {
                    self.frame_touch_release = true;
                }
            } else if ev.code == BTN_TOOL_PEN {
                self.frame_proximity = Some(ev.value != 0);
            }
            Vec::new()
        } else if ev.event_type == EV_SYN {
            self.finish_frame()
        } else {
            Vec::new()
        }
    }

    /// The state after a sequence of records, fed first to last.
    pub open spec fn run(self, evs: Seq<RawInputEvent>) -> PenDecoder
        decreases evs.len(),
    {
        if evs.len() == 0 {
            self
        } else {
            self.run(evs.drop_last()).step(evs.last())
        }
    }

    /// Everything a sequence of records reports, in order.
    pub open spec fn run_output(self, evs: Seq<RawInputEvent>) -> Seq<TabletEvent>
        decreases evs.len(),
    {
        if evs.len() == 0 {
            Seq::empty()
        } else {
            self.run_output(evs.drop_last()) + self.run(evs.drop_last()).output(evs.last())
        }
    }
}

/// Every record of `evs` is an axis record.
pub open spec fn all_axis_records(evs: Seq<RawInputEvent>) -> bool {
    forall|i: int| 0 <= i < evs.len() ==> (#[trigger] evs[i]).event_type == EV_ABS
}

/// Some record of `evs` moves one of the followed axes.
pub open spec fn moves_an_axis(evs: Seq<RawInputEvent>) -> bool {
    exists|i: int| 0 <= i < evs.len() && is_tracked_axis((#[trigger] evs[i]).code)
}

/// Axis records change nothing but the axis values and the motion flag,
/// report nothing, and set the flag exactly when they move a followed axis.
proof fn lemma_axis_records(s: PenDecoder, evs: Seq<RawInputEvent>)
    requires
        all_axis_records(evs),
    ensures
        s.run_output(evs) == Seq::<TabletEvent>::empty(),
        s.run(evs).abs_changed == (s.abs_changed || moves_an_axis(evs)),
        s.run(evs).frame_stylus1_press == s.frame_stylus1_press,
        s.run(evs).frame_stylus1_release == s.frame_stylus1_release,
        s.run(evs).frame_stylus2_press == s.frame_stylus2_press,
        s.run(evs).frame_stylus2_release == s.frame_stylus2_release,
        s.run(evs).frame_touch_press == s.frame_touch_press,
        s.run(evs).frame_touch_release == s.frame_touch_release,
        s.run(evs).frame_proximity == s.frame_proximity,
        s.run(evs).stylus1_held == s.stylus1_held,
        s.run(evs).stylus2_held == s.stylus2_held,
    decreases evs.len(),
{
    if evs.len() > 0 {
        let pre = evs.drop_last();
        assert(all_axis_records(pre)) by {
            assert forall|i: int| 0 <= i < pre.len() implies (#[trigger] pre[i]).event_type
                == EV_ABS by {
                assert(pre[i] == evs[i]);
            }
        }
        lemma_axis_records(s, pre);
        assert(evs[evs.len() - 1] == evs.last());
        if moves_an_axis(evs) {
            let i = choose|i: int| 0 <= i < evs.len() && is_tracked_axis((#[trigger] evs[i]).code);
            if i < evs.len() - 1 {
                assert(pre[i] == evs[i]);
            }
        }
        if moves_an_axis(pre) {
            let i = choose|i: int| 0 <= i < pre.len() && is_tracked_axis((#[trigger] pre[i]).code);
            assert(pre[i] == evs[i]);
        }
        assert(s.run_output(evs) =~= Seq::<TabletEvent>::empty());
    }
}

/// Only the record that ends a hardware frame reports anything.
pub proof fn lemma_only_frame_end_reports(s: PenDecoder, ev: RawInputEvent)
    requires
        ev.event_type != EV_SYN,
    ensures
        s.output(ev) == Seq::<TabletEvent>::empty(),
{
}

/// Ending a frame empties it and keeps the latest axis values.
pub proof fn lemma_frame_end_resets(s: PenDecoder, ev: RawInputEvent)
    requires
        ev.event_type == EV_SYN,
    ensures
        s.step(ev).frame_is_empty(),
        s.step(ev).last_x == s.last_x,
        s.step(ev).last_y == s.last_y,
        s.step(ev).last_pressure == s.last_pressure,
        s.step(ev).last_tilt_x == s.last_tilt_x,
        s.step(ev).last_tilt_y == s.last_tilt_y,
{
}

/// Axis updates within a frame are reported together: a frame made of axis
/// records reports nothing until it ends, and then exactly one motion event
/// carrying the latest value of every axis, or nothing when no followed axis
/// moved.
pub proof fn lemma_frame_coalesces_motion(
    s: PenDecoder,
    evs: Seq<RawInputEvent>,
    end: RawInputEvent,
)
    requires
        s.frame_is_empty(),
        all_axis_records(evs),
        end.event_type == EV_SYN,
    ensures
        s.run_output(evs) == Seq::<TabletEvent>::empty(),
        s.run_output(evs.push(end)) == emit_if(moves_an_axis(evs), s.run(evs).motion()),
        s.run(evs.push(end)).frame_is_empty(),
{
    lemma_axis_records(s, evs);
    let t = s.run(evs);
    assert(evs.push(end).drop_last() =~= evs);
    assert(evs.push(end).last() == end);
    assert(t.frame_events() =~= emit_if(moves_an_axis(evs), t.motion()));
    assert(s.run_output(evs.push(end)) =~= emit_if(moves_an_axis(evs), t.motion()));
}

/// The pen leaving range releases every barrel button that was held, and
/// reports each release right after the proximity change.
pub proof fn lemma_leaving_range_releases(s: PenDecoder)
    requires
        s.frame_proximity == Some(false),
        !s.frame_stylus1_press,
        !s.frame_stylus2_press,
    ensures
        !s.after_frame().stylus1_held,
        !s.after_frame().stylus2_held,
        s.frame_events()[0] == (TabletEvent::Proximity { in_range: false }),
        s.stylus1_held ==> s.frame_events()[1] == (TabletEvent::Button {
            button: TabletButton::Stylus1,
            pressed: false,
        }),
        !s.stylus1_held && s.stylus2_held ==> s.frame_events()[1] == (TabletEvent::Button {
            button: TabletButton::Stylus2,
            pressed: false,
        }),
        s.stylus1_held && s.stylus2_held ==> s.frame_events()[2] == (TabletEvent::Button {
            button: TabletButton::Stylus2,
            pressed: false,
        }),
{
    let p = PenDecoder::proximity_events(s.frame_proximity, s.stylus1_held, s.stylus2_held);
    let rest = s.frame_events().subrange(p.len() as int, s.frame_events().len() as int);
    assert(s.frame_events() =~= p + rest);
}

/// A barrel-button release that arrives in the same frame as a tip press is
/// the firmware's, not the user's: it is not reported and the button stays
/// held.
pub proof fn lemma_release_on_tip_press_suppressed(s: PenDecoder)
    requires
        s.frame_touch_press,
        s.frame_proximity != Some(false),
        !s.frame_stylus1_press,
        !s.frame_stylus2_press,
    ensures
        s.after_frame().stylus1_held == s.stylus1_held,
        s.after_frame().stylus2_held == s.stylus2_held,
        forall|i: int|
            0 <= i < s.frame_events().len() ==> !((#[trigger] s.frame_events()[i]) is Button),
{
    assert(PenDecoder::button_events(
        TabletButton::Stylus1,
        s.frame_stylus1_press,
        s.frame_stylus1_release,
        s.frame_touch_press,
    ) =~= Seq::<TabletEvent>::empty());
    assert(PenDecoder::button_events(
        TabletButton::Stylus2,
        s.frame_stylus2_press,
        s.frame_stylus2_release,
        s.frame_touch_press,
    ) =~= Seq::<TabletEvent>::empty());
}

/// Whether an event's pen position and pressure lie within the device ranges.
pub open spec fn within_ranges(e: TabletEvent) -> bool {
    match e {
        TabletEvent::PenMotion { x, y, pressure, .. } => {
            &&& 0 <= x <= MAX_X
            &&& 0 <= y <= MAX_Y
            &&& 0 <= pressure <= MAX_PRESSURE
        },
        _ => true,
    }
}

/// Every event of `es` lies within the device ranges.
pub open spec fn all_within_ranges(es: Seq<TabletEvent>) -> bool {
    forall|i: int| 0 <= i < es.len() ==> within_ranges(#[trigger] es[i])
}

proof fn lemma_concat_within_ranges(a: Seq<TabletEvent>, b: Seq<TabletEvent>)
    requires
        all_within_ranges(a),
        all_within_ranges(b),
    ensures
        all_within_ranges(a + b),
{
    assert forall|i: int| 0 <= i < (a + b).len() implies within_ranges(#[trigger] (a + b)[i]) by {
        if i < a.len() {
            assert((a + b)[i] == a[i]);
        } else {
            assert((a + b)[i] == b[i - a.len()]);
        }
    }
}

proof fn lemma_emit_if_within_ranges(c: bool, e: TabletEvent)
    requires
        within_ranges(e),
    ensures
        all_within_ranges(emit_if(c, e)),
{
}

proof fn lemma_proximity_within_ranges(proximity: Option<bool>, held1: bool, held2: bool)
    ensures
        all_within_ranges(PenDecoder::proximity_events(proximity, held1, held2)),
{
    let p = PenDecoder::proximity_events(proximity, held1, held2);
    assert forall|i: int| 0 <= i < p.len() implies within_ranges(#[trigger] p[i]) by {
        if let Some(in_range) = proximity {
            let r = if !in_range {
                emit_if(held1, TabletEvent::Button { button: TabletButton::Stylus1, pressed: false })
                    + emit_if(held2, TabletEvent::Button { button: TabletButton::Stylus2, pressed: false })
            } else {
                Seq::empty()
            };
            assert(p == seq![TabletEvent::Proximity { in_range }] + r);
            if i > 0 {
                assert(p[i] == r[i - 1]);
                assert(!(r[i - 1] is PenMotion));
            }
        }
    }
}

proof fn lemma_buttons_within_ranges(button: TabletButton, press: bool, release: bool, touch_press: bool)
    ensures
        all_within_ranges(PenDecoder::button_events(button, press, release, touch_press)),
{
    lemma_concat_within_ranges(
        emit_if(press, TabletEvent::Button { button, pressed: true }),
        emit_if(release && !touch_press, TabletEvent::Button { button, pressed: false }),
    );
}

proof fn lemma_frame_within_ranges(t: PenDecoder)
    ensures
        all_within_ranges(t.frame_events()),
{
    let p = PenDecoder::proximity_events(t.frame_proximity, t.stylus1_held, t.stylus2_held);
    let b1 = PenDecoder::button_events(
        TabletButton::Stylus1,
        t.frame_stylus1_press,
        t.frame_stylus1_release,
        t.frame_touch_press,
    );
    let b2 = PenDecoder::button_events(
        TabletButton::Stylus2,
        t.frame_stylus2_press,
        t.frame_stylus2_release,
        t.frame_touch_press,
    );
    let t1 = emit_if(t.frame_touch_press, TabletEvent::PenTouch { touching: true });
    let t2 = emit_if(t.frame_touch_release, TabletEvent::PenTouch { touching: false });
    let m = emit_if(t.abs_changed, t.motion());
    lemma_proximity_within_ranges(t.frame_proximity, t.stylus1_held, t.stylus2_held);
    lemma_buttons_within_ranges(
        TabletButton::Stylus1,
        t.frame_stylus1_press,
        t.frame_stylus1_release,
        t.frame_touch_press,
    );
    lemma_buttons_within_ranges(
        TabletButton::Stylus2,
        t.frame_stylus2_press,
        t.frame_stylus2_release,
        t.frame_touch_press,
    );
    lemma_concat_within_ranges(p, b1);
    lemma_concat_within_ranges(p + b1, b2);
    lemma_concat_within_ranges(p + b1 + b2, t1);
    lemma_concat_within_ranges(p + b1 + b2 + t1, t2);
    lemma_emit_if_within_ranges(t.abs_changed, t.motion());
    lemma_concat_within_ranges(p + b1 + b2 + t1 + t2, m);
}

proof fn lemma_output_within_ranges(t: PenDecoder, ev: RawInputEvent)
    ensures
        all_within_ranges(t.output(ev)),
{
    if ev.event_type == EV_SYN {
        lemma_frame_within_ranges(t);
    }
}

/// Every motion the decoder reports, over any sequence of records, has its
/// position and pressure within the device ranges, whatever the raw values.
pub proof fn lemma_motion_within_ranges(s: PenDecoder, evs: Seq<RawInputEvent>)
    ensures
        all_within_ranges(s.run_output(evs)),
    decreases evs.len(),
{
    if evs.len() > 0 {
        let pre = evs.drop_last();
        lemma_motion_within_ranges(s, pre);
        lemma_output_within_ranges(s.run(pre), evs.last());
        lemma_concat_within_ranges(s.run_output(pre), s.run(pre).output(evs.last()));
    }
}

/// The value of the last axis record for `code` in `evs`, or `default` when there is none.
pub open spec fn last_axis_value(evs: Seq<RawInputEvent>, code: u16, default: i32) -> i32
    decreases evs.len(),
{
    if evs.len() == 0 {
        default
    } else if evs.last().event_type == EV_ABS && evs.last().code == code {
        evs.last().value
    } else {
        last_axis_value(evs.drop_last(), code, default)
    }
}

/// Key and frame-end records leave every axis value as it was.
pub proof fn lemma_non_axis_records_keep_axes(s: PenDecoder, ev: RawInputEvent)
    requires
        ev.event_type != EV_ABS,
    ensures
        s.step(ev).last_x == s.last_x,
        s.step(ev).last_y == s.last_y,
        s.step(ev).last_pressure == s.last_pressure,
        s.step(ev).last_tilt_x == s.last_tilt_x,
        s.step(ev).last_tilt_y == s.last_tilt_y,
{
}

/// Each axis holds the value of the last record reported for it, whatever
/// other records (other axes, keys, frame ends) came in between; an axis
/// never reported keeps its earlier value.
pub proof fn lemma_axes_hold_last_reported_value(s: PenDecoder, evs: Seq<RawInputEvent>)
    ensures
        s.run(evs).last_x == last_axis_value(evs, ABS_X, s.last_x),
        s.run(evs).last_y == last_axis_value(evs, ABS_Y, s.last_y),
        s.run(evs).last_pressure == last_axis_value(evs, ABS_PRESSURE, s.last_pressure),
        s.run(evs).last_tilt_x == last_axis_value(evs, ABS_TILT_X, s.last_tilt_x),
        s.run(evs).last_tilt_y == last_axis_value(evs, ABS_TILT_Y, s.last_tilt_y),
    decreases evs.len(),
{
    if evs.len() > 0 {
        lemma_axes_hold_last_reported_value(s, evs.drop_last());
    }
}

/// The motion a frame reports carries, for every axis, the last value
/// reported for it (limited to the device range for position and pressure).
pub proof fn lemma_motion_carries_last_values(s: PenDecoder, evs: Seq<RawInputEvent>)
    ensures
        s.run(evs).motion() == (TabletEvent::PenMotion {
            x: clamped(last_axis_value(evs, ABS_X, s.last_x) as int, MAX_X as int) as i32,
            y: clamped(last_axis_value(evs, ABS_Y, s.last_y) as int, MAX_Y as int) as i32,
            pressure: clamped(
                last_axis_value(evs, ABS_PRESSURE, s.last_pressure) as int,
                MAX_PRESSURE as int,
            ) as i32,
            tilt_x: last_axis_value(evs, ABS_TILT_X, s.last_tilt_x),
            tilt_y: last_axis_value(evs, ABS_TILT_Y, s.last_tilt_y),
        }),
{
    lemma_axes_hold_last_reported_value(s, evs);
}

} // verus!
