use vstd::prelude::*;

verus! {

/// Largest horizontal position the pen reports (`ABS_X`), in device units.
pub const MAX_X: i32 = 40640;

/// Largest vertical position the pen reports (`ABS_Y`), in device units.
pub const MAX_Y: i32 = 25400;

/// Largest tip pressure the pen reports (`ABS_PRESSURE`), in device units.
pub const MAX_PRESSURE: i32 = 16383;

/// Kernel event type `EV_SYN`: the end of one hardware frame.
pub const EV_SYN: u16 = 0;

/// Kernel event type `EV_KEY`: a key or button changed.
pub const EV_KEY: u16 = 1;

/// Kernel event type `EV_ABS`: an absolute axis changed.
pub const EV_ABS: u16 = 3;

/// One record read from a `/dev/input/event*` node: its type, code and value.
#[derive(Clone, Copy, Debug, PartialEq, Eq, Structural)]
pub struct RawInputEvent {
    pub event_type: u16,
    pub code: u16,
    pub value: i32,
}

impl RawInputEvent {
    pub fn new(event_type: u16, code: u16, value: i32) -> (ev: RawInputEvent)
        ensures
            ev.event_type == event_type,
            ev.code == code,
            ev.value == value,
    {
        RawInputEvent { event_type, code, value }
    }
}

/// A button of the tablet: the two barrel buttons of the pen and the eight express keys.
#[derive(Clone, Copy, Debug, PartialEq, Eq, Hash, Structural)]
pub enum TabletButton {
    Stylus1,
    Stylus2,
    Express1,
    Express2,
    Express3,
    Express4,
    Express5,
    Express6,
    Express7,
    Express8,
}

/// What the tablet reports.
///
/// The pen's position and pressure are in device units and lie within
/// `0..=MAX_X`, `0..=MAX_Y` and `0..=MAX_PRESSURE`; dividing by the maximum
/// gives the position and pressure as fractions from 0 to 1.
#[derive(Clone, Copy, Debug, PartialEq, Eq, Structural)]
pub enum TabletEvent {
    PenMotion { x: i32, y: i32, pressure: i32, tilt_x: i32, tilt_y: i32 },
    PenTouch { touching: bool },
    Button { button: TabletButton, pressed: bool },
    Proximity { in_range: bool },
}

} // verus!
