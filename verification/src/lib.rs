//! Input decoding and drawing-board logic for the Gaomon WH851 tablet overlay.
//!
//! * [`event`]: the events the tablet reports, and the raw kernel input records they come from.
//! * [`pen`]: turns the pen node's event stream into pen events, one frame at a time.
//! * [`keyboard`]: turns the remapped express-key presses into button events.
//! * [`devices`]: recognises the tablet's input nodes among the system's devices.
//! * [`board`]: the strokes, modes and palette of the drawing overlay.

pub mod event;
pub mod pen;
pub mod keyboard;
pub mod devices;
pub mod board;
