# screen_board

A drawing overlay for the Gaomon WH851 tablet on Linux, with its input
decoding and drawing logic verified with Verus.

* `src/` — the verified library:
  * `event.rs` — tablet events and raw kernel input records;
  * `pen.rs` — decoding of the pen node, frame by frame (`EV_SYN`), with
    firmware barrel-button suppression;
  * `keyboard.rs` — decoding of the remapped express keys (F13–F21), chords included;
  * `devices.rs` — recognising the tablet's `/dev/input/event*` nodes by name;
  * `board.rs` — strokes, eraser and click-through modes, and the colour palette.
* `app/` — the program: reading the devices with `evdev` on background
  threads, and the `eframe`/`egui` window, which maps pen positions to
  the screen and does the floating-point geometry of erasing.
* `tests/` — tests of the library on concrete inputs.

The express keys must first be remapped to F13–F21 with a udev hwdb rule.
