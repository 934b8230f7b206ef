use screen_board::devices::{classify_device, is_event_node, DeviceRole, DeviceScan};

#[test]
fn event_node_names() {
    assert!(is_event_node("event0"));
    assert!(is_event_node("event259"));
    assert!(is_event_node("event"));
    assert!(!is_event_node("mouse0"));
    assert!(!is_event_node("even"));
    assert!(!is_event_node("by-id"));
    assert!(!is_event_node(""));
}

#[test]
fn classify_tablet_devices() {
    assert_eq!(classify_device("GAOMON WH851 Pen"), DeviceRole::Pen);
    assert_eq!(classify_device("GAOMON WH851 Keyboard"), DeviceRole::Keyboard);
    assert_eq!(classify_device("GAOMON WH851 Mouse"), DeviceRole::Other);
    assert_eq!(classify_device("Some Pen"), DeviceRole::Other);
    assert_eq!(classify_device("WH85 Pen"), DeviceRole::Other);
    assert_eq!(classify_device(""), DeviceRole::Other);
    // A name that names both the pen and the keyboard is taken as the pen.
    assert_eq!(classify_device("WH851 Pen Keyboard"), DeviceRole::Pen);
}

#[test]
fn scan_keeps_last_match_of_each_role() {
    let mut scan = DeviceScan::new();
    assert!(!scan.found_any());
    scan.observe("/dev/input/event3".to_string(), "Laptop Keyboard");
    assert!(!scan.found_any());
    scan.observe("/dev/input/event5".to_string(), "GAOMON WH851 Pen");
    assert!(scan.found_any());
    scan.observe("/dev/input/event6".to_string(), "GAOMON WH851 Keyboard");
    scan.observe("/dev/input/event9".to_string(), "GAOMON WH851 Pen");
    assert_eq!(scan.pen.as_deref(), Some("/dev/input/event9"));
    assert_eq!(scan.keyboard.as_deref(), Some("/dev/input/event6"));
}

#[test]
fn scan_with_only_keyboard_found() {
    let mut scan = DeviceScan::new();
    scan.observe("/dev/input/event2".to_string(), "GAOMON WH851 Keyboard");
    assert!(scan.found_any());
    assert_eq!(scan.pen, None);
}
