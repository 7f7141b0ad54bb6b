use input_bridge::{
    pre_handle_event, NativeButton, NativeKey, RawEvent, RawEventKind, RdevEvent, RdevEventType,
};

fn key(name: &str, scan_code: Option<u32>) -> NativeKey {
    NativeKey { name: name.to_string(), scan_code }
}

fn normalize(kind: RawEventKind, millis: u128) -> RdevEvent {
    pre_handle_event(RawEvent { kind, millis }).expect("every raw kind normalizes")
}

fn groups(e: &RdevEvent) -> usize {
    let v = &e.value;
    [
        v.x.is_some() && v.y.is_some(),
        v.delta_x.is_some() && v.delta_y.is_some(),
        v.key.is_some(),
        v.button.is_some(),
    ]
    .iter()
    .filter(|b| **b)
    .count()
}

#[test]
fn key_press_s_scenario() {
    let t: u128 = 1_234_567;
    let e = normalize(RawEventKind::KeyPress(key("KeyS", Some(39))), t);
    assert_eq!(e._type, "keydown");
    assert_eq!(e.code.as_deref(), Some("39"));
    assert_eq!(e.value.key.as_deref(), Some("KeyS"));
    assert_eq!(e.value.button, None);
    assert_eq!(e.value.x, None);
    assert_eq!(e.value.delta_x, None);
    assert_eq!(e.time, 1_234_567);
}

#[test]
fn key_release_has_keyup_type() {
    let e = normalize(RawEventKind::KeyRelease(key("ShiftLeft", Some(50))), 10);
    assert_eq!(e._type, "keyup");
    assert_eq!(e.code.as_deref(), Some("50"));
    assert_eq!(e.value.key.as_deref(), Some("ShiftLeft"));
}

#[test]
fn pointer_move_scenario() {
    let e = normalize(
        RawEventKind::MouseMove { x: 12.5f64.to_bits(), y: 7.0f64.to_bits() },
        99,
    );
    assert_eq!(e._type, "mousemove");
    assert_eq!(e.code, None);
    assert_eq!(e.value.x.map(f64::from_bits), Some(12.5));
    assert_eq!(e.value.y.map(f64::from_bits), Some(7.0));
    assert_eq!(e.value.delta_x, None);
    assert_eq!(e.value.key, None);
    assert_eq!(e.value.button, None);
    assert_eq!(e.time, 99);
}

#[test]
fn wheel_carries_deltas_and_no_code() {
    let e = normalize(RawEventKind::Wheel { delta_x: 0, delta_y: -5 }, 7);
    assert_eq!(e._type, "wheel");
    assert_eq!(e.code, None);
    assert_eq!(e.value.delta_x, Some(0));
    assert_eq!(e.value.delta_y, Some(-5));
    assert_eq!(e.value.x, None);
}

#[test]
fn button_events_use_button_index() {
    let down = normalize(RawEventKind::ButtonPress(NativeButton::Left), 1);
    assert_eq!(down._type, "mousedown");
    assert_eq!(down.code.as_deref(), Some("1"));
    assert_eq!(down.value.button.as_deref(), Some("Left"));
    let up = normalize(RawEventKind::ButtonRelease(NativeButton::Right), 2);
    assert_eq!(up._type, "mouseup");
    assert_eq!(up.code.as_deref(), Some("3"));
    assert_eq!(up.value.button.as_deref(), Some("Right"));
    let mid = normalize(RawEventKind::ButtonPress(NativeButton::Middle), 3);
    assert_eq!(mid.code.as_deref(), Some("2"));
    assert_eq!(mid.value.button.as_deref(), Some("Middle"));
}

#[test]
fn unknown_button_keeps_its_number() {
    let e = normalize(RawEventKind::ButtonPress(NativeButton::Unknown(8)), 0);
    assert_eq!(e.code.as_deref(), Some("8"));
    assert_eq!(e.value.button.as_deref(), Some("Unknown(8)"));
}

#[test]
fn key_without_scan_code_gets_fallback_code() {
    let e = normalize(RawEventKind::KeyPress(key("Function", None)), 0);
    assert_eq!(e.code.as_deref(), Some("unknown"));
    assert_eq!(e.value.key.as_deref(), Some("Function"));
}

#[test]
fn time_wraps_to_32_bits() {
    let e = normalize(RawEventKind::Wheel { delta_x: 1, delta_y: 1 }, (1u128 << 32) + 5);
    assert_eq!(e.time, 5);
    let now: u128 = 1_700_000_000_123;
    let e = normalize(RawEventKind::Wheel { delta_x: 1, delta_y: 1 }, now);
    assert_eq!(e.time, (now % (1u128 << 32)) as u32);
    let e = normalize(RawEventKind::Wheel { delta_x: 1, delta_y: 1 }, u32::MAX as u128);
    assert_eq!(e.time, u32::MAX);
}

#[test]
fn every_kind_has_its_type_and_one_payload_group() {
    let cases = vec![
        (RawEventKind::MouseMove { x: 0, y: 0 }, RdevEventType::MouseMove, false),
        (RawEventKind::Wheel { delta_x: 2, delta_y: 3 }, RdevEventType::Wheel, false),
        (RawEventKind::KeyPress(key("KeyA", Some(38))), RdevEventType::KeyDown, true),
        (RawEventKind::KeyRelease(key("KeyA", Some(38))), RdevEventType::KeyUp, true),
        (RawEventKind::ButtonPress(NativeButton::Left), RdevEventType::MouseDown, true),
        (RawEventKind::ButtonRelease(NativeButton::Left), RdevEventType::MouseUp, true),
    ];
    for (kind, t, coded) in cases {
        let e = normalize(kind, 0);
        assert_eq!(e._type, t.name());
        assert_eq!(groups(&e), 1);
        assert_eq!(e.code.is_some(), coded);
    }
}

#[test]
fn type_names_are_the_wire_names() {
    assert_eq!(RdevEventType::MouseUp.name(), "mouseup");
    assert_eq!(RdevEventType::MouseDown.name(), "mousedown");
    assert_eq!(RdevEventType::MouseMove.name(), "mousemove");
    assert_eq!(RdevEventType::KeyUp.name(), "keyup");
    assert_eq!(RdevEventType::KeyDown.name(), "keydown");
    assert_eq!(RdevEventType::Wheel.name(), "wheel");
}
