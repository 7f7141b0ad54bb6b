use vstd::prelude::*;
use crate::event::{
    EventModel, RdevEvent, RdevEventType, RdevEventValue, ValueModel, type_name_spec,
    present_groups, groups_whole, has_code,
};
use crate::symbols::{
    NativeButton, NativeKey, button_code_spec, button_name, button_name_spec, key_code_spec,
    key_name, resolve_button, resolve_key,
};

verus! {

/// A raw captured input event, as the platform layer reports it.
pub enum RawEventKind {
    /// Absolute pointer position, as IEEE-754 bit patterns of doubles.
    MouseMove { x: u64, y: u64 },
    Wheel { delta_x: i64, delta_y: i64 },
    KeyPress(NativeKey),
    KeyRelease(NativeKey),
    ButtonPress(NativeButton),
    ButtonRelease(NativeButton),
}

/// A raw event with its capture time, in milliseconds since the Unix epoch.
pub struct RawEvent {
    pub kind: RawEventKind,
    pub millis: u128,
}

/// The fixed table from raw event kind to normalized event type.
pub open spec fn event_type_of(k: RawEventKind) -> RdevEventType {
    match k {
        RawEventKind::MouseMove { .. } => RdevEventType::MouseMove,
        RawEventKind::Wheel { .. } => RdevEventType::Wheel,
        RawEventKind::KeyPress(_) => RdevEventType::KeyDown,
        RawEventKind::KeyRelease(_) => RdevEventType::KeyUp,
        RawEventKind::ButtonPress(_) => RdevEventType::MouseDown,
        RawEventKind::ButtonRelease(_) => RdevEventType::MouseUp,
    }
}

/// The wire timestamp: milliseconds since the epoch, wrapped to 32 bits.
pub open spec fn wire_time(millis: u128) -> u32 {
    (millis % 0x1_0000_0000) as u32
}

pub open spec fn empty_value() -> ValueModel {
    ValueModel { x: None, y: None, delta_x: None, delta_y: None, key: None, button: None }
}

/// The stable code that the symbol resolver gives a raw event, if any.
pub open spec fn code_of(k: RawEventKind) -> Option<Seq<char>> {
    match k {
        RawEventKind::KeyPress(key) => Some(key_code_spec(key.scan_code)),
        RawEventKind::KeyRelease(key) => Some(key_code_spec(key.scan_code)),
        RawEventKind::ButtonPress(b) => Some(button_code_spec(b)),
        RawEventKind::ButtonRelease(b) => Some(button_code_spec(b)),
        _ => None,
    }
}

/// The payload of the normalized form of a raw event.
pub open spec fn value_of(k: RawEventKind) -> ValueModel {
    match k {
        RawEventKind::MouseMove { x, y } => ValueModel { x: Some(x), y: Some(y), ..empty_value() },
        RawEventKind::Wheel { delta_x, delta_y } => ValueModel {
            delta_x: Some(delta_x),
            delta_y: Some(delta_y),
            ..empty_value()
        },
        RawEventKind::KeyPress(key) => ValueModel { key: Some(key.name@), ..empty_value() },
        RawEventKind::KeyRelease(key) => ValueModel { key: Some(key.name@), ..empty_value() },
        RawEventKind::ButtonPress(b) => ValueModel { button: Some(button_name_spec(b)), ..empty_value() },
        RawEventKind::ButtonRelease(b) => ValueModel {
            button: Some(button_name_spec(b)),
            ..empty_value()
        },
    }
}

/// The normalized form of a raw event.
pub open spec fn normalized(e: RawEvent) -> EventModel {
    EventModel {
        kind: type_name_spec(event_type_of(e.kind)),
        code: code_of(e.kind),
        value: value_of(e.kind),
        time: wire_time(e.millis),
    }
}

fn blank_value() -> (r: RdevEventValue)
    ensures
        r@ == empty_value(),
{
    RdevEventValue { x: None, y: None, delta_x: None, delta_y: None, key: None, button: None }
}

/// Converts a raw event into the normalized schema. Every raw kind is
/// handled, so the result is always present.
pub fn pre_handle_event(event: RawEvent) -> (r: Option<RdevEvent>)
    ensures
        r is Some,
        r->0@ == normalized(event),
{
    let time = (event.millis % 0x1_0000_0000) as u32;
    let t = match &event.kind {
        RawEventKind::MouseMove { .. } => RdevEventType::MouseMove,
        RawEventKind::Wheel { .. } => RdevEventType::Wheel,
        RawEventKind::KeyPress(_) => RdevEventType::KeyDown,
        RawEventKind::KeyRelease(_) => RdevEventType::KeyUp,
        RawEventKind::ButtonPress(_) => RdevEventType::MouseDown,
        RawEventKind::ButtonRelease(_) => RdevEventType::MouseUp,
    };
    let mut value = blank_value();
    let code = match &event.kind {
        RawEventKind::MouseMove { x, y } => {
            value.x = Some(*x);
            value.y = Some(*y);
            None
        },
        RawEventKind::Wheel { delta_x, delta_y } => {
            value.delta_x = Some(*delta_x);
            value.delta_y = Some(*delta_y);
            None
        },
        RawEventKind::KeyPress(key) | RawEventKind::KeyRelease(key) => {
            value.key = Some(key_name(key));
            Some(resolve_key(key))
        },
        RawEventKind::ButtonPress(b) | RawEventKind::ButtonRelease(b) => {
            value.button = Some(button_name(*b));
            Some(resolve_button(*b))
        },
    };
    let r = RdevEvent { _type: t.name(), code, value, time };
    assert(r@.value == normalized(event).value);
    Some(r)
}

/// Every raw event kind normalizes to the type that the fixed kind table
/// gives it, with exactly one payload group present and that group whole.
pub proof fn lemma_kind_table(e: RawEvent)
    ensures
        normalized(e).kind == type_name_spec(event_type_of(e.kind)),
        present_groups(normalized(e).value) == 1,
        groups_whole(normalized(e).value),
{
}

/// A key or button event carries the resolver's code for its native
/// identifier; a pointer-move or wheel event carries no code.
pub proof fn lemma_code_from_resolver(e: RawEvent)
    ensures
        normalized(e).code is Some <==> has_code(event_type_of(e.kind)),
        match e.kind {
            RawEventKind::KeyPress(k) => normalized(e).code == Some(key_code_spec(k.scan_code)),
            RawEventKind::KeyRelease(k) => normalized(e).code == Some(key_code_spec(k.scan_code)),
            RawEventKind::ButtonPress(b) => normalized(e).code == Some(button_code_spec(b)),
            RawEventKind::ButtonRelease(b) => normalized(e).code == Some(button_code_spec(b)),
            _ => normalized(e).code is None,
        },
{
}

} // verus!
