use vstd::prelude::*;

verus! {

/// Kind of a normalized event, one per kind of raw input event.
#[derive(PartialEq, Eq, Structural, Clone, Copy, Debug)]
pub enum RdevEventType {
    MouseUp,
    MouseDown,
    MouseMove,
    KeyUp,
    KeyDown,
    Wheel,
}

/// The wire name of each event kind.
pub open spec fn type_name_spec(t: RdevEventType) -> Seq<char> {
    match t {
        RdevEventType::MouseUp => "mouseup"@,
        RdevEventType::MouseDown => "mousedown"@,
        RdevEventType::MouseMove => "mousemove"@,
        RdevEventType::KeyUp => "keyup"@,
        RdevEventType::KeyDown => "keydown"@,
        RdevEventType::Wheel => "wheel"@,
    }
}

impl RdevEventType {
    /// The wire name of this event kind (`"mousemove"`, `"keydown"`, ...).
    pub fn name(&self) -> (r: String)
        ensures
            r@ == type_name_spec(*self),
    {
        match self {
            RdevEventType::MouseUp => String::from_str("mouseup"),
            RdevEventType::MouseDown => String::from_str("mousedown"),
            RdevEventType::MouseMove => String::from_str("mousemove"),
            RdevEventType::KeyUp => String::from_str("keyup"),
            RdevEventType::KeyDown => String::from_str("keydown"),
            RdevEventType::Wheel => String::from_str("wheel"),
        }
    }
}

/// Payload of a normalized event. Exactly one group is present: the pointer
/// position (`x`, `y`), the wheel deltas (`delta_x`, `delta_y`), the key name,
/// or the button name. Pointer coordinates are carried as the IEEE-754 bit
/// patterns of the platform's double-precision values.
pub struct RdevEventValue {
    pub x: Option<u64>,
    pub y: Option<u64>,
    pub delta_x: Option<i64>,
    pub delta_y: Option<i64>,
    pub key: Option<String>,
    pub button: Option<String>,
}

/// A normalized input event: its wire type name, its stable code (key and
/// button events only), its payload, and its capture time in milliseconds
/// since the Unix epoch, reduced modulo 2^32.
pub struct RdevEvent {
    pub _type: String,
    pub code: Option<String>,
    pub value: RdevEventValue,
    pub time: u32,
}

/// Mathematical view of a payload.
pub struct ValueModel {
    pub x: Option<u64>,
    pub y: Option<u64>,
    pub delta_x: Option<i64>,
    pub delta_y: Option<i64>,
    pub key: Option<Seq<char>>,
    pub button: Option<Seq<char>>,
}

/// Mathematical view of a normalized event.
pub struct EventModel {
    pub kind: Seq<char>,
    pub code: Option<Seq<char>>,
    pub value: ValueModel,
    pub time: u32,
}

/// The text of an optional string, if present.
pub open spec fn opt_text(o: Option<String>) -> Option<Seq<char>> {
    match o {
        Some(s) => Some(s@),
        None => None,
    }
}

impl View for RdevEventValue {
    type V = ValueModel;

    open spec fn view(&self) -> ValueModel {
        ValueModel {
            x: self.x,
            y: self.y,
            delta_x: self.delta_x,
            delta_y: self.delta_y,
            key: opt_text(self.key),
            button: opt_text(self.button),
        }
    }
}

impl View for RdevEvent {
    type V = EventModel;

    open spec fn view(&self) -> EventModel {
        EventModel { kind: self._type@, code: opt_text(self.code), value: self.value@, time: self.time }
    }
}

/// Number of payload groups present in `v`.
pub open spec fn present_groups(v: ValueModel) -> nat {
    (if v.x is Some && v.y is Some { 1nat } else { 0nat }) + (if v.delta_x is Some
        && v.delta_y is Some { 1nat } else { 0nat }) + (if v.key is Some { 1nat } else { 0nat })
        + (if v.button is Some { 1nat } else { 0nat })
}

/// Each group of `v` is either wholly present or wholly absent.
pub open spec fn groups_whole(v: ValueModel) -> bool {
    &&& (v.x is Some <==> v.y is Some)
    &&& (v.delta_x is Some <==> v.delta_y is Some)
}

/// The event types whose normalized form carries a stable code.
pub open spec fn has_code(t: RdevEventType) -> bool {
    match t {
        RdevEventType::MouseMove | RdevEventType::Wheel => false,
        _ => true,
    }
}

} // verus!
