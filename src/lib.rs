//! Normalization of captured operating-system input events into a stable
//! cross-platform schema, ordered non-blocking delivery to a consumer, and
//! the settle policy of synthetic input injection.

pub mod delivery;
pub mod event;
pub mod inject;
pub mod normalize;
pub mod pump;
pub mod symbols;

pub use delivery::DeliveryChannel;
pub use event::{RdevEvent, RdevEventType, RdevEventValue};
pub use inject::{InjectionReport, SETTLE_DELAY_MS, finish_injection, finish_run};
pub use normalize::{RawEvent, RawEventKind, pre_handle_event};
pub use pump::{CaptureMode, capture_mode, pump_all, pump_event};
pub use symbols::{
    NativeButton, NativeKey, button_name, decimal_string, key_name, resolve_button, resolve_key,
};
