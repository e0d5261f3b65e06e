//! The normalized event value delivered to the user callback, and the error
//! taxonomy surfaced when hook registration is rejected by the OS.

use vstd::prelude::*;

verus! {

/// The kind of input action observed. The exact classification of a raw
/// notification into one of these variants is performed by an external
/// lookup collaborator; this library passes its verdict through.
#[derive(Clone, Copy, Debug, PartialEq, Eq, Structural)]
pub enum EventType {
    KeyPress,
    KeyRelease,
    ButtonPress,
    ButtonRelease,
    MouseMove,
    Wheel,
}

/// One observed input action. Constructed once per actionable notification
/// and immediately handed to the user callback; never retained afterward.
#[derive(Clone, Debug)]
pub struct Event {
    /// Variant chosen by the external classification collaborator.
    pub event_type: EventType,
    /// Wall-clock milliseconds stamped by the driver at the moment the hook
    /// fired; no ordering is enforced by this library.
    pub time_ms: u64,
    /// Decoded character text; always absent in this core (populated only by
    /// a higher-level path outside this library).
    pub unicode: Option<String>,
    /// Raw OS virtual-key or button code, passed through unexamined.
    pub platform_code: u32,
    /// Raw OS hardware scan code, passed through unexamined.
    pub position_code: u32,
    /// Opaque vendor-specific "extra info" tag carried by the notification
    /// payload, passed through unexamined.
    pub extra_data: usize,
}

/// Why a low-level hook registration was rejected, with the OS status code.
#[derive(Clone, Copy, Debug, PartialEq, Eq, Structural)]
pub enum HookError {
    Key(u32),
    Mouse(u32),
}

/// The registration failure as surfaced to the caller of the listening
/// session; same shape as `HookError`, carried across the public boundary.
#[derive(Clone, Copy, Debug, PartialEq, Eq, Structural)]
pub enum ListenError {
    KeyHookError(u32),
    MouseHookError(u32),
}

impl core::convert::From<HookError> for ListenError {
    fn from(error: HookError) -> Self {
        match error {
            HookError::Mouse(code) => ListenError::MouseHookError(code),
            HookError::Key(code) => ListenError::KeyHookError(code),
        }
    }
}

impl vstd::std_specs::convert::FromSpecImpl<HookError> for ListenError {
    open spec fn obeys_from_spec() -> bool {
        true
    }

    open spec fn from_spec(error: HookError) -> Self {
        match error {
            HookError::Mouse(code) => ListenError::MouseHookError(code),
            HookError::Key(code) => ListenError::KeyHookError(code),
        }
    }
}

} // verus!
