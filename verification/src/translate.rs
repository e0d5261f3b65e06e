//! Pure translation of a raw OS notification into a normalized `Event`.
//!
//! The OS delivers every system-wide input notification to a fixed-signature
//! entry point together with a code saying whether the notification is
//! actionable. An external lookup collaborator classifies the raw payload
//! into an `EventType` and a platform code; this module combines that verdict
//! with the payload fields the driver extracted and decides whether an event
//! is constructed at all. Translation is total and pure: unrecognized or
//! non-actionable notifications yield nothing, which is correct behavior,
//! not an error.

use vstd::prelude::*;

use crate::event::{Event, EventType};

verus! {

/// The notification code under which the OS intends a low-level hook
/// notification to be acted upon; every other code must be ignored.
pub const HC_ACTION: i32 = 0;

/// The fields of one raw OS notification, extracted by the driver as plain
/// values: the hook code, the hardware scan-code field of the payload, the
/// payload's opaque extra-info field, and the wall-clock time at which the
/// hook fired.
#[derive(Clone, Copy, Debug, PartialEq, Eq, Structural)]
pub struct RawNotification {
    pub code: i32,
    pub scan_code: u32,
    pub extra_data: usize,
    pub time_ms: u64,
}

/// The verdict of the external classification collaborator on a raw payload:
/// which kind of event it is, if recognized at all, and the raw virtual-key
/// or button code it carries.
#[derive(Clone, Copy, Debug, PartialEq, Eq)]
pub struct Classification {
    pub event_type: Option<EventType>,
    pub platform_code: u32,
}

/// What translation yields: an event exactly when the notification is
/// actionable and the classification recognized it, with every field passed
/// through untransformed.
pub open spec fn translate_spec(raw: RawNotification, cls: Classification) -> Option<Event> {
    if raw.code == HC_ACTION && cls.event_type is Some {
        Some(Event {
            event_type: cls.event_type->0,
            time_ms: raw.time_ms,
            unicode: None,
            platform_code: cls.platform_code,
            position_code: raw.scan_code,
            extra_data: raw.extra_data,
        })
    } else {
        None
    }
}

/// Builds the normalized event for one raw notification, or nothing when the
/// notification code is not the actionable one or the classification yields
/// no event type.
pub fn translate(raw: &RawNotification, cls: &Classification) -> (r: Option<Event>)
    ensures
        r == translate_spec(*raw, *cls),
        raw.code != HC_ACTION ==> r is None,
        cls.event_type is None ==> r is None,
        r matches Some(e) ==> {
            &&& e.platform_code == cls.platform_code
            &&& e.position_code == raw.scan_code
            &&& e.extra_data == raw.extra_data
            &&& e.time_ms == raw.time_ms
            &&& Some(e.event_type) == cls.event_type
            &&& e.unicode is None
        },
{
    if raw.code == HC_ACTION {
        match cls.event_type {
            Some(event_type) => Some(Event {
                event_type,
                time_ms: raw.time_ms,
                unicode: None,
                platform_code: cls.platform_code,
                position_code: raw.scan_code,
                extra_data: raw.extra_data,
            }),
            None => None,
        }
    } else {
        None
    }
}

} // verus!
