//! The per-notification decision of the hook trampoline, and the ordered
//! delivery of a run of notifications.
//!
//! The OS invokes a fixed-signature trampoline for every system-wide input
//! notification. The trampoline's obligations are: translate and deliver the
//! notification when it is actionable and recognized, and forward the raw
//! notification to the next handler in the OS's hook chain on every
//! invocation without exception — a hook that swallows notifications breaks
//! every other listener on the machine. The forwarding call itself and the
//! blocking message loop are platform work done by the driver; this module
//! decides, and its contracts pin the always-forward rule and the exact
//! in-order delivery.

use vstd::prelude::*;

use crate::event::Event;
use crate::slot::{CallbackSlot, EventSink};
use crate::translate::{translate, translate_spec, Classification, RawNotification};

verus! {

/// What one trampoline invocation decided: the event handed to the user
/// callback, if translation produced one, and whether the raw notification
/// must be forwarded down the OS hook chain — which is always.
pub struct NotificationOutcome {
    pub delivered: Option<Event>,
    pub forward: bool,
}

/// Handles one raw notification: translates it, invokes the stored callback
/// with the event when translation produced one, and directs the driver to
/// forward the raw notification to the next hook in the chain regardless.
pub fn handle_notification<S: EventSink>(
    slot: &mut CallbackSlot<S>,
    raw: &RawNotification,
    cls: &Classification,
) -> (outcome: NotificationOutcome)
    ensures
        outcome.forward == true,
        outcome.delivered == translate_spec(*raw, *cls),
        final(slot).occupied() == old(slot).occupied(),
{
    let delivered = translate(raw, cls);
    match &delivered {
        Some(event) => slot.invoke(event),
        None => {},
    }
    NotificationOutcome { delivered, forward: true }
}

/// The events a run of notifications delivers, in arrival order: the
/// translation of each notification that yields one, with unrecognized and
/// non-actionable notifications dropped.
pub open spec fn delivered_events(notifications: Seq<(RawNotification, Classification)>) -> Seq<
    Event,
>
    decreases notifications.len(),
{
    if notifications.len() == 0 {
        Seq::empty()
    } else {
        let rest = delivered_events(notifications.drop_last());
        match translate_spec(notifications.last().0, notifications.last().1) {
            Some(event) => rest.push(event),
            None => rest,
        }
    }
}

/// Delivers a run of notifications to the stored callback in exactly the
/// order given — no reordering, no batching — forwarding every one, and
/// returns the delivered events in that same order.
pub fn pump_queue<S: EventSink>(
    slot: &mut CallbackSlot<S>,
    notifications: &Vec<(RawNotification, Classification)>,
) -> (delivered: Vec<Event>)
    ensures
        delivered@ == delivered_events(notifications@),
        final(slot).occupied() == old(slot).occupied(),
{
    let mut delivered: Vec<Event> = Vec::new();
    let n = notifications.len();
    let mut i: usize = 0;
    while i < n
        invariant
            i <= n,
            n == notifications@.len(),
            delivered@ == delivered_events(notifications@.take(i as int)),
            slot.occupied() == old(slot).occupied(),
        decreases n - i,
    {
        let (raw, cls) = notifications[i];
        let outcome = handle_notification(slot, &raw, &cls);
        match outcome.delivered {
            Some(event) => delivered.push(event),
            None => {},
        }
        proof {
            assert(notifications@.take(i + 1).drop_last() =~= notifications@.take(i as int));
            assert(notifications@.take(i + 1).last() == notifications@[i as int]);
        }
        i = i + 1;
    }
    proof {
        assert(notifications@.take(n as int) =~= notifications@);
    }
    delivered
}

} // verus!
