//! Single-occupant storage for the user's event handler.
//!
//! The OS notification trampoline carries no user context parameter, so the
//! handler must live in storage that the trampoline can reach. This type
//! makes that storage explicit and bounded: it holds at most one handler,
//! installed once before hooks are registered, read and invoked synchronously
//! from the notification-delivery context, and cleared at teardown.

use vstd::prelude::*;

use crate::event::Event;

verus! {

/// What the application supplies to consume events: the handler invoked
/// synchronously for each translated notification.
pub trait EventSink {
    fn handle(&mut self, event: &Event);
}

/// At-most-one-occupant holder of the user's handler.
pub struct CallbackSlot<S: EventSink> {
    callback: Option<S>,
}

impl<S: EventSink> CallbackSlot<S> {
    /// Whether a handler is currently installed.
    pub closed spec fn occupied(self) -> bool {
        self.callback is Some
    }

    /// A slot with no handler installed.
    pub fn empty() -> (slot: Self)
        ensures
            !slot.occupied(),
    {
        CallbackSlot { callback: None }
    }

    /// Stores the handler. Must happen before hooks are registered and at
    /// most once per session: installing over a live handler is not allowed.
    pub fn install(&mut self, callback: S)
        requires
            !old(self).occupied(),
        ensures
            final(self).occupied(),
    {
        self.callback = Some(callback);
    }

    /// Invokes the stored handler with `event`; a no-op when no handler is
    /// installed (defensive: hooks are only active while one is).
    pub fn invoke(&mut self, event: &Event)
        ensures
            final(self).occupied() == old(self).occupied(),
    {
        match &mut self.callback {
            Some(callback) => callback.handle(event),
            None => {},
        }
    }

    /// Removes the handler at teardown, so that no stale handler can be
    /// reached should a notification still arrive.
    pub fn clear(&mut self)
        ensures
            !final(self).occupied(),
    {
        self.callback = None;
    }

    /// Reports whether a handler is installed.
    pub fn is_installed(&self) -> (installed: bool)
        ensures
            installed == self.occupied(),
    {
        self.callback.is_some()
    }
}

} // verus!
