//! The listening-session state machine.
//!
//! A session moves through `Idle -> CallbackInstalled -> HooksActive ->
//! Pumping -> Unhooked`: the callback is stored, the keyboard hook is always
//! registered, the mouse hook is registered unless the session is configured
//! keyboard-only, and the dispatch loop then blocks until the OS's terminal
//! signal. The platform work itself (registering a hook, pumping the message
//! queue, removing a handle) cannot be done here; a driver performs each
//! `SessionAction` this machine asks for and hands the outcome back as the
//! next `OsResponse`. Every decision — which hook to register next, which
//! error to surface, what teardown must remove and what its boolean result
//! is — is made in this module and verified.

use vstd::prelude::*;

use crate::event::{HookError, ListenError};
use crate::registry::{DeviceClass, HookHandle, HookRegistry};

verus! {

/// Where a session stands in its lifecycle.
#[derive(Clone, Copy, Debug, PartialEq, Eq, Structural)]
pub enum SessionPhase {
    /// No callback stored, no hooks registered.
    Idle,
    /// The callback is stored; hook registrations are in flight.
    CallbackInstalled,
    /// Every wanted hook is registered; the dispatch loop is about to start.
    HooksActive,
    /// The dispatch loop is running, delivering notifications.
    Pumping,
    /// Teardown removed the hooks; the session is over.
    Unhooked,
    /// A hook registration was rejected; the session aborted at startup.
    Failed,
}

/// The outcome of the platform work the driver performed, handed back to the
/// state machine.
#[derive(Clone, Copy, Debug, PartialEq, Eq, Structural)]
pub enum OsResponse {
    /// The caller asked the session to start; the callback is stored.
    Started,
    /// The OS accepted the pending hook registration and returned a handle.
    HookRegistered(HookHandle),
    /// The OS rejected the pending hook registration with a status code.
    HookRejected(u32),
    /// The message-retrieval primitive returned its terminal value.
    LoopEnded,
}

/// What the driver must do next.
#[derive(Clone, Copy, Debug, PartialEq, Eq, Structural)]
pub enum SessionAction {
    /// Register the low-level keyboard hook with the OS.
    RegisterKeyboardHook,
    /// Register the low-level mouse hook with the OS.
    RegisterMouseHook,
    /// Block pumping the OS message queue until the terminal signal.
    PumpMessages,
    /// Abort startup and surface this error to the caller.
    Fail(ListenError),
    /// The session is over; return success to the caller.
    Stop,
}

/// Which removals a teardown must attempt: the keyboard hook always, the
/// mouse hook only on a dual-hook session.
#[derive(Clone, Copy, Debug, PartialEq, Eq, Structural)]
pub struct UnhookTargets {
    pub keyboard: bool,
    pub mouse: bool,
}

/// The boolean a teardown reports: every removal that was attempted
/// succeeded. A keyboard-only session never attempts mouse removal, so its
/// result depends on the keyboard removal alone.
pub open spec fn unhook_ok(
    keyboard_only: bool,
    keyboard_removed: bool,
    mouse_removed: bool,
) -> bool {
    keyboard_removed && (keyboard_only || mouse_removed)
}

/// One listening session: its lifecycle phase, the keyboard-only
/// configuration flag consulted at registration and teardown, and the
/// registry of live hook handles.
pub struct Session {
    pub phase: SessionPhase,
    pub keyboard_only: bool,
    pub registry: HookRegistry,
}

impl Session {
    /// While registrations are in flight, the keyboard hook is registered
    /// first; a stored keyboard handle means the pending registration is the
    /// mouse's.
    pub open spec fn awaiting_mouse(self) -> bool {
        self.registry.handle_for(DeviceClass::Keyboard) is Some
    }

    /// Which responses the driver may hand back in the current phase.
    pub open spec fn step_allowed(self, response: OsResponse) -> bool {
        match response {
            OsResponse::Started => self.phase is Idle,
            OsResponse::HookRegistered(_) => self.phase is CallbackInstalled,
            OsResponse::HookRejected(_) => self.phase is CallbackInstalled,
            OsResponse::LoopEnded => self.phase is Pumping,
        }
    }

    /// A fresh idle session with no live hook handles.
    pub fn new(keyboard_only: bool) -> (session: Self)
        ensures
            session.phase is Idle,
            session.keyboard_only == keyboard_only,
            forall|class: DeviceClass| session.registry.handle_for(class) is None,
    {
        Session { phase: SessionPhase::Idle, keyboard_only, registry: HookRegistry::new() }
    }

    /// Advances the session on the outcome of the last platform action and
    /// says what the driver must do next: starting stores the callback and
    /// asks for the keyboard hook; an accepted registration is recorded and
    /// is followed by the mouse hook, or by pumping once every wanted hook
    /// is in; a rejected registration aborts with the error of the device
    /// class whose registration was pending (any hook already registered
    /// stays in the registry so the driver can still remove it); the loop's
    /// terminal signal ends the session successfully.
    pub fn step(&mut self, response: OsResponse) -> (action: SessionAction)
        requires
            old(self).step_allowed(response),
        ensures
            final(self).keyboard_only == old(self).keyboard_only,
            response is Started ==> {
                &&& final(self).phase is CallbackInstalled
                &&& final(self).registry == old(self).registry
                &&& action is RegisterKeyboardHook
            },
            response matches OsResponse::HookRegistered(handle) ==> (!old(self).awaiting_mouse()
                ==> {
                &&& final(self).registry.handle_for(DeviceClass::Keyboard) == Some(handle)
                &&& final(self).registry.handle_for(DeviceClass::Mouse) == old(
                    self,
                ).registry.handle_for(DeviceClass::Mouse)
                &&& old(self).keyboard_only ==> (final(self).phase is HooksActive
                    && action is PumpMessages)
                &&& !old(self).keyboard_only ==> (final(self).phase is CallbackInstalled
                    && action is RegisterMouseHook)
            }),
            response matches OsResponse::HookRegistered(handle) ==> (old(self).awaiting_mouse()
                ==> {
                &&& final(self).registry.handle_for(DeviceClass::Mouse) == Some(handle)
                &&& final(self).registry.handle_for(DeviceClass::Keyboard) == old(
                    self,
                ).registry.handle_for(DeviceClass::Keyboard)
                &&& final(self).phase is HooksActive
                &&& action is PumpMessages
            }),
            response matches OsResponse::HookRejected(code) ==> {
                &&& final(self).phase is Failed
                &&& final(self).registry == old(self).registry
                &&& !old(self).awaiting_mouse() ==> action == SessionAction::Fail(
                    ListenError::KeyHookError(code),
                )
                &&& old(self).awaiting_mouse() ==> action == SessionAction::Fail(
                    ListenError::MouseHookError(code),
                )
            },
            response is LoopEnded ==> {
                &&& final(self).phase == old(self).phase
                &&& final(self).registry == old(self).registry
                &&& action is Stop
            },
    {
        match response {
            OsResponse::Started => {
                self.phase = SessionPhase::CallbackInstalled;
                SessionAction::RegisterKeyboardHook
            },
            OsResponse::HookRegistered(handle) => {
                let keyboard_pending = self.registry.get(DeviceClass::Keyboard).is_none();
                if keyboard_pending {
                    self.registry.set(DeviceClass::Keyboard, handle);
                    if self.keyboard_only {
                        self.phase = SessionPhase::HooksActive;
                        SessionAction::PumpMessages
                    } else {
                        SessionAction::RegisterMouseHook
                    }
                } else {
                    self.registry.set(DeviceClass::Mouse, handle);
                    self.phase = SessionPhase::HooksActive;
                    SessionAction::PumpMessages
                }
            },
            OsResponse::HookRejected(code) => {
                let keyboard_pending = self.registry.get(DeviceClass::Keyboard).is_none();
                self.phase = SessionPhase::Failed;
                if keyboard_pending {
                    SessionAction::Fail(ListenError::from(HookError::Key(code)))
                } else {
                    SessionAction::Fail(ListenError::from(HookError::Mouse(code)))
                }
            },
            OsResponse::LoopEnded => SessionAction::Stop,
        }
    }

    /// Marks the moment the dispatch loop takes over the calling context.
    pub fn begin_pump(&mut self)
        requires
            old(self).phase is HooksActive,
        ensures
            final(self).phase is Pumping,
            final(self).keyboard_only == old(self).keyboard_only,
            final(self).registry == old(self).registry,
    {
        self.phase = SessionPhase::Pumping;
    }

    /// Which hook removals teardown must attempt: the keyboard hook always,
    /// the mouse hook only when the session is not keyboard-only.
    pub fn unhook_targets(&self) -> (targets: UnhookTargets)
        ensures
            targets.keyboard == true,
            targets.mouse == !self.keyboard_only,
    {
        UnhookTargets { keyboard: true, mouse: !self.keyboard_only }
    }

    /// Records the outcome of the removals the driver attempted and reports
    /// whether the OS confirmed every one of them: the logical AND across
    /// the attempted device classes. On a keyboard-only session the mouse
    /// argument is never consulted, so the result depends on the keyboard
    /// removal alone. The registry is emptied and the session is over.
    pub fn complete_unhook(&mut self, keyboard_removed: bool, mouse_removed: bool) -> (ok: bool)
        ensures
            ok == unhook_ok(old(self).keyboard_only, keyboard_removed, mouse_removed),
            old(self).keyboard_only ==> ok == keyboard_removed,
            !old(self).keyboard_only ==> ok == (keyboard_removed && mouse_removed),
            final(self).phase is Unhooked,
            final(self).keyboard_only == old(self).keyboard_only,
            forall|class: DeviceClass| final(self).registry.handle_for(class) is None,
    {
        let mut status = keyboard_removed;
        if !self.keyboard_only {
            status = status && mouse_removed;
        }
        let _ = self.registry.take(DeviceClass::Keyboard);
        let _ = self.registry.take(DeviceClass::Mouse);
        self.phase = SessionPhase::Unhooked;
        status
    }
}

/// A keyboard-only teardown never consults the mouse outcome: its result is
/// the keyboard removal's outcome, whatever the mouse arguments are.
pub proof fn lemma_keyboard_only_unhook_ignores_mouse(
    keyboard_removed: bool,
    mouse_a: bool,
    mouse_b: bool,
)
    ensures
        unhook_ok(true, keyboard_removed, mouse_a) == unhook_ok(true, keyboard_removed, mouse_b),
        unhook_ok(true, keyboard_removed, mouse_a) == keyboard_removed,
{
}

/// A dual-hook teardown succeeds exactly when both removals succeed, and
/// fails when either fails.
pub proof fn lemma_dual_unhook_requires_both(keyboard_removed: bool, mouse_removed: bool)
    ensures
        unhook_ok(false, keyboard_removed, mouse_removed) == (keyboard_removed && mouse_removed),
{
}

} // verus!
