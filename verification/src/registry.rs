//! Process-wide storage of the OS handles obtained when registering the
//! low-level hooks: at most one live handle per monitored device class,
//! enforced by construction. Access is only valid from the execution context
//! that owns the listening session; no synchronization is provided.

use vstd::prelude::*;

verus! {

/// Opaque OS handle identifying an active hook registration, carried as the
/// plain integer value of the handle.
#[derive(Clone, Copy, Debug, PartialEq, Eq, Structural)]
pub struct HookHandle {
    pub raw: usize,
}

/// The device classes that can be monitored, one hook registration each.
#[derive(Clone, Copy, Debug, PartialEq, Eq, Structural)]
pub enum DeviceClass {
    Keyboard,
    Mouse,
}

/// Zero or one handle per device class.
pub struct HookRegistry {
    keyboard: Option<HookHandle>,
    mouse: Option<HookHandle>,
}

impl HookRegistry {
    /// The handle currently stored for a device class, if any.
    pub closed spec fn handle_for(self, class: DeviceClass) -> Option<HookHandle> {
        match class {
            DeviceClass::Keyboard => self.keyboard,
            DeviceClass::Mouse => self.mouse,
        }
    }

    /// A registry with no live handles.
    pub fn new() -> (registry: Self)
        ensures
            forall|class: DeviceClass| registry.handle_for(class) is None,
    {
        HookRegistry { keyboard: None, mouse: None }
    }

    /// Stores the handle obtained for `class`, overwriting any prior handle
    /// for that class: the caller must have unregistered the prior handle
    /// first, or it leaks in the OS's hook chain.
    pub fn set(&mut self, class: DeviceClass, handle: HookHandle)
        ensures
            final(self).handle_for(class) == Some(handle),
            forall|other: DeviceClass|
                other != class ==> final(self).handle_for(other) == old(self).handle_for(other),
    {
        match class {
            DeviceClass::Keyboard => self.keyboard = Some(handle),
            DeviceClass::Mouse => self.mouse = Some(handle),
        }
    }

    /// The handle stored for `class`, if any.
    pub fn get(&self, class: DeviceClass) -> (handle: Option<HookHandle>)
        ensures
            handle == self.handle_for(class),
    {
        match class {
            DeviceClass::Keyboard => self.keyboard,
            DeviceClass::Mouse => self.mouse,
        }
    }

    /// Removes and returns the handle stored for `class`, used when the
    /// registration is reversed at teardown.
    pub fn take(&mut self, class: DeviceClass) -> (handle: Option<HookHandle>)
        ensures
            handle == old(self).handle_for(class),
            final(self).handle_for(class) is None,
            forall|other: DeviceClass|
                other != class ==> final(self).handle_for(other) == old(self).handle_for(other),
    {
        match class {
            DeviceClass::Keyboard => {
                let handle = self.keyboard;
                self.keyboard = None;
                handle
            },
            DeviceClass::Mouse => {
                let handle = self.mouse;
                self.mouse = None;
                handle
            },
        }
    }
}

} // verus!
