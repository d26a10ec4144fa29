use vstd::prelude::*;
use crate::os_call::{OsCall, OsError, OsPrimitive};

verus! {

/// The fixed identifier of the toggle hotkey.
pub const HOTKEY_ID: i32 = 0xC1AA;

/// Modifier flag: either Alt key.
pub const MOD_ALT: u32 = 0x0001;

/// Modifier flag: either Ctrl key.
pub const MOD_CONTROL: u32 = 0x0002;

/// Modifier flag: either Shift key.
pub const MOD_SHIFT: u32 = 0x0004;

/// Modifier flag: holding the combination down does not repeat it.
pub const MOD_NOREPEAT: u32 = 0x4000;

/// Virtual key code of the space bar.
pub const VK_SPACE: u32 = 0x20;

/// The hotkey's modifiers: Ctrl, Alt and Shift, with repeat suppressed.
pub const HOTKEY_MODIFIERS: u32 = MOD_CONTROL | MOD_ALT | MOD_SHIFT | MOD_NOREPEAT;

/// The call that binds the toggle hotkey.
pub open spec fn register_call_spec() -> OsCall {
    OsCall::RegisterHotKey { id: HOTKEY_ID, modifiers: HOTKEY_MODIFIERS, key: VK_SPACE }
}

/// The call a registration has to make, given whether the hotkey is bound.
pub open spec fn register_call(registered: bool) -> Option<OsCall> {
    if registered {
        None
    } else {
        Some(register_call_spec())
    }
}

/// The call an unregistration makes, given whether the hotkey is bound.
pub open spec fn unregister_call(registered: bool) -> Option<OsCall> {
    if registered {
        Some(OsCall::UnregisterHotKey { id: HOTKEY_ID })
    } else {
        None
    }
}

/// Whether the hotkey is bound after a registration, from `registered`,
/// where `ok` is the result of the binding call if one was made.
pub open spec fn after_register(registered: bool, ok: bool) -> bool {
    registered || ok
}

/// Tracks whether the toggle hotkey is bound. The host holds it under one
/// lock across a whole register or unregister, so each check-then-act is
/// atomic.
pub struct HotkeyRegistrar {
    registered: bool,
}

impl HotkeyRegistrar {
    pub closed spec fn is_bound(&self) -> bool {
        self.registered
    }

    /// A registrar with the hotkey not bound.
    pub fn new() -> (r: HotkeyRegistrar)
        ensures
            !r.is_bound(),
    {
        HotkeyRegistrar { registered: false }
    }

    pub fn is_registered(&self) -> (r: bool)
        ensures
            r == self.is_bound(),
    {
        self.registered
    }

    /// The binding call to make, or none when the hotkey is already bound.
    pub fn register_toggle_hotkey(&self) -> (r: Option<OsCall>)
        ensures
            r == register_call(self.is_bound()),
    {
        if self.registered {
            None
        } else {
            Some(OsCall::RegisterHotKey { id: HOTKEY_ID, modifiers: HOTKEY_MODIFIERS, key: VK_SPACE })
        }
    }

    /// Records the result of the binding call made after
    /// `register_toggle_hotkey`.
    pub fn record_registration(&mut self, ok: bool) -> (r: Result<(), OsError>)
        requires
            !old(self).is_bound(),
        ensures
            final(self).is_bound() == ok,
            ok ==> r is Ok,
            !ok ==> r == Err::<(), OsError>(OsError { primitive: OsPrimitive::RegisterHotKey }),
    {
        if ok {
            self.registered = true;
            Ok(())
        } else {
            Err(OsError { primitive: OsPrimitive::RegisterHotKey })
        }
    }

    /// Clears the binding and returns the release call to make, if the hotkey
    /// was bound. Failure of that call is of no consequence: the hotkey is
    /// taken as released either way.
    pub fn unregister_toggle_hotkey(&mut self) -> (r: Option<OsCall>)
        ensures
            !final(self).is_bound(),
            r == unregister_call(old(self).is_bound()),
    {
        if self.registered {
            self.registered = false;
            Some(OsCall::UnregisterHotKey { id: HOTKEY_ID })
        } else {
            None
        }
    }
}

/// Registering twice makes exactly one binding call when the hotkey starts
/// unbound, and none when it starts bound; once a binding call succeeded the
/// hotkey is bound and the second registration makes no call.
pub proof fn lemma_register_idempotent(registered: bool, ok: bool)
    ensures
        ({
            let second = after_register(registered, ok);
            &&& (register_call(registered) is Some) == !registered
            &&& ok ==> second && register_call(second) is None
            &&& registered ==> second && register_call(second) is None
        }),
{
}

/// Register, unregister, unregister leaves the hotkey unbound, the first
/// unregistration releases a binding that exists, and the second makes no
/// call.
pub proof fn lemma_register_unregister_symmetric(registered: bool, ok: bool)
    ensures
        ({
            let bound = after_register(registered, ok);
            &&& unregister_call(bound) is Some == bound
            &&& unregister_call(false) is None
        }),
{
}

} // verus!
