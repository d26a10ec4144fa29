use vstd::prelude::*;
use crate::controller::{toggle_steps, toggle_target, OverlayController, OverlayState, Transition};
use crate::hotkey::{unregister_call, HotkeyRegistrar};
use crate::os_call::OsCall;

verus! {

/// The whole derived state of one overlay window: its logical visibility and
/// whether the toggle hotkey is bound. The host keeps one of these per window
/// under a single lock, so the two flags never drift apart.
pub struct OverlaySession {
    pub overlay: OverlayController,
    pub hotkey: HotkeyRegistrar,
}

impl OverlaySession {
    /// A session for a window that was not shown yet, hotkey unbound.
    pub fn new() -> (r: OverlaySession)
        ensures
            r.overlay.current() == OverlayState::Hidden,
            !r.hotkey.is_bound(),
    {
        OverlaySession { overlay: OverlayController::new(), hotkey: HotkeyRegistrar::new() }
    }

    /// The hotkey fired: it stands for a toggle.
    pub fn on_hotkey_pressed(&self) -> (r: Transition)
        ensures
            r.target == toggle_target(self.overlay.current()),
            r.steps@ == toggle_steps(self.overlay.current()),
    {
        self.overlay.toggle_overlay()
    }

    /// The window was destroyed: release the hotkey if it is bound. A second
    /// delivery of the event finds it released and makes no call.
    pub fn on_window_destroyed(&mut self) -> (r: Option<OsCall>)
        ensures
            !final(self).hotkey.is_bound(),
            final(self).overlay == old(self).overlay,
            r == unregister_call(old(self).hotkey.is_bound()),
    {
        self.hotkey.unregister_toggle_hotkey()
    }
}

} // verus!
