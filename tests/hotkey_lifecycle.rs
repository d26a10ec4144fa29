use std::sync::Mutex;
use stealth_overlay::controller::OverlayState;
use stealth_overlay::hotkey::{HotkeyRegistrar, HOTKEY_ID, HOTKEY_MODIFIERS, VK_SPACE};
use stealth_overlay::os_call::{OsCall, OsError, OsPrimitive};
use stealth_overlay::session::OverlaySession;

/// One registration as a host makes it, counting binding calls.
fn register(r: &mut HotkeyRegistrar, os_accepts: bool, calls: &mut u32) -> Result<(), OsError> {
    match r.register_toggle_hotkey() {
        Some(_) => {
            *calls += 1;
            r.record_registration(os_accepts)
        }
        None => Ok(()),
    }
}

#[test]
fn register_call_is_the_fixed_combination() {
    let r = HotkeyRegistrar::new();
    assert_eq!(
        r.register_toggle_hotkey(),
        Some(OsCall::RegisterHotKey { id: 0xC1AA, modifiers: 0x4007, key: 0x20 })
    );
    assert_eq!(HOTKEY_ID, 0xC1AA);
    assert_eq!(HOTKEY_MODIFIERS, 0x4007);
    assert_eq!(VK_SPACE, 0x20);
}

#[test]
fn register_twice_binds_once() {
    let mut r = HotkeyRegistrar::new();
    let mut calls = 0;
    assert_eq!(register(&mut r, true, &mut calls), Ok(()));
    assert_eq!(register(&mut r, true, &mut calls), Ok(()));
    assert_eq!(calls, 1);
    assert!(r.is_registered());
}

#[test]
fn failed_registration_reports_and_stays_unbound() {
    let mut r = HotkeyRegistrar::new();
    let mut calls = 0;
    assert_eq!(
        register(&mut r, false, &mut calls),
        Err(OsError { primitive: OsPrimitive::RegisterHotKey })
    );
    assert!(!r.is_registered());
    assert_eq!(register(&mut r, true, &mut calls), Ok(()));
    assert_eq!(calls, 2);
    assert!(r.is_registered());
}

#[test]
fn register_unregister_unregister() {
    let mut r = HotkeyRegistrar::new();
    let mut calls = 0;
    register(&mut r, true, &mut calls).unwrap();
    assert_eq!(r.unregister_toggle_hotkey(), Some(OsCall::UnregisterHotKey { id: HOTKEY_ID }));
    assert!(!r.is_registered());
    assert_eq!(r.unregister_toggle_hotkey(), None);
    assert!(!r.is_registered());
}

#[test]
fn unregister_when_unbound_is_no_op() {
    let mut r = HotkeyRegistrar::new();
    assert_eq!(r.unregister_toggle_hotkey(), None);
    assert!(!r.is_registered());
}

#[test]
fn shared_registrar_binds_once_for_two_callers() {
    let shared = Mutex::new(HotkeyRegistrar::new());
    let mut calls = 0;
    let first = register(&mut shared.lock().unwrap(), true, &mut calls);
    let second = register(&mut shared.lock().unwrap(), true, &mut calls);
    assert_eq!(first, Ok(()));
    assert_eq!(second, Ok(()));
    assert_eq!(calls, 1);
    assert!(shared.lock().unwrap().is_registered());
}

#[test]
fn window_destroyed_releases_hotkey_once() {
    let mut s = OverlaySession::new();
    let mut calls = 0;
    register(&mut s.hotkey, true, &mut calls).unwrap();
    assert_eq!(s.on_window_destroyed(), Some(OsCall::UnregisterHotKey { id: HOTKEY_ID }));
    assert!(!s.hotkey.is_registered());
    assert_eq!(s.on_window_destroyed(), None);
    assert!(!s.hotkey.is_registered());
}

#[test]
fn hotkey_press_is_a_toggle() {
    let s = OverlaySession::new();
    let t = s.on_hotkey_pressed();
    assert_eq!(t.target, OverlayState::Shown);
    assert_eq!(t.steps, s.overlay.toggle_overlay().steps);
}
