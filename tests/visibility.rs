use stealth_overlay::controller::{
    hide_overlay, show_overlay, OverlayController, OverlayState, HIDDEN_ALPHA, SHOWN_ALPHA,
};
use stealth_overlay::os_call::{OsCall, OsError, OsPrimitive};
use stealth_overlay::sequence::CallSequence;

fn calls(steps: &[stealth_overlay::os_call::Step]) -> Vec<OsCall> {
    steps.iter().map(|s| s.call).collect()
}

/// Runs a transition with every call succeeding.
fn toggle_ok(c: &mut OverlayController) {
    let t = c.toggle_overlay();
    let mut seq = CallSequence::new(t.steps);
    while seq.next_call().is_some() {
        seq.report(true);
    }
    assert_eq!(c.complete(t.target, seq.finish()), Ok(()));
}

#[test]
fn starts_hidden() {
    let c = OverlayController::new();
    assert_eq!(c.state(), OverlayState::Hidden);
    assert!(c.is_dimmed());
}

#[test]
fn show_and_hide_plans() {
    assert_eq!(calls(&show_overlay()), vec![OsCall::ShowWindow, OsCall::SetAlpha { alpha: 230 }]);
    assert_eq!(calls(&hide_overlay()), vec![OsCall::SetAlpha { alpha: 1 }]);
}

#[test]
fn toggle_from_hidden_shows_and_focuses() {
    let mut c = OverlayController::new();
    let t = c.toggle_overlay();
    assert_eq!(t.target, OverlayState::Shown);
    assert_eq!(
        calls(&t.steps),
        vec![OsCall::ShowWindow, OsCall::SetAlpha { alpha: SHOWN_ALPHA }, OsCall::Focus]
    );
    assert_eq!(t.steps[2].on_failure, None);
    toggle_ok(&mut c);
    assert_eq!(c.state(), OverlayState::Shown);
    assert!(!c.is_dimmed());
}

#[test]
fn enable_from_shown_hides_by_alpha_alone() {
    let mut c = OverlayController::new();
    toggle_ok(&mut c);
    let t = c.enable_overlay();
    assert_eq!(t.target, OverlayState::Hidden);
    assert_eq!(calls(&t.steps), vec![OsCall::SetAlpha { alpha: HIDDEN_ALPHA }]);
    assert!(!t.steps.iter().any(|s| s.call == OsCall::Focus || s.call == OsCall::ShowWindow));
    assert_eq!(c.complete(t.target, Ok(())), Ok(()));
    assert_eq!(c.state(), OverlayState::Hidden);
    assert!(c.is_dimmed());
}

#[test]
fn toggle_off_uses_opacity_only() {
    let mut c = OverlayController::new();
    toggle_ok(&mut c);
    let t = c.toggle_overlay();
    assert_eq!(t.target, OverlayState::Hidden);
    assert_eq!(calls(&t.steps), vec![OsCall::SetAlpha { alpha: HIDDEN_ALPHA }]);
}

#[test]
fn toggle_twice_returns_to_shown() {
    let mut c = OverlayController::new();
    toggle_ok(&mut c);
    assert_eq!(c.state(), OverlayState::Shown);
    toggle_ok(&mut c);
    assert_eq!(c.state(), OverlayState::Hidden);
    toggle_ok(&mut c);
    assert_eq!(c.state(), OverlayState::Shown);
}

#[test]
fn toggle_twice_returns_to_hidden() {
    let mut c = OverlayController::new();
    assert_eq!(c.state(), OverlayState::Hidden);
    toggle_ok(&mut c);
    toggle_ok(&mut c);
    assert_eq!(c.state(), OverlayState::Hidden);
}

#[test]
fn enable_and_disable_ignore_prior_state() {
    for prior in 0..3 {
        let mut c = OverlayController::new();
        for _ in 0..prior {
            toggle_ok(&mut c);
        }
        let t = c.enable_overlay();
        assert_eq!(t.target, OverlayState::Hidden);
        c.complete(t.target, Ok(())).unwrap();
        assert!(c.is_dimmed());
        let t = c.disable_overlay();
        assert_eq!(t.target, OverlayState::Shown);
        assert_eq!(calls(&t.steps), vec![OsCall::ShowWindow, OsCall::SetAlpha { alpha: SHOWN_ALPHA }]);
        c.complete(t.target, Ok(())).unwrap();
        assert_eq!(c.state(), OverlayState::Shown);
    }
}

#[test]
fn failed_transition_keeps_state() {
    let mut c = OverlayController::new();
    let t = c.toggle_overlay();
    let mut seq = CallSequence::new(t.steps);
    seq.report(false);
    assert!(seq.is_done());
    let err = Err(OsError { primitive: OsPrimitive::ShowWindow });
    assert_eq!(c.complete(t.target, seq.finish()), err);
    assert_eq!(c.state(), OverlayState::Hidden);
}

#[test]
fn alpha_values_are_ordered() {
    assert!(HIDDEN_ALPHA < SHOWN_ALPHA);
    assert!(HIDDEN_ALPHA > 0);
    assert_eq!(SHOWN_ALPHA, 230);
}
