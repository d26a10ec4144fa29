use vstd::prelude::*;
use crate::applicator::hint_steps;
use crate::os_call::{
    best_effort, required, run_steps, OsCall, OsError, OsPrimitive, Step, WindowModel,
};

verus! {

/// Alpha of the overlay while hidden: near-invisible, but never exactly zero
/// so the window stays present.
pub const HIDDEN_ALPHA: u8 = 1;

/// Alpha of the shown overlay: slightly below opaque.
pub const SHOWN_ALPHA: u8 = 230;

/// The overlay's logical state. Visibility is carried by opacity alone: the
/// window is never hidden by the operating system, and hiding the overlay
/// dims it to a near-zero alpha. The overlay starts hidden.
#[derive(Clone, Copy, Debug, PartialEq, Eq, Structural)]
pub enum OverlayState {
    Hidden,
    Shown,
}

/// The window presents state `s`.
pub open spec fn presents(w: WindowModel, s: OverlayState) -> bool {
    match s {
        OverlayState::Hidden => w.alpha == HIDDEN_ALPHA,
        OverlayState::Shown => w.visible && w.alpha == SHOWN_ALPHA,
    }
}

/// Show: display the window, then raise its alpha.
pub open spec fn show_steps() -> Seq<Step> {
    seq![
        Step { call: OsCall::ShowWindow, on_failure: Some(OsPrimitive::ShowWindow) },
        Step {
            call: OsCall::SetAlpha { alpha: SHOWN_ALPHA },
            on_failure: Some(OsPrimitive::SetLayeredWindowAttributes),
        },
    ]
}

/// Hide: dim the window to a near-zero alpha; no show or hide request.
pub open spec fn hide_steps() -> Seq<Step> {
    seq![
        Step {
            call: OsCall::SetAlpha { alpha: HIDDEN_ALPHA },
            on_failure: Some(OsPrimitive::SetLayeredWindowAttributes),
        },
    ]
}

/// Show, then request focus and foregrounding (best-effort).
pub open spec fn show_and_focus_steps() -> Seq<Step> {
    show_steps().push(Step { call: OsCall::Focus, on_failure: None })
}

/// The state a toggle leads to from `s`.
pub open spec fn toggle_target(s: OverlayState) -> OverlayState {
    match s {
        OverlayState::Shown => OverlayState::Hidden,
        OverlayState::Hidden => OverlayState::Shown,
    }
}

/// The steps of a toggle from `s`.
pub open spec fn toggle_steps(s: OverlayState) -> Seq<Step> {
    match s {
        OverlayState::Shown => hide_steps(),
        OverlayState::Hidden => show_and_focus_steps(),
    }
}

/// A planned change of state: the state to reach and the calls that reach it.
pub struct Transition {
    pub target: OverlayState,
    pub steps: Vec<Step>,
}

/// The calls that show the overlay.
pub fn show_overlay() -> (r: Vec<Step>)
    ensures
        r@ == show_steps(),
{
    let r = vec![
        required(OsCall::ShowWindow, OsPrimitive::ShowWindow),
        required(OsCall::SetAlpha { alpha: SHOWN_ALPHA }, OsPrimitive::SetLayeredWindowAttributes),
    ];
    assert(r@ =~= show_steps());
    r
}

/// The calls that hide (dim) the overlay.
pub fn hide_overlay() -> (r: Vec<Step>)
    ensures
        r@ == hide_steps(),
{
    let r = vec![
        required(OsCall::SetAlpha { alpha: HIDDEN_ALPHA }, OsPrimitive::SetLayeredWindowAttributes),
    ];
    assert(r@ =~= hide_steps());
    r
}

fn show_and_focus_overlay() -> (r: Vec<Step>)
    ensures
        r@ == show_and_focus_steps(),
{
    let mut r = show_overlay();
    r.push(best_effort(OsCall::Focus));
    r
}

/// Tracks the overlay's logical state and plans the calls for the toggle,
/// enable (stealth on: hide) and disable (stealth off: show) intents. The
/// state follows a plan only when all of its calls succeeded.
pub struct OverlayController {
    state: OverlayState,
}

impl OverlayController {
    pub closed spec fn current(&self) -> OverlayState {
        self.state
    }

    /// A controller for an overlay that has not been shown yet.
    pub fn new() -> (r: OverlayController)
        ensures
            r.current() == OverlayState::Hidden,
    {
        OverlayController { state: OverlayState::Hidden }
    }

    pub fn state(&self) -> (r: OverlayState)
        ensures
            r == self.current(),
    {
        self.state
    }

    /// Whether the overlay is off, dimmed to the hidden alpha.
    pub fn is_dimmed(&self) -> (r: bool)
        ensures
            r == (self.current() == OverlayState::Hidden),
    {
        self.state == OverlayState::Hidden
    }

    /// Flip visibility: hide a shown overlay, show (and focus) a hidden one.
    pub fn toggle_overlay(&self) -> (r: Transition)
        ensures
            r.target == toggle_target(self.current()),
            r.steps@ == toggle_steps(self.current()),
    {
        if self.state == OverlayState::Shown {
            Transition { target: OverlayState::Hidden, steps: hide_overlay() }
        } else {
            Transition { target: OverlayState::Shown, steps: show_and_focus_overlay() }
        }
    }

    /// Turn stealth on: hide the overlay, whatever its state.
    pub fn enable_overlay(&self) -> (r: Transition)
        ensures
            r.target == OverlayState::Hidden,
            r.steps@ == hide_steps(),
    {
        Transition { target: OverlayState::Hidden, steps: hide_overlay() }
    }

    /// Turn stealth off: show the overlay, whatever its state.
    pub fn disable_overlay(&self) -> (r: Transition)
        ensures
            r.target == OverlayState::Shown,
            r.steps@ == show_steps(),
    {
        Transition { target: OverlayState::Shown, steps: show_overlay() }
    }

    /// Records how the calls for a transition to `target` ended, and hands
    /// the result on unchanged. The state moves to `target` only on success.
    pub fn complete(&mut self, target: OverlayState, result: Result<(), OsError>) -> (r: Result<
        (),
        OsError,
    >)
        ensures
            r == result,
            final(self).current() == (if result is Ok {
                target
            } else {
                old(self).current()
            }),
    {
        if result.is_ok() {
            self.state = target;
        }
        result
    }
}

/// Toggling twice returns the overlay to the state it started in.
pub proof fn lemma_toggle_involution(s: OverlayState)
    ensures
        toggle_target(toggle_target(s)) == s,
        toggle_target(s) != s,
{
}

proof fn lemma_run_one(w: WindowModel, s: Seq<Step>)
    requires
        s.len() == 1,
    ensures
        run_steps(w, s) == crate::os_call::effect(w, s[0].call),
{
    reveal_with_fuel(run_steps, 2);
    assert(s.drop_last() =~= Seq::<Step>::empty());
}

proof fn lemma_run_push(w: WindowModel, s: Seq<Step>, t: Step)
    ensures
        run_steps(w, s.push(t)) == crate::os_call::effect(run_steps(w, s), t.call),
{
    assert(s.push(t).drop_last() =~= s);
}

/// Running the show calls to success presents a shown overlay.
pub proof fn lemma_show_presents(w: WindowModel)
    ensures
        presents(run_steps(w, show_steps()), OverlayState::Shown),
        presents(run_steps(w, show_and_focus_steps()), OverlayState::Shown),
        run_steps(w, show_and_focus_steps()).focused,
{
    let s = show_steps();
    assert(s =~= seq![s[0]].push(s[1]));
    lemma_run_one(w, seq![s[0]]);
    lemma_run_push(w, seq![s[0]], s[1]);
    lemma_run_push(w, s, Step { call: OsCall::Focus, on_failure: None });
}

/// Running the hide calls to success presents a hidden overlay, and changes
/// neither visibility nor focus.
pub proof fn lemma_hide_presents(w: WindowModel)
    ensures
        presents(run_steps(w, hide_steps()), OverlayState::Hidden),
        run_steps(w, hide_steps()).visible == w.visible,
        run_steps(w, hide_steps()).focused == w.focused,
{
    lemma_run_one(w, hide_steps());
}

/// Whatever the state and the window, a toggle whose calls all succeed
/// leaves the window presenting the toggle's target state.
pub proof fn lemma_toggle_presents(s: OverlayState, w: WindowModel)
    ensures
        presents(run_steps(w, toggle_steps(s)), toggle_target(s)),
{
    lemma_show_presents(w);
    lemma_hide_presents(w);
}

/// Enabling stealth always ends hidden and disabling it always ends shown,
/// whatever the state before; the window presents that state once the
/// calls have succeeded.
pub proof fn lemma_enable_disable_inversion(w: WindowModel)
    ensures
        presents(run_steps(w, hide_steps()), OverlayState::Hidden),
        presents(run_steps(w, show_steps()), OverlayState::Shown),
{
    lemma_show_presents(w);
    lemma_hide_presents(w);
}

/// The alpha a call sets, if it sets one.
pub open spec fn alpha_set_by(c: OsCall) -> Option<u8> {
    match c {
        OsCall::SetAlpha { alpha } => Some(alpha),
        _ => None,
    }
}

/// No step of `steps` sets an alpha above `a`.
pub open spec fn alphas_at_most(steps: Seq<Step>, a: u8) -> bool {
    forall|i: int| 0 <= i < steps.len() && (#[trigger] alpha_set_by(steps[i].call)) is Some
        ==> alpha_set_by(steps[i].call)->Some_0 <= a
}

/// The hidden (dimmed) alpha is above zero and below the shown alpha; the
/// shown alpha is what showing sets, and no plan sets a higher one.
pub proof fn lemma_alpha_order(s: OverlayState, style: u32)
    ensures
        0 < HIDDEN_ALPHA,
        HIDDEN_ALPHA < SHOWN_ALPHA,
        show_steps().contains(
            Step {
                call: OsCall::SetAlpha { alpha: SHOWN_ALPHA },
                on_failure: Some(OsPrimitive::SetLayeredWindowAttributes),
            },
        ),
        alphas_at_most(toggle_steps(s), SHOWN_ALPHA),
        alphas_at_most(hide_steps(), SHOWN_ALPHA),
        alphas_at_most(show_steps(), SHOWN_ALPHA),
        alphas_at_most(hint_steps(style), SHOWN_ALPHA),
{
    assert(show_steps()[1] == Step {
        call: OsCall::SetAlpha { alpha: SHOWN_ALPHA },
        on_failure: Some(OsPrimitive::SetLayeredWindowAttributes),
    });
    assert(alphas_at_most(show_and_focus_steps(), SHOWN_ALPHA));
    assert(alphas_at_most(hide_steps(), SHOWN_ALPHA));
}

} // verus!
