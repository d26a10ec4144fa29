use vstd::prelude::*;
use crate::controller::HIDDEN_ALPHA;
use crate::sequence::outcome;
use crate::os_call::{
    best_effort, required, run_reported, run_steps, OsCall, OsPrimitive, Step, WindowModel,
    WS_EX_APPWINDOW, WS_EX_LAYERED, WS_EX_TOOLWINDOW, WS_EX_TOPMOST, WS_EX_TRANSPARENT,
};

verus! {

/// The extended style bits every overlay window carries.
pub const OVERLAY_STYLE_BITS: u32 = WS_EX_LAYERED | WS_EX_TRANSPARENT | WS_EX_TOOLWINDOW | WS_EX_TOPMOST;

/// The overlay's extended style, given the window's current one: the overlay
/// bits are set and the app-window bit is cleared, every other bit is kept.
pub open spec fn overlay_style_of(current: u32) -> u32 {
    (current | OVERLAY_STYLE_BITS) & !WS_EX_APPWINDOW
}

/// The steps that configure the overlay's presentation, given its current
/// extended style. Every step must succeed but the two legacy cloak hints,
/// which are best-effort.
pub open spec fn hint_steps(current: u32) -> Seq<Step> {
    seq![
        Step {
            call: OsCall::SetExStyle { style: overlay_style_of(current) },
            on_failure: Some(OsPrimitive::SetWindowLongPtr),
        },
        Step { call: OsCall::MakeTopmost, on_failure: Some(OsPrimitive::SetWindowPos) },
        Step {
            call: OsCall::SetAlpha { alpha: HIDDEN_ALPHA },
            on_failure: Some(OsPrimitive::SetLayeredWindowAttributes),
        },
        Step {
            call: OsCall::ExcludeFromCapture,
            on_failure: Some(OsPrimitive::SetWindowDisplayAffinity),
        },
        Step { call: OsCall::Cloak, on_failure: None },
        Step { call: OsCall::ExcludeFromPeek, on_failure: None },
    ]
}

/// The window once every hint has been applied.
pub open spec fn hinted(w: WindowModel) -> WindowModel {
    WindowModel {
        ex_style: overlay_style_of(w.ex_style),
        topmost: true,
        alpha: HIDDEN_ALPHA,
        capture_excluded: true,
        cloaked: true,
        peek_excluded: true,
        ..w
    }
}

/// Computes the overlay's extended style from the current one.
pub fn overlay_ex_style(current: u32) -> (r: u32)
    ensures
        r == overlay_style_of(current),
{
    (current | OVERLAY_STYLE_BITS) & !WS_EX_APPWINDOW
}

/// The calls that make the window a stealth overlay, given its current
/// extended style.
pub fn apply_overlay_hints(current_style: u32) -> (r: Vec<Step>)
    ensures
        r@ == hint_steps(current_style),
{
    let style = overlay_ex_style(current_style);
    let r = vec![
        required(OsCall::SetExStyle { style }, OsPrimitive::SetWindowLongPtr),
        required(OsCall::MakeTopmost, OsPrimitive::SetWindowPos),
        required(OsCall::SetAlpha { alpha: HIDDEN_ALPHA }, OsPrimitive::SetLayeredWindowAttributes),
        required(OsCall::ExcludeFromCapture, OsPrimitive::SetWindowDisplayAffinity),
        best_effort(OsCall::Cloak),
        best_effort(OsCall::ExcludeFromPeek),
    ];
    assert(r@ =~= hint_steps(current_style));
    r
}

/// Applying the overlay style to a style that already has it changes nothing.
pub proof fn lemma_overlay_style_idempotent(current: u32)
    ensures
        overlay_style_of(overlay_style_of(current)) == overlay_style_of(current),
{
    assert(overlay_style_of(overlay_style_of(current)) == overlay_style_of(current)) by (bit_vector);
}

/// Running every hint to success yields the hinted window, whatever the
/// window held before; it is not moved, resized, shown or focused.
pub proof fn lemma_hints_effect(w: WindowModel)
    ensures
        run_steps(w, hint_steps(w.ex_style)) == hinted(w),
        ({
            let after = run_steps(w, hint_steps(w.ex_style));
            &&& after.x == w.x && after.y == w.y
            &&& after.width == w.width && after.height == w.height
            &&& after.visible == w.visible && after.focused == w.focused
        }),
{
    let s = hint_steps(w.ex_style);
    reveal_with_fuel(run_steps, 7);
    assert(s.drop_last().drop_last().drop_last().drop_last().drop_last().drop_last() =~= Seq::<Step>::empty());
    assert(s.drop_last().drop_last().drop_last().drop_last().drop_last() =~= seq![s[0]]);
    assert(s.drop_last().drop_last().drop_last().drop_last() =~= seq![s[0], s[1]]);
    assert(s.drop_last().drop_last().drop_last() =~= seq![s[0], s[1], s[2]]);
    assert(s.drop_last().drop_last() =~= seq![s[0], s[1], s[2], s[3]]);
    assert(s.drop_last() =~= seq![s[0], s[1], s[2], s[3], s[4]]);
}

/// Applying the overlay hints twice in succession leaves the window in the
/// same style, alpha and capture-exclusion state as applying them once.
pub proof fn lemma_hints_idempotent(w: WindowModel)
    ensures
        ({
            let once = run_steps(w, hint_steps(w.ex_style));
            run_steps(once, hint_steps(once.ex_style)) == once
        }),
{
    let once = run_steps(w, hint_steps(w.ex_style));
    lemma_hints_effect(w);
    lemma_hints_effect(once);
    lemma_overlay_style_idempotent(w.ex_style);
}

/// Once a first application of the hints has succeeded, whichever
/// best-effort hints failed, a second application that succeeds leaves the
/// style, topmost, alpha and capture-exclusion state as the first one left
/// it.
pub proof fn lemma_hints_idempotent_after_success(w: WindowModel, results: Seq<bool>)
    requires
        results.len() == hint_steps(w.ex_style).len(),
        outcome(hint_steps(w.ex_style), results) is Ok,
    ensures
        ({
            let once = run_reported(w, hint_steps(w.ex_style), results);
            let twice = run_steps(once, hint_steps(once.ex_style));
            &&& once.ex_style == overlay_style_of(w.ex_style)
            &&& once.topmost && once.capture_excluded && once.alpha == HIDDEN_ALPHA
            &&& twice.ex_style == once.ex_style
            &&& twice.topmost == once.topmost
            &&& twice.alpha == once.alpha
            &&& twice.capture_excluded == once.capture_excluded
        }),
{
    let s = hint_steps(w.ex_style);
    let r = results;
    reveal_with_fuel(run_reported, 7);
    reveal_with_fuel(outcome, 7);
    assert(r.drop_last().drop_last().drop_last().drop_last().drop_last().drop_last() =~= Seq::<bool>::empty());
    assert(r.drop_last().drop_last().drop_last().drop_last().drop_last() =~= seq![r[0]]);
    assert(r.drop_last().drop_last().drop_last().drop_last() =~= seq![r[0], r[1]]);
    assert(r.drop_last().drop_last().drop_last() =~= seq![r[0], r[1], r[2]]);
    assert(r.drop_last().drop_last() =~= seq![r[0], r[1], r[2], r[3]]);
    assert(r.drop_last() =~= seq![r[0], r[1], r[2], r[3], r[4]]);
    assert(r[0] && r[1] && r[2] && r[3]);
    let once = run_reported(w, s, r);
    lemma_hints_effect(once);
    lemma_overlay_style_idempotent(w.ex_style);
}

} // verus!
