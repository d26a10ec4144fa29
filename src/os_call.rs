use vstd::prelude::*;

verus! {

/// Extended window style bit: the window is layered (has a per-window alpha).
pub const WS_EX_LAYERED: u32 = 0x0008_0000;

/// Extended window style bit: mouse input passes through the window.
pub const WS_EX_TRANSPARENT: u32 = 0x0000_0020;

/// Extended window style bit: a tool window, kept out of the window switcher.
pub const WS_EX_TOOLWINDOW: u32 = 0x0000_0080;

/// Extended window style bit: the window stays above non-topmost windows.
pub const WS_EX_TOPMOST: u32 = 0x0000_0008;

/// Extended window style bit: the window is forced onto the taskbar.
pub const WS_EX_APPWINDOW: u32 = 0x0004_0000;

/// The operating-system primitive whose failure aborts an operation.
#[derive(Clone, Copy, Debug, PartialEq, Eq, Structural)]
pub enum OsPrimitive {
    SetWindowLongPtr,
    SetWindowPos,
    SetLayeredWindowAttributes,
    SetWindowDisplayAffinity,
    ShowWindow,
    RegisterHotKey,
}

/// The single error kind of the library: an operating-system call failed.
#[derive(Clone, Copy, Debug, PartialEq, Eq, Structural)]
pub struct OsError {
    pub primitive: OsPrimitive,
}

impl OsError {
    /// A fixed text naming the primitive that failed.
    pub fn context(&self) -> (r: &'static str)
        ensures
            self.primitive == OsPrimitive::SetWindowLongPtr ==> r@ == "SetWindowLongPtrW failed"@,
            self.primitive == OsPrimitive::SetWindowPos ==> r@ == "SetWindowPos failed"@,
            self.primitive == OsPrimitive::SetLayeredWindowAttributes
                ==> r@ == "SetLayeredWindowAttributes failed"@,
            self.primitive == OsPrimitive::SetWindowDisplayAffinity
                ==> r@ == "SetWindowDisplayAffinity rejected the request"@,
            self.primitive == OsPrimitive::ShowWindow ==> r@ == "ShowWindow failed"@,
            self.primitive == OsPrimitive::RegisterHotKey ==> r@ == "RegisterHotKey failed"@,
    {
        match self.primitive {
            OsPrimitive::SetWindowLongPtr => "SetWindowLongPtrW failed",
            OsPrimitive::SetWindowPos => "SetWindowPos failed",
            OsPrimitive::SetLayeredWindowAttributes => "SetLayeredWindowAttributes failed",
            OsPrimitive::SetWindowDisplayAffinity => "SetWindowDisplayAffinity rejected the request",
            OsPrimitive::ShowWindow => "ShowWindow failed",
            OsPrimitive::RegisterHotKey => "RegisterHotKey failed",
        }
    }
}

/// One request to the operating system about the overlay window.
#[derive(Clone, Copy, Debug, PartialEq, Eq, Structural)]
pub enum OsCall {
    /// Replace the window's extended style bits.
    SetExStyle { style: u32 },
    /// Re-assert the topmost z-order; position and size are kept.
    MakeTopmost,
    /// Set the layered alpha (0 transparent, 255 opaque).
    SetAlpha { alpha: u8 },
    /// Ask the compositor to leave the window out of captured frames.
    ExcludeFromCapture,
    /// Cloak the window from legacy thumbnail surfaces.
    Cloak,
    /// Keep the window out of peek previews.
    ExcludeFromPeek,
    /// Display the window without activating it.
    ShowWindow,
    /// Request input focus and bring the window to the foreground.
    Focus,
    /// Bind a global hotkey to the window.
    RegisterHotKey { id: i32, modifiers: u32, key: u32 },
    /// Release a global hotkey bound to the window.
    UnregisterHotKey { id: i32 },
}

/// A call together with what its failure means: `Some(p)` aborts the
/// operation with an error naming `p`; `None` makes the call best-effort.
#[derive(Clone, Copy, Debug, PartialEq, Eq, Structural)]
pub struct Step {
    pub call: OsCall,
    pub on_failure: Option<OsPrimitive>,
}

/// A step whose failure aborts the operation.
pub fn required(call: OsCall, primitive: OsPrimitive) -> (r: Step)
    ensures
        r == (Step { call, on_failure: Some(primitive) }),
{
    Step { call, on_failure: Some(primitive) }
}

/// A step whose failure is ignored.
pub fn best_effort(call: OsCall) -> (r: Step)
    ensures
        r == (Step { call, on_failure: None }),
{
    Step { call, on_failure: None }
}

/// Turns a primitive's success flag (zero means failure) into a result.
pub fn ensure_success(result: i32, primitive: OsPrimitive) -> (r: Result<(), OsError>)
    ensures
        result != 0 ==> r is Ok,
        result == 0 ==> r == Err::<(), OsError>(OsError { primitive }),
{
    if result == 0 {
        Err(OsError { primitive })
    } else {
        Ok(())
    }
}

/// What the library tracks of the window's placement and presentation, as the operating
/// system would hold it after a run of successful calls.
pub struct WindowModel {
    pub x: int,
    pub y: int,
    pub width: int,
    pub height: int,
    pub ex_style: u32,
    pub topmost: bool,
    pub alpha: u8,
    pub capture_excluded: bool,
    pub cloaked: bool,
    pub peek_excluded: bool,
    pub visible: bool,
    pub focused: bool,
}

/// The effect of one successful call on the window.
pub open spec fn effect(w: WindowModel, c: OsCall) -> WindowModel {
    match c {
        OsCall::SetExStyle { style } => WindowModel { ex_style: style, ..w },
        OsCall::MakeTopmost => WindowModel { topmost: true, ..w },
        OsCall::SetAlpha { alpha } => WindowModel { alpha, ..w },
        OsCall::ExcludeFromCapture => WindowModel { capture_excluded: true, ..w },
        OsCall::Cloak => WindowModel { cloaked: true, ..w },
        OsCall::ExcludeFromPeek => WindowModel { peek_excluded: true, ..w },
        OsCall::ShowWindow => WindowModel { visible: true, ..w },
        OsCall::Focus => WindowModel { focused: true, ..w },
        OsCall::RegisterHotKey { .. } => w,
        OsCall::UnregisterHotKey { .. } => w,
    }
}

/// The window after every step of `steps` succeeded, in order.
pub open spec fn run_steps(w: WindowModel, steps: Seq<Step>) -> WindowModel
    decreases steps.len(),
{
    if steps.len() == 0 {
        w
    } else {
        effect(run_steps(w, steps.drop_last()), steps.last().call)
    }
}

/// The window after the attempted steps reported `results`, one per step in
/// order: a step takes effect only where it succeeded.
pub open spec fn run_reported(w: WindowModel, steps: Seq<Step>, results: Seq<bool>) -> WindowModel
    decreases results.len(),
{
    if results.len() == 0 {
        w
    } else {
        let before = run_reported(w, steps, results.drop_last());
        if results.last() {
            effect(before, steps[results.len() - 1].call)
        } else {
            before
        }
    }
}

} // verus!
