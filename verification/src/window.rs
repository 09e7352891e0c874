use vstd::prelude::*;

verus! {

/// Identifier under which the frame procedure is installed on a window.
pub const SUBCLASS_ID: usize = 1;

/// What the title-bar controls read of the window before acting on it.
#[derive(Clone, Copy, Debug, PartialEq, Eq)]
pub struct FrameState {
    /// The component that owns the window still exists.
    pub component_alive: bool,
    /// The window is maximized (meaningful only while the component exists).
    pub maximized: bool,
}

/// What a title-bar control asks of the window system.
#[derive(Clone, Copy, Debug, PartialEq, Eq)]
pub enum WindowRequest {
    /// Leave the window as it is.
    Nothing,
    /// Maximize the window (`true`) or restore it (`false`).
    SetMaximized(bool),
    /// Minimize the window (`true`) or restore it (`false`).
    SetMinimized(bool),
    /// Stop the application's event loop.
    QuitEventLoop,
    /// Let the user move the window with the pressed mouse button.
    StartDrag,
}

/// Whether the window is maximized once `req` has been carried out on a
/// window in state `s`.
pub open spec fn maximized_after(s: FrameState, req: WindowRequest) -> bool {
    match req {
        WindowRequest::SetMaximized(b) => b,
        _ => s.maximized,
    }
}

/// `s` after `req` has been carried out.
pub open spec fn state_after(s: FrameState, req: WindowRequest) -> FrameState {
    FrameState { component_alive: s.component_alive, maximized: maximized_after(s, req) }
}

/// The request of the control that sets the maximized state to `b`.
pub open spec fn maximize_request(s: FrameState, b: bool) -> WindowRequest {
    if s.component_alive { WindowRequest::SetMaximized(b) } else { WindowRequest::Nothing }
}

/// The request of the control that inverts the maximized state.
pub open spec fn toggle_request(s: FrameState) -> WindowRequest {
    if s.component_alive { WindowRequest::SetMaximized(!s.maximized) } else { WindowRequest::Nothing }
}

/// The request of the minimize control.
pub open spec fn minimize_request(s: FrameState) -> WindowRequest {
    if s.component_alive { WindowRequest::SetMinimized(true) } else { WindowRequest::Nothing }
}

/// The request of the drag control.
pub open spec fn drag_request(s: FrameState) -> WindowRequest {
    if s.component_alive { WindowRequest::StartDrag } else { WindowRequest::Nothing }
}

impl FrameState {
    /// Sets the maximized state: maximizes the window when `is_maximized`,
    /// restores it otherwise; nothing once the component is gone.
    pub fn maximize(&self, is_maximized: bool) -> (r: WindowRequest)
        ensures
            r == maximize_request(*self, is_maximized),
    {
        if self.component_alive {
            WindowRequest::SetMaximized(is_maximized)
        } else {
            WindowRequest::Nothing
        }
    }

    /// Inverts the maximized state; nothing once the component is gone.
    pub fn toggle_maximized(&self) -> (r: WindowRequest)
        ensures
            r == toggle_request(*self),
    {
        if self.component_alive {
            WindowRequest::SetMaximized(!self.maximized)
        } else {
            WindowRequest::Nothing
        }
    }

    /// Minimizes the window; nothing once the component is gone.
    pub fn minimize(&self) -> (r: WindowRequest)
        ensures
            r == minimize_request(*self),
    {
        if self.component_alive {
            WindowRequest::SetMinimized(true)
        } else {
            WindowRequest::Nothing
        }
    }

    /// Closes the application by stopping the event loop, whether or not the
    /// component still exists.
    pub fn close(&self) -> (r: WindowRequest)
        ensures
            r == WindowRequest::QuitEventLoop,
    {
        WindowRequest::QuitEventLoop
    }

    /// Starts moving the window with the mouse; nothing once the component is
    /// gone.
    pub fn drag(&self) -> (r: WindowRequest)
        ensures
            r == drag_request(*self),
    {
        if self.component_alive {
            WindowRequest::StartDrag
        } else {
            WindowRequest::Nothing
        }
    }
}

/// Toggling a live window inverts its maximized state, and toggling it twice
/// leaves it as it was.
pub proof fn lemma_toggle_twice_restores(s: FrameState)
    requires
        s.component_alive,
    ensures
        state_after(s, toggle_request(s)).maximized == !s.maximized,
        state_after(state_after(s, toggle_request(s)), toggle_request(state_after(s, toggle_request(s))))
            == s,
{
}

/// Setting the maximized state of a live window to `b` leaves it maximized
/// exactly when `b`, and setting it again to `b` changes nothing.
pub proof fn lemma_maximize_is_idempotent(s: FrameState, b: bool)
    requires
        s.component_alive,
    ensures
        state_after(s, maximize_request(s, b)).maximized == b,
        state_after(state_after(s, maximize_request(s, b)), maximize_request(state_after(s, maximize_request(s, b)), b))
            == state_after(s, maximize_request(s, b)),
{
}

/// Once the component is gone, every control but close leaves the window alone.
pub proof fn lemma_dropped_component_is_left_alone(s: FrameState, b: bool)
    requires
        !s.component_alive,
    ensures
        maximize_request(s, b) == WindowRequest::Nothing,
        toggle_request(s) == WindowRequest::Nothing,
        minimize_request(s) == WindowRequest::Nothing,
        drag_request(s) == WindowRequest::Nothing,
{
}

/// Extension of the window frame into the client area, per edge, in pixels.
#[derive(Clone, Copy, Debug, PartialEq, Eq)]
pub struct Margins {
    pub left_width: i32,
    pub right_width: i32,
    pub top_height: i32,
    pub bottom_height: i32,
}

/// The frame extension that makes the compositor draw a drop shadow around a
/// window without a standard frame: one pixel along the bottom edge only.
pub fn drop_shadow_margins() -> (m: Margins)
    ensures
        m == (Margins { left_width: 0, right_width: 0, top_height: 0, bottom_height: 1 }),
{
    Margins { left_width: 0, right_width: 0, top_height: 0, bottom_height: 1 }
}

/// How each step of setting up the borderless frame went.
#[derive(Clone, Copy, Debug, PartialEq, Eq)]
pub struct SetupSteps {
    /// The styling could be queued on the event loop.
    pub queued: bool,
    /// The component could still be reached.
    pub component_alive: bool,
    /// The window has a native Win32 handle (the platform supports the frame).
    pub handle_found: bool,
    /// Rounding the window corners succeeded.
    pub corners_applied: bool,
    /// Extending the frame for the drop shadow succeeded.
    pub shadow_applied: bool,
    /// Installing the frame procedure succeeded.
    pub frame_installed: bool,
}

/// Why setting up the borderless frame failed.
#[derive(Clone, Copy, Debug, PartialEq, Eq)]
pub enum SetupError {
    /// The styling could not be queued on the event loop.
    EventLoopUnavailable,
    /// The component was dropped before the frame could be attached to it.
    ComponentDropped,
    /// The window has no native Win32 handle, so the platform does not
    /// support the borderless frame.
    NoWindowHandle,
    /// Rounding the window corners failed.
    RoundedCornersFailed,
    /// Extending the frame for the drop shadow failed.
    DropShadowFailed,
    /// Installing the frame procedure failed.
    FrameProcFailed,
}

/// The text reported for each setup error.
pub open spec fn setup_error_text(e: SetupError) -> Seq<char> {
    match e {
        SetupError::EventLoopUnavailable => "Failed to upgrade window"@,
        SetupError::ComponentDropped => "Failed to upgrade component handle"@,
        SetupError::NoWindowHandle => "Failed to extract HWND from winit window"@,
        SetupError::RoundedCornersFailed => "DwmSetWindowAttribute (rounded corners) failed"@,
        SetupError::DropShadowFailed => "DwmExtendFrameIntoClientArea (drop shadow) failed"@,
        SetupError::FrameProcFailed => "SetWindowSubclass (custom frame) failed"@,
    }
}

impl SetupError {
    /// The text of the error reported to the caller.
    pub fn message(&self) -> (m: String)
        ensures
            m@ == setup_error_text(*self),
    {
        match self {
            SetupError::EventLoopUnavailable => "Failed to upgrade window".to_owned(),
            SetupError::ComponentDropped => "Failed to upgrade component handle".to_owned(),
            SetupError::NoWindowHandle => "Failed to extract HWND from winit window".to_owned(),
            SetupError::RoundedCornersFailed => "DwmSetWindowAttribute (rounded corners) failed".to_owned(),
            SetupError::DropShadowFailed => "DwmExtendFrameIntoClientArea (drop shadow) failed".to_owned(),
            SetupError::FrameProcFailed => "SetWindowSubclass (custom frame) failed".to_owned(),
        }
    }
}

/// The outcome of setting up the frame: the first step that failed, taken in
/// the order the steps run, or success when every step succeeded.
pub open spec fn setup_result_spec(s: SetupSteps) -> Result<(), SetupError> {
    if !s.queued {
        Err(SetupError::EventLoopUnavailable)
    } else if !s.component_alive {
        Err(SetupError::ComponentDropped)
    } else if !s.handle_found {
        Err(SetupError::NoWindowHandle)
    } else if !s.corners_applied {
        Err(SetupError::RoundedCornersFailed)
    } else if !s.shadow_applied {
        Err(SetupError::DropShadowFailed)
    } else if !s.frame_installed {
        Err(SetupError::FrameProcFailed)
    } else {
        Ok(())
    }
}

/// Decides how setting up the borderless frame ends, from how each step went:
/// it succeeds exactly when every step succeeded, and otherwise reports the
/// first step that failed.
pub fn setup_result(steps: &SetupSteps) -> (r: Result<(), SetupError>)
    ensures
        r == setup_result_spec(*steps),
        r is Ok <==> (steps.queued && steps.component_alive && steps.handle_found
            && steps.corners_applied && steps.shadow_applied && steps.frame_installed),
{
    if !steps.queued {
        Err(SetupError::EventLoopUnavailable)
    } else if !steps.component_alive {
        Err(SetupError::ComponentDropped)
    } else if !steps.handle_found {
        Err(SetupError::NoWindowHandle)
    } else if !steps.corners_applied {
        Err(SetupError::RoundedCornersFailed)
    } else if !steps.shadow_applied {
        Err(SetupError::DropShadowFailed)
    } else if !steps.frame_installed {
        Err(SetupError::FrameProcFailed)
    } else {
        Ok(())
    }
}

/// What each control asks of a live window, for every state: set-maximized
/// requests exactly the state it is given, toggle requests the opposite of the
/// current state, minimize always minimizes, drag always starts a drag, and
/// close always stops the event loop.
pub proof fn lemma_live_controls(s: FrameState, b: bool)
    requires
        s.component_alive,
    ensures
        maximize_request(s, b) == WindowRequest::SetMaximized(b),
        toggle_request(s) == WindowRequest::SetMaximized(!s.maximized),
        minimize_request(s) == WindowRequest::SetMinimized(true),
        drag_request(s) == WindowRequest::StartDrag,
{
}

/// Of the controls, only toggle depends on whether the window is maximized:
/// set-maximized, minimize and drag ask the same of a maximized window as of a
/// restored one.
pub proof fn lemma_controls_ignore_maximized_state(s: FrameState, b: bool)
    ensures
        ({
            let flipped = FrameState { component_alive: s.component_alive, maximized: !s.maximized };
            &&& maximize_request(flipped, b) == maximize_request(s, b)
            &&& minimize_request(flipped) == minimize_request(s)
            &&& drag_request(flipped) == drag_request(s)
        }),
{
}

/// Set-maximized never minimizes and never leaves a live window alone, and its
/// result on a live window is maximized exactly when asked.
pub proof fn lemma_maximize_never_minimizes(s: FrameState, b: bool)
    ensures
        !(maximize_request(s, b) is SetMinimized),
        s.component_alive ==> maximize_request(s, b) != WindowRequest::Nothing,
        s.component_alive ==> maximized_after(s, maximize_request(s, b)) == b,
{
}

/// Setting up the frame fails with the error of the first step that failed,
/// in the order the steps run.
pub proof fn lemma_setup_reports_first_failure(st: SetupSteps)
    ensures
        !st.queued ==> setup_result_spec(st) == Err::<(), SetupError>(SetupError::EventLoopUnavailable),
        st.queued && !st.component_alive ==> setup_result_spec(st) == Err::<(), SetupError>(
            SetupError::ComponentDropped,
        ),
        st.queued && st.component_alive && !st.handle_found ==> setup_result_spec(st) == Err::<
            (),
            SetupError,
        >(SetupError::NoWindowHandle),
        st.queued && st.component_alive && st.handle_found && !st.corners_applied
            ==> setup_result_spec(st) == Err::<(), SetupError>(SetupError::RoundedCornersFailed),
        st.queued && st.component_alive && st.handle_found && st.corners_applied
            && !st.shadow_applied ==> setup_result_spec(st) == Err::<(), SetupError>(
            SetupError::DropShadowFailed,
        ),
        st.queued && st.component_alive && st.handle_found && st.corners_applied
            && st.shadow_applied && !st.frame_installed ==> setup_result_spec(st) == Err::<
            (),
            SetupError,
        >(SetupError::FrameProcFailed),
        st.queued && st.component_alive && st.handle_found && st.corners_applied
            && st.shadow_applied && st.frame_installed ==> setup_result_spec(st) == Ok::<
            (),
            SetupError,
        >(()),
{
}

} // verus!
