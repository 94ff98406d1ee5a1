use vstd::prelude::*;

verus! {

/// The platform's message number for a window being destroyed.
pub const WM_DESTROY: u32 = 0x0002;

/// The platform's message number for a request to paint.
pub const WM_PAINT: u32 = 0x000F;

/// The platform's message number for a timer tick.
pub const WM_TIMER: u32 = 0x0113;

/// What the window procedure does with a message.
#[derive(Clone, Copy, Debug, PartialEq, Eq, Structural)]
pub enum Action {
    /// Draw the centered greeting and the pixel of the instant.
    Paint,
    /// Log the geometry diagnostics and ask for a redraw of the client area.
    ReportGeometry,
    /// Ask the message loop to end, with the given exit code.
    PostQuit(i32),
    /// Leave the message to the platform's default handling.
    Default,
}

/// The action taken on message number `msg`.
pub open spec fn action_of(msg: u32) -> Action {
    if msg == WM_PAINT {
        Action::Paint
    } else if msg == WM_TIMER {
        Action::ReportGeometry
    } else if msg == WM_DESTROY {
        Action::PostQuit(0)
    } else {
        Action::Default
    }
}

/// Whether an action asks the message loop to end.
pub open spec fn ends_loop(a: Action) -> bool {
    a is PostQuit
}

/// The window procedure's choice for message number `msg`: paint, timer
/// tick and destroy are handled, all else goes to the default handling.
pub fn window_proc(msg: u32) -> (a: Action)
    ensures
        a == action_of(msg),
{
    if msg == WM_PAINT {
        Action::Paint
    } else if msg == WM_TIMER {
        Action::ReportGeometry
    } else if msg == WM_DESTROY {
        Action::PostQuit(0)
    } else {
        Action::Default
    }
}

/// What the window procedure returns after taking action `a`: zero for a
/// message it handled, and for any other what the default handling returned.
pub fn proc_result(a: Action, default_result: isize) -> (r: isize)
    ensures
        r == (if a is Default {
            default_result
        } else {
            0
        }),
{
    match a {
        Action::Default => default_result,
        _ => 0,
    }
}

/// A destroy message, and no other, asks the message loop to end, and it
/// does so with exit code zero.
pub proof fn lemma_only_destroy_ends_loop(msg: u32)
    ensures
        ends_loop(action_of(msg)) <==> msg == WM_DESTROY,
        msg == WM_DESTROY ==> action_of(msg) == Action::PostQuit(0),
{
}

} // verus!
