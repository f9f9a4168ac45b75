//! Window-command handlers, modelled on the window state they transition.
//! Each command requests one transition on the host windowing system; the
//! host performs it, this module decides it. A command on a window that is
//! already destroyed fails with an explicit error instead of panicking.

use vstd::prelude::*;

verus! {

/// The states a shell window can be in. `Closed` stands for a destroyed
/// window: no further transition is possible from it.
#[derive(Clone, Copy, Debug, PartialEq, Eq)]
pub enum WindowState {
    Normal,
    Minimized,
    Maximized,
    Closed,
}

/// The one failure a window command reports: the underlying windowing
/// operation cannot be carried out, e.g. the window is already destroyed.
#[derive(Clone, Copy, Debug, PartialEq, Eq)]
pub enum WindowError {
    WindowOperationFailed,
}

/// A handle to one window, as the commands see it.
#[derive(Clone, Copy, Debug, PartialEq, Eq)]
pub struct WindowModel {
    pub state: WindowState,
}

/// A window handle is valid while the window has not been destroyed.
pub open spec fn is_live(s: WindowState) -> bool {
    s != WindowState::Closed
}

impl WindowModel {
    /// A freshly created window: visible, neither minimized nor maximized.
    pub fn new() -> (w: WindowModel)
        ensures
            w.state == WindowState::Normal,
    {
        WindowModel { state: WindowState::Normal }
    }
}

/// Closes the window. On a valid handle the window becomes `Closed` and
/// the command returns without error; on a destroyed window nothing
/// changes and the failure is reported.
pub fn close_window(w: &mut WindowModel) -> (r: Result<(), WindowError>)
    ensures
        r is Ok <==> is_live(old(w).state),
        is_live(old(w).state) ==> final(w).state == WindowState::Closed,
        !is_live(old(w).state) ==> *final(w) == *old(w) && r == Err::<(), WindowError>(
            WindowError::WindowOperationFailed,
        ),
{
    match w.state {
        WindowState::Closed => Err(WindowError::WindowOperationFailed),
        _ => {
            w.state = WindowState::Closed;
            Ok(())
        },
    }
}

/// Minimizes the window. On a valid handle the window becomes `Minimized`
/// and the command returns without error; on a destroyed window nothing
/// changes and the failure is reported.
pub fn minimize_window(w: &mut WindowModel) -> (r: Result<(), WindowError>)
    ensures
        r is Ok <==> is_live(old(w).state),
        is_live(old(w).state) ==> final(w).state == WindowState::Minimized,
        !is_live(old(w).state) ==> *final(w) == *old(w) && r == Err::<(), WindowError>(
            WindowError::WindowOperationFailed,
        ),
{
    match w.state {
        WindowState::Closed => Err(WindowError::WindowOperationFailed),
        _ => {
            w.state = WindowState::Minimized;
            Ok(())
        },
    }
}

/// Maximizes the window. On a valid handle the window becomes `Maximized`
/// and the command returns without error; on a destroyed window nothing
/// changes and the failure is reported.
pub fn maximize_window(w: &mut WindowModel) -> (r: Result<(), WindowError>)
    ensures
        r is Ok <==> is_live(old(w).state),
        is_live(old(w).state) ==> final(w).state == WindowState::Maximized,
        !is_live(old(w).state) ==> *final(w) == *old(w) && r == Err::<(), WindowError>(
            WindowError::WindowOperationFailed,
        ),
{
    match w.state {
        WindowState::Closed => Err(WindowError::WindowOperationFailed),
        _ => {
            w.state = WindowState::Maximized;
            Ok(())
        },
    }
}

} // verus!
