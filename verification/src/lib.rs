//! Verified core of a small desktop shell: a greeting command, the
//! application menu model, the menu-event router, and the window-state
//! transitions behind the window commands. The host windowing framework
//! (event loop, menu rendering, inter-process messaging) lives outside
//! this crate; everything it dispatches to is specified and proved here.

pub mod greeting;
pub mod menu;
pub mod router;
pub mod shell;
pub mod window;
