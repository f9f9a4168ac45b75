//! The startup sequence, modelled on what it leaves behind: the installed
//! menu bar and the installed menu-event router. The host framework owns
//! the event loop; once setup has run, it dispatches menu selections to
//! the router and command invocations to the handlers.

use vstd::prelude::*;

use crate::menu::{build_app_menu, is_app_menu, MenuModel};

verus! {

/// What the application shell holds after startup: at most one installed
/// menu bar, and whether the menu-event router has been installed.
pub struct AppShell {
    pub menu: Option<MenuModel>,
    pub router_installed: bool,
}

impl AppShell {
    /// The shell before setup: no menu, no router.
    pub fn new() -> (a: AppShell)
        ensures
            a.menu is None,
            !a.router_installed,
    {
        AppShell { menu: None, router_installed: false }
    }

    /// Installs `m` as the shell's menu bar, replacing any previous one,
    /// so at most one menu is ever installed.
    pub fn install_menu(&mut self, m: MenuModel)
        ensures
            final(self).menu == Some(m),
            final(self).router_installed == old(self).router_installed,
    {
        self.menu = Some(m);
    }

    /// Installs the menu-event router.
    pub fn install_router(&mut self)
        ensures
            final(self).router_installed,
            final(self).menu == old(self).menu,
    {
        self.router_installed = true;
    }
}

/// The setup step of startup. It completes and leaves exactly one menu
/// bar installed — the application menu, with its two submenus File and
/// Edit — and the menu-event router installed.
pub fn setup_shell() -> (a: AppShell)
    ensures
        a.menu matches Some(m) && is_app_menu(m),
        a.router_installed,
{
    let mut a = AppShell::new();
    let m = build_app_menu();
    a.install_menu(m);
    a.install_router();
    a
}

} // verus!
