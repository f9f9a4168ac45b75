use palette_shell::greeting::greet;
use palette_shell::menu::{build_app_menu, MenuEntry, PredefinedItem};
use palette_shell::router::{event_name, route_menu_event, AppEvent};
use palette_shell::shell::setup_shell;
use palette_shell::window::{
    close_window, maximize_window, minimize_window, WindowError, WindowModel, WindowState,
};

#[test]
fn greet_formats_name() {
    assert_eq!(greet("World"), "Hello, World!");
}

#[test]
fn greet_empty_name() {
    assert_eq!(greet(""), "Hello, !");
}

#[test]
fn greet_unicode_name() {
    assert_eq!(greet("Zoë"), "Hello, Zoë!");
}

#[test]
fn open_routes_to_menu_open_only() {
    assert_eq!(route_menu_event("open"), Some(AppEvent::MenuOpen));
    assert_ne!(route_menu_event("open"), Some(AppEvent::MenuSave));
}

#[test]
fn save_routes_to_menu_save_only() {
    assert_eq!(route_menu_event("save"), Some(AppEvent::MenuSave));
    assert_ne!(route_menu_event("save"), Some(AppEvent::MenuOpen));
}

#[test]
fn unknown_ids_route_nowhere() {
    assert_eq!(route_menu_event(""), None);
    assert_eq!(route_menu_event("quit"), None);
    assert_eq!(route_menu_event("Open"), None);
    assert_eq!(route_menu_event("SAVE"), None);
    assert_eq!(route_menu_event("open "), None);
}

#[test]
fn event_names_are_the_published_ones() {
    assert_eq!(event_name(AppEvent::MenuOpen), "menu-open");
    assert_eq!(event_name(AppEvent::MenuSave), "menu-save");
    assert_ne!(event_name(AppEvent::MenuOpen), event_name(AppEvent::MenuSave));
}

#[test]
fn menu_has_file_and_edit_submenus() {
    let m = build_app_menu();
    assert_eq!(m.submenus.len(), 2);
    assert_eq!(m.submenus[0].label, "File");
    assert!(m.submenus[0].enabled);
    assert_eq!(m.submenus[1].label, "Edit");
    assert!(m.submenus[1].enabled);
}

#[test]
fn file_submenu_entries() {
    let m = build_app_menu();
    let file = &m.submenus[0];
    assert_eq!(file.entries.len(), 4);
    match &file.entries[0] {
        MenuEntry::Action { id, label, enabled } => {
            assert_eq!(id, "open");
            assert_eq!(label, "Open...");
            assert!(*enabled);
        },
        e => panic!("unexpected first File entry: {:?}", e),
    }
    match &file.entries[1] {
        MenuEntry::Action { id, label, enabled } => {
            assert_eq!(id, "save");
            assert_eq!(label, "Save Palette...");
            assert!(*enabled);
        },
        e => panic!("unexpected second File entry: {:?}", e),
    }
    assert_eq!(file.entries[2], MenuEntry::Separator);
    assert_eq!(file.entries[3], MenuEntry::Predefined { item: PredefinedItem::Quit });
}

#[test]
fn edit_submenu_entries() {
    let m = build_app_menu();
    let edit = &m.submenus[1];
    assert_eq!(
        edit.entries,
        vec![
            MenuEntry::Predefined { item: PredefinedItem::Undo },
            MenuEntry::Predefined { item: PredefinedItem::Redo },
            MenuEntry::Separator,
            MenuEntry::Predefined { item: PredefinedItem::Cut },
            MenuEntry::Predefined { item: PredefinedItem::Copy },
            MenuEntry::Predefined { item: PredefinedItem::Paste },
        ]
    );
}

#[test]
fn edit_entries_trigger_no_custom_event() {
    let m = build_app_menu();
    for entry in &m.submenus[1].entries {
        match entry {
            MenuEntry::Action { id, .. } => {
                panic!("Edit submenu holds a custom entry with id {:?}", id)
            },
            MenuEntry::Predefined { .. } | MenuEntry::Separator => {},
        }
    }
}

#[test]
fn close_valid_window() {
    let mut w = WindowModel::new();
    assert_eq!(w.state, WindowState::Normal);
    assert_eq!(close_window(&mut w), Ok(()));
    assert_eq!(w.state, WindowState::Closed);
}

#[test]
fn minimize_valid_window() {
    let mut w = WindowModel::new();
    assert_eq!(minimize_window(&mut w), Ok(()));
    assert_eq!(w.state, WindowState::Minimized);
}

#[test]
fn maximize_valid_window() {
    let mut w = WindowModel::new();
    assert_eq!(maximize_window(&mut w), Ok(()));
    assert_eq!(w.state, WindowState::Maximized);
}

#[test]
fn maximize_then_minimize() {
    let mut w = WindowModel::new();
    assert_eq!(maximize_window(&mut w), Ok(()));
    assert_eq!(minimize_window(&mut w), Ok(()));
    assert_eq!(w.state, WindowState::Minimized);
}

#[test]
fn commands_on_destroyed_window_fail() {
    let mut w = WindowModel::new();
    assert_eq!(close_window(&mut w), Ok(()));
    assert_eq!(close_window(&mut w), Err(WindowError::WindowOperationFailed));
    assert_eq!(minimize_window(&mut w), Err(WindowError::WindowOperationFailed));
    assert_eq!(maximize_window(&mut w), Err(WindowError::WindowOperationFailed));
    assert_eq!(w.state, WindowState::Closed);
}

#[test]
fn setup_installs_one_menu_and_the_router() {
    let a = setup_shell();
    let m = a.menu.expect("setup leaves a menu installed");
    assert_eq!(m.submenus.len(), 2);
    assert_eq!(m.submenus[0].label, "File");
    assert_eq!(m.submenus[1].label, "Edit");
    assert!(a.router_installed);
}

#[test]
fn selecting_file_entries_publishes_their_events() {
    let m = build_app_menu();
    let mut published: Vec<&'static str> = Vec::new();
    for entry in &m.submenus[0].entries {
        if let MenuEntry::Action { id, .. } = entry {
            if let Some(e) = route_menu_event(id) {
                published.push(event_name(e));
            }
        }
    }
    assert_eq!(published, vec!["menu-open", "menu-save"]);
}
