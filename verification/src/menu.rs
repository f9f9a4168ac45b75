//! The application menu model: a two-level tree of submenus and entries,
//! built once at startup and immutable thereafter. Custom entries carry
//! the identifier the router matches on; predefined entries and separators
//! are implemented entirely by the host framework and carry none.

use vstd::prelude::*;
use vstd::string::StringExecFns;

use crate::router::{route_of, AppEvent};

verus! {

/// A menu entry whose behaviour the host framework implements entirely.
#[derive(Clone, Copy, Debug, PartialEq, Eq)]
pub enum PredefinedItem {
    Quit,
    Undo,
    Redo,
    Cut,
    Copy,
    Paste,
}

/// One selectable entry of a submenu.
#[derive(Clone, Debug, PartialEq, Eq)]
pub enum MenuEntry {
    /// A custom entry: selecting it hands its identifier to the router.
    Action { id: String, label: String, enabled: bool },
    /// A framework-predefined entry; it has no custom identifier.
    Predefined { item: PredefinedItem },
    /// A visual divider; not selectable.
    Separator,
}

/// A labelled submenu of the menu bar.
#[derive(Clone, Debug, PartialEq, Eq)]
pub struct SubmenuModel {
    pub label: String,
    pub enabled: bool,
    pub entries: Vec<MenuEntry>,
}

/// The whole menu bar: the submenus in display order.
#[derive(Clone, Debug, PartialEq, Eq)]
pub struct MenuModel {
    pub submenus: Vec<SubmenuModel>,
}

/// The identifier a selection of `e` hands to the router, if `e` has one.
pub open spec fn entry_custom_id(e: MenuEntry) -> Option<Seq<char>> {
    match e {
        MenuEntry::Action { id, label, enabled } => Some(id@),
        _ => None,
    }
}

/// The application event a selection of `e` publishes: the router's
/// decision on the entry's identifier, and nothing for an entry that
/// has no identifier.
pub open spec fn entry_event(e: MenuEntry) -> Option<AppEvent> {
    match entry_custom_id(e) {
        Some(id) => route_of(id),
        None => None,
    }
}

/// The File submenu, exactly: "Open..." (id `open`), "Save Palette..."
/// (id `save`), a separator, and the predefined quit entry.
pub open spec fn is_file_submenu(s: SubmenuModel) -> bool {
    &&& s.label@ == "File"@
    &&& s.enabled
    &&& s.entries@.len() == 4
    &&& (s.entries@[0] matches MenuEntry::Action { id, label, enabled } && id@ == "open"@
        && label@ == "Open..."@ && enabled)
    &&& (s.entries@[1] matches MenuEntry::Action { id, label, enabled } && id@ == "save"@
        && label@ == "Save Palette..."@ && enabled)
    &&& s.entries@[2] == MenuEntry::Separator
    &&& (s.entries@[3] matches MenuEntry::Predefined { item } && item == PredefinedItem::Quit)
}

/// The Edit submenu, exactly: undo, redo, a separator, cut, copy, paste,
/// all framework-predefined.
pub open spec fn is_edit_submenu(s: SubmenuModel) -> bool {
    &&& s.label@ == "Edit"@
    &&& s.enabled
    &&& s.entries@.len() == 6
    &&& (s.entries@[0] matches MenuEntry::Predefined { item } && item == PredefinedItem::Undo)
    &&& (s.entries@[1] matches MenuEntry::Predefined { item } && item == PredefinedItem::Redo)
    &&& s.entries@[2] == MenuEntry::Separator
    &&& (s.entries@[3] matches MenuEntry::Predefined { item } && item == PredefinedItem::Cut)
    &&& (s.entries@[4] matches MenuEntry::Predefined { item } && item == PredefinedItem::Copy)
    &&& (s.entries@[5] matches MenuEntry::Predefined { item } && item == PredefinedItem::Paste)
}

/// The application's menu bar, exactly: the File submenu then the Edit
/// submenu, and nothing else.
pub open spec fn is_app_menu(m: MenuModel) -> bool {
    &&& m.submenus@.len() == 2
    &&& is_file_submenu(m.submenus@[0])
    &&& is_edit_submenu(m.submenus@[1])
}

/// Builds the application's menu bar. Runs once during startup; the
/// result is installed by the host and never mutated afterwards.
pub fn build_app_menu() -> (m: MenuModel)
    ensures
        is_app_menu(m),
{
    let mut file_entries: Vec<MenuEntry> = Vec::new();
    file_entries.push(MenuEntry::Action {
        id: String::from_str("open"),
        label: String::from_str("Open..."),
        enabled: true,
    });
    file_entries.push(MenuEntry::Action {
        id: String::from_str("save"),
        label: String::from_str("Save Palette..."),
        enabled: true,
    });
    file_entries.push(MenuEntry::Separator);
    file_entries.push(MenuEntry::Predefined { item: PredefinedItem::Quit });
    let file_menu = SubmenuModel {
        label: String::from_str("File"),
        enabled: true,
        entries: file_entries,
    };

    let mut edit_entries: Vec<MenuEntry> = Vec::new();
    edit_entries.push(MenuEntry::Predefined { item: PredefinedItem::Undo });
    edit_entries.push(MenuEntry::Predefined { item: PredefinedItem::Redo });
    edit_entries.push(MenuEntry::Separator);
    edit_entries.push(MenuEntry::Predefined { item: PredefinedItem::Cut });
    edit_entries.push(MenuEntry::Predefined { item: PredefinedItem::Copy });
    edit_entries.push(MenuEntry::Predefined { item: PredefinedItem::Paste });
    let edit_menu = SubmenuModel {
        label: String::from_str("Edit"),
        enabled: true,
        entries: edit_entries,
    };

    let mut submenus: Vec<SubmenuModel> = Vec::new();
    submenus.push(file_menu);
    submenus.push(edit_menu);
    MenuModel { submenus }
}

/// Selecting File→Open publishes exactly `MenuOpen`, and selecting
/// File→Save Palette publishes exactly `MenuSave`: the two custom entries
/// of the menu reach the two events, each its own.
pub proof fn lemma_file_actions_route(m: MenuModel)
    requires
        is_app_menu(m),
    ensures
        entry_event(m.submenus@[0].entries@[0]) == Some(AppEvent::MenuOpen),
        entry_event(m.submenus@[0].entries@[1]) == Some(AppEvent::MenuSave),
{
    crate::router::lemma_save_routes_only_save();
}

/// Of the whole menu, only the two custom File entries carry a custom
/// identifier at all.
proof fn lemma_other_entries_have_no_id(m: MenuModel)
    requires
        is_app_menu(m),
    ensures
        forall|si: int, ei: int|
            0 <= si < m.submenus@.len() && 0 <= ei < m.submenus@[si].entries@.len() && !(si == 0
                && ei < 2) ==> entry_custom_id(#[trigger] m.submenus@[si].entries@[ei]) is None,
{
    assert forall|si: int, ei: int|
        0 <= si < m.submenus@.len() && 0 <= ei < m.submenus@[si].entries@.len() && !(si == 0 && ei
            < 2) implies entry_custom_id(#[trigger] m.submenus@[si].entries@[ei]) is None by {
        if si == 0 {
            assert(entry_custom_id(m.submenus@[0].entries@[2]) is None);
            assert(entry_custom_id(m.submenus@[0].entries@[3]) is None);
        } else {
            assert(entry_custom_id(m.submenus@[1].entries@[0]) is None);
            assert(entry_custom_id(m.submenus@[1].entries@[1]) is None);
            assert(entry_custom_id(m.submenus@[1].entries@[2]) is None);
            assert(entry_custom_id(m.submenus@[1].entries@[3]) is None);
            assert(entry_custom_id(m.submenus@[1].entries@[4]) is None);
            assert(entry_custom_id(m.submenus@[1].entries@[5]) is None);
        }
    }
}

/// No predefined entry and no separator of the menu publishes any
/// application event: only the two custom File entries do.
pub proof fn lemma_only_file_actions_emit(m: MenuModel)
    requires
        is_app_menu(m),
    ensures
        forall|si: int, ei: int|
            0 <= si < m.submenus@.len() && 0 <= ei < m.submenus@[si].entries@.len() && !(si == 0
                && ei < 2) ==> entry_event(#[trigger] m.submenus@[si].entries@[ei]) is None,
{
    lemma_other_entries_have_no_id(m);
}

/// Identifier uniqueness within the menu: no two distinct entries carry
/// the same custom identifier.
pub proof fn lemma_menu_ids_unique(m: MenuModel)
    requires
        is_app_menu(m),
    ensures
        forall|si1: int, ei1: int, si2: int, ei2: int|
            0 <= si1 < m.submenus@.len() && 0 <= ei1 < m.submenus@[si1].entries@.len() && 0 <= si2
                < m.submenus@.len() && 0 <= ei2 < m.submenus@[si2].entries@.len() && !(si1 == si2
                && ei1 == ei2) && entry_custom_id(#[trigger] m.submenus@[si1].entries@[ei1]) is Some
                && entry_custom_id(#[trigger] m.submenus@[si2].entries@[ei2]) is Some
                ==> entry_custom_id(m.submenus@[si1].entries@[ei1])
                != entry_custom_id(m.submenus@[si2].entries@[ei2]),
{
    reveal_strlit("open");
    reveal_strlit("save");
    assert("open"@[0] != "save"@[0]);
    lemma_other_entries_have_no_id(m);
}

} // verus!
