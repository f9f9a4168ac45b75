//! The menu-event router: maps the identifier of a selected menu entry to
//! the application event published for the front-end, if any. Only the two
//! custom identifiers `"open"` and `"save"` are recognized; every other
//! identifier is ignored.

use vstd::prelude::*;
use vstd::string::StringExecFns;

verus! {

/// The closed set of application events the shell can publish.
#[derive(Clone, Copy, Debug, PartialEq, Eq)]
pub enum AppEvent {
    MenuOpen,
    MenuSave,
}

/// What the router decides for a selected identifier: `"open"` publishes
/// `MenuOpen`, `"save"` publishes `MenuSave`, anything else is ignored.
pub open spec fn route_of(id: Seq<char>) -> Option<AppEvent> {
    if id == "open"@ {
        Some(AppEvent::MenuOpen)
    } else if id == "save"@ {
        Some(AppEvent::MenuSave)
    } else {
        None
    }
}

/// The name under which an event is published on the event bus.
pub open spec fn event_name_of(e: AppEvent) -> Seq<char> {
    match e {
        AppEvent::MenuOpen => "menu-open"@,
        AppEvent::MenuSave => "menu-save"@,
    }
}

/// Decides which application event, if any, a menu selection publishes.
/// One invocation per selection; no state is carried between invocations.
pub fn route_menu_event(id: &str) -> (r: Option<AppEvent>)
    ensures
        r == route_of(id@),
{
    let id_owned = String::from_str(id);
    if id_owned == String::from_str("open") {
        Some(AppEvent::MenuOpen)
    } else if id_owned == String::from_str("save") {
        Some(AppEvent::MenuSave)
    } else {
        None
    }
}

/// The event-bus name for an application event. Events carry no payload,
/// so the name is all that is published.
pub fn event_name(e: AppEvent) -> (r: &'static str)
    ensures
        r@ == event_name_of(e),
{
    match e {
        AppEvent::MenuOpen => "menu-open",
        AppEvent::MenuSave => "menu-save",
    }
}

/// Selecting the entry with identifier `"open"` publishes exactly the
/// `MenuOpen` event, and never the `MenuSave` event.
pub proof fn lemma_open_routes_only_open()
    ensures
        route_of("open"@) == Some(AppEvent::MenuOpen),
        route_of("open"@) != Some(AppEvent::MenuSave),
{
}

/// Selecting the entry with identifier `"save"` publishes exactly the
/// `MenuSave` event, and never the `MenuOpen` event.
pub proof fn lemma_save_routes_only_save()
    ensures
        route_of("save"@) == Some(AppEvent::MenuSave),
        route_of("save"@) != Some(AppEvent::MenuOpen),
{
    reveal_strlit("save");
    reveal_strlit("open");
    assert("save"@[0] != "open"@[0]);
}

/// The two published event names differ, so the front-end can always tell
/// the two selections apart.
pub proof fn lemma_event_names_distinct()
    ensures
        event_name_of(AppEvent::MenuOpen) != event_name_of(AppEvent::MenuSave),
{
    reveal_strlit("menu-open");
    reveal_strlit("menu-save");
    assert("menu-open"@[5] != "menu-save"@[5]);
}

} // verus!
