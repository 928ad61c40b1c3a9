//! The tray menu: what choosing an entry does.

use vstd::prelude::*;

verus! {

/// What the launcher does when a menu entry is chosen.
#[derive(Debug, Clone, Copy, PartialEq, Eq, Structural)]
pub enum MenuAction {
    /// End the application.
    Quit,
    /// Show the main window, restore it and give it the focus.
    Open,
    /// Nothing: the entry is not one of the launcher's.
    Ignore,
}

/// The action of the menu entry with this id.
pub open spec fn action_of(id: Seq<char>) -> MenuAction {
    if id == "quit"@ {
        MenuAction::Quit
    } else if id == "open"@ {
        MenuAction::Open
    } else {
        MenuAction::Ignore
    }
}

/// Decides what choosing the menu entry `id` does.
pub fn menu_action(id: &str) -> (action: MenuAction)
    ensures
        action == action_of(id@),
{
    let chosen = id.to_owned();
    if chosen == "quit".to_owned() {
        MenuAction::Quit
    } else if chosen == "open".to_owned() {
        MenuAction::Open
    } else {
        MenuAction::Ignore
    }
}

} // verus!
