use vstd::prelude::*;
use crate::app_state::{AppState, AppStateTransition};

verus! {

/// An entry of the main menu.
#[derive(Clone, Copy, Debug, PartialEq, Eq, Structural)]
pub enum MenuEntry {
    StartGame,
    Exit,
}

impl MenuEntry {
    /// What choosing the entry asks of the program.
    pub open spec fn spec_request(self) -> AppStateTransition {
        match self {
            MenuEntry::StartGame => AppStateTransition::ToInGame,
            MenuEntry::Exit => AppStateTransition::ToExit,
        }
    }

    pub fn request(&self) -> (request: AppStateTransition)
        ensures
            request == self.spec_request(),
    {
        match self {
            MenuEntry::StartGame => AppStateTransition::ToInGame,
            MenuEntry::Exit => AppStateTransition::ToExit,
        }
    }
}

/// The entries of the main menu, from the top down.
pub open spec fn main_menu_entries() -> Seq<MenuEntry> {
    seq![MenuEntry::StartGame, MenuEntry::Exit]
}

/// The entries that the menu shows in the given state of the program:
/// those of the main menu in the main menu, and none elsewhere.
pub open spec fn menu_entries(state: AppState) -> Seq<MenuEntry> {
    if state == AppState::MainMenu {
        main_menu_entries()
    } else {
        Seq::empty()
    }
}

/// Lays out the main menu.
pub fn main_menu() -> (entries: Vec<MenuEntry>)
    ensures
        entries@ == main_menu_entries(),
{
    let mut entries: Vec<MenuEntry> = Vec::new();
    entries.push(MenuEntry::StartGame);
    entries.push(MenuEntry::Exit);
    entries
}

/// Decides what the menu shows. The menu is not run while the game
/// is: that state is no input of this function.
pub fn menu_sys(state: AppState) -> (entries: Vec<MenuEntry>)
    requires
        state != AppState::InGame,
    ensures
        entries@ == menu_entries(state),
{
    match state {
        AppState::MainMenu => main_menu(),
        _ => Vec::new(),
    }
}

} // verus!
