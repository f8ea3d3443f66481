//! The tray menu: what its entries are called and what they do.

use vstd::prelude::*;
use crate::text::{chars_of, spells};

verus! {

/// Identifier of the menu entry that toggles the recording.
pub const MENU_TOGGLE: &'static str = "toggle";

/// Identifier of the menu entry that opens the settings.
pub const MENU_SETTINGS: &'static str = "settings";

/// Identifier of the menu entry that shows what the application is.
pub const MENU_ABOUT: &'static str = "about";

/// Identifier of the menu entry that ends the application.
pub const MENU_QUIT: &'static str = "quit";

/// What choosing a menu entry leads to.
#[derive(Debug, Clone, Copy, PartialEq, Eq, Structural)]
pub enum MenuAction {
    Quit,
    ToggleRecording,
    ShowSettings,
    About,
    /// An entry that the menu does not have.
    Unknown,
}

/// What the entry with identifier `id` leads to.
pub open spec fn spec_menu_action(id: Seq<char>) -> MenuAction {
    if id == MENU_QUIT@ {
        MenuAction::Quit
    } else if id == MENU_TOGGLE@ {
        MenuAction::ToggleRecording
    } else if id == MENU_SETTINGS@ {
        MenuAction::ShowSettings
    } else if id == MENU_ABOUT@ {
        MenuAction::About
    } else {
        MenuAction::Unknown
    }
}

/// Says what the menu entry with identifier `id` leads to.
pub fn menu_action(id: &str) -> (action: MenuAction)
    ensures
        action == spec_menu_action(id@),
{
    let chars = chars_of(id);
    if spells(&chars, MENU_QUIT) {
        MenuAction::Quit
    } else if spells(&chars, MENU_TOGGLE) {
        MenuAction::ToggleRecording
    } else if spells(&chars, MENU_SETTINGS) {
        MenuAction::ShowSettings
    } else if spells(&chars, MENU_ABOUT) {
        MenuAction::About
    } else {
        MenuAction::Unknown
    }
}

/// The label of the toggle entry: it offers to stop while recording, and to
/// start otherwise.
pub fn toggle_label(is_recording: bool) -> (label: &'static str)
    ensures
        label@ == (if is_recording {
            "Stop Recording (⌘⇧\\)"@
        } else {
            "Start Recording (⌘⇧\\)"@
        }),
{
    if is_recording {
        "Stop Recording (⌘⇧\\)"
    } else {
        "Start Recording (⌘⇧\\)"
    }
}

} // verus!
