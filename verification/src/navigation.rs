//! Screen navigation with a single button.
//!
//! A long press confirms or goes deeper, a short press cycles or goes back.

use vstd::prelude::*;

verus! {

/// The screen that the device shows.
#[derive(Clone, Copy, Debug, PartialEq, Eq, Structural)]
pub enum UiState {
    Home,
    Menu,
    Settings,
    Status,
    Exit,
}

/// Number of entries in the menu; a selection is an index below it.
pub const MENU_ENTRIES: u8 = 3;

/// The screen after a long press.
///
/// From the home screen the menu opens; in the menu the selected entry opens;
/// any other screen returns home. A selection outside the menu opens nothing.
pub open spec fn on_long_press(state: UiState, selection: u8) -> UiState {
    match state {
        UiState::Home => UiState::Menu,
        UiState::Menu => if selection == 0 {
            UiState::Settings
        } else if selection == 1 {
            UiState::Status
        } else if selection == 2 {
            UiState::Exit
        } else {
            UiState::Menu
        },
        _ => UiState::Home,
    }
}

/// The screen and the selection after a short press.
///
/// In the menu the selection moves on by one and wraps; a sub-screen goes
/// back to the menu with the first entry selected; the home screen ignores it.
pub open spec fn on_short_press(state: UiState, selection: u8) -> (UiState, u8) {
    match state {
        UiState::Menu => (UiState::Menu, ((selection + 1) % (MENU_ENTRIES as int)) as u8),
        UiState::Home => (UiState::Home, selection),
        _ => (UiState::Menu, 0u8),
    }
}

/// The screen and the selection after `presses` short presses in a row.
pub open spec fn after_short_presses(state: UiState, selection: u8, presses: nat) -> (UiState, u8)
    decreases presses,
{
    if presses == 0 {
        (state, selection)
    } else {
        let before = after_short_presses(state, selection, (presses - 1) as nat);
        on_short_press(before.0, before.1)
    }
}

/// Applies a long press to the current screen.
pub fn handle_long_press(ui_state: &mut UiState, option_index: u8)
    ensures
        *final(ui_state) == on_long_press(*old(ui_state), option_index),
{
    match *ui_state {
        UiState::Home => {
            *ui_state = UiState::Menu;
        },
        UiState::Menu => {
            if option_index == 0 {
                *ui_state = UiState::Settings;
            } else if option_index == 1 {
                *ui_state = UiState::Status;
            } else if option_index == 2 {
                *ui_state = UiState::Exit;
            }
        },
        UiState::Settings | UiState::Status | UiState::Exit => {
            *ui_state = UiState::Home;
        },
    }
}

/// Applies a short press to the current screen and selection.
pub fn handle_short_press(ui_state: &mut UiState, option_index: &mut u8)
    ensures
        (*final(ui_state), *final(option_index)) == on_short_press(
            *old(ui_state),
            *old(option_index),
        ),
{
    match *ui_state {
        UiState::Menu => {
            *option_index = (*option_index % MENU_ENTRIES + 1) % MENU_ENTRIES;
        },
        UiState::Settings | UiState::Status | UiState::Exit => {
            *option_index = 0;
            *ui_state = UiState::Menu;
        },
        UiState::Home => {},
    }
}

/// Every transition stays inside the five screens and the three entries:
/// a selection below [`MENU_ENTRIES`] stays below it, a long press in the menu
/// on such a selection leaves the menu, and a long press anywhere else never
/// depends on the selection.
pub proof fn lemma_transitions_closed(state: UiState, selection: u8)
    requires
        selection < MENU_ENTRIES,
    ensures
        on_short_press(state, selection).1 < MENU_ENTRIES,
        state == UiState::Menu ==> on_long_press(state, selection) != UiState::Menu,
        state != UiState::Menu ==> forall|other: u8|
            on_long_press(state, other) == on_long_press(state, selection),
{
}

/// Short presses in the menu walk through the entries in order and wrap:
/// after `presses` of them the selection has moved on by `presses`, modulo
/// the number of entries, and the menu is still shown.
pub proof fn lemma_short_presses_cycle(selection: u8, presses: nat)
    requires
        selection < MENU_ENTRIES,
    ensures
        after_short_presses(UiState::Menu, selection, presses) == (
            UiState::Menu,
            ((selection + presses) % (MENU_ENTRIES as int)) as u8,
        ),
    decreases presses,
{
    if presses > 0 {
        lemma_short_presses_cycle(selection, (presses - 1) as nat);
        assert(((selection + presses - 1) % 3 + 1) % 3 == (selection + presses) % 3);
    }
}

} // verus!
