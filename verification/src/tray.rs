use vstd::prelude::*;

use crate::text::same_text;

verus! {

/// The label of the panel's window.
pub const PANEL_LABEL: &'static str = "main";

/// The tray icon's identifier.
pub const TRAY_ID: &'static str = "main-tray";

/// The tray icon's tooltip.
pub const TRAY_TOOLTIP: &'static str = "smartTODO \u{2014} hold Option+X";

/// The identifiers of the tray menu's items.
pub const MENU_SHOW: &'static str = "show";

pub const MENU_SETTINGS: &'static str = "settings";

pub const MENU_QUIT: &'static str = "quit";

/// One item of the tray menu.
pub struct MenuEntry {
    pub id: String,
    pub label: String,
    pub enabled: bool,
}

/// The tray menu's items, top to bottom: show the panel, settings (not
/// available yet), quit.
pub fn menu_entries() -> (entries: Vec<MenuEntry>)
    ensures
        entries@.len() == 3,
        entries@[0].id@ == MENU_SHOW@,
        entries@[0].label@ == "Show"@,
        entries@[0].enabled,
        entries@[1].id@ == MENU_SETTINGS@,
        entries@[1].label@ == "Settings\u{2026}"@,
        !entries@[1].enabled,
        entries@[2].id@ == MENU_QUIT@,
        entries@[2].label@ == "Quit smartTODO"@,
        entries@[2].enabled,
{
    let mut entries: Vec<MenuEntry> = Vec::new();
    entries.push(
        MenuEntry { id: String::from_str(MENU_SHOW), label: String::from_str("Show"), enabled: true },
    );
    entries.push(
        MenuEntry {
            id: String::from_str(MENU_SETTINGS),
            label: String::from_str("Settings\u{2026}"),
            enabled: false,
        },
    );
    entries.push(
        MenuEntry {
            id: String::from_str(MENU_QUIT),
            label: String::from_str("Quit smartTODO"),
            enabled: true,
        },
    );
    entries
}

/// What a tray interaction asks for.
#[derive(Debug, Clone, Copy, PartialEq, Eq, Structural)]
pub enum TrayCommand {
    /// Show the panel if hidden, hide it if shown.
    TogglePanel,
    /// Leave the program with this exit code.
    Quit(i32),
    Nothing,
}

/// What the menu item with this identifier does.
pub open spec fn menu_command_of(id: Seq<char>) -> TrayCommand {
    if id == MENU_SHOW@ {
        TrayCommand::TogglePanel
    } else if id == MENU_QUIT@ {
        TrayCommand::Quit(0)
    } else {
        TrayCommand::Nothing
    }
}

/// A tray menu item was chosen.
pub fn menu_command(id: &str) -> (c: TrayCommand)
    ensures
        c == menu_command_of(id@),
{
    if same_text(id, MENU_SHOW) {
        TrayCommand::TogglePanel
    } else if same_text(id, MENU_QUIT) {
        TrayCommand::Quit(0)
    } else {
        TrayCommand::Nothing
    }
}

#[derive(Debug, Clone, Copy, PartialEq, Eq, Structural)]
pub enum MouseButton {
    Left,
    Right,
    Middle,
}

#[derive(Debug, Clone, Copy, PartialEq, Eq, Structural)]
pub enum ButtonState {
    Up,
    Down,
}

/// What a click on the tray icon does: releasing the left button toggles the
/// panel; nothing else does anything.
pub open spec fn click_command_of(button: MouseButton, state: ButtonState) -> TrayCommand {
    if button == MouseButton::Left && state == ButtonState::Up {
        TrayCommand::TogglePanel
    } else {
        TrayCommand::Nothing
    }
}

/// Only the left button going up toggles the panel: that one click does, and
/// each of the five other button and state pairs does nothing.
pub proof fn lemma_only_left_release_toggles(button: MouseButton, state: ButtonState)
    ensures
        click_command_of(MouseButton::Left, ButtonState::Up) == TrayCommand::TogglePanel,
        click_command_of(MouseButton::Left, ButtonState::Down) == TrayCommand::Nothing,
        click_command_of(MouseButton::Right, ButtonState::Up) == TrayCommand::Nothing,
        click_command_of(MouseButton::Right, ButtonState::Down) == TrayCommand::Nothing,
        click_command_of(MouseButton::Middle, ButtonState::Up) == TrayCommand::Nothing,
        click_command_of(MouseButton::Middle, ButtonState::Down) == TrayCommand::Nothing,
        click_command_of(button, state) != TrayCommand::Quit(0),
        (click_command_of(button, state) == TrayCommand::TogglePanel) <==> (button
            == MouseButton::Left && state == ButtonState::Up),
{
}

/// The tray icon was clicked.
pub fn click_command(button: MouseButton, state: ButtonState) -> (c: TrayCommand)
    ensures
        c == click_command_of(button, state),
{
    match (button, state) {
        (MouseButton::Left, ButtonState::Up) => TrayCommand::TogglePanel,
        _ => TrayCommand::Nothing,
    }
}

/// What toggling does to the panel.
#[derive(Debug, Clone, Copy, PartialEq, Eq, Structural)]
pub enum PanelMove {
    Hide,
    /// Center it on the monitor under the cursor, show it and focus it.
    Show,
}

pub open spec fn toggle_of(visible: bool) -> PanelMove {
    if visible {
        PanelMove::Hide
    } else {
        PanelMove::Show
    }
}

/// Whether the panel is visible after the move.
pub open spec fn visible_after(m: PanelMove) -> bool {
    m == PanelMove::Show
}

/// Toggling the panel, which is `visible` or not.
pub fn toggle_panel(visible: bool) -> (m: PanelMove)
    ensures
        m == toggle_of(visible),
{
    if visible {
        PanelMove::Hide
    } else {
        PanelMove::Show
    }
}

/// Toggling flips the panel's visibility, so toggling twice restores it.
pub proof fn lemma_toggle_twice(visible: bool)
    ensures
        visible_after(toggle_of(visible)) == !visible,
        visible_after(toggle_of(visible_after(toggle_of(visible)))) == visible,
{
}

} // verus!
