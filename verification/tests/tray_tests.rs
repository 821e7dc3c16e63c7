use smarttodo::tray::{
    click_command, menu_command, menu_entries, toggle_panel, ButtonState, MouseButton, PanelMove,
    TrayCommand, MENU_QUIT, MENU_SETTINGS, MENU_SHOW, PANEL_LABEL, TRAY_ID, TRAY_TOOLTIP,
};

#[test]
fn menu_items_in_order() {
    let e = menu_entries();
    assert_eq!(e.len(), 3);
    assert_eq!((e[0].id.as_str(), e[0].label.as_str(), e[0].enabled), ("show", "Show", true));
    assert_eq!(
        (e[1].id.as_str(), e[1].label.as_str(), e[1].enabled),
        ("settings", "Settings\u{2026}", false)
    );
    assert_eq!(
        (e[2].id.as_str(), e[2].label.as_str(), e[2].enabled),
        ("quit", "Quit smartTODO", true)
    );
}

#[test]
fn menu_commands() {
    assert_eq!(menu_command(MENU_SHOW), TrayCommand::TogglePanel);
    assert_eq!(menu_command(MENU_QUIT), TrayCommand::Quit(0));
    assert_eq!(menu_command(MENU_SETTINGS), TrayCommand::Nothing);
    assert_eq!(menu_command("other"), TrayCommand::Nothing);
}

#[test]
fn only_left_release_toggles() {
    assert_eq!(click_command(MouseButton::Left, ButtonState::Up), TrayCommand::TogglePanel);
    assert_eq!(click_command(MouseButton::Left, ButtonState::Down), TrayCommand::Nothing);
    assert_eq!(click_command(MouseButton::Right, ButtonState::Up), TrayCommand::Nothing);
    assert_eq!(click_command(MouseButton::Middle, ButtonState::Up), TrayCommand::Nothing);
}

#[test]
fn toggle_flips_visibility() {
    assert_eq!(toggle_panel(true), PanelMove::Hide);
    assert_eq!(toggle_panel(false), PanelMove::Show);
}

#[test]
fn names() {
    assert_eq!(PANEL_LABEL, "main");
    assert_eq!(TRAY_ID, "main-tray");
    assert_eq!(TRAY_TOOLTIP, "smartTODO \u{2014} hold Option+X");
}
