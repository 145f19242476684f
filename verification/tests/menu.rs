use dsh_desktop::menu::{
    build_menu, build_tray, menu_command, toggle_devtools, tray_command, DevtoolsAction, Menu,
    MenuCommand, MenuEntry, StandardEntry, TrayCommand, TRAY_TOOLTIP,
};

const COMMANDS: [(MenuCommand, &str, &str, Option<&str>); 6] = [
    (MenuCommand::CheckUpdates, "check-updates", "Check for Updates…", None),
    (MenuCommand::ZoomIn, "zoom-in", "Zoom In", Some("CmdOrCtrl+Plus")),
    (MenuCommand::ZoomOut, "zoom-out", "Zoom Out", Some("CmdOrCtrl+-")),
    (MenuCommand::ZoomReset, "zoom-reset", "Actual Size", Some("CmdOrCtrl+0")),
    (MenuCommand::Reload, "reload", "Reload", Some("CmdOrCtrl+R")),
    (
        MenuCommand::ToggleDevtools,
        "toggle-devtools",
        "Toggle Developer Tools",
        Some("CmdOrCtrl+Shift+I"),
    ),
];

#[test]
fn every_command_is_found_by_its_id() {
    for (command, id, label, keys) in COMMANDS {
        assert_eq!(command.id(), id);
        assert_eq!(command.label(), label);
        assert_eq!(command.keys(), keys.map(|k| k.to_string()));
        assert_eq!(menu_command(id), Some(command));
    }
    assert_eq!(menu_command("unknown"), None);
    assert_eq!(menu_command(""), None);
}

#[test]
fn every_command_is_offered_once() {
    for (command, _, _, _) in COMMANDS {
        let mut offered = 0;
        for menu in build_menu() {
            for entry in menu.entries() {
                if entry == MenuEntry::Command(command) {
                    offered += 1;
                }
            }
        }
        assert_eq!(offered, 1);
    }
}

#[test]
fn the_menu_bar_has_its_menus() {
    let titles: Vec<String> = build_menu().into_iter().map(|menu| menu.title()).collect();
    assert_eq!(titles, ["DeepSeek Harness", "Edit", "View", "Window"]);
    assert_eq!(
        Menu::App.entries(),
        [
            MenuEntry::Standard(StandardEntry::About),
            MenuEntry::Separator,
            MenuEntry::Command(MenuCommand::CheckUpdates),
            MenuEntry::Separator,
            MenuEntry::Standard(StandardEntry::Quit),
        ]
    );
    assert_eq!(Menu::Edit.entries().len(), 7);
    assert_eq!(Menu::View.entries().len(), 8);
    assert_eq!(Menu::Window.entries().len(), 4);
    assert_eq!(StandardEntry::Quit.label(), Some("Quit DeepSeek Harness".to_string()));
    assert_eq!(StandardEntry::About.label(), None);
}

#[test]
fn the_tray_menu_has_its_commands() {
    assert_eq!(build_tray(), [TrayCommand::Show, TrayCommand::Quit]);
    assert_eq!(TrayCommand::Show.label(), "Show DeepSeek Harness");
    assert_eq!(TrayCommand::Quit.label(), "Quit");
    for command in build_tray() {
        assert_eq!(tray_command(&command.id()), Some(command));
    }
    assert_eq!(tray_command("tray-show"), Some(TrayCommand::Show));
    assert_eq!(tray_command("tray-quit"), Some(TrayCommand::Quit));
    assert_eq!(tray_command("zoom-in"), None);
    assert_eq!(TRAY_TOOLTIP, "DeepSeek Harness");
}

#[test]
fn toggling_opens_and_closes() {
    assert_eq!(toggle_devtools(true), DevtoolsAction::Close);
    assert_eq!(toggle_devtools(false), DevtoolsAction::Open);
}
