//! Laws of the menus.

use vstd::prelude::*;

#[allow(unused_imports)]
use crate::menu::{self, Menu, MenuCommand, MenuEntry, StandardEntry, TrayCommand};

verus! {

/// Every standard entry stands in the menu bar exactly once, in its menu and at
/// its place there.
pub proof fn lemma_every_standard_entry_is_offered_once(entry: StandardEntry)
    ensures
        ({
            let (menu, place) = match entry {
                StandardEntry::About => (Menu::App, 0int),
                StandardEntry::Quit => (Menu::App, 4int),
                StandardEntry::Undo => (Menu::Edit, 0int),
                StandardEntry::Redo => (Menu::Edit, 1int),
                StandardEntry::Cut => (Menu::Edit, 3int),
                StandardEntry::Copy => (Menu::Edit, 4int),
                StandardEntry::Paste => (Menu::Edit, 5int),
                StandardEntry::SelectAll => (Menu::Edit, 6int),
                StandardEntry::Fullscreen => (Menu::View, 0int),
                StandardEntry::Minimize => (Menu::Window, 0int),
                StandardEntry::Maximize => (Menu::Window, 1int),
                StandardEntry::CloseWindow => (Menu::Window, 3int),
            };
            &&& menu::menu_bar().contains(menu)
            &&& 0 <= place < menu::menu_entries(menu).len()
            &&& menu::menu_entries(menu)[place] == MenuEntry::Standard(entry)
            &&& forall|other: Menu, at: int|
                0 <= at < menu::menu_entries(other).len() && #[trigger] menu::menu_entries(other)[at]
                    == MenuEntry::Standard(entry) ==> other == menu && at == place
        }),
{
    assert(menu::menu_bar()[0] == Menu::App);
    assert(menu::menu_bar()[1] == Menu::Edit);
    assert(menu::menu_bar()[2] == Menu::View);
    assert(menu::menu_bar()[3] == Menu::Window);
}

/// Every command of the application stands in the menu and at the place that
/// users know it from: the check for updates in the middle of the first menu,
/// the rest in the third, zooming before reloading and the developer tools last.
pub proof fn lemma_commands_have_their_places(command: MenuCommand)
    ensures
        ({
            let (menu, place) = match command {
                MenuCommand::CheckUpdates => (Menu::App, 2int),
                MenuCommand::ZoomIn => (Menu::View, 2int),
                MenuCommand::ZoomOut => (Menu::View, 3int),
                MenuCommand::ZoomReset => (Menu::View, 4int),
                MenuCommand::Reload => (Menu::View, 6int),
                MenuCommand::ToggleDevtools => (Menu::View, 7int),
            };
            &&& menu::menu_bar().contains(menu)
            &&& 0 <= place < menu::menu_entries(menu).len()
            &&& menu::menu_entries(menu)[place] == MenuEntry::Command(command)
            &&& forall|other: Menu, at: int|
                0 <= at < menu::menu_entries(other).len() && #[trigger] menu::menu_entries(other)[at]
                    == MenuEntry::Command(command) ==> other == menu && at == place
        }),
{
    assert(menu::menu_bar()[0] == Menu::App);
    assert(menu::menu_bar()[2] == Menu::View);
}

/// What is no entry to choose is a separator, and those stand between groups: a
/// menu neither begins nor ends with one, and no two stand side by side.
pub proof fn lemma_separators_part_groups(menu: Menu)
    ensures
        menu::menu_entries(menu).len() == match menu {
            Menu::App => 5nat,
            Menu::Edit => 7nat,
            Menu::View => 8nat,
            Menu::Window => 4nat,
        },
        !(menu::menu_entries(menu)[0] is Separator),
        !(menu::menu_entries(menu).last() is Separator),
        forall|i: int|
            0 <= i < menu::menu_entries(menu).len() && #[trigger] menu::menu_entries(menu)[i] is Separator ==> !(
            menu::menu_entries(menu)[i + 1] is Separator),
        forall|i: int|
            0 <= i < menu::menu_entries(menu).len() ==> (#[trigger] menu::menu_entries(menu)[i] is Separator
                <==> match menu {
                Menu::App => i == 1 || i == 3,
                Menu::Edit => i == 2,
                Menu::View => i == 1 || i == 5,
                Menu::Window => i == 2,
            }),
{
}

/// The menu bar holds each menu once: the one of the application, then `Edit`,
/// `View` and `Window`, each under its title.
pub proof fn lemma_menu_bar()
    ensures
        menu::menu_bar().len() == 4,
        menu::menu_bar()[0] == Menu::App && menu::menu_title(Menu::App) == "DeepSeek Harness"@,
        menu::menu_bar()[1] == Menu::Edit && menu::menu_title(Menu::Edit) == "Edit"@,
        menu::menu_bar()[2] == Menu::View && menu::menu_title(Menu::View) == "View"@,
        menu::menu_bar()[3] == Menu::Window && menu::menu_title(Menu::Window) == "Window"@,
{
}

/// Each command is reported under its id, shown under its label, and called by
/// its keys; only the check for updates has no keys.
pub proof fn lemma_commands_are_told_apart()
    ensures
        menu::command_id(MenuCommand::CheckUpdates) == "check-updates"@,
        menu::command_id(MenuCommand::ZoomIn) == "zoom-in"@,
        menu::command_id(MenuCommand::ZoomOut) == "zoom-out"@,
        menu::command_id(MenuCommand::ZoomReset) == "zoom-reset"@,
        menu::command_id(MenuCommand::Reload) == "reload"@,
        menu::command_id(MenuCommand::ToggleDevtools) == "toggle-devtools"@,
        menu::command_label(MenuCommand::CheckUpdates) == "Check for Updates…"@,
        menu::command_label(MenuCommand::ZoomIn) == "Zoom In"@,
        menu::command_label(MenuCommand::ZoomOut) == "Zoom Out"@,
        menu::command_label(MenuCommand::ZoomReset) == "Actual Size"@,
        menu::command_label(MenuCommand::Reload) == "Reload"@,
        menu::command_label(MenuCommand::ToggleDevtools) == "Toggle Developer Tools"@,
        menu::command_keys(MenuCommand::CheckUpdates) is None,
        menu::command_keys(MenuCommand::ZoomIn) == Some("CmdOrCtrl+Plus"@),
        menu::command_keys(MenuCommand::ZoomOut) == Some("CmdOrCtrl+-"@),
        menu::command_keys(MenuCommand::ZoomReset) == Some("CmdOrCtrl+0"@),
        menu::command_keys(MenuCommand::Reload) == Some("CmdOrCtrl+R"@),
        menu::command_keys(MenuCommand::ToggleDevtools) == Some("CmdOrCtrl+Shift+I"@),
{
}

/// The tray menu shows the window and quits, each under its id and its label.
pub proof fn lemma_tray_commands_are_told_apart()
    ensures
        menu::tray_id(TrayCommand::Show) == "tray-show"@,
        menu::tray_id(TrayCommand::Quit) == "tray-quit"@,
        menu::tray_label(TrayCommand::Show) == "Show DeepSeek Harness"@,
        menu::tray_label(TrayCommand::Quit) == "Quit"@,
{
}

} // verus!
