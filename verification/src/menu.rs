//! The menu bar and the tray menu.

use vstd::prelude::*;

verus! {

/// A command of the menu bar that the application carries out itself.
#[derive(Clone, Copy, Debug, PartialEq, Eq, Structural)]
pub enum MenuCommand {
    CheckUpdates,
    ZoomIn,
    ZoomOut,
    ZoomReset,
    Reload,
    ToggleDevtools,
}

/// An entry that the platform carries out.
#[derive(Clone, Copy, Debug, PartialEq, Eq, Structural)]
pub enum StandardEntry {
    About,
    Quit,
    Undo,
    Redo,
    Cut,
    Copy,
    Paste,
    SelectAll,
    Fullscreen,
    Minimize,
    Maximize,
    CloseWindow,
}

/// An entry of a menu.
#[derive(Clone, Copy, Debug, PartialEq, Eq, Structural)]
pub enum MenuEntry {
    Separator,
    Standard(StandardEntry),
    Command(MenuCommand),
}

/// A menu of the menu bar.
#[derive(Clone, Copy, Debug, PartialEq, Eq, Structural)]
pub enum Menu {
    App,
    Edit,
    View,
    Window,
}

/// The id of a command.
pub open spec fn command_id(command: MenuCommand) -> Seq<char> {
    match command {
        MenuCommand::CheckUpdates => "check-updates"@,
        MenuCommand::ZoomIn => "zoom-in"@,
        MenuCommand::ZoomOut => "zoom-out"@,
        MenuCommand::ZoomReset => "zoom-reset"@,
        MenuCommand::Reload => "reload"@,
        MenuCommand::ToggleDevtools => "toggle-devtools"@,
    }
}

/// The label of a command.
pub open spec fn command_label(command: MenuCommand) -> Seq<char> {
    match command {
        MenuCommand::CheckUpdates => "Check for Updates…"@,
        MenuCommand::ZoomIn => "Zoom In"@,
        MenuCommand::ZoomOut => "Zoom Out"@,
        MenuCommand::ZoomReset => "Actual Size"@,
        MenuCommand::Reload => "Reload"@,
        MenuCommand::ToggleDevtools => "Toggle Developer Tools"@,
    }
}

/// The keys of a command, if it has any.
pub open spec fn command_keys(command: MenuCommand) -> Option<Seq<char>> {
    match command {
        MenuCommand::CheckUpdates => None,
        MenuCommand::ZoomIn => Some("CmdOrCtrl+Plus"@),
        MenuCommand::ZoomOut => Some("CmdOrCtrl+-"@),
        MenuCommand::ZoomReset => Some("CmdOrCtrl+0"@),
        MenuCommand::Reload => Some("CmdOrCtrl+R"@),
        MenuCommand::ToggleDevtools => Some("CmdOrCtrl+Shift+I"@),
    }
}

impl StandardEntry {
    /// The label of this entry, where it is not the one of the platform.
    pub fn label(self) -> (res: Option<String>)
        ensures
            crate::text::optional_text(res) == (if self == StandardEntry::Quit {
                Some("Quit DeepSeek Harness"@)
            } else {
                None
            }),
    {
        match self {
            StandardEntry::Quit => Some("Quit DeepSeek Harness".to_owned()),
            _ => None,
        }
    }
}

impl MenuCommand {
    /// The id that the menu reports this command under.
    pub fn id(self) -> (res: String)
        ensures
            res@ == command_id(self),
    {
        match self {
            MenuCommand::CheckUpdates => "check-updates".to_owned(),
            MenuCommand::ZoomIn => "zoom-in".to_owned(),
            MenuCommand::ZoomOut => "zoom-out".to_owned(),
            MenuCommand::ZoomReset => "zoom-reset".to_owned(),
            MenuCommand::Reload => "reload".to_owned(),
            MenuCommand::ToggleDevtools => "toggle-devtools".to_owned(),
        }
    }

    /// The label that the menu shows for this command.
    pub fn label(self) -> (res: String)
        ensures
            res@ == command_label(self),
    {
        match self {
            MenuCommand::CheckUpdates => "Check for Updates…".to_owned(),
            MenuCommand::ZoomIn => "Zoom In".to_owned(),
            MenuCommand::ZoomOut => "Zoom Out".to_owned(),
            MenuCommand::ZoomReset => "Actual Size".to_owned(),
            MenuCommand::Reload => "Reload".to_owned(),
            MenuCommand::ToggleDevtools => "Toggle Developer Tools".to_owned(),
        }
    }

    /// The keys that call this command, if any.
    pub fn keys(self) -> (res: Option<String>)
        ensures
            crate::text::optional_text(res) == command_keys(self),
    {
        match self {
            MenuCommand::CheckUpdates => None,
            MenuCommand::ZoomIn => Some("CmdOrCtrl+Plus".to_owned()),
            MenuCommand::ZoomOut => Some("CmdOrCtrl+-".to_owned()),
            MenuCommand::ZoomReset => Some("CmdOrCtrl+0".to_owned()),
            MenuCommand::Reload => Some("CmdOrCtrl+R".to_owned()),
            MenuCommand::ToggleDevtools => Some("CmdOrCtrl+Shift+I".to_owned()),
        }
    }
}

/// Different commands have different ids.
pub proof fn lemma_ids_differ(a: MenuCommand, b: MenuCommand)
    requires
        a != b,
    ensures
        command_id(a) != command_id(b),
{
    reveal_strlit("check-updates");
    reveal_strlit("zoom-in");
    reveal_strlit("zoom-out");
    reveal_strlit("zoom-reset");
    reveal_strlit("reload");
    reveal_strlit("toggle-devtools");
    assert(command_id(a).len() == command_id(b).len() ==> command_id(a)[0] != command_id(b)[0]
        || command_id(a)[5] != command_id(b)[5]);
}

/// The command that the menu reports under `id`, if there is one.
pub fn menu_command(id: &str) -> (res: Option<MenuCommand>)
    ensures
        match res {
            Some(command) => id@ == command_id(command),
            None => forall|command: MenuCommand| id@ != #[trigger] command_id(command),
        },
{
    if crate::text::same_text(id, "zoom-in") {
        Some(MenuCommand::ZoomIn)
    } else if crate::text::same_text(id, "zoom-out") {
        Some(MenuCommand::ZoomOut)
    } else if crate::text::same_text(id, "zoom-reset") {
        Some(MenuCommand::ZoomReset)
    } else if crate::text::same_text(id, "reload") {
        Some(MenuCommand::Reload)
    } else if crate::text::same_text(id, "toggle-devtools") {
        Some(MenuCommand::ToggleDevtools)
    } else if crate::text::same_text(id, "check-updates") {
        Some(MenuCommand::CheckUpdates)
    } else {
        None
    }
}

/// The title of a menu.
pub open spec fn menu_title(menu: Menu) -> Seq<char> {
    match menu {
        Menu::App => "DeepSeek Harness"@,
        Menu::Edit => "Edit"@,
        Menu::View => "View"@,
        Menu::Window => "Window"@,
    }
}

/// The entries of a menu, from top to bottom.
pub open spec fn menu_entries(menu: Menu) -> Seq<MenuEntry> {
    match menu {
        Menu::App => seq![
            MenuEntry::Standard(StandardEntry::About),
            MenuEntry::Separator,
            MenuEntry::Command(MenuCommand::CheckUpdates),
            MenuEntry::Separator,
            MenuEntry::Standard(StandardEntry::Quit),
        ],
        Menu::Edit => seq![
            MenuEntry::Standard(StandardEntry::Undo),
            MenuEntry::Standard(StandardEntry::Redo),
            MenuEntry::Separator,
            MenuEntry::Standard(StandardEntry::Cut),
            MenuEntry::Standard(StandardEntry::Copy),
            MenuEntry::Standard(StandardEntry::Paste),
            MenuEntry::Standard(StandardEntry::SelectAll),
        ],
        Menu::View => seq![
            MenuEntry::Standard(StandardEntry::Fullscreen),
            MenuEntry::Separator,
            MenuEntry::Command(MenuCommand::ZoomIn),
            MenuEntry::Command(MenuCommand::ZoomOut),
            MenuEntry::Command(MenuCommand::ZoomReset),
            MenuEntry::Separator,
            MenuEntry::Command(MenuCommand::Reload),
            MenuEntry::Command(MenuCommand::ToggleDevtools),
        ],
        Menu::Window => seq![
            MenuEntry::Standard(StandardEntry::Minimize),
            MenuEntry::Standard(StandardEntry::Maximize),
            MenuEntry::Separator,
            MenuEntry::Standard(StandardEntry::CloseWindow),
        ],
    }
}

/// The menus of the menu bar, from left to right.
pub open spec fn menu_bar() -> Seq<Menu> {
    seq![Menu::App, Menu::Edit, Menu::View, Menu::Window]
}

/// The menus of the menu bar, from left to right.
pub fn build_menu() -> (res: Vec<Menu>)
    ensures
        res@ == menu_bar(),
{
    let mut res: Vec<Menu> = Vec::new();
    res.push(Menu::App);
    res.push(Menu::Edit);
    res.push(Menu::View);
    res.push(Menu::Window);
    assert(res@ =~= menu_bar());
    res
}

impl Menu {
    /// The title of this menu.
    pub fn title(self) -> (res: String)
        ensures
            res@ == menu_title(self),
    {
        match self {
            Menu::App => "DeepSeek Harness".to_owned(),
            Menu::Edit => "Edit".to_owned(),
            Menu::View => "View".to_owned(),
            Menu::Window => "Window".to_owned(),
        }
    }

    /// The entries of this menu, from top to bottom.
    pub fn entries(self) -> (res: Vec<MenuEntry>)
        ensures
            res@ == menu_entries(self),
    {
        let mut res: Vec<MenuEntry> = Vec::new();
        match self {
            Menu::App => {
                res.push(MenuEntry::Standard(StandardEntry::About));
                res.push(MenuEntry::Separator);
                res.push(MenuEntry::Command(MenuCommand::CheckUpdates));
                res.push(MenuEntry::Separator);
                res.push(MenuEntry::Standard(StandardEntry::Quit));
            },
            Menu::Edit => {
                res.push(MenuEntry::Standard(StandardEntry::Undo));
                res.push(MenuEntry::Standard(StandardEntry::Redo));
                res.push(MenuEntry::Separator);
                res.push(MenuEntry::Standard(StandardEntry::Cut));
                res.push(MenuEntry::Standard(StandardEntry::Copy));
                res.push(MenuEntry::Standard(StandardEntry::Paste));
                res.push(MenuEntry::Standard(StandardEntry::SelectAll));
            },
            Menu::View => {
                res.push(MenuEntry::Standard(StandardEntry::Fullscreen));
                res.push(MenuEntry::Separator);
                res.push(MenuEntry::Command(MenuCommand::ZoomIn));
                res.push(MenuEntry::Command(MenuCommand::ZoomOut));
                res.push(MenuEntry::Command(MenuCommand::ZoomReset));
                res.push(MenuEntry::Separator);
                res.push(MenuEntry::Command(MenuCommand::Reload));
                res.push(MenuEntry::Command(MenuCommand::ToggleDevtools));
            },
            Menu::Window => {
                res.push(MenuEntry::Standard(StandardEntry::Minimize));
                res.push(MenuEntry::Standard(StandardEntry::Maximize));
                res.push(MenuEntry::Separator);
                res.push(MenuEntry::Standard(StandardEntry::CloseWindow));
            },
        }
        assert(res@ =~= menu_entries(self));
        res
    }
}

/// Where a command stands in the menu bar: its menu, and its place there.
pub open spec fn command_place(command: MenuCommand) -> (Menu, int) {
    match command {
        MenuCommand::CheckUpdates => (Menu::App, 2),
        MenuCommand::ZoomIn => (Menu::View, 2),
        MenuCommand::ZoomOut => (Menu::View, 3),
        MenuCommand::ZoomReset => (Menu::View, 4),
        MenuCommand::Reload => (Menu::View, 6),
        MenuCommand::ToggleDevtools => (Menu::View, 7),
    }
}

/// Every command stands in the menu bar exactly once.
pub proof fn lemma_every_command_is_offered_once(command: MenuCommand)
    ensures
        ({
            let (menu, place) = command_place(command);
            &&& menu_bar().contains(menu)
            &&& 0 <= place < menu_entries(menu).len()
            &&& menu_entries(menu)[place] == MenuEntry::Command(command)
        }),
        forall|menu: Menu, place: int|
            0 <= place < menu_entries(menu).len() && #[trigger] menu_entries(menu)[place]
                == MenuEntry::Command(command) ==> (menu, place) == command_place(command),
{
    assert(menu_bar()[0] == Menu::App);
    assert(menu_bar()[2] == Menu::View);
}

/// A command of the tray menu.
#[derive(Clone, Copy, Debug, PartialEq, Eq, Structural)]
pub enum TrayCommand {
    Show,
    Quit,
}

/// The tooltip of the tray icon.
pub const TRAY_TOOLTIP: &'static str = "DeepSeek Harness";

/// The id of a tray command.
pub open spec fn tray_id(command: TrayCommand) -> Seq<char> {
    match command {
        TrayCommand::Show => "tray-show"@,
        TrayCommand::Quit => "tray-quit"@,
    }
}

/// The label of a tray command.
pub open spec fn tray_label(command: TrayCommand) -> Seq<char> {
    match command {
        TrayCommand::Show => "Show DeepSeek Harness"@,
        TrayCommand::Quit => "Quit"@,
    }
}

/// The commands of the tray menu, from top to bottom.
pub fn build_tray() -> (res: Vec<TrayCommand>)
    ensures
        res@ == seq![TrayCommand::Show, TrayCommand::Quit],
{
    let mut res: Vec<TrayCommand> = Vec::new();
    res.push(TrayCommand::Show);
    res.push(TrayCommand::Quit);
    assert(res@ =~= seq![TrayCommand::Show, TrayCommand::Quit]);
    res
}

impl TrayCommand {
    /// The id that the tray menu reports this command under.
    pub fn id(self) -> (res: String)
        ensures
            res@ == tray_id(self),
    {
        match self {
            TrayCommand::Show => "tray-show".to_owned(),
            TrayCommand::Quit => "tray-quit".to_owned(),
        }
    }

    /// The label that the tray menu shows for this command.
    pub fn label(self) -> (res: String)
        ensures
            res@ == tray_label(self),
    {
        match self {
            TrayCommand::Show => "Show DeepSeek Harness".to_owned(),
            TrayCommand::Quit => "Quit".to_owned(),
        }
    }
}

/// Different tray commands have different ids.
pub proof fn lemma_tray_ids_differ()
    ensures
        tray_id(TrayCommand::Show) != tray_id(TrayCommand::Quit),
{
    reveal_strlit("tray-show");
    reveal_strlit("tray-quit");
    assert("tray-show"@[5] != "tray-quit"@[5]);
}

/// The command that the tray menu reports under `id`, if there is one.
pub fn tray_command(id: &str) -> (res: Option<TrayCommand>)
    ensures
        match res {
            Some(command) => id@ == tray_id(command),
            None => forall|command: TrayCommand| id@ != #[trigger] tray_id(command),
        },
{
    if crate::text::same_text(id, "tray-show") {
        Some(TrayCommand::Show)
    } else if crate::text::same_text(id, "tray-quit") {
        Some(TrayCommand::Quit)
    } else {
        None
    }
}

/// What toggling the developer tools does.
#[derive(Clone, Copy, Debug, PartialEq, Eq, Structural)]
pub enum DevtoolsAction {
    Open,
    Close,
}

/// Closes developer tools that are open, and opens them otherwise.
pub fn toggle_devtools(open: bool) -> (res: DevtoolsAction)
    ensures
        res == if open {
            DevtoolsAction::Close
        } else {
            DevtoolsAction::Open
        },
{
    if open {
        DevtoolsAction::Close
    } else {
        DevtoolsAction::Open
    }
}

} // verus!
