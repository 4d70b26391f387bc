//! What the menu bar and the tray menu hold, as data for the embedding
//! program to build them from.

use vstd::prelude::*;
use crate::menu::{lemma_token_round_trip, routed_action, MenuActionId};

verus! {

/// Whether a left click on the tray icon opens the tray menu. It does
/// not: the left click belongs to the widget.
pub const TRAY_MENU_ON_LEFT_CLICK: bool = false;

/// A menu entry whose behaviour the platform provides.
#[derive(Clone, Copy, Debug, PartialEq, Eq, Structural)]
pub enum StandardItem {
    About,
    Hide,
    HideOthers,
    ShowAll,
    Quit,
    CloseWindow,
    Undo,
    Redo,
    Cut,
    Copy,
    Paste,
    SelectAll,
    Fullscreen,
    Minimize,
    Maximize,
}

/// One entry of a menu.
#[derive(Clone, Copy, Debug, PartialEq, Eq, Structural)]
pub enum MenuEntry {
    /// An entry that the shell reacts to.
    Custom(MenuActionId),
    /// An entry that the platform handles.
    Standard(StandardItem),
}

/// A menu of the menu bar.
#[derive(Clone, Copy, Debug, PartialEq, Eq, Structural)]
pub enum MenuSection {
    App,
    File,
    Edit,
    View,
    Window,
}

impl StandardItem {
    pub open spec fn label_text(self) -> Seq<char> {
        match self {
            StandardItem::About => "TimeGrid"@,
            StandardItem::Hide => "Hide TimeGrid"@,
            StandardItem::HideOthers => "Hide Others"@,
            StandardItem::ShowAll => "Show All"@,
            StandardItem::Quit => "Quit TimeGrid"@,
            StandardItem::CloseWindow => "Close Window"@,
            StandardItem::Undo => "Undo"@,
            StandardItem::Redo => "Redo"@,
            StandardItem::Cut => "Cut"@,
            StandardItem::Copy => "Copy"@,
            StandardItem::Paste => "Paste"@,
            StandardItem::SelectAll => "Select All"@,
            StandardItem::Fullscreen => "Enter Full Screen"@,
            StandardItem::Minimize => "Minimize"@,
            StandardItem::Maximize => "Zoom"@,
        }
    }

    /// The text of the entry.
    pub fn label(self) -> (s: &'static str)
        ensures
            s@ == self.label_text(),
    {
        match self {
            StandardItem::About => "TimeGrid",
            StandardItem::Hide => "Hide TimeGrid",
            StandardItem::HideOthers => "Hide Others",
            StandardItem::ShowAll => "Show All",
            StandardItem::Quit => "Quit TimeGrid",
            StandardItem::CloseWindow => "Close Window",
            StandardItem::Undo => "Undo",
            StandardItem::Redo => "Redo",
            StandardItem::Cut => "Cut",
            StandardItem::Copy => "Copy",
            StandardItem::Paste => "Paste",
            StandardItem::SelectAll => "Select All",
            StandardItem::Fullscreen => "Enter Full Screen",
            StandardItem::Minimize => "Minimize",
            StandardItem::Maximize => "Zoom",
        }
    }
}

impl MenuActionId {
    pub open spec fn label_text(self) -> Seq<char> {
        match self {
            MenuActionId::Settings => "Settings..."@,
            MenuActionId::NewEntry => "New Time Entry"@,
            MenuActionId::ToggleTimer => "Quick Timer"@,
            MenuActionId::TrayTimer => "Quick Timer"@,
            MenuActionId::TrayShow => "Show Main Window"@,
            MenuActionId::TrayQuit => "Quit"@,
        }
    }

    pub open spec fn accelerator_text(self) -> Option<Seq<char>> {
        match self {
            MenuActionId::Settings => Some("Cmd+,"@),
            MenuActionId::NewEntry => Some("Cmd+N"@),
            MenuActionId::ToggleTimer => Some("Cmd+T"@),
            _ => None,
        }
    }

    /// The text of the entry.
    pub fn label(self) -> (s: &'static str)
        ensures
            s@ == self.label_text(),
    {
        match self {
            MenuActionId::Settings => "Settings...",
            MenuActionId::NewEntry => "New Time Entry",
            MenuActionId::ToggleTimer => "Quick Timer",
            MenuActionId::TrayTimer => "Quick Timer",
            MenuActionId::TrayShow => "Show Main Window",
            MenuActionId::TrayQuit => "Quit",
        }
    }

    /// The keyboard shortcut of the entry, where it has one.
    pub fn accelerator(self) -> (keys: Option<&'static str>)
        ensures
            keys is Some <==> self.accelerator_text() is Some,
            keys is Some ==> keys->Some_0@ == self.accelerator_text()->Some_0,
    {
        match self {
            MenuActionId::Settings => Some("Cmd+,"),
            MenuActionId::NewEntry => Some("Cmd+N"),
            MenuActionId::ToggleTimer => Some("Cmd+T"),
            _ => None,
        }
    }
}

impl MenuSection {
    pub open spec fn title_text(self) -> Seq<char> {
        match self {
            MenuSection::App => "TimeGrid"@,
            MenuSection::File => "File"@,
            MenuSection::Edit => "Edit"@,
            MenuSection::View => "View"@,
            MenuSection::Window => "Window"@,
        }
    }

    /// The entries of the menu, from top to bottom.
    pub open spec fn entries_of(self) -> Seq<MenuEntry> {
        match self {
            MenuSection::App => seq![
                MenuEntry::Standard(StandardItem::About),
                MenuEntry::Custom(MenuActionId::Settings),
                MenuEntry::Standard(StandardItem::Hide),
                MenuEntry::Standard(StandardItem::HideOthers),
                MenuEntry::Standard(StandardItem::ShowAll),
                MenuEntry::Standard(StandardItem::Quit),
            ],
            MenuSection::File => seq![
                MenuEntry::Custom(MenuActionId::NewEntry),
                MenuEntry::Standard(StandardItem::CloseWindow),
            ],
            MenuSection::Edit => seq![
                MenuEntry::Standard(StandardItem::Undo),
                MenuEntry::Standard(StandardItem::Redo),
                MenuEntry::Standard(StandardItem::Cut),
                MenuEntry::Standard(StandardItem::Copy),
                MenuEntry::Standard(StandardItem::Paste),
                MenuEntry::Standard(StandardItem::SelectAll),
            ],
            MenuSection::View => seq![
                MenuEntry::Custom(MenuActionId::ToggleTimer),
                MenuEntry::Standard(StandardItem::Fullscreen),
            ],
            MenuSection::Window => seq![
                MenuEntry::Standard(StandardItem::Minimize),
                MenuEntry::Standard(StandardItem::Maximize),
            ],
        }
    }

    /// The title of the menu.
    pub fn title(self) -> (s: &'static str)
        ensures
            s@ == self.title_text(),
    {
        match self {
            MenuSection::App => "TimeGrid",
            MenuSection::File => "File",
            MenuSection::Edit => "Edit",
            MenuSection::View => "View",
            MenuSection::Window => "Window",
        }
    }

    /// The entries of the menu, from top to bottom.
    pub fn entries(self) -> (entries: Vec<MenuEntry>)
        ensures
            entries@ == self.entries_of(),
    {
        let mut entries: Vec<MenuEntry> = Vec::new();
        match self {
            MenuSection::App => {
                entries.push(MenuEntry::Standard(StandardItem::About));
                entries.push(MenuEntry::Custom(MenuActionId::Settings));
                entries.push(MenuEntry::Standard(StandardItem::Hide));
                entries.push(MenuEntry::Standard(StandardItem::HideOthers));
                entries.push(MenuEntry::Standard(StandardItem::ShowAll));
                entries.push(MenuEntry::Standard(StandardItem::Quit));
            },
            MenuSection::File => {
                entries.push(MenuEntry::Custom(MenuActionId::NewEntry));
                entries.push(MenuEntry::Standard(StandardItem::CloseWindow));
            },
            MenuSection::Edit => {
                entries.push(MenuEntry::Standard(StandardItem::Undo));
                entries.push(MenuEntry::Standard(StandardItem::Redo));
                entries.push(MenuEntry::Standard(StandardItem::Cut));
                entries.push(MenuEntry::Standard(StandardItem::Copy));
                entries.push(MenuEntry::Standard(StandardItem::Paste));
                entries.push(MenuEntry::Standard(StandardItem::SelectAll));
            },
            MenuSection::View => {
                entries.push(MenuEntry::Custom(MenuActionId::ToggleTimer));
                entries.push(MenuEntry::Standard(StandardItem::Fullscreen));
            },
            MenuSection::Window => {
                entries.push(MenuEntry::Standard(StandardItem::Minimize));
                entries.push(MenuEntry::Standard(StandardItem::Maximize));
            },
        }
        assert(entries@ =~= self.entries_of());
        entries
    }
}

/// The menus of the menu bar, from left to right.
pub open spec fn menu_bar_sections() -> Seq<MenuSection> {
    seq![
        MenuSection::App,
        MenuSection::File,
        MenuSection::Edit,
        MenuSection::View,
        MenuSection::Window,
    ]
}

/// The entries of the tray menu, from top to bottom.
pub open spec fn tray_menu_entries() -> Seq<MenuEntry> {
    seq![
        MenuEntry::Custom(MenuActionId::TrayTimer),
        MenuEntry::Custom(MenuActionId::TrayShow),
        MenuEntry::Custom(MenuActionId::TrayQuit),
    ]
}

/// The menus of the menu bar, from left to right.
pub fn menu_bar() -> (sections: Vec<MenuSection>)
    ensures
        sections@ == menu_bar_sections(),
{
    let mut sections: Vec<MenuSection> = Vec::new();
    sections.push(MenuSection::App);
    sections.push(MenuSection::File);
    sections.push(MenuSection::Edit);
    sections.push(MenuSection::View);
    sections.push(MenuSection::Window);
    assert(sections@ =~= menu_bar_sections());
    sections
}

/// The entries of the tray menu, from top to bottom.
pub fn tray_menu() -> (entries: Vec<MenuEntry>)
    ensures
        entries@ == tray_menu_entries(),
{
    let mut entries: Vec<MenuEntry> = Vec::new();
    entries.push(MenuEntry::Custom(MenuActionId::TrayTimer));
    entries.push(MenuEntry::Custom(MenuActionId::TrayShow));
    entries.push(MenuEntry::Custom(MenuActionId::TrayQuit));
    assert(entries@ =~= tray_menu_entries());
    entries
}

/// Whether `entry` stands in the menu bar or in the tray menu.
pub open spec fn is_placed(entry: MenuEntry) -> bool {
    tray_menu_entries().contains(entry) || exists|k: int|
        0 <= k < menu_bar_sections().len() && (#[trigger] menu_bar_sections()[k]).entries_of().contains(
            entry,
        )
}

/// Every entry that the menus can report has an action behind it: a
/// click on it is never lost.
pub proof fn lemma_placed_entries_are_routed(id: MenuActionId)
    requires
        is_placed(MenuEntry::Custom(id)),
    ensures
        routed_action(id.token()) == Some(id.action_of()),
{
    lemma_token_round_trip(id);
}

/// Every entry that the shell reacts to stands in a menu.
pub proof fn lemma_every_action_is_placed(id: MenuActionId)
    ensures
        is_placed(MenuEntry::Custom(id)),
{
    let bar = menu_bar_sections();
    let tray = tray_menu_entries();
    match id {
        MenuActionId::Settings => {
            assert(bar[0].entries_of()[1] == MenuEntry::Custom(id));
        },
        MenuActionId::NewEntry => {
            assert(bar[1].entries_of()[0] == MenuEntry::Custom(id));
        },
        MenuActionId::ToggleTimer => {
            assert(bar[3].entries_of()[0] == MenuEntry::Custom(id));
        },
        MenuActionId::TrayTimer => {
            assert(tray[0] == MenuEntry::Custom(id));
        },
        MenuActionId::TrayShow => {
            assert(tray[1] == MenuEntry::Custom(id));
        },
        MenuActionId::TrayQuit => {
            assert(tray[2] == MenuEntry::Custom(id));
        },
    }
}

} // verus!
