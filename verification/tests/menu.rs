use timegrid_shell::layout::{
    menu_bar, tray_menu, MenuEntry, MenuSection, StandardItem, TRAY_MENU_ON_LEFT_CLICK,
};
use timegrid_shell::menu::{route, Action, MenuActionId, Route, EXIT_CODE};
use timegrid_shell::window::{WindowId, TRAY_ID};

const ALL_IDS: [MenuActionId; 6] = [
    MenuActionId::Settings,
    MenuActionId::NewEntry,
    MenuActionId::ToggleTimer,
    MenuActionId::TrayTimer,
    MenuActionId::TrayShow,
    MenuActionId::TrayQuit,
];

#[test]
fn identifiers_are_the_stable_strings() {
    assert_eq!(MenuActionId::Settings.as_str(), "settings");
    assert_eq!(MenuActionId::NewEntry.as_str(), "new_entry");
    assert_eq!(MenuActionId::ToggleTimer.as_str(), "toggle_timer");
    assert_eq!(MenuActionId::TrayTimer.as_str(), "tray_timer");
    assert_eq!(MenuActionId::TrayShow.as_str(), "tray_show");
    assert_eq!(MenuActionId::TrayQuit.as_str(), "tray_quit");
}

#[test]
fn identifiers_are_read_back() {
    for id in ALL_IDS {
        assert_eq!(MenuActionId::parse(id.as_str()), Some(id));
    }
}

#[test]
fn unknown_identifiers_name_no_entry() {
    assert_eq!(MenuActionId::parse(""), None);
    assert_eq!(MenuActionId::parse("quit"), None);
    assert_eq!(MenuActionId::parse("Settings"), None);
    assert_eq!(MenuActionId::parse("settings "), None);
    assert_eq!(MenuActionId::parse("tray_sho"), None);
    assert_eq!(MenuActionId::parse("tray_showw"), None);
}

#[test]
fn every_identifier_has_its_action() {
    assert_eq!(
        MenuActionId::Settings.action(),
        Action::ShowMain { route: Some(Route::Settings) }
    );
    assert_eq!(MenuActionId::NewEntry.action(), Action::ShowMain { route: Some(Route::Timer) });
    assert_eq!(MenuActionId::ToggleTimer.action(), Action::ToggleWidget);
    assert_eq!(MenuActionId::TrayTimer.action(), Action::ToggleWidget);
    assert_eq!(MenuActionId::TrayShow.action(), Action::ShowMain { route: None });
    assert_eq!(MenuActionId::TrayQuit.action(), Action::Quit);
}

#[test]
fn route_follows_the_table() {
    for id in ALL_IDS {
        assert_eq!(route(id.as_str()), Some(id.action()));
    }
    assert_eq!(route("tray_quit"), Some(Action::Quit));
    assert_eq!(route("toggle_timer"), Some(Action::ToggleWidget));
}

#[test]
fn route_ignores_unknown_identifiers() {
    assert_eq!(route("unknown"), None);
    assert_eq!(route(""), None);
    assert_eq!(route("TRAY_QUIT"), None);
}

#[test]
fn quit_exits_with_code_zero() {
    assert_eq!(EXIT_CODE, 0);
}

#[test]
fn routes_name_their_pages() {
    assert_eq!(Route::Settings.fragment(), "#/settings");
    assert_eq!(Route::Timer.fragment(), "#/timer");
}

#[test]
fn navigation_scripts_set_the_location_hash() {
    assert_eq!(Route::Settings.script(), "window.location.hash = '#/settings'");
    assert_eq!(Route::Timer.script(), "window.location.hash = '#/timer'");
}

#[test]
fn window_labels() {
    assert_eq!(WindowId::Main.label(), "main");
    assert_eq!(WindowId::Widget.label(), "timer-widget");
    assert_eq!(TRAY_ID, "main-tray");
}

#[test]
fn window_labels_are_read_back() {
    assert_eq!(WindowId::parse("main"), Some(WindowId::Main));
    assert_eq!(WindowId::parse("timer-widget"), Some(WindowId::Widget));
    assert_eq!(WindowId::parse(WindowId::Main.label()), Some(WindowId::Main));
    assert_eq!(WindowId::parse(WindowId::Widget.label()), Some(WindowId::Widget));
}

#[test]
fn unknown_window_labels_name_no_window() {
    assert_eq!(WindowId::parse(""), None);
    assert_eq!(WindowId::parse("Main"), None);
    assert_eq!(WindowId::parse("timer_widget"), None);
    assert_eq!(WindowId::parse("main-tray"), None);
}

#[test]
fn menu_bar_has_five_menus_in_order() {
    assert_eq!(
        menu_bar(),
        vec![
            MenuSection::App,
            MenuSection::File,
            MenuSection::Edit,
            MenuSection::View,
            MenuSection::Window
        ]
    );
}

#[test]
fn menu_titles() {
    assert_eq!(MenuSection::App.title(), "TimeGrid");
    assert_eq!(MenuSection::File.title(), "File");
    assert_eq!(MenuSection::Edit.title(), "Edit");
    assert_eq!(MenuSection::View.title(), "View");
    assert_eq!(MenuSection::Window.title(), "Window");
}

#[test]
fn app_menu_entries() {
    assert_eq!(
        MenuSection::App.entries(),
        vec![
            MenuEntry::Standard(StandardItem::About),
            MenuEntry::Custom(MenuActionId::Settings),
            MenuEntry::Standard(StandardItem::Hide),
            MenuEntry::Standard(StandardItem::HideOthers),
            MenuEntry::Standard(StandardItem::ShowAll),
            MenuEntry::Standard(StandardItem::Quit),
        ]
    );
}

#[test]
fn file_edit_view_window_menu_entries() {
    assert_eq!(
        MenuSection::File.entries(),
        vec![
            MenuEntry::Custom(MenuActionId::NewEntry),
            MenuEntry::Standard(StandardItem::CloseWindow)
        ]
    );
    assert_eq!(
        MenuSection::Edit.entries(),
        vec![
            MenuEntry::Standard(StandardItem::Undo),
            MenuEntry::Standard(StandardItem::Redo),
            MenuEntry::Standard(StandardItem::Cut),
            MenuEntry::Standard(StandardItem::Copy),
            MenuEntry::Standard(StandardItem::Paste),
            MenuEntry::Standard(StandardItem::SelectAll),
        ]
    );
    assert_eq!(
        MenuSection::View.entries(),
        vec![
            MenuEntry::Custom(MenuActionId::ToggleTimer),
            MenuEntry::Standard(StandardItem::Fullscreen)
        ]
    );
    assert_eq!(
        MenuSection::Window.entries(),
        vec![
            MenuEntry::Standard(StandardItem::Minimize),
            MenuEntry::Standard(StandardItem::Maximize)
        ]
    );
}

#[test]
fn tray_menu_entries() {
    assert_eq!(
        tray_menu(),
        vec![
            MenuEntry::Custom(MenuActionId::TrayTimer),
            MenuEntry::Custom(MenuActionId::TrayShow),
            MenuEntry::Custom(MenuActionId::TrayQuit),
        ]
    );
    assert!(!TRAY_MENU_ON_LEFT_CLICK);
}

#[test]
fn custom_entry_labels_and_shortcuts() {
    assert_eq!(MenuActionId::Settings.label(), "Settings...");
    assert_eq!(MenuActionId::Settings.accelerator(), Some("Cmd+,"));
    assert_eq!(MenuActionId::NewEntry.label(), "New Time Entry");
    assert_eq!(MenuActionId::NewEntry.accelerator(), Some("Cmd+N"));
    assert_eq!(MenuActionId::ToggleTimer.label(), "Quick Timer");
    assert_eq!(MenuActionId::ToggleTimer.accelerator(), Some("Cmd+T"));
    assert_eq!(MenuActionId::TrayTimer.label(), "Quick Timer");
    assert_eq!(MenuActionId::TrayTimer.accelerator(), None);
    assert_eq!(MenuActionId::TrayShow.label(), "Show Main Window");
    assert_eq!(MenuActionId::TrayShow.accelerator(), None);
    assert_eq!(MenuActionId::TrayQuit.label(), "Quit");
    assert_eq!(MenuActionId::TrayQuit.accelerator(), None);
}

#[test]
fn standard_entry_labels() {
    assert_eq!(StandardItem::About.label(), "TimeGrid");
    assert_eq!(StandardItem::Hide.label(), "Hide TimeGrid");
    assert_eq!(StandardItem::HideOthers.label(), "Hide Others");
    assert_eq!(StandardItem::ShowAll.label(), "Show All");
    assert_eq!(StandardItem::Quit.label(), "Quit TimeGrid");
    assert_eq!(StandardItem::CloseWindow.label(), "Close Window");
    assert_eq!(StandardItem::Undo.label(), "Undo");
    assert_eq!(StandardItem::Redo.label(), "Redo");
    assert_eq!(StandardItem::Cut.label(), "Cut");
    assert_eq!(StandardItem::Copy.label(), "Copy");
    assert_eq!(StandardItem::Paste.label(), "Paste");
    assert_eq!(StandardItem::SelectAll.label(), "Select All");
    assert_eq!(StandardItem::Fullscreen.label(), "Enter Full Screen");
    assert_eq!(StandardItem::Minimize.label(), "Minimize");
    assert_eq!(StandardItem::Maximize.label(), "Zoom");
}

#[test]
fn every_placed_entry_is_routed_and_every_identifier_is_placed() {
    let mut placed: Vec<MenuActionId> = Vec::new();
    for section in menu_bar() {
        for entry in section.entries() {
            if let MenuEntry::Custom(id) = entry {
                placed.push(id);
            }
        }
    }
    for entry in tray_menu() {
        if let MenuEntry::Custom(id) = entry {
            placed.push(id);
        }
    }
    for id in &placed {
        assert_eq!(route(id.as_str()), Some(id.action()));
    }
    for id in ALL_IDS {
        assert_eq!(placed.iter().filter(|p| **p == id).count(), 1);
    }
}
