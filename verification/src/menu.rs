//! Identifiers of the menu entries that the shell reacts to, and what each
//! of them asks for.

use vstd::prelude::*;
use vstd::string::*;
use crate::text::same_text;

verus! {

/// Exit code of a quit requested from the tray menu.
pub const EXIT_CODE: i32 = 0;

/// A page of the front-end that the shell can ask the main window to open.
#[derive(Clone, Copy, Debug, PartialEq, Eq, Structural)]
pub enum Route {
    Settings,
    Timer,
}

/// What a menu entry asks for.
#[derive(Clone, Copy, Debug, PartialEq, Eq, Structural)]
pub enum Action {
    /// Show and focus the main window, then open `route` if there is one.
    ShowMain { route: Option<Route> },
    /// Show the popup widget if it is hidden, hide it if it is shown.
    ToggleWidget,
    /// End the process.
    Quit,
}

/// A menu entry with a behaviour of the shell behind it.
#[derive(Clone, Copy, Debug, PartialEq, Eq, Structural)]
pub enum MenuActionId {
    Settings,
    NewEntry,
    ToggleTimer,
    TrayTimer,
    TrayShow,
    TrayQuit,
}

impl Route {
    /// The location hash of the page.
    pub open spec fn fragment_text(self) -> Seq<char> {
        match self {
            Route::Settings => "#/settings"@,
            Route::Timer => "#/timer"@,
        }
    }

    /// The expression that, evaluated in the main window, opens the page.
    pub open spec fn script_text(self) -> Seq<char> {
        "window.location.hash = '"@ + self.fragment_text() + "'"@
    }

    pub fn fragment(self) -> (s: &'static str)
        ensures
            s@ == self.fragment_text(),
    {
        match self {
            Route::Settings => "#/settings",
            Route::Timer => "#/timer",
        }
    }

    pub fn script(self) -> (s: String)
        ensures
            s@ == self.script_text(),
    {
        let mut s = String::from_str("window.location.hash = '");
        s.append(self.fragment());
        s.append("'");
        s
    }
}

impl MenuActionId {
    /// The identifier under which the entry is registered and reported.
    pub open spec fn token(self) -> Seq<char> {
        match self {
            MenuActionId::Settings => "settings"@,
            MenuActionId::NewEntry => "new_entry"@,
            MenuActionId::ToggleTimer => "toggle_timer"@,
            MenuActionId::TrayTimer => "tray_timer"@,
            MenuActionId::TrayShow => "tray_show"@,
            MenuActionId::TrayQuit => "tray_quit"@,
        }
    }

    /// The entry that `id` names, if it names one.
    pub open spec fn recognize(id: Seq<char>) -> Option<MenuActionId> {
        if id == "settings"@ {
            Some(MenuActionId::Settings)
        } else if id == "new_entry"@ {
            Some(MenuActionId::NewEntry)
        } else if id == "toggle_timer"@ {
            Some(MenuActionId::ToggleTimer)
        } else if id == "tray_timer"@ {
            Some(MenuActionId::TrayTimer)
        } else if id == "tray_show"@ {
            Some(MenuActionId::TrayShow)
        } else if id == "tray_quit"@ {
            Some(MenuActionId::TrayQuit)
        } else {
            None
        }
    }

    /// The one action behind the entry.
    pub open spec fn action_of(self) -> Action {
        match self {
            MenuActionId::Settings => Action::ShowMain { route: Some(Route::Settings) },
            MenuActionId::NewEntry => Action::ShowMain { route: Some(Route::Timer) },
            MenuActionId::ToggleTimer => Action::ToggleWidget,
            MenuActionId::TrayTimer => Action::ToggleWidget,
            MenuActionId::TrayShow => Action::ShowMain { route: None },
            MenuActionId::TrayQuit => Action::Quit,
        }
    }

    pub fn as_str(self) -> (s: &'static str)
        ensures
            s@ == self.token(),
    {
        match self {
            MenuActionId::Settings => "settings",
            MenuActionId::NewEntry => "new_entry",
            MenuActionId::ToggleTimer => "toggle_timer",
            MenuActionId::TrayTimer => "tray_timer",
            MenuActionId::TrayShow => "tray_show",
            MenuActionId::TrayQuit => "tray_quit",
        }
    }

    /// Reads an identifier as reported by a menu event. An identifier that
    /// names no entry gives `None`.
    pub fn parse(id: &str) -> (entry: Option<MenuActionId>)
        ensures
            entry == Self::recognize(id@),
    {
        if same_text(id, "settings") {
            Some(MenuActionId::Settings)
        } else if same_text(id, "new_entry") {
            Some(MenuActionId::NewEntry)
        } else if same_text(id, "toggle_timer") {
            Some(MenuActionId::ToggleTimer)
        } else if same_text(id, "tray_timer") {
            Some(MenuActionId::TrayTimer)
        } else if same_text(id, "tray_show") {
            Some(MenuActionId::TrayShow)
        } else if same_text(id, "tray_quit") {
            Some(MenuActionId::TrayQuit)
        } else {
            None
        }
    }

    pub fn action(self) -> (action: Action)
        ensures
            action == self.action_of(),
    {
        match self {
            MenuActionId::Settings => Action::ShowMain { route: Some(Route::Settings) },
            MenuActionId::NewEntry => Action::ShowMain { route: Some(Route::Timer) },
            MenuActionId::ToggleTimer => Action::ToggleWidget,
            MenuActionId::TrayTimer => Action::ToggleWidget,
            MenuActionId::TrayShow => Action::ShowMain { route: None },
            MenuActionId::TrayQuit => Action::Quit,
        }
    }
}

/// The action that a reported menu identifier asks for: that of the entry
/// it names, and none where it names no entry.
pub open spec fn routed_action(id: Seq<char>) -> Option<Action> {
    match MenuActionId::recognize(id) {
        Some(entry) => Some(entry.action_of()),
        None => None,
    }
}

/// Looks up the action for a reported menu identifier.
pub fn route(id: &str) -> (action: Option<Action>)
    ensures
        action == routed_action(id@),
{
    match MenuActionId::parse(id) {
        Some(entry) => Some(entry.action()),
        None => None,
    }
}

/// The six identifiers are pairwise different, so each is read back as the
/// entry it was written for.
pub proof fn lemma_token_round_trip(entry: MenuActionId)
    ensures
        MenuActionId::recognize(entry.token()) == Some(entry),
{
    reveal_strlit("settings");
    reveal_strlit("new_entry");
    reveal_strlit("toggle_timer");
    reveal_strlit("tray_timer");
    reveal_strlit("tray_show");
    reveal_strlit("tray_quit");
    assert("settings"@.len() == 8);
    assert("new_entry"@.len() == 9);
    assert("toggle_timer"@.len() == 12);
    assert("tray_timer"@.len() == 10);
    assert("tray_show"@.len() == 9);
    assert("tray_quit"@.len() == 9);
    assert("new_entry"@[0] == 'n');
    assert("tray_show"@[0] == 't');
    assert("tray_quit"@[0] == 't');
    assert("tray_show"@[5] == 's');
    assert("tray_quit"@[5] == 'q');
}

/// Only an entry's own identifier is read as that entry.
pub proof fn lemma_recognized_is_token(id: Seq<char>, entry: MenuActionId)
    requires
        MenuActionId::recognize(id) == Some(entry),
    ensures
        id == entry.token(),
{
}

/// Every entry has exactly one action, reached through its identifier; an
/// identifier leads to an action only if it is that of an entry.
pub proof fn lemma_route_table(id: Seq<char>)
    ensures
        forall|entry: MenuActionId| #[trigger]
            routed_action(entry.token()) == Some(entry.action_of()),
        routed_action(id) is Some <==> exists|entry: MenuActionId| id == entry.token(),
{
    assert forall|entry: MenuActionId| #[trigger]
        routed_action(entry.token()) == Some(entry.action_of()) by {
        lemma_token_round_trip(entry);
    }
    if routed_action(id) is Some {
        let entry = MenuActionId::recognize(id)->Some_0;
        lemma_recognized_is_token(id, entry);
    }
    if exists|entry: MenuActionId| id == entry.token() {
        let entry = choose|entry: MenuActionId| id == entry.token();
        lemma_token_round_trip(entry);
    }
}

} // verus!
