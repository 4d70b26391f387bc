//! The windows and the tray icon as the shell sees them: their names, a
//! snapshot of which of them exist, and the operations the shell can ask
//! for.

use vstd::prelude::*;
use crate::geometry::{PhysicalPoint, TrayRect};
use crate::menu::Route;
use crate::text::same_text;

verus! {

/// Identifier of the one tray icon.
pub const TRAY_ID: &'static str = "main-tray";

/// The two windows that the shell handles. Both are declared by the
/// embedding program's configuration; the shell never creates them.
#[derive(Clone, Copy, Debug, PartialEq, Eq, Structural)]
pub enum WindowId {
    /// The primary application window.
    Main,
    /// The popup under the tray icon.
    Widget,
}

impl WindowId {
    /// The label under which the window is declared and reported.
    pub open spec fn label_text(self) -> Seq<char> {
        match self {
            WindowId::Main => "main"@,
            WindowId::Widget => "timer-widget"@,
        }
    }

    /// The window that `label` names, if it names one.
    pub open spec fn recognize(label: Seq<char>) -> Option<WindowId> {
        if label == "main"@ {
            Some(WindowId::Main)
        } else if label == "timer-widget"@ {
            Some(WindowId::Widget)
        } else {
            None
        }
    }

    pub fn label(self) -> (s: &'static str)
        ensures
            s@ == self.label_text(),
    {
        match self {
            WindowId::Main => "main",
            WindowId::Widget => "timer-widget",
        }
    }

    /// Reads a window label as reported by a window event.
    pub fn parse(label: &str) -> (window: Option<WindowId>)
        ensures
            window == Self::recognize(label@),
    {
        if same_text(label, "main") {
            Some(WindowId::Main)
        } else if same_text(label, "timer-widget") {
            Some(WindowId::Widget)
        } else {
            None
        }
    }
}

/// Each window is read back from its own label.
pub proof fn lemma_label_round_trip(window: WindowId)
    ensures
        WindowId::recognize(window.label_text()) == Some(window),
{
    reveal_strlit("main");
    reveal_strlit("timer-widget");
    assert("main"@.len() == 4);
    assert("timer-widget"@.len() == 12);
}

/// The tray icon, as far as the shell reads it.
#[derive(Clone, Copy, Debug, PartialEq, Eq, Structural)]
pub struct TrayIcon {
    /// Where the icon is on the screen; `None` where the platform does
    /// not tell.
    pub rect: Option<TrayRect>,
}

/// Which windows and tray icon exist at the moment of an event.
#[derive(Clone, Copy, Debug, PartialEq, Eq, Structural)]
pub struct Registry {
    pub main_window: bool,
    pub widget_window: bool,
    pub tray: Option<TrayIcon>,
}

/// One operation for the embedding program to carry out. Operations come
/// in sequences and are carried out in order; none of them destroys a
/// window.
#[derive(Clone, Copy, Debug, PartialEq, Eq, Structural)]
pub enum Command {
    /// Make the window visible.
    Show(WindowId),
    /// Give the window input focus.
    Focus(WindowId),
    /// Make the window invisible; it stays alive.
    Hide(WindowId),
    /// Move the window's top-left corner.
    MoveTo(WindowId, PhysicalPoint),
    /// Ask the front-end in the window to open a page.
    Navigate(WindowId, Route),
    /// Cancel the close that the window was asked for.
    PreventClose(WindowId),
    /// End the process with this exit code.
    Exit(i32),
}

} // verus!
