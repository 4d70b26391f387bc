//! The popup widget: where it goes and when it is visible.

use vstd::prelude::*;
use crate::geometry::{
    below_y, compute_position, half_toward_zero, saturate, twice_centered_x, PhysicalPoint,
    TRAY_GAP, WIDGET_WIDTH,
};
use crate::window::{Command, Registry, WindowId};

verus! {

/// Whether the popup widget is on the screen.
#[derive(Clone, Copy, Debug, PartialEq, Eq, Structural)]
pub enum WidgetWindowState {
    Hidden,
    Shown,
}

/// Where the widget goes under the tray icon, if that can be told: the
/// widget window and the tray icon exist and the icon's rectangle is known.
/// It is the exact placement narrowed to window coordinates, a half pixel
/// dropped toward zero.
pub open spec fn widget_position(registry: Registry) -> Option<PhysicalPoint> {
    if registry.widget_window && registry.tray is Some && registry.tray->Some_0.rect is Some {
        let rect = registry.tray->Some_0.rect->Some_0;
        Some(
            PhysicalPoint {
                x: saturate(half_toward_zero(twice_centered_x(rect, WIDGET_WIDTH))) as i32,
                y: saturate(below_y(rect, TRAY_GAP)) as i32,
            },
        )
    } else {
        None
    }
}

/// The state after a toggle. Without a widget window nothing changes.
pub open spec fn toggled_state(state: WidgetWindowState, registry: Registry) -> WidgetWindowState {
    if !registry.widget_window {
        state
    } else {
        match state {
            WidgetWindowState::Shown => WidgetWindowState::Hidden,
            WidgetWindowState::Hidden => WidgetWindowState::Shown,
        }
    }
}

/// The operations of a toggle. A shown widget is hidden. A hidden one is
/// moved under the tray icon where its place can be told, then shown and
/// focused. Without a widget window there is nothing to do.
pub open spec fn toggle_commands(state: WidgetWindowState, registry: Registry) -> Seq<Command> {
    if !registry.widget_window {
        Seq::empty()
    } else {
        match state {
            WidgetWindowState::Shown => seq![Command::Hide(WindowId::Widget)],
            WidgetWindowState::Hidden => match widget_position(registry) {
                Some(point) => seq![
                    Command::MoveTo(WindowId::Widget, point),
                    Command::Show(WindowId::Widget),
                    Command::Focus(WindowId::Widget),
                ],
                None => seq![Command::Show(WindowId::Widget), Command::Focus(WindowId::Widget)],
            },
        }
    }
}

/// The operations after the widget lost input focus: a shown widget is
/// hidden, a hidden one is left alone.
pub open spec fn focus_lost_commands(state: WidgetWindowState) -> Seq<Command> {
    match state {
        WidgetWindowState::Shown => seq![Command::Hide(WindowId::Widget)],
        WidgetWindowState::Hidden => Seq::empty(),
    }
}

/// Computes the widget's place under the tray icon. Where the widget
/// window, the tray icon or the icon's rectangle is missing, there is no
/// place to compute and the widget stays where it is.
pub fn position_widget_window(registry: &Registry) -> (target: Option<PhysicalPoint>)
    ensures
        target == widget_position(*registry),
{
    if !registry.widget_window {
        return None;
    }
    match registry.tray {
        Some(tray) => match tray.rect {
            Some(rect) => Some(compute_position(rect, WIDGET_WIDTH, TRAY_GAP).to_physical()),
            None => None,
        },
        None => None,
    }
}

/// Keeps track of whether the widget is shown. Every event source that
/// shows or hides the widget goes through the one controller, so they
/// cannot disagree about its state.
#[derive(Debug)]
pub struct VisibilityController {
    state: WidgetWindowState,
}

impl View for VisibilityController {
    type V = WidgetWindowState;

    closed spec fn view(&self) -> WidgetWindowState {
        self.state
    }
}

impl VisibilityController {
    /// A controller for a widget that is hidden.
    pub fn new() -> (controller: VisibilityController)
        ensures
            controller@ == WidgetWindowState::Hidden,
    {
        VisibilityController { state: WidgetWindowState::Hidden }
    }

    pub fn state(&self) -> (state: WidgetWindowState)
        ensures
            state == self@,
    {
        self.state
    }

    /// Shows a hidden widget, hides a shown one, and returns the
    /// operations that do so.
    pub fn toggle(&mut self, registry: &Registry) -> (commands: Vec<Command>)
        ensures
            final(self)@ == toggled_state(old(self)@, *registry),
            commands@ == toggle_commands(old(self)@, *registry),
    {
        let mut commands: Vec<Command> = Vec::new();
        if !registry.widget_window {
            return commands;
        }
        match self.state {
            WidgetWindowState::Shown => {
                commands.push(Command::Hide(WindowId::Widget));
                self.state = WidgetWindowState::Hidden;
            },
            WidgetWindowState::Hidden => {
                match position_widget_window(registry) {
                    Some(point) => {
                        commands.push(Command::MoveTo(WindowId::Widget, point));
                    },
                    None => {},
                }
                commands.push(Command::Show(WindowId::Widget));
                commands.push(Command::Focus(WindowId::Widget));
                self.state = WidgetWindowState::Shown;
            },
        }
        assert(commands@ =~= toggle_commands(old(self)@, *registry));
        commands
    }

    /// Hides the widget after it lost input focus. Does nothing if the
    /// widget is hidden already.
    pub fn on_focus_lost(&mut self) -> (commands: Vec<Command>)
        ensures
            final(self)@ == WidgetWindowState::Hidden,
            commands@ == focus_lost_commands(old(self)@),
    {
        let mut commands: Vec<Command> = Vec::new();
        match self.state {
            WidgetWindowState::Shown => {
                commands.push(Command::Hide(WindowId::Widget));
                self.state = WidgetWindowState::Hidden;
            },
            WidgetWindowState::Hidden => {},
        }
        assert(commands@ =~= focus_lost_commands(old(self)@));
        commands
    }
}

/// Two toggles in a row bring a hidden widget back to hidden, provided
/// the widget window exists at both or at neither.
pub proof fn lemma_toggle_twice_returns_to_hidden(first: Registry, second: Registry)
    requires
        first.widget_window == second.widget_window,
    ensures
        toggled_state(toggled_state(WidgetWindowState::Hidden, first), second)
            == WidgetWindowState::Hidden,
{
}

/// Two toggles in a row leave any state as it was, provided the widget
/// window exists at both or at neither.
pub proof fn lemma_toggle_is_an_involution(
    state: WidgetWindowState,
    first: Registry,
    second: Registry,
)
    requires
        first.widget_window == second.widget_window,
    ensures
        toggled_state(toggled_state(state, first), second) == state,
{
}

/// Losing focus while hidden changes nothing and asks for nothing.
pub proof fn lemma_focus_lost_when_hidden()
    ensures
        focus_lost_commands(WidgetWindowState::Hidden) == Seq::<Command>::empty(),
{
}

/// A toggle that shows the widget places it exactly `TRAY_GAP` pixels
/// below the tray icon whenever that place fits the coordinate range.
pub proof fn lemma_widget_sits_below_tray(registry: Registry)
    requires
        widget_position(registry) is Some,
        below_y(registry.tray->Some_0.rect->Some_0, TRAY_GAP) <= i32::MAX,
    ensures
        ({
            let rect = registry.tray->Some_0.rect->Some_0;
            widget_position(registry)->Some_0.y - rect.y - rect.height == TRAY_GAP
        }),
{
}

} // verus!
