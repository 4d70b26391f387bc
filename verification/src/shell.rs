//! The one entry point for everything the windowing system reports: menu
//! clicks, tray clicks, focus changes and close requests go in, the
//! operations to carry out come back.

use vstd::prelude::*;
use crate::menu::{routed_action, Action, MenuActionId, Route, EXIT_CODE};
use crate::menu::{lemma_recognized_is_token, lemma_token_round_trip, route};
use crate::widget::{
    focus_lost_commands, toggle_commands, toggled_state, VisibilityController, WidgetWindowState,
};
use crate::window::{Command, Registry, WindowId};

verus! {

/// A button of the pointing device.
#[derive(Clone, Copy, Debug, PartialEq, Eq, Structural)]
pub enum MouseButton {
    Left,
    Right,
    Middle,
}

/// Whether a button went down or came up.
#[derive(Clone, Copy, Debug, PartialEq, Eq, Structural)]
pub enum MouseButtonState {
    Up,
    Down,
}

/// Something the windowing system reported.
#[derive(Debug, PartialEq, Eq)]
pub enum Event {
    /// A menu entry was chosen, in the menu bar or in the tray menu.
    MenuClicked(String),
    /// The tray icon was clicked.
    TrayClicked(MouseButton, MouseButtonState),
    /// The window with this label gained (`true`) or lost input focus.
    WindowFocusChanged(String, bool),
    /// The window with this label was asked to close.
    WindowCloseRequested(String),
}

/// The operations that show and focus the main window and then open
/// `target`, if there is one. Without a main window there is nothing to do.
pub open spec fn show_main_commands(registry: Registry, target: Option<Route>) -> Seq<Command> {
    if !registry.main_window {
        Seq::empty()
    } else {
        match target {
            Some(page) => seq![
                Command::Show(WindowId::Main),
                Command::Focus(WindowId::Main),
                Command::Navigate(WindowId::Main, page),
            ],
            None => seq![Command::Show(WindowId::Main), Command::Focus(WindowId::Main)],
        }
    }
}

/// The operations that turn a close request on the main window into a
/// hide: the window is hidden and the close is cancelled.
pub open spec fn close_to_hide_commands() -> Seq<Command> {
    seq![Command::Hide(WindowId::Main), Command::PreventClose(WindowId::Main)]
}

/// The widget's state after `action`.
pub open spec fn action_state(
    action: Action,
    state: WidgetWindowState,
    registry: Registry,
) -> WidgetWindowState {
    match action {
        Action::ToggleWidget => toggled_state(state, registry),
        _ => state,
    }
}

/// The operations that carry out `action`.
pub open spec fn action_commands(
    action: Action,
    state: WidgetWindowState,
    registry: Registry,
) -> Seq<Command> {
    match action {
        Action::ShowMain { route } => show_main_commands(registry, route),
        Action::ToggleWidget => toggle_commands(state, registry),
        Action::Quit => seq![Command::Exit(EXIT_CODE)],
    }
}

/// Whether a tray click toggles the widget: only the release of the left
/// button does.
pub open spec fn is_toggle_click(button: MouseButton, button_state: MouseButtonState) -> bool {
    button == MouseButton::Left && button_state == MouseButtonState::Up
}

/// The widget's state after `event`.
pub open spec fn next_state(
    state: WidgetWindowState,
    registry: Registry,
    event: Event,
) -> WidgetWindowState {
    match event {
        Event::MenuClicked(id) => match routed_action(id@) {
            Some(action) => action_state(action, state, registry),
            None => state,
        },
        Event::TrayClicked(button, button_state) => if is_toggle_click(button, button_state) {
            toggled_state(state, registry)
        } else {
            state
        },
        Event::WindowFocusChanged(label, focused) => if !focused && WindowId::recognize(label@)
            == Some(WindowId::Widget) {
            WidgetWindowState::Hidden
        } else {
            state
        },
        Event::WindowCloseRequested(_) => state,
    }
}

/// The operations that `event` asks for, in the order in which they are
/// to be carried out.
pub open spec fn commands_for(
    state: WidgetWindowState,
    registry: Registry,
    event: Event,
) -> Seq<Command> {
    match event {
        Event::MenuClicked(id) => match routed_action(id@) {
            Some(action) => action_commands(action, state, registry),
            None => Seq::empty(),
        },
        Event::TrayClicked(button, button_state) => if is_toggle_click(button, button_state) {
            toggle_commands(state, registry)
        } else {
            Seq::empty()
        },
        Event::WindowFocusChanged(label, focused) => if !focused && WindowId::recognize(label@)
            == Some(WindowId::Widget) {
            focus_lost_commands(state)
        } else {
            Seq::empty()
        },
        Event::WindowCloseRequested(label) => if WindowId::recognize(label@) == Some(
            WindowId::Main,
        ) {
            close_to_hide_commands()
        } else {
            Seq::empty()
        },
    }
}

/// Shows and focuses the main window and opens `target`, if there is one.
pub fn show_main(registry: &Registry, target: Option<Route>) -> (commands: Vec<Command>)
    ensures
        commands@ == show_main_commands(*registry, target),
{
    let mut commands: Vec<Command> = Vec::new();
    if registry.main_window {
        commands.push(Command::Show(WindowId::Main));
        commands.push(Command::Focus(WindowId::Main));
        match target {
            Some(page) => {
                commands.push(Command::Navigate(WindowId::Main, page));
            },
            None => {},
        }
    }
    assert(commands@ =~= show_main_commands(*registry, target));
    commands
}

/// Answers a close request on the window with this label. The main
/// window is hidden instead of closed; any other window closes as asked.
pub fn on_close_requested(label: &str) -> (commands: Vec<Command>)
    ensures
        commands@ == if WindowId::recognize(label@) == Some(WindowId::Main) {
            close_to_hide_commands()
        } else {
            Seq::empty()
        },
{
    let mut commands: Vec<Command> = Vec::new();
    match WindowId::parse(label) {
        Some(WindowId::Main) => {
            commands.push(Command::Hide(WindowId::Main));
            commands.push(Command::PreventClose(WindowId::Main));
            assert(commands@ =~= close_to_hide_commands());
        },
        _ => {},
    }
    commands
}

/// Carries out `action` on the controller and returns its operations.
pub fn perform(
    controller: &mut VisibilityController,
    registry: &Registry,
    action: Action,
) -> (commands: Vec<Command>)
    ensures
        final(controller)@ == action_state(action, old(controller)@, *registry),
        commands@ == action_commands(action, old(controller)@, *registry),
{
    match action {
        Action::ShowMain { route } => show_main(registry, route),
        Action::ToggleWidget => controller.toggle(registry),
        Action::Quit => {
            let mut commands: Vec<Command> = Vec::new();
            commands.push(Command::Exit(EXIT_CODE));
            assert(commands@ =~= seq![Command::Exit(EXIT_CODE)]);
            commands
        },
    }
}

/// Handles one event: updates the widget's state and returns the
/// operations to carry out, in order. An event that the shell has no
/// answer to changes nothing and returns no operation.
pub fn dispatch(
    controller: &mut VisibilityController,
    registry: &Registry,
    event: &Event,
) -> (commands: Vec<Command>)
    ensures
        final(controller)@ == next_state(old(controller)@, *registry, *event),
        commands@ == commands_for(old(controller)@, *registry, *event),
{
    match event {
        Event::MenuClicked(id) => match route(id.as_str()) {
            Some(action) => perform(controller, registry, action),
            None => Vec::new(),
        },
        Event::TrayClicked(button, button_state) => {
            match (button, button_state) {
                (MouseButton::Left, MouseButtonState::Up) => controller.toggle(registry),
                _ => Vec::new(),
            }
        },
        Event::WindowFocusChanged(label, focused) => {
            if *focused {
                Vec::new()
            } else {
                match WindowId::parse(label.as_str()) {
                    Some(WindowId::Widget) => controller.on_focus_lost(),
                    _ => Vec::new(),
                }
            }
        },
        Event::WindowCloseRequested(label) => on_close_requested(label.as_str()),
    }
}

/// A menu click on an entry's identifier does what that entry's one
/// action says, and nothing else.
pub proof fn lemma_menu_click_performs_action(
    state: WidgetWindowState,
    registry: Registry,
    id: String,
    entry: MenuActionId,
)
    requires
        id@ == entry.token(),
    ensures
        next_state(state, registry, Event::MenuClicked(id)) == action_state(
            entry.action_of(),
            state,
            registry,
        ),
        commands_for(state, registry, Event::MenuClicked(id)) == action_commands(
            entry.action_of(),
            state,
            registry,
        ),
{
    lemma_token_round_trip(entry);
}

/// A menu click on an identifier that names no entry changes nothing and
/// asks for nothing.
pub proof fn lemma_unknown_menu_id_is_ignored(
    state: WidgetWindowState,
    registry: Registry,
    id: String,
)
    requires
        forall|entry: MenuActionId| id@ != entry.token(),
    ensures
        next_state(state, registry, Event::MenuClicked(id)) == state,
        commands_for(state, registry, Event::MenuClicked(id)) == Seq::<Command>::empty(),
{
    if MenuActionId::recognize(id@) is Some {
        lemma_recognized_is_token(id@, MenuActionId::recognize(id@)->Some_0);
    }
}

/// The tray click and the two menu entries for the widget are one and the
/// same toggle.
pub proof fn lemma_toggle_sources_agree(
    state: WidgetWindowState,
    registry: Registry,
    id: String,
)
    requires
        id@ == MenuActionId::ToggleTimer.token() || id@ == MenuActionId::TrayTimer.token(),
    ensures
        next_state(state, registry, Event::MenuClicked(id)) == toggled_state(state, registry),
        commands_for(state, registry, Event::MenuClicked(id)) == toggle_commands(state, registry),
        next_state(state, registry, Event::TrayClicked(MouseButton::Left, MouseButtonState::Up))
            == toggled_state(state, registry),
        commands_for(state, registry, Event::TrayClicked(MouseButton::Left, MouseButtonState::Up))
            == toggle_commands(state, registry),
{
    lemma_token_round_trip(MenuActionId::ToggleTimer);
    lemma_token_round_trip(MenuActionId::TrayTimer);
}

/// A close request on the main window hides the window and cancels the
/// close, whatever the state, and leaves the widget as it was.
pub proof fn lemma_close_request_hides_main(
    state: WidgetWindowState,
    registry: Registry,
    label: String,
)
    requires
        label@ == WindowId::Main.label_text(),
    ensures
        next_state(state, registry, Event::WindowCloseRequested(label)) == state,
        commands_for(state, registry, Event::WindowCloseRequested(label)) == seq![
            Command::Hide(WindowId::Main),
            Command::PreventClose(WindowId::Main),
        ],
{
    crate::window::lemma_label_round_trip(WindowId::Main);
}

/// After a close request the main window can be shown again: while it
/// exists, the tray's entry for it shows and focuses it.
pub proof fn lemma_main_can_be_shown_after_close(
    state: WidgetWindowState,
    registry: Registry,
    label: String,
    id: String,
)
    requires
        label@ == WindowId::Main.label_text(),
        id@ == MenuActionId::TrayShow.token(),
        registry.main_window,
    ensures
        commands_for(
            next_state(state, registry, Event::WindowCloseRequested(label)),
            registry,
            Event::MenuClicked(id),
        ) == seq![Command::Show(WindowId::Main), Command::Focus(WindowId::Main)],
{
    lemma_token_round_trip(MenuActionId::TrayShow);
}

/// The process ends only on the tray's quit entry: no other event asks
/// for an exit.
pub proof fn lemma_only_quit_exits(
    state: WidgetWindowState,
    registry: Registry,
    event: Event,
    i: int,
)
    requires
        0 <= i < commands_for(state, registry, event).len(),
        commands_for(state, registry, event)[i] is Exit,
    ensures
        event matches Event::MenuClicked(id) && id@ == MenuActionId::TrayQuit.token(),
        commands_for(state, registry, event) == seq![Command::Exit(EXIT_CODE)],
{
    match event {
        Event::MenuClicked(id) => {
            let entry = MenuActionId::recognize(id@)->Some_0;
            lemma_recognized_is_token(id@, entry);
        },
        _ => {},
    }
}

/// Losing focus while the widget is hidden changes nothing and asks for
/// nothing, whichever window lost it.
pub proof fn lemma_focus_lost_when_hidden_is_ignored(registry: Registry, label: String)
    ensures
        next_state(
            WidgetWindowState::Hidden,
            registry,
            Event::WindowFocusChanged(label, false),
        ) == WidgetWindowState::Hidden,
        commands_for(WidgetWindowState::Hidden, registry, Event::WindowFocusChanged(label, false))
            == Seq::<Command>::empty(),
{
}

} // verus!
