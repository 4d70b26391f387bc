//! Decision logic of a tray-resident desktop shell: where the popup widget
//! goes, when it is shown or hidden, what the tray title reads, and which
//! window operations each menu, tray and window event asks for.
//!
//! Everything here works on plain values. The embedding program reads the
//! windowing system, hands the observations in, and carries out the
//! operations that come back.

pub mod geometry;
pub mod text;
pub mod title;
pub mod menu;
pub mod window;
pub mod widget;
pub mod shell;
pub mod layout;
