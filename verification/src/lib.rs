//! The interaction core of a terminal kanban board: key bindings and their
//! resolution, the focus and screen-mode navigation model, popups, and the
//! command palette's search state.
//!
//! Everything here is a pure, single-threaded state machine: rendering,
//! persistence and channels live outside and talk to it through plain values.

pub mod text;
pub mod key;
pub mod actions;
pub mod state;
pub mod kanban;
pub mod navigation;
pub mod widgets;
pub mod app;
pub mod ui_helper;
