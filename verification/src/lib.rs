//! Core of a terminal dashboard: the state that the event loop owns, the
//! rules by which events change it, the decisions of the event producers and
//! the frame that is drawn from the state.

pub mod app;
pub mod area;
pub mod event;
pub mod key;
pub mod surface;
pub mod tasks;
pub mod ui;
