//! The decisions behind the popup: grid cells, placement, the event
//! editor and settings drafts, and the view state machine.
pub mod agenda;
pub mod calendar;
pub mod editor;
pub mod popup;
pub mod settings;
pub mod style;
pub mod view;
