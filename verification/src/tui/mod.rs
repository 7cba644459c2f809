//! The terminal interface as a state machine: keys, server events and results
//! of sends come in, and a new state with something to do comes out.

pub mod app;
pub mod dialog_laws;
pub mod input;
pub mod key_laws;
pub mod laws;
pub mod popup;
pub mod report_laws;
pub mod screen_laws;
pub mod screens;
pub mod send;
pub mod steps;
