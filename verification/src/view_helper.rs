//! Helpers that keep a piece of state for the view and leave the rendering
//! to the application.

pub mod input;
