//! Stateful helpers for building a view.

pub mod input;
