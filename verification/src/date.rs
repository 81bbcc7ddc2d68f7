//! The date pill and its calendar panel.

pub mod action;
pub mod grid;
pub mod pill;
pub mod view;
