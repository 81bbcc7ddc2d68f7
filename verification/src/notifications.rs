//! The notifications pill: hyprnotify's published state and history, the
//! panel's discrete scroll, and the text of each history row.

pub mod action;
pub mod pill;
pub mod state;
