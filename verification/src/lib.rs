//! Verified core of the hyprbar status bar: the state machines, parsers,
//! calendar arithmetic and text formatting behind the bar's pills and panels.

pub mod text;
pub mod arch_logo;
pub mod components;
pub mod confirm;
pub mod command;
pub mod clock;
pub mod date;
pub mod input;
pub mod notifications;
pub mod profile;
pub mod schedule;
pub mod worker;
