//! Core logic of a terminal game menu: a selectable list with circular
//! wraparound, a home-screen controller that turns key presses into actions,
//! and a registry mapping each application mode to its active components.

pub mod action;
pub mod channel;
pub mod config;
pub mod home;
pub mod key;
pub mod list;
pub mod mode;
