//! The native shell of a tray application: which windows are visible,
//! focused or hidden after each tray click, menu choice, close gesture or
//! focus loss, where the popover goes, and how the tray icon is chosen.
pub mod shell;
pub mod placement;
pub mod text;
pub mod presence;
pub mod tray;
pub mod menu;
pub mod icon;
pub mod commands;
pub mod events;
pub mod config;
pub mod laws;
