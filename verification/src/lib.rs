//! Protocol core of a desktop status bar's system tray: the registration
//! broker, the discovery client and the context-menu decoder of the
//! StatusNotifierItem protocol, as pure state transitions over plain values.

pub mod text;
pub mod wire;
pub mod registry;
pub mod watcher;
pub mod property;
pub mod host;
pub mod cache;
pub mod menu;
pub mod config;
