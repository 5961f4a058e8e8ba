//! Command dispatch core for a native application menu.
//!
//! The host UI shell renders a declarative menu tree and calls back with a
//! stable identifier whenever the user activates an item.  This crate owns
//! everything between that callback and the effects it triggers: the menu
//! tree and its construction-time validation, the closed identifier-to-command
//! table, the singleton window registry, the event sink toward the
//! presentation layer, and the router that ties them together.
pub mod application;
pub mod commands;
pub mod menu;
pub mod registry;
pub mod router;
pub mod sink;
