//! Account state for a tray menu: loading a snapshot of the accounts on disk,
//! projecting it into a menu description, deciding which filesystem events ask
//! for the menu to be rebuilt, and mapping menu activations to intents.

pub mod text;
pub mod accounts;
pub mod usage;
pub mod snapshot;
pub mod menu;
pub mod watch;
pub mod dispatch;
