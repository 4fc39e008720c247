//! Decision logic of the app-server daemon's lifecycle and updater loop, and of
//! the permission and capacity rules applied when a multi-agent session spawns
//! a child agent.

pub mod agents;
pub mod identity;
pub mod lifecycle;
pub mod permissions;
pub mod proxy;
pub mod records;
pub mod runtime;
pub mod settings;
pub mod strings;
pub mod update;
