//! Orion RPC: a tray application that publishes a Discord rich presence,
//! keeps itself to one running instance, manages its own start-up entry
//! and offers updates published on GitHub.
//!
//! This crate holds the application's decisions: configuration, version
//! selection, the start-up entry, the presence worker's state machine,
//! the routing of commands between the backend, the presence worker and
//! the window process, and the window's view model.

pub mod auto_launch;
pub mod backend;
pub mod config;
pub mod instance;
pub mod version;
pub mod rpc;
pub mod ui;
pub mod updater;
