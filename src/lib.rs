//! Tracking of parcels: a local registry of tracked parcels, the
//! configuration, and the decisions and views of the `track` commands.

pub mod client;
pub mod command;
pub mod config;
pub mod state;
pub mod store;
pub mod views;
