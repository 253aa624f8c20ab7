//! A playback daemon's core: a lazily initialised shared cell, the
//! playback status and its transport state machine, and the on-disk
//! track cache's decisions.

pub mod singleton;
pub mod cache;
pub mod catalog;
pub mod config;
pub mod playback;
pub mod remote;
pub mod status;
