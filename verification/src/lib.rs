//! Verified core of the experience plugin of a timeline application.
//!
//! The plugin offers two things to its host: a feed of timeline entries for a
//! time range (the experiences stored in that range followed by one "create"
//! slot per hour), and the flow that creates an experience on the experiences
//! server and registers it in the local store.

pub mod client;
pub mod create;
pub mod error;
pub mod event;
pub mod feed;
pub mod server;
pub mod timing;
pub mod upstream;
pub mod web;
