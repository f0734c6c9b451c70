//! Command-protocol core for SH1106-class monochrome display controllers.
//!
//! The crate models the controller's closed command set, its bit-exact
//! encoding into raw command bytes, the transport capability through which
//! those bytes reach a bus, and the builder that picks a display geometry.

pub mod builder;
pub mod command;
pub mod sink;
