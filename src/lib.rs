//! Runs a user-supplied shell command in reaction to player events.
//!
//! The library holds the logic: the rendering of a player event as a set of
//! environment variables, and the decisions taken once a child process has
//! exited. Spawning processes and relaying their output is left to the caller.

pub mod text;
pub mod env;
pub mod event;
pub mod subprocess;
