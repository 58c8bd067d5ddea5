//! Resolution of a launch argument into a launch context: a file to open, a
//! collaboration room to join with optional inline text, or nothing.
pub mod args;
pub mod deep_link;
pub mod launch;
