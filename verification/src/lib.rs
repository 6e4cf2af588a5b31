//! Saving and loading of a scene graph.
//!
//! A live scene is a flat collection of tracked objects that point at their
//! parents by identifier. Saving turns it into an ordered list of records
//! that name their parents, writes that list as RON text, and picks a file
//! that does not exist yet. Loading reads such a text back into spawn
//! requests. File access itself is left to the caller: every function here
//! takes what was read or probed and returns what is to be written, removed
//! or spawned.

pub mod codec;
pub mod error;
pub mod hierarchy;
pub mod laws;
pub mod live_scene;
pub mod paths;
pub mod persistence;
pub mod scene;
