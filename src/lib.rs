//! Decision core of a filesystem change watcher.
//!
//! The operating system's notification facility and the log sink stay with
//! the caller: this library holds the watch registry, decides which
//! directory entries a recursive walk enters, classifies raw events and says
//! which new directories must be watched.
pub mod event;
pub mod kinds;
pub mod laws;
pub mod names;
pub mod registry;
pub mod state;
