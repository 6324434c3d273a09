//! Orchestration core of a playback daemon.
//!
//! The daemon lets a remote-control session drive local audio playback and
//! exposes that playback over a desktop media-control surface.  This crate
//! holds the verified core: the playback state machine, the backend process
//! supervisor's bookkeeping, the control-surface bridge, and the event
//! multiplexer that serializes the three event sources.  Process spawning,
//! byte I/O and IPC live outside the library and communicate with it through
//! plain events and effects.

pub mod bridge;
pub mod laws;
pub mod machine;
pub mod mux;
pub mod supervisor;
pub mod types;
