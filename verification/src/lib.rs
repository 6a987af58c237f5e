//! Subprocess lifecycle and streaming-output coordinator.
//!
//! The library models the core of a desktop shell that runs one external
//! console tool at a time: a single-slot registry of the running process,
//! the framing rules that turn raw child output into discrete notifications,
//! the completion watcher that emits exactly one terminal notification, and
//! the launch/cancel decisions that tie them together.  The operating-system
//! work itself (spawning, reading pipes, killing a process tree) is done by
//! an unverified shell around the library, which feeds plain values into the
//! verified decision functions and carries their verdicts out.

pub mod cache;
pub mod coordinator;
pub mod errors;
pub mod protocol;
pub mod pump;
pub mod registry;
pub mod text;
pub mod watcher;
