//! Core of an auto-updating application launcher.
//!
//! Given the ordered release history of a project and the identity of the
//! artifact installed on disk, this library decides whether an update is
//! needed, plans the minimal chain of incremental patches (or a full
//! reinstall), applies binary patches to byte buffers, and drives the whole
//! update cycle as an explicit state machine.  All I/O — network fetches,
//! file reads and writes, process replacement — stays outside, in the
//! program around the library.

pub mod codec;
pub mod decision;
pub mod digest;
pub mod engine;
pub mod model;
pub mod planner;

pub use model::{Asset, Release};
