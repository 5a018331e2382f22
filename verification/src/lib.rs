//! Update orchestration for the Westward desktop application.
//!
//! The library decides whether a newer release should be offered, picks the
//! asset that fits the running platform, tracks the progress of a download
//! and drives the state that the presentation layer shows. It performs no
//! I/O itself: the embedding program feeds it what it read and carries out
//! the commands it hands back.

pub mod decision;
pub mod download;
pub mod orchestrator;
pub mod platform;
pub mod release;
pub mod store;
pub mod timestamp;
pub mod version;
