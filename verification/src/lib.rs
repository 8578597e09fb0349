//! Supervision of a single backend process on behalf of a desktop shell.
//!
//! The shell starts the backend once at boot and stops it once at exit. This
//! crate holds every decision of that life cycle as verified code; the
//! operating-system work itself (reading the configuration file, spawning,
//! terminating) is handed in by the caller as plain values or hooks.

pub mod config;
pub mod document;
pub mod launcher;
pub mod notice;
pub mod platform;
pub mod reaper;
pub mod registry;
pub mod supervisor;
pub mod texts;
