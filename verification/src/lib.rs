//! Core library of a terminal client for internet radio.
//!
//! The playback queue, the stream-metadata model, the player control
//! protocol strings, and the supervisor's decision logic live here; the
//! process spawning, socket I/O and terminal rendering around them do not.

pub mod config;
pub mod ipc;
pub mod metadata;
pub mod models;
pub mod queue;
pub mod records;
pub mod supervisor;
pub mod text;
pub mod ui;
