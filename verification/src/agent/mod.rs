//! Decisions of the telemetry agent.

pub mod config;
pub mod api;
pub mod ollama;
pub mod history;
pub mod events;
pub mod clock;
pub mod disks;
