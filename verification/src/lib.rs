//! Verified core of the sys-tui pair of programs: the telemetry agent that
//! runs on the Mac mini and the terminal dashboard that polls it.
//!
//! `agent` holds the agent's decisions (configuration, authorization, the
//! LLM endpoint replies, the process history and the file-event queue);
//! `tui` holds the dashboard's state machine, configuration and colour
//! logic; `wire` holds the values the two exchange.

pub mod text;
pub mod wire;
pub mod agent;
pub mod tui;
