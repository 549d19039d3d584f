//! Decisions of the terminal dashboard.

pub mod palette;
pub mod theme;
pub mod names;
pub mod config;
pub mod markdown;
pub mod app;
pub mod keys;
pub mod customize;
pub mod dispatch;
pub mod session;
pub mod view;
pub mod panels;
pub mod classic;
pub mod laws;
