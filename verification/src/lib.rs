//! Diagnostic client core for an OPC-UA monitoring tool.
//!
//! The crate holds the protocol orchestration logic: address parsing and
//! validation, the staged network diagnostic state machine, the bounded
//! cycle-safe address-space crawler, subscription and monitored-item
//! bookkeeping, and the data-change dispatcher.  Network and file I/O,
//! and rendering, live outside the library and drive it through plain
//! values.

pub mod app;
pub mod bookmarks;
pub mod browser;
pub mod certificates;
pub mod client;
pub mod clock;
pub mod crawler;
pub mod diagnostics;
pub mod discovery;
pub mod error_panel;
pub mod export;
pub mod i18n;
pub mod panels;
pub mod precheck;
pub mod settings;
pub mod status_codes;
pub mod subscription;
pub mod subscription_manager;
pub mod text;
