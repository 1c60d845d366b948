//! Tab state, event recording and replay, broker bridging and command
//! dispatch for a desktop browser shell.

pub mod event;
pub mod tabs;
pub mod event_log;
pub mod replay;
pub mod broker;
pub mod tab_ui;
pub mod browser;
