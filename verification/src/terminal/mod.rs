//! Terminal panes: their context (working directory, shell, commands), the
//! registry of the active pane, output replay and the output queue.
pub mod channel_manager;
pub mod commands;
pub mod context_registry;
pub mod context_service;
pub mod replay;
pub mod types;
