//! sat-helix-ide: a workspace orchestrator composing a Helix-centred Zellij
//! session. This crate holds the verified core: configuration, layout and
//! keybinding generation, pane decisions, setup planning and status parsing.

pub mod text;
pub mod paths;
pub mod config;
pub mod zellij;
pub mod actions;
pub mod setup;
pub mod venv;
pub mod venv_selector;
pub mod statusbar;
pub mod workspace;
pub mod protocol;
pub mod error;
pub mod tools;
pub mod ipc;
pub mod resolve;
