//! Zellij integration: session layouts, the private runtime config and
//! session listing.

pub mod layout;
pub mod client;
pub mod runtime_config;
pub mod merge;
