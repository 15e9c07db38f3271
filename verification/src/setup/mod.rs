//! Companion-tool setup (`sat-hx-ide setup`): the catalog, host
//! capabilities, install plans, selection state and config updates.

pub mod catalog;
pub mod detect;
pub mod plan;
pub mod execute;
pub mod config_write;
pub mod ui;
