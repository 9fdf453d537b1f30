//! Command-line core of the Basalto plugin ecosystem: the decisions it makes
//! about plugins, configuration files, versions and command routing.

pub mod text;
pub mod naming;
pub mod scan;
pub mod versions;
pub mod size;
pub mod setup;
pub mod config;
pub mod plugins;
pub mod dispatch;
pub mod layout;
pub mod contract;
pub mod loader;
pub mod report;
pub mod help;
pub mod words;
pub mod updates;
pub mod cache;
