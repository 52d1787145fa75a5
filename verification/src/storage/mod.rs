//! Persisted configuration and registry data, minus the file handling.

pub mod registry;
pub mod config;
pub mod atomic;
pub mod paths;
pub mod xdg;
