//! Runtime application state and the decisions the controller makes.

pub mod command;
pub mod dependencies;
pub mod event;
pub mod output_controller;
pub mod refresh_controller;
pub mod state;
