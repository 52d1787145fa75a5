//! Validation and derivation logic over the domain types.

pub mod audio_service;
pub mod doctor_service;
pub mod graph_service;
pub mod hotkey_service;
pub mod scene_service;
