//! SceneDeck core: the verified scene, hotkey, registry, diagnostics and
//! mixer logic behind the OBS control surface.

pub mod assoc;
pub mod controller;
pub mod domain;
pub mod infra;
pub mod obs;
pub mod text;
pub mod storage;
pub mod services;
