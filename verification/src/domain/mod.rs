//! Pure application concepts, free of GTK and of the OBS protocol.

pub mod appearance;
pub mod audio;
pub mod diagnostic;
pub mod graph;
pub mod hotkey;
pub mod icon;
pub mod meter;
pub mod mixer;
pub mod obs;
pub mod registry;
pub mod output;
pub mod role;
pub mod scene;
pub mod stats;
