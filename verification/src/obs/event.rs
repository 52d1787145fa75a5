//! OBS events, normalized before they reach the controller.

use vstd::prelude::*;
use crate::domain::meter::InputLevels;
use crate::domain::output::OutputStatus;

verus! {

/// OBS-originated event normalized before it reaches the controller.
#[derive(Debug, Clone, PartialEq, Eq)]
pub enum ObsEvent {
    /// Streaming output state changed.
    StreamStatusUpdated(OutputStatus),
    /// Recording output state changed.
    RecordStatusUpdated(OutputStatus),
    /// OBS program scene changed.
    CurrentProgramSceneChanged(String),
    /// An input's mute state changed.
    InputMuteChanged {
        /// OBS input name.
        input: String,
        /// New mute state.
        muted: bool,
    },
    /// An input's volume changed.
    InputVolumeChanged {
        /// OBS input name.
        input: String,
        /// Bit pattern of the linear volume multiplier.
        volume_mul: u64,
        /// Bit pattern of the volume in decibels.
        volume_db: u64,
    },
    /// A volume-meter frame for every active input.
    InputLevelsUpdated(Vec<InputLevels>),
    /// Input inventory changed and the active scene audio list should refresh.
    InputsChanged,
    /// Scene item membership changed and scene-derived audio should refresh.
    SceneItemsChanged,
    /// Active OBS profile changed.
    CurrentProfileChanged(String),
    /// OBS profile list changed.
    ProfileListChanged(Vec<String>),
    /// Active OBS scene collection changed.
    CurrentSceneCollectionChanged(String),
    /// OBS scene collection list changed.
    SceneCollectionListChanged(Vec<String>),
    /// OBS scene inventory changed.
    SceneListChanged,
    /// Event not relevant to the current UI state.
    Ignored,
}

} // verus!
