//! Normalizes what OBS reports into the domain types.
//!
//! The websocket client hands these functions the plain values it read; the
//! rules for turning them into domain state live here.

use vstd::prelude::*;
use crate::domain::output::{OutputRunState, OutputStatus};
use crate::domain::scene::{Scene, SceneInventory};

verus! {

/// Output lifecycle states as obs-websocket reports them.
#[derive(Debug, Clone, Copy, PartialEq, Eq, Structural)]
pub enum ObsOutputState {
    /// A request to start the output has been issued.
    Starting,
    /// Output started successfully.
    Started,
    /// A request to stop the output has been issued.
    Stopping,
    /// Output stopped successfully.
    Stopped,
    /// Output disconnected and is reconnecting.
    Reconnecting,
    /// Output reconnected successfully.
    Reconnected,
    /// Current output paused.
    Paused,
    /// Current output resumed.
    Resumed,
    /// Any state this build does not know.
    Unknown,
}

/// The normalized run state of a reported output state: the moments of a
/// lifecycle collapse into its stable states.
pub open spec fn run_state_of(state: ObsOutputState) -> OutputRunState {
    match state {
        ObsOutputState::Starting => OutputRunState::Starting,
        ObsOutputState::Started => OutputRunState::Active,
        ObsOutputState::Stopping => OutputRunState::Stopping,
        ObsOutputState::Stopped => OutputRunState::Inactive,
        ObsOutputState::Reconnecting => OutputRunState::Reconnecting,
        ObsOutputState::Reconnected => OutputRunState::Active,
        ObsOutputState::Paused => OutputRunState::Paused,
        ObsOutputState::Resumed => OutputRunState::Active,
        ObsOutputState::Unknown => OutputRunState::Unknown,
    }
}

/// Convert an OBS output lifecycle state into the normalized state.
pub fn map_output_state(state: ObsOutputState) -> (r: OutputRunState)
    ensures
        r == run_state_of(state),
{
    match state {
        ObsOutputState::Starting => OutputRunState::Starting,
        ObsOutputState::Started => OutputRunState::Active,
        ObsOutputState::Stopping => OutputRunState::Stopping,
        ObsOutputState::Stopped => OutputRunState::Inactive,
        ObsOutputState::Reconnecting => OutputRunState::Reconnecting,
        ObsOutputState::Reconnected => OutputRunState::Active,
        ObsOutputState::Paused => OutputRunState::Paused,
        ObsOutputState::Resumed => OutputRunState::Active,
        ObsOutputState::Unknown => OutputRunState::Unknown,
    }
}

/// Convert an output state-change event into an output status.
pub fn map_output_status(active: bool, state: ObsOutputState, detail: Option<String>) -> (s: OutputStatus)
    ensures
        s == (OutputStatus { active, state: run_state_of(state), detail }),
{
    OutputStatus { active, state: map_output_state(state), detail }
}

/// Convert a `GetStreamStatus` reply: reconnecting wins over active.
pub fn map_stream_status(active: bool, reconnecting: bool) -> (s: OutputStatus)
    ensures
        s == (OutputStatus {
            active,
            state: if reconnecting {
                OutputRunState::Reconnecting
            } else if active {
                OutputRunState::Active
            } else {
                OutputRunState::Inactive
            },
            detail: None,
        }),
{
    OutputStatus::new(
        active,
        if reconnecting {
            OutputRunState::Reconnecting
        } else if active {
            OutputRunState::Active
        } else {
            OutputRunState::Inactive
        },
    )
}

/// Convert a `GetRecordStatus` reply: paused wins over active.
pub fn map_record_status(active: bool, paused: bool) -> (s: OutputStatus)
    ensures
        s == (OutputStatus {
            active,
            state: if paused {
                OutputRunState::Paused
            } else if active {
                OutputRunState::Active
            } else {
                OutputRunState::Inactive
            },
            detail: None,
        }),
{
    OutputStatus::new(
        active,
        if paused {
            OutputRunState::Paused
        } else if active {
            OutputRunState::Active
        } else {
            OutputRunState::Inactive
        },
    )
}

/// Convert the `GetSceneList` reply into the scene inventory.
///
/// OBS lists scenes bottom-up (the highest index is the first scene in the
/// switcher), so the list is reversed into the user's switcher order.
pub fn map_scenes(scene_names: Vec<String>, current: Option<String>) -> (inv: SceneInventory)
    ensures
        inv.scenes@.len() == scene_names@.len(),
        forall|i: int|
            0 <= i < scene_names@.len() ==> {
                &&& #[trigger] inv.scenes@[i].id == scene_names@[scene_names@.len() - 1 - i]
                &&& inv.scenes@[i].name == scene_names@[scene_names@.len() - 1 - i]
            },
        inv.current_id == current,
        inv.previous_id is None,
{
    let mut scenes: Vec<Scene> = Vec::new();
    let n = scene_names.len();
    let mut i: usize = 0;
    while i < n
        invariant
            i <= n,
            n == scene_names@.len(),
            scenes@.len() == i,
            forall|j: int|
                0 <= j < i ==> {
                    &&& #[trigger] scenes@[j].id == scene_names@[n - 1 - j]
                    &&& scenes@[j].name == scene_names@[n - 1 - j]
                },
        decreases n - i,
    {
        let name = &scene_names[n - 1 - i];
        scenes.push(Scene { id: name.clone(), name: name.clone() });
        i = i + 1;
    }
    SceneInventory { scenes, current_id: current, previous_id: None }
}

} // verus!
