//! Commands from the UI, and where each one goes.

use vstd::prelude::*;
use crate::controller::output_controller::OutputKind;

verus! {

/// Something the user asked for.
#[derive(Debug, Clone, PartialEq, Eq)]
pub enum AppCommand {
    /// Connect to OBS.
    Connect,
    /// Disconnect from OBS, stopping active outputs first.
    Disconnect,
    /// Reconnect, which refreshes everything.
    RefreshAll,
    /// Re-read inventory, audio, graph and lists without reconnecting.
    RefreshData,
    /// Make a scene the program scene.
    SwitchPrimaryScene(String),
    /// Switch the OBS profile.
    SetCurrentProfile(String),
    /// Create an OBS profile.
    CreateProfile(String),
    /// Remove an OBS profile.
    RemoveProfile(String),
    /// Switch the OBS scene collection.
    SetCurrentSceneCollection(String),
    /// Create an OBS scene collection.
    CreateSceneCollection(String),
    /// Mute or unmute an input.
    SetInputMute {
        /// Input name.
        input: String,
        /// New mute state.
        muted: bool,
    },
    /// Toggle an input's mute state in OBS.
    ToggleInputMute {
        /// Input name.
        input: String,
    },
    /// Set an input's volume.
    SetInputVolume {
        /// Input name.
        input: String,
        /// Bit pattern of the linear multiplier.
        volume_mul: u64,
    },
    /// Re-read the audio inputs of one scene for the mixer.
    RefreshMixerSceneAudio(String),
    /// Start the stream.
    StartStreaming,
    /// Stop the stream.
    StopStreaming,
    /// Start or stop the stream.
    SetStreaming(bool),
    /// Start a recording.
    StartRecording,
    /// Stop the recording.
    StopRecording,
    /// Start or stop recording.
    SetRecording(bool),
    /// Re-read both output statuses.
    RefreshOutputStatus,
    /// Poll statistics for the status bar.
    RefreshStats,
}

/// A request that needs a connected client; without one it is dropped.
#[derive(Debug, Clone, PartialEq, Eq)]
pub enum ClientRequest {
    /// Make a scene the program scene.
    SwitchScene(String),
    /// Switch profile, then publish the profile list.
    SetProfile(String),
    /// Create a profile, then publish the profile list.
    CreateProfile(String),
    /// Remove a profile, then publish the profile list.
    RemoveProfile(String),
    /// Switch scene collection, then refresh lists and live data.
    SetSceneCollection(String),
    /// Create a scene collection, then refresh lists and live data.
    CreateSceneCollection(String),
    /// Mute or unmute an input.
    SetInputMute {
        /// Input name.
        input: String,
        /// New mute state.
        muted: bool,
    },
    /// Toggle an input's mute state in OBS.
    ToggleInputMute(String),
    /// Set an input's volume.
    SetInputVolume {
        /// Input name.
        input: String,
        /// Bit pattern of the linear multiplier.
        volume_mul: u64,
    },
    /// Re-read both output statuses.
    RefreshOutputStatus,
    /// Poll statistics.
    RefreshStats,
    /// Re-read lists, output statuses and live data.
    RefreshData,
}

/// Where a command goes.
#[derive(Debug, Clone, PartialEq, Eq)]
pub enum CommandRoute {
    /// Start a new session (any old one is dropped first).
    Connect,
    /// End the session.
    Disconnect,
    /// A start/stop command on an output, with its guards.
    Output {
        /// Which output.
        kind: OutputKind,
        /// Start (`true`) or stop.
        active: bool,
    },
    /// A mixer refresh: announced as loading at once, failed at once
    /// without a client.
    MixerRefresh(String),
    /// A request for the connected client.
    Client(ClientRequest),
}

/// Where each command goes.
pub open spec fn route_of(cmd: AppCommand) -> CommandRoute {
    match cmd {
        AppCommand::Connect | AppCommand::RefreshAll => CommandRoute::Connect,
        AppCommand::Disconnect => CommandRoute::Disconnect,
        AppCommand::RefreshData => CommandRoute::Client(ClientRequest::RefreshData),
        AppCommand::SwitchPrimaryScene(id) => CommandRoute::Client(ClientRequest::SwitchScene(id)),
        AppCommand::SetCurrentProfile(n) => CommandRoute::Client(ClientRequest::SetProfile(n)),
        AppCommand::CreateProfile(n) => CommandRoute::Client(ClientRequest::CreateProfile(n)),
        AppCommand::RemoveProfile(n) => CommandRoute::Client(ClientRequest::RemoveProfile(n)),
        AppCommand::SetCurrentSceneCollection(n) => CommandRoute::Client(ClientRequest::SetSceneCollection(n)),
        AppCommand::CreateSceneCollection(n) => CommandRoute::Client(ClientRequest::CreateSceneCollection(n)),
        AppCommand::SetInputMute { input, muted } => CommandRoute::Client(ClientRequest::SetInputMute { input, muted }),
        AppCommand::ToggleInputMute { input } => CommandRoute::Client(ClientRequest::ToggleInputMute(input)),
        AppCommand::SetInputVolume { input, volume_mul } => CommandRoute::Client(
            ClientRequest::SetInputVolume { input, volume_mul },
        ),
        AppCommand::RefreshMixerSceneAudio(scene) => CommandRoute::MixerRefresh(scene),
        AppCommand::StartStreaming => CommandRoute::Output { kind: OutputKind::Stream, active: true },
        AppCommand::StopStreaming => CommandRoute::Output { kind: OutputKind::Stream, active: false },
        AppCommand::SetStreaming(a) => CommandRoute::Output { kind: OutputKind::Stream, active: a },
        AppCommand::StartRecording => CommandRoute::Output { kind: OutputKind::Record, active: true },
        AppCommand::StopRecording => CommandRoute::Output { kind: OutputKind::Record, active: false },
        AppCommand::SetRecording(a) => CommandRoute::Output { kind: OutputKind::Record, active: a },
        AppCommand::RefreshOutputStatus => CommandRoute::Client(ClientRequest::RefreshOutputStatus),
        AppCommand::RefreshStats => CommandRoute::Client(ClientRequest::RefreshStats),
    }
}

/// Decide where a command goes: sessions and outputs have their own
/// handling, a mixer refresh is always answered, and everything else needs
/// a connected client.
pub fn route_command(cmd: AppCommand) -> (r: CommandRoute)
    ensures
        r == route_of(cmd),
{
    match cmd {
        AppCommand::Connect | AppCommand::RefreshAll => CommandRoute::Connect,
        AppCommand::Disconnect => CommandRoute::Disconnect,
        AppCommand::RefreshData => CommandRoute::Client(ClientRequest::RefreshData),
        AppCommand::SwitchPrimaryScene(id) => CommandRoute::Client(ClientRequest::SwitchScene(id)),
        AppCommand::SetCurrentProfile(n) => CommandRoute::Client(ClientRequest::SetProfile(n)),
        AppCommand::CreateProfile(n) => CommandRoute::Client(ClientRequest::CreateProfile(n)),
        AppCommand::RemoveProfile(n) => CommandRoute::Client(ClientRequest::RemoveProfile(n)),
        AppCommand::SetCurrentSceneCollection(n) => CommandRoute::Client(ClientRequest::SetSceneCollection(n)),
        AppCommand::CreateSceneCollection(n) => CommandRoute::Client(ClientRequest::CreateSceneCollection(n)),
        AppCommand::SetInputMute { input, muted } => CommandRoute::Client(ClientRequest::SetInputMute { input, muted }),
        AppCommand::ToggleInputMute { input } => CommandRoute::Client(ClientRequest::ToggleInputMute(input)),
        AppCommand::SetInputVolume { input, volume_mul } => CommandRoute::Client(
            ClientRequest::SetInputVolume { input, volume_mul },
        ),
        AppCommand::RefreshMixerSceneAudio(scene) => CommandRoute::MixerRefresh(scene),
        AppCommand::StartStreaming => CommandRoute::Output { kind: OutputKind::Stream, active: true },
        AppCommand::StopStreaming => CommandRoute::Output { kind: OutputKind::Stream, active: false },
        AppCommand::SetStreaming(a) => CommandRoute::Output { kind: OutputKind::Stream, active: a },
        AppCommand::StartRecording => CommandRoute::Output { kind: OutputKind::Record, active: true },
        AppCommand::StopRecording => CommandRoute::Output { kind: OutputKind::Record, active: false },
        AppCommand::SetRecording(a) => CommandRoute::Output { kind: OutputKind::Record, active: a },
        AppCommand::RefreshOutputStatus => CommandRoute::Client(ClientRequest::RefreshOutputStatus),
        AppCommand::RefreshStats => CommandRoute::Client(ClientRequest::RefreshStats),
    }
}

} // verus!
