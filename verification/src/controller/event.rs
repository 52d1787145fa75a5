//! Events that flow from the OBS session back to the UI thread.

use vstd::prelude::*;
use crate::domain::audio::AudioInput;
use crate::domain::diagnostic::Diagnostic;
use crate::domain::graph::SceneGraph;
use crate::domain::meter::InputLevels;
use crate::domain::obs::ObsNamedList;
use crate::domain::output::{OutputRunState, OutputStatus};
use crate::domain::scene::SceneInventory;
use crate::domain::stats::{ObsStats, StreamHealth};
use crate::infra::error::AppError;

verus! {

/// What OBS reported about itself when the session was established.
#[derive(Debug, Clone, PartialEq, Eq)]
pub struct ConnectionInfo {
    /// OBS Studio version.
    pub obs_version: String,
    /// obs-websocket protocol version.
    pub websocket_version: String,
}

/// The stable status an output falls back to when a command on it failed:
/// a start that failed leaves it inactive, a stop (or a reconnect) that
/// failed leaves it active; a stable status stays as it is.
pub open spec fn settled_status(s: OutputStatus) -> OutputStatus {
    match s.state {
        OutputRunState::Starting => OutputStatus { active: false, state: OutputRunState::Inactive, detail: s.detail },
        OutputRunState::Stopping | OutputRunState::Reconnecting => OutputStatus {
            active: true,
            state: OutputRunState::Active,
            detail: s.detail,
        },
        _ => s,
    }
}

/// Status to show when the command that produced `pending` fails.
pub fn fallback_status_after_failed_output_command(pending: &OutputStatus) -> (s: OutputStatus)
    ensures
        s == settled_status(*pending),
        !(s.state == OutputRunState::Starting || s.state == OutputRunState::Stopping || s.state
            == OutputRunState::Reconnecting),
{
    let detail = match &pending.detail {
        Some(d) => Some(d.clone()),
        None => None,
    };
    match pending.state {
        OutputRunState::Starting => OutputStatus { active: false, state: OutputRunState::Inactive, detail },
        OutputRunState::Stopping | OutputRunState::Reconnecting => OutputStatus {
            active: true,
            state: OutputRunState::Active,
            detail,
        },
        state => OutputStatus { active: pending.active, state, detail },
    }
}

/// A failed stream or record command: the error to show, and the status
/// the output returns to.
#[derive(Debug, Clone, PartialEq, Eq)]
pub struct OutputCommandFailureRecovery {
    message: String,
    fallback_status: OutputStatus,
}

impl OutputCommandFailureRecovery {
    /// Error text of the failure.
    pub closed spec fn message_text(&self) -> Seq<char> {
        self.message@
    }

    /// Status the output returns to.
    pub closed spec fn fallback(&self) -> OutputStatus {
        self.fallback_status
    }

    /// A failure whose output returns to `fallback_status`, settled first:
    /// a failed command never leaves the output in a transition.
    pub fn with_failed_command_fallback_status(message: String, fallback_status: OutputStatus) -> (r: Self)
        ensures
            r.message_text() == message@,
            r.fallback() == settled_status(fallback_status),
    {
        let settled = fallback_status_after_failed_output_command(&fallback_status);
        OutputCommandFailureRecovery { message, fallback_status: settled }
    }

    /// A failure whose output returns to exactly `fallback_status`, even a
    /// transition.
    pub fn with_exact_fallback_status(message: String, fallback_status: OutputStatus) -> (r: Self)
        ensures
            r.message_text() == message@,
            r.fallback() == fallback_status,
    {
        OutputCommandFailureRecovery { message, fallback_status }
    }

    /// Error text of the failure.
    pub fn message(&self) -> (s: &str)
        ensures
            s@ == self.message_text(),
    {
        self.message.as_str()
    }

    /// Error text and fallback status, taken apart.
    pub fn into_parts(self) -> (r: (String, OutputStatus))
        ensures
            r.0@ == self.message_text(),
            r.1 == self.fallback(),
    {
        (self.message, self.fallback_status)
    }

    /// Status the output returns to.
    pub fn fallback_status(&self) -> (s: &OutputStatus)
        ensures
            *s == self.fallback(),
    {
        &self.fallback_status
    }
}

/// Something that happened in the OBS session, for the UI thread to apply.
#[derive(Debug, Clone)]
pub enum AppEvent {
    /// A connection attempt started.
    Connecting,
    /// The session is established.
    Connected(ConnectionInfo),
    /// The session ended.
    Disconnected,
    /// Fresh scene list.
    SceneInventoryUpdated(SceneInventory),
    /// OBS switched the program scene.
    CurrentSceneChanged(String),
    /// Fresh profile list.
    ProfilesUpdated(ObsNamedList),
    /// Fresh scene collection list.
    SceneCollectionsUpdated(ObsNamedList),
    /// Fresh live audio inputs.
    AudioInputsUpdated(Vec<AudioInput>),
    /// Starts a mixer scene audio refresh for the requested target scene.
    MixerAudioInputsLoading {
        /// Scene whose inputs are requested.
        scene: String,
    },
    /// Completes a mixer scene audio refresh; state decides whether it is
    /// stale.
    MixerAudioInputsUpdated {
        /// Scene the inputs belong to.
        scene: String,
        /// Inputs found in the scene.
        inputs: Vec<AudioInput>,
    },
    /// Fails a mixer scene audio refresh; state decides whether it is stale.
    MixerAudioInputsFailed {
        /// Scene whose inputs were requested.
        scene: String,
        /// Error text.
        message: String,
    },
    /// An input was muted or unmuted.
    InputMuteChanged {
        /// Input name.
        input: String,
        /// New mute state.
        muted: bool,
    },
    /// An input's volume changed.
    InputVolumeChanged {
        /// Input name.
        input: String,
        /// Bit pattern of the new linear multiplier.
        volume_mul: u64,
        /// Bit pattern of the new level in decibels.
        volume_db: u64,
    },
    /// Fresh stream status.
    StreamStatusUpdated(OutputStatus),
    /// Fresh record status.
    RecordStatusUpdated(OutputStatus),
    /// A stream command was sent; the output shows this status meanwhile.
    StreamCommandPending(OutputStatus),
    /// A record command was sent; the output shows this status meanwhile.
    RecordCommandPending(OutputStatus),
    /// The stream command succeeded.
    StreamCommandSucceeded,
    /// The record command succeeded.
    RecordCommandSucceeded,
    /// The stream command failed.
    StreamCommandFailed(OutputCommandFailureRecovery),
    /// The record command failed.
    RecordCommandFailed(OutputCommandFailureRecovery),
    /// A volume-meter frame for every active input.
    InputLevelsUpdated(Vec<InputLevels>),
    /// A statistics poll completed.
    StatsUpdated {
        /// Process counters.
        stats: ObsStats,
        /// Bit pattern of the stream bitrate in kbps, when one was derived.
        bitrate_kbps: Option<u64>,
        /// Stream output health, when the stream status read succeeded.
        stream: Option<StreamHealth>,
    },
    /// Fresh scene dependency graph.
    GraphUpdated(SceneGraph),
    /// Fresh diagnostics.
    DiagnosticsUpdated(Vec<Diagnostic>),
    /// Something failed.
    Error(AppError),
}

} // verus!
