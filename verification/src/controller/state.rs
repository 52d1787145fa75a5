//! Runtime application state — the single source of truth the UI thread
//! reads from and the session events write into.

use vstd::prelude::*;
use crate::controller::event::OutputCommandFailureRecovery;
use crate::domain::appearance::ThemeMode;
use crate::domain::audio::AudioInput;
use crate::domain::diagnostic::Diagnostic;
use crate::domain::graph::SceneGraph;
use crate::domain::mixer::{MixerMode, MixerSelection};
use crate::domain::obs::ObsNamedList;
use crate::domain::output::OutputStatus;
use crate::domain::scene::SceneInventory;
use crate::domain::stats::ObsStats;
use crate::storage::config::OutputConfig;
use crate::text::{opt_is, opt_str, opt_text_is, opt_view, owned, text_eq};

verus! {

// ── Navigation ────────────────────────────────────────────────────────────────

/// Pages of the main window.
#[derive(Debug, Clone, Copy, PartialEq, Eq, Structural)]
pub enum Page {
    /// Scene cards and output controls.
    Live,
    /// Audio mixer.
    Mixer,
    /// Scene dependency graph.
    Graph,
    /// Scene inventory and roles.
    Inventory,
    /// Scene architecture diagnostics.
    Doctor,
    /// Preferences.
    Settings,
}

impl Page {
    /// Stable stack child name.
    pub fn id(self) -> (s: &'static str)
        ensures
            s@ == match self {
                Page::Live => "live"@,
                Page::Mixer => "mixer"@,
                Page::Graph => "graph"@,
                Page::Inventory => "inventory"@,
                Page::Doctor => "doctor"@,
                Page::Settings => "settings"@,
            },
    {
        match self {
            Page::Live => "live",
            Page::Mixer => "mixer",
            Page::Graph => "graph",
            Page::Inventory => "inventory",
            Page::Doctor => "doctor",
            Page::Settings => "settings",
        }
    }

    /// Title shown in the sidebar.
    pub fn title(self) -> (s: String)
        ensures
            s@ == match self {
                Page::Live => "Live"@,
                Page::Mixer => "Mixer"@,
                Page::Graph => "Graph"@,
                Page::Inventory => "Inventory"@,
                Page::Doctor => "Doctor"@,
                Page::Settings => "Settings"@,
            },
    {
        owned(
            match self {
                Page::Live => "Live",
                Page::Mixer => "Mixer",
                Page::Graph => "Graph",
                Page::Inventory => "Inventory",
                Page::Doctor => "Doctor",
                Page::Settings => "Settings",
            },
        )
    }

    /// Symbolic icon name for the sidebar row.
    pub fn icon_name(self) -> (s: &'static str)
        ensures
            s@ == match self {
                Page::Live => "media-record-symbolic"@,
                Page::Mixer => "audio-volume-high-symbolic"@,
                Page::Graph => "view-grid-symbolic"@,
                Page::Inventory => "view-list-symbolic"@,
                Page::Doctor => "emblem-default-symbolic"@,
                Page::Settings => "preferences-system-symbolic"@,
            },
    {
        match self {
            Page::Live => "media-record-symbolic",
            Page::Mixer => "audio-volume-high-symbolic",
            Page::Graph => "view-grid-symbolic",
            Page::Inventory => "view-list-symbolic",
            Page::Doctor => "emblem-default-symbolic",
            Page::Settings => "preferences-system-symbolic",
        }
    }
}

// ── OBS connection ────────────────────────────────────────────────────────────

/// State of the connection to OBS.
#[derive(Debug, Clone, PartialEq, Eq)]
pub enum ObsStatus {
    /// No session.
    Disconnected,
    /// A connection attempt is running.
    Connecting,
    /// Connected to this OBS version.
    Connected {
        /// OBS Studio version.
        obs_version: String,
    },
    /// The last attempt failed with this error.
    Error(String),
}

impl ObsStatus {
    /// Status line text.
    pub fn label(&self) -> (s: String)
        ensures
            s@ == match *self {
                ObsStatus::Disconnected => "Disconnected"@,
                ObsStatus::Connecting => "Connecting…"@,
                ObsStatus::Connected { .. } => "Connected"@,
                ObsStatus::Error(_) => "Connection error"@,
            },
    {
        owned(
            match self {
                ObsStatus::Disconnected => "Disconnected",
                ObsStatus::Connecting => "Connecting…",
                ObsStatus::Connected { .. } => "Connected",
                ObsStatus::Error(_) => "Connection error",
            },
        )
    }

    /// Style class of the status indicator.
    pub fn css_class(&self) -> (s: &str)
        ensures
            s@ == match *self {
                ObsStatus::Disconnected => "obs-disconnected"@,
                ObsStatus::Connecting => "obs-connecting"@,
                ObsStatus::Connected { .. } => "obs-connected"@,
                ObsStatus::Error(_) => "obs-error"@,
            },
    {
        match self {
            ObsStatus::Disconnected => "obs-disconnected",
            ObsStatus::Connecting => "obs-connecting",
            ObsStatus::Connected { .. } => "obs-connected",
            ObsStatus::Error(_) => "obs-error",
        }
    }
}

// ── Mixer audio ──────────────────────────────────────────────────────────────

/// A failed mixer refresh for one scene.
#[derive(Debug, Clone, PartialEq, Eq)]
pub struct MixerAudioError {
    /// Scene whose inputs were requested.
    pub scene: String,
    /// Error text.
    pub message: String,
}

/// Inputs loaded for one scene.
#[derive(Debug, Clone)]
pub struct MixerAudioSnapshot {
    /// Scene the inputs belong to.
    pub scene: String,
    /// Inputs found in the scene.
    pub inputs: Vec<AudioInput>,
}

/// What a refresh event did to the mixer state.
#[derive(Debug, Clone, Copy, PartialEq, Eq, Structural)]
pub enum MixerAudioRefreshTransition {
    /// A refresh was requested.
    Loading,
    /// The requested refresh succeeded and was applied.
    Success,
    /// The requested refresh failed and was applied.
    Failure,
    /// A success for a scene no longer requested was ignored.
    StaleSuccess,
    /// A failure for a scene no longer requested was ignored.
    StaleFailure,
}

/// Mixer refresh bookkeeping.
///
/// `requested_scene` is a scene-level freshness marker, not a per-request
/// token: when several refreshes for the same scene are started, a success
/// for that scene is still current and is accepted. Responses for any other
/// scene are stale and ignored.
#[derive(Debug, Clone)]
pub struct MixerAudioRefreshState {
    /// Scene whose refresh is pending.
    pub requested_scene: Option<String>,
    /// Last applied snapshot.
    pub loaded: Option<MixerAudioSnapshot>,
    /// Last applied failure.
    pub error: Option<MixerAudioError>,
}

/// Whether a refresh for `scene` is pending.
pub open spec fn requested_for(r: MixerAudioRefreshState, scene: Seq<char>) -> bool {
    opt_is(r.requested_scene, scene)
}

/// Whether the last applied failure is for `scene`.
pub open spec fn error_for(r: MixerAudioRefreshState, scene: Seq<char>) -> bool {
    r.error matches Some(e) && e.scene@ == scene
}

/// Whether the last applied snapshot is for `scene`.
pub open spec fn loaded_for(r: MixerAudioRefreshState, scene: Seq<char>) -> bool {
    r.loaded matches Some(l) && l.scene@ == scene
}

impl Default for MixerAudioRefreshState {
    fn default() -> (r: MixerAudioRefreshState)
        ensures
            r.requested_scene is None && r.loaded is None && r.error is None,
    {
        MixerAudioRefreshState { requested_scene: None, loaded: None, error: None }
    }
}

/// Bookkeeping after a refresh for `scene` started: it is pending, and a
/// failure shown for it is cleared; the loaded snapshot is kept.
pub open spec fn after_loading(r: MixerAudioRefreshState, scene: String) -> MixerAudioRefreshState {
    MixerAudioRefreshState {
        requested_scene: Some(scene),
        error: if error_for(r, scene@) { None } else { r.error },
        ..r
    }
}

/// Bookkeeping after a successful refresh for `scene` arrived, and what
/// that did.
pub open spec fn after_success(r: MixerAudioRefreshState, scene: String, inputs: Vec<AudioInput>) -> (MixerAudioRefreshState, MixerAudioRefreshTransition) {
    if requested_for(r, scene@) {
        (
            MixerAudioRefreshState { requested_scene: None, loaded: Some(MixerAudioSnapshot { scene, inputs }), error: None },
            MixerAudioRefreshTransition::Success,
        )
    } else {
        (r, MixerAudioRefreshTransition::StaleSuccess)
    }
}

/// Bookkeeping after a failed refresh for `scene` arrived, and what that
/// did.
pub open spec fn after_failure(r: MixerAudioRefreshState, scene: String, message: String) -> (MixerAudioRefreshState, MixerAudioRefreshTransition) {
    if requested_for(r, scene@) {
        (
            MixerAudioRefreshState { requested_scene: None, error: Some(MixerAudioError { scene, message }), ..r },
            MixerAudioRefreshTransition::Failure,
        )
    } else {
        (r, MixerAudioRefreshTransition::StaleFailure)
    }
}

impl MixerAudioRefreshState {
    /// Start a refresh for `scene`; a failure shown for that scene is
    /// cleared, the loaded snapshot is kept.
    pub fn loading(&mut self, scene: String) -> (t: MixerAudioRefreshTransition)
        ensures
            t == MixerAudioRefreshTransition::Loading,
            *final(self) == after_loading(*old(self), scene),
    {
        let clear = match &self.error {
            Some(e) => text_eq(e.scene.as_str(), scene.as_str()),
            None => false,
        };
        self.requested_scene = Some(scene);
        if clear {
            self.error = None;
        }
        MixerAudioRefreshTransition::Loading
    }

    /// Apply a successful refresh for `scene`, unless another scene is
    /// requested by now.
    pub fn success(&mut self, scene: String, inputs: Vec<AudioInput>) -> (t: MixerAudioRefreshTransition)
        ensures
            (*final(self), t) == after_success(*old(self), scene, inputs),
    {
        if !opt_text_is(&self.requested_scene, scene.as_str()) {
            return MixerAudioRefreshTransition::StaleSuccess;
        }
        self.requested_scene = None;
        self.error = None;
        self.loaded = Some(MixerAudioSnapshot { scene, inputs });
        MixerAudioRefreshTransition::Success
    }

    /// Apply a failed refresh for `scene`, unless another scene is requested
    /// by now. The loaded snapshot is kept.
    pub fn failure(&mut self, scene: String, message: String) -> (t: MixerAudioRefreshTransition)
        ensures
            (*final(self), t) == after_failure(*old(self), scene, message),
    {
        if !opt_text_is(&self.requested_scene, scene.as_str()) {
            return MixerAudioRefreshTransition::StaleFailure;
        }
        self.requested_scene = None;
        self.error = Some(MixerAudioError { scene, message });
        MixerAudioRefreshTransition::Failure
    }

    /// Forget the pending request; whatever arrives for it is then stale.
    pub fn clear_pending(&mut self)
        ensures
            *final(self) == (MixerAudioRefreshState { requested_scene: None, ..*old(self) }),
    {
        self.requested_scene = None;
    }
}

/// A refresh answered for the scene it was started for is what the mixer
/// shows for that scene: exactly the inputs that arrived.
pub proof fn lemma_answered_refresh_is_shown(r: MixerAudioRefreshState, scene: String, inputs: Vec<AudioInput>)
    ensures
        ({
            let (after, t) = after_success(after_loading(r, scene), scene, inputs);
            &&& t == MixerAudioRefreshTransition::Success
            &&& !requested_for(after, scene@)
            &&& !error_for(after, scene@)
            &&& loaded_for(after, scene@)
            &&& after.loaded.unwrap().inputs == inputs
        }),
{
}

/// A refresh that failed for the scene it was started for shows that
/// failure, and keeps the snapshot that was loaded before.
pub proof fn lemma_failed_refresh_is_shown(r: MixerAudioRefreshState, scene: String, message: String)
    ensures
        ({
            let (after, t) = after_failure(after_loading(r, scene), scene, message);
            &&& t == MixerAudioRefreshTransition::Failure
            &&& !requested_for(after, scene@)
            &&& error_for(after, scene@)
            &&& after.error.unwrap().message == message
            &&& after.loaded == r.loaded
        }),
{
}

/// An answer for a scene that is not the requested one changes nothing.
pub proof fn lemma_stale_answers_change_nothing(r: MixerAudioRefreshState, scene: String, inputs: Vec<AudioInput>, message: String)
    requires
        !requested_for(r, scene@),
    ensures
        after_success(r, scene, inputs) == (r, MixerAudioRefreshTransition::StaleSuccess),
        after_failure(r, scene, message) == (r, MixerAudioRefreshTransition::StaleFailure),
{
}

/// Once a refresh is started for a scene, the mixer shows it loading,
/// whatever was loaded or failed for it before.
pub proof fn lemma_loading_hides_earlier_results(r: MixerAudioRefreshState, scene: String)
    ensures
        requested_for(after_loading(r, scene), scene@),
        !error_for(after_loading(r, scene), scene@),
        after_loading(r, scene).loaded == r.loaded,
{
}

/// What the mixer shows for one scene.
#[derive(Debug, Clone, Copy)]
pub enum MixerVisibleAudioStatus<'a> {
    /// A refresh for the scene is pending.
    Loading,
    /// The last refresh for the scene failed.
    Error(&'a MixerAudioError),
    /// The scene's loaded inputs.
    Loaded(&'a [AudioInput]),
    /// Nothing is known about the scene.
    Missing,
}

/// Whether `status` is what the mixer shows for `scene`: a pending refresh
/// wins over a failure, a failure over loaded inputs.
pub open spec fn audio_status_is(status: MixerVisibleAudioStatus, r: MixerAudioRefreshState, scene: Seq<char>) -> bool {
    if requested_for(r, scene) {
        status is Loading
    } else if error_for(r, scene) {
        status matches MixerVisibleAudioStatus::Error(e) && Some(*e) == r.error
    } else if loaded_for(r, scene) {
        status matches MixerVisibleAudioStatus::Loaded(inputs) && inputs@ == r.loaded.unwrap().inputs@
    } else {
        status is Missing
    }
}

/// Where the mixer takes its strips from.
#[derive(Debug, Clone, Copy)]
pub enum MixerVisibleRenderSource<'a> {
    /// The live inputs of the program scene.
    ActiveScene(&'a [AudioInput]),
    /// A scene-specific refresh target and its status.
    Scene {
        /// Target scene.
        scene: &'a str,
        /// What is known about it.
        status: MixerVisibleAudioStatus<'a>,
    },
    /// A scene mode without any scene to show.
    MissingScene,
}

/// Which rule chose the mixer's refresh target.
#[derive(Debug, Clone, Copy, PartialEq, Eq, Structural)]
pub enum MixerSceneRefreshTargetReason {
    /// Selected mode, selected scene.
    DirectSelectedScene,
    /// Pinned mode, pinned scene.
    DirectPinnedScene,
    /// Selected mode without a selection: the program scene.
    SelectedModeCurrentSceneFallback,
    /// Pinned mode without a pin: the selected scene.
    PinnedModeSelectedSceneFallback,
    /// Pinned mode without a pin or a selection: the program scene.
    PinnedModeCurrentSceneFallback,
}

/// Scene a scene-specific mixer refresh goes to, and why.
#[derive(Debug, Clone, Copy, PartialEq, Eq)]
pub struct MixerSceneRefreshTarget<'a> {
    /// Target scene.
    pub scene: &'a str,
    /// Rule that chose it.
    pub reason: MixerSceneRefreshTargetReason,
}

/// Refresh target for a mixer mode: the mode's own scene, else the
/// fallbacks in order; the active mode has none.
pub open spec fn refresh_target_of(
    mode: MixerMode,
    selected: Option<Seq<char>>,
    pinned: Option<Seq<char>>,
    current: Option<Seq<char>>,
) -> Option<(Seq<char>, MixerSceneRefreshTargetReason)> {
    match mode {
        MixerMode::ActiveScene => None,
        MixerMode::SelectedScene => match selected {
            Some(s) => Some((s, MixerSceneRefreshTargetReason::DirectSelectedScene)),
            None => match current {
                Some(c) => Some((c, MixerSceneRefreshTargetReason::SelectedModeCurrentSceneFallback)),
                None => None,
            },
        },
        MixerMode::PinnedScene => match pinned {
            Some(p) => Some((p, MixerSceneRefreshTargetReason::DirectPinnedScene)),
            None => match selected {
                Some(s) => Some((s, MixerSceneRefreshTargetReason::PinnedModeSelectedSceneFallback)),
                None => match current {
                    Some(c) => Some((c, MixerSceneRefreshTargetReason::PinnedModeCurrentSceneFallback)),
                    None => None,
                },
            },
        },
    }
}

/// View of an optional refresh target.
pub open spec fn target_view(t: Option<MixerSceneRefreshTarget>) -> Option<(Seq<char>, MixerSceneRefreshTargetReason)> {
    match t {
        Some(t) => Some((t.scene@, t.reason)),
        None => None,
    }
}

/// View of an optional borrowed string.
pub open spec fn opt_str_view(o: Option<&str>) -> Option<Seq<char>> {
    match o {
        Some(s) => Some(s@),
        None => None,
    }
}

/// Kind of source the mixer inspection reports.
#[derive(Debug, Clone, Copy, PartialEq, Eq, Structural)]
pub enum MixerInspectionRenderSourceKind {
    /// Live program-scene inputs.
    ActiveScene,
    /// A scene-specific target.
    Scene,
    /// No scene to show.
    MissingScene,
}

/// What the mixer page shows, as reported by the inspection snapshot.
#[derive(Debug, Clone, Copy, PartialEq, Eq)]
pub enum MixerInspectionStatus<'a> {
    /// The loading placeholder.
    LoadingPlaceholderShown,
    /// The error placeholder with this message.
    ErrorPlaceholderShown(&'a str),
    /// No target and nothing loaded.
    MissingNoTarget,
    /// One card per input.
    LoadedWithVisibleInputCards,
    /// The scene has no audio sources.
    LoadedNoAudioSources,
    /// Sources exist but the search filter hides all of them.
    LoadedNoMatchingAudioSourcesAfterFiltering,
}

/// One strip as reported by the inspection snapshot.
#[derive(Debug, Clone, PartialEq, Eq)]
pub struct MixerInspectionInput<'a> {
    /// Input name.
    pub name: &'a str,
    /// Name shown on the strip.
    pub display_name: &'a str,
    /// Whether the input is muted.
    pub muted: bool,
    /// Bit pattern of the linear multiplier.
    pub volume_mul: u64,
    /// Bit pattern of the level in decibels.
    pub volume_db: u64,
}

/// Everything the mixer page decides, for inspection and diagnostics.
#[derive(Debug, Clone, PartialEq, Eq)]
pub struct MixerInspectionSnapshot<'a> {
    /// Mixer mode.
    pub mode: MixerMode,
    /// Selected scene.
    pub selected_scene: Option<&'a str>,
    /// Pinned scene.
    pub pinned_scene: Option<&'a str>,
    /// Refresh target and the rule that chose it.
    pub refresh_target: Option<MixerSceneRefreshTarget<'a>>,
    /// Kind of source shown.
    pub render_source_kind: MixerInspectionRenderSourceKind,
    /// Scene shown, if any.
    pub scene: Option<&'a str>,
    /// What is shown.
    pub status: MixerInspectionStatus<'a>,
    /// Strips shown.
    pub inputs: Vec<MixerInspectionInput<'a>>,
}

/// Whether the inspected strips describe `inputs`, one for one.
pub open spec fn strips_match(strips: Seq<MixerInspectionInput>, inputs: Seq<AudioInput>) -> bool {
    &&& strips.len() == inputs.len()
    &&& forall|i: int|
        0 <= i < strips.len() ==> {
            &&& #[trigger] strips[i].name@ == inputs[i].name@
            &&& strips[i].display_name@ == inputs[i].display_name@
            &&& strips[i].muted == inputs[i].muted
            &&& strips[i].volume_mul == inputs[i].volume_mul
            &&& strips[i].volume_db == inputs[i].volume_db
        }
}

/// Status and strips for a list of loaded inputs.
pub open spec fn loaded_report(status: MixerInspectionStatus, strips: Seq<MixerInspectionInput>, inputs: Seq<AudioInput>) -> bool {
    &&& status == if inputs.len() == 0 {
        MixerInspectionStatus::LoadedNoAudioSources
    } else {
        MixerInspectionStatus::LoadedWithVisibleInputCards
    }
    &&& strips_match(strips, inputs)
}

/// Status and strips for a scene-specific target.
pub open spec fn scene_report(
    status: MixerInspectionStatus,
    strips: Seq<MixerInspectionInput>,
    r: MixerAudioRefreshState,
    scene: Seq<char>,
) -> bool {
    if requested_for(r, scene) {
        status == MixerInspectionStatus::LoadingPlaceholderShown && strips.len() == 0
    } else if error_for(r, scene) {
        status matches MixerInspectionStatus::ErrorPlaceholderShown(m) && m@ == r.error.unwrap().message@
            && strips.len() == 0
    } else if loaded_for(r, scene) {
        loaded_report(status, strips, r.loaded.unwrap().inputs@)
    } else {
        status == MixerInspectionStatus::MissingNoTarget && strips.len() == 0
    }
}

// ── App state ─────────────────────────────────────────────────────────────────

/// Everything the UI shows.
#[derive(Debug, Clone)]
pub struct AppState {
    /// Page on screen.
    pub current_page: Page,
    /// Light/dark preference in effect.
    pub theme_mode: ThemeMode,
    /// Connection to OBS.
    pub obs_status: ObsStatus,
    /// Scenes reported by OBS.
    pub scene_inventory: SceneInventory,
    /// Scene dependency graph.
    pub scene_graph: SceneGraph,
    /// Profiles reported by OBS.
    pub profiles: ObsNamedList,
    /// Scene collections reported by OBS.
    pub scene_collections: ObsNamedList,
    /// Stream output.
    pub stream_status: OutputStatus,
    /// Record output.
    pub record_status: OutputStatus,
    /// Error of the last stream command, until the next one.
    pub last_stream_command_error: Option<String>,
    /// Error of the last record command, until the next one.
    pub last_record_command_error: Option<String>,
    /// Monotonic clock reading (ms) when the stream went active.
    pub stream_active_since: Option<u64>,
    /// Monotonic clock reading (ms) when the recording went active.
    pub record_active_since: Option<u64>,
    /// Path of the last finished recording.
    pub last_recording_path: Option<String>,
    /// Output confirmation preferences.
    pub output_confirmations: OutputConfig,
    /// Live program-scene audio inputs.
    pub audio_inputs: Vec<AudioInput>,
    /// Mixer refresh bookkeeping.
    pub mixer_audio_refresh: MixerAudioRefreshState,
    /// Mixer page selection.
    pub mixer: MixerSelection,
    /// Latest diagnostics.
    pub diagnostics: Vec<Diagnostic>,
    /// Human-readable config-load notice shown once on the Settings page.
    pub startup_notice: Option<String>,
    /// Latest OBS `GetStats` snapshot for the status bar. `None` until the
    /// first poll completes after connecting.
    pub obs_stats: Option<ObsStats>,
    /// Bit pattern of the rolling stream bitrate in kbps.
    pub stream_bitrate_kbps: Option<u64>,
}

impl AppState {
    /// Fresh state: the Live page, disconnected, nothing known from OBS.
    pub fn new(
        theme_mode: ThemeMode,
        mixer: MixerSelection,
        output_confirmations: OutputConfig,
        startup_notice: Option<String>,
    ) -> (s: AppState)
        ensures
            s.current_page == Page::Live,
            s.theme_mode == theme_mode,
            s.obs_status == ObsStatus::Disconnected,
            s.scene_inventory.scenes@.len() == 0,
            s.scene_inventory.current_id is None,
            s.scene_inventory.previous_id is None,
            s.scene_graph@ == Map::<Seq<char>, Seq<Seq<char>>>::empty(),
            s.profiles.items@.len() == 0 && s.profiles.current is None,
            s.scene_collections.items@.len() == 0 && s.scene_collections.current is None,
            s.stream_status == OutputStatus::inactive_spec(),
            s.record_status == OutputStatus::inactive_spec(),
            s.last_stream_command_error is None,
            s.last_record_command_error is None,
            s.stream_active_since is None,
            s.record_active_since is None,
            s.last_recording_path is None,
            s.output_confirmations == output_confirmations,
            s.audio_inputs@.len() == 0,
            s.mixer_audio_refresh.requested_scene is None,
            s.mixer_audio_refresh.loaded is None,
            s.mixer_audio_refresh.error is None,
            s.mixer == mixer,
            s.diagnostics@.len() == 0,
            s.startup_notice == startup_notice,
            s.obs_stats is None,
            s.stream_bitrate_kbps is None,
    {
        AppState {
            current_page: Page::Live,
            theme_mode,
            obs_status: ObsStatus::Disconnected,
            scene_inventory: SceneInventory { scenes: Vec::new(), current_id: None, previous_id: None },
            scene_graph: SceneGraph::new(),
            profiles: ObsNamedList { items: Vec::new(), current: None },
            scene_collections: ObsNamedList { items: Vec::new(), current: None },
            stream_status: OutputStatus::inactive(),
            record_status: OutputStatus::inactive(),
            last_stream_command_error: None,
            last_record_command_error: None,
            stream_active_since: None,
            record_active_since: None,
            last_recording_path: None,
            output_confirmations,
            audio_inputs: Vec::new(),
            mixer_audio_refresh: MixerAudioRefreshState { requested_scene: None, loaded: None, error: None },
            mixer,
            diagnostics: Vec::new(),
            startup_notice,
            obs_stats: None,
            stream_bitrate_kbps: None,
        }
    }

    /// Show another page.
    pub fn set_page(&mut self, page: Page)
        ensures
            *final(self) == (AppState { current_page: page, ..*old(self) }),
    {
        self.current_page = page;
    }

    /// Apply another light/dark preference.
    pub fn set_theme_mode(&mut self, mode: ThemeMode)
        ensures
            *final(self) == (AppState { theme_mode: mode, ..*old(self) }),
    {
        self.theme_mode = mode;
    }

    /// Record the connection state.
    pub fn set_obs_status(&mut self, status: ObsStatus)
        ensures
            *final(self) == (AppState { obs_status: status, ..*old(self) }),
    {
        self.obs_status = status;
    }

    /// Start a mixer refresh for `scene`.
    pub fn set_mixer_audio_loading(&mut self, scene: String) -> (t: MixerAudioRefreshTransition)
        ensures
            t == MixerAudioRefreshTransition::Loading,
            *final(self) == (AppState { mixer_audio_refresh: after_loading(old(self).mixer_audio_refresh, scene), ..*old(self) }),
    {
        self.mixer_audio_refresh.loading(scene)
    }

    /// Apply a successful mixer refresh, unless it is stale.
    pub fn set_mixer_audio_success(&mut self, scene: String, inputs: Vec<AudioInput>) -> (t: MixerAudioRefreshTransition)
        ensures
            (final(self).mixer_audio_refresh, t) == after_success(old(self).mixer_audio_refresh, scene, inputs),
            *final(self) == (AppState { mixer_audio_refresh: final(self).mixer_audio_refresh, ..*old(self) }),
    {
        self.mixer_audio_refresh.success(scene, inputs)
    }

    /// Apply a failed mixer refresh, unless it is stale.
    pub fn set_mixer_audio_failure(&mut self, scene: String, message: String) -> (t: MixerAudioRefreshTransition)
        ensures
            (final(self).mixer_audio_refresh, t) == after_failure(old(self).mixer_audio_refresh, scene, message),
            *final(self) == (AppState { mixer_audio_refresh: final(self).mixer_audio_refresh, ..*old(self) }),
    {
        self.mixer_audio_refresh.failure(scene, message)
    }

    /// Forget the pending mixer refresh.
    pub fn clear_pending_mixer_audio_refresh(&mut self)
        ensures
            *final(self) == (AppState {
                mixer_audio_refresh: MixerAudioRefreshState { requested_scene: None, ..old(self).mixer_audio_refresh },
                ..*old(self)
            }),
    {
        self.mixer_audio_refresh.clear_pending();
    }

    /// Record the stream status OBS reported.
    pub fn set_stream_status(&mut self, status: OutputStatus)
        ensures
            *final(self) == (AppState { stream_status: status, ..*old(self) }),
    {
        self.stream_status = status;
    }

    /// Record the record status OBS reported.
    pub fn set_record_status(&mut self, status: OutputStatus)
        ensures
            *final(self) == (AppState { record_status: status, ..*old(self) }),
    {
        self.record_status = status;
    }

    /// A stream command was sent: clear its old error and show `status`.
    pub fn set_stream_command_pending(&mut self, status: OutputStatus)
        ensures
            *final(self) == (AppState { last_stream_command_error: None, stream_status: status, ..*old(self) }),
    {
        self.last_stream_command_error = None;
        self.stream_status = status;
    }

    /// A record command was sent: clear its old error and show `status`.
    pub fn set_record_command_pending(&mut self, status: OutputStatus)
        ensures
            *final(self) == (AppState { last_record_command_error: None, record_status: status, ..*old(self) }),
    {
        self.last_record_command_error = None;
        self.record_status = status;
    }

    /// The stream command succeeded.
    pub fn set_stream_command_success(&mut self)
        ensures
            *final(self) == (AppState { last_stream_command_error: None, ..*old(self) }),
    {
        self.last_stream_command_error = None;
    }

    /// The record command succeeded.
    pub fn set_record_command_success(&mut self)
        ensures
            *final(self) == (AppState { last_record_command_error: None, ..*old(self) }),
    {
        self.last_record_command_error = None;
    }

    /// The stream command failed with `message`.
    pub fn set_stream_command_failure(&mut self, message: String)
        ensures
            *final(self) == (AppState { last_stream_command_error: Some(message), ..*old(self) }),
    {
        self.last_stream_command_error = Some(message);
    }

    /// The record command failed with `message`.
    pub fn set_record_command_failure(&mut self, message: String)
        ensures
            *final(self) == (AppState { last_record_command_error: Some(message), ..*old(self) }),
    {
        self.last_record_command_error = Some(message);
    }

    /// The stream command failed: show its error and its fallback status.
    pub fn set_stream_command_failure_with_recovery(&mut self, failure: OutputCommandFailureRecovery)
        ensures
            final(self).last_stream_command_error matches Some(m) && m@ == failure.message_text(),
            final(self).stream_status == failure.fallback(),
            *final(self) == (AppState {
                last_stream_command_error: final(self).last_stream_command_error,
                stream_status: final(self).stream_status,
                ..*old(self)
            }),
    {
        let (message, fallback) = failure.into_parts();
        self.last_stream_command_error = Some(message);
        self.stream_status = fallback;
    }

    /// The record command failed: show its error and its fallback status.
    pub fn set_record_command_failure_with_recovery(&mut self, failure: OutputCommandFailureRecovery)
        ensures
            final(self).last_record_command_error matches Some(m) && m@ == failure.message_text(),
            final(self).record_status == failure.fallback(),
            *final(self) == (AppState {
                last_record_command_error: final(self).last_record_command_error,
                record_status: final(self).record_status,
                ..*old(self)
            }),
    {
        let (message, fallback) = failure.into_parts();
        self.last_record_command_error = Some(message);
        self.record_status = fallback;
    }

    /// Forget both command errors, e.g. when the session resets.
    pub fn clear_output_command_errors(&mut self)
        ensures
            *final(self) == (AppState { last_stream_command_error: None, last_record_command_error: None, ..*old(self) }),
    {
        self.last_stream_command_error = None;
        self.last_record_command_error = None;
    }

    /// Record a stats poll; the bitrate is kept only while the stream is
    /// active.
    pub fn set_obs_stats(&mut self, stats: ObsStats, bitrate_kbps: Option<u64>)
        ensures
            *final(self) == (AppState {
                obs_stats: Some(stats),
                stream_bitrate_kbps: if old(self).stream_status.active { bitrate_kbps } else { None },
                ..*old(self)
            }),
    {
        self.obs_stats = Some(stats);
        self.stream_bitrate_kbps = if self.stream_status.active { bitrate_kbps } else { None };
    }

    /// Forget the stats, e.g. when the session ends.
    pub fn clear_obs_stats(&mut self)
        ensures
            *final(self) == (AppState { obs_stats: None, stream_bitrate_kbps: None, ..*old(self) }),
    {
        self.obs_stats = None;
        self.stream_bitrate_kbps = None;
    }

    /// What the mixer shows for `scene`.
    pub fn visible_mixer_audio_status(&self, scene: &str) -> (r: MixerVisibleAudioStatus<'_>)
        ensures
            audio_status_is(r, self.mixer_audio_refresh, scene@),
    {
        if opt_text_is(&self.mixer_audio_refresh.requested_scene, scene) {
            return MixerVisibleAudioStatus::Loading;
        }
        match &self.mixer_audio_refresh.error {
            Some(error) => {
                if text_eq(error.scene.as_str(), scene) {
                    return MixerVisibleAudioStatus::Error(error);
                }
            },
            None => {},
        }
        match &self.mixer_audio_refresh.loaded {
            Some(snapshot) => {
                if text_eq(snapshot.scene.as_str(), scene) {
                    return MixerVisibleAudioStatus::Loaded(snapshot.inputs.as_slice());
                }
            },
            None => {},
        }
        MixerVisibleAudioStatus::Missing
    }

    /// Where the mixer takes its strips from.
    pub fn visible_mixer_render_source(&self) -> (r: MixerVisibleRenderSource<'_>)
        ensures
            self.mixer.mode == MixerMode::ActiveScene ==> (r matches MixerVisibleRenderSource::ActiveScene(
                inputs,
            ) && inputs@ == self.audio_inputs@),
            self.mixer.mode != MixerMode::ActiveScene ==> match self.refresh_target_spec() {
                Some((t, _)) => r matches MixerVisibleRenderSource::Scene { scene, status } && scene@ == t
                    && audio_status_is(status, self.mixer_audio_refresh, t),
                None => r is MissingScene,
            },
    {
        match self.mixer.mode {
            MixerMode::ActiveScene => MixerVisibleRenderSource::ActiveScene(self.audio_inputs.as_slice()),
            _ => match self.mixer_scene_refresh_target() {
                Some(scene) => MixerVisibleRenderSource::Scene { scene, status: self.visible_mixer_audio_status(scene) },
                None => MixerVisibleRenderSource::MissingScene,
            },
        }
    }

    /// Refresh target of this state's mixer mode.
    pub open spec fn refresh_target_spec(&self) -> Option<(Seq<char>, MixerSceneRefreshTargetReason)> {
        refresh_target_of(
            self.mixer.mode,
            opt_view(self.mixer.selected_scene),
            opt_view(self.mixer.pinned_scene),
            opt_view(self.scene_inventory.current_id),
        )
    }

    /// Everything the mixer page decides, for inspection.
    pub fn mixer_inspection_snapshot(&self) -> (r: MixerInspectionSnapshot<'_>)
        ensures
            r.mode == self.mixer.mode,
            opt_str_view(r.selected_scene) == opt_view(self.mixer.selected_scene),
            opt_str_view(r.pinned_scene) == opt_view(self.mixer.pinned_scene),
            target_view(r.refresh_target) == self.refresh_target_spec(),
            self.mixer.mode == MixerMode::ActiveScene ==> {
                &&& r.render_source_kind == MixerInspectionRenderSourceKind::ActiveScene
                &&& opt_str_view(r.scene) == opt_view(self.scene_inventory.current_id)
                &&& loaded_report(r.status, r.inputs@, self.audio_inputs@)
            },
            self.mixer.mode != MixerMode::ActiveScene ==> match self.refresh_target_spec() {
                Some((t, _)) => {
                    &&& r.render_source_kind == MixerInspectionRenderSourceKind::Scene
                    &&& opt_str_view(r.scene) == Some(t)
                    &&& scene_report(r.status, r.inputs@, self.mixer_audio_refresh, t)
                },
                None => {
                    &&& r.render_source_kind == MixerInspectionRenderSourceKind::MissingScene
                    &&& r.scene is None
                    &&& r.status == MixerInspectionStatus::MissingNoTarget
                    &&& r.inputs@.len() == 0
                },
            },
    {
        let refresh_target = self.mixer_scene_refresh_target_details();
        let (render_source_kind, scene, status, inputs) = match self.visible_mixer_render_source() {
            MixerVisibleRenderSource::ActiveScene(inputs) => (
                MixerInspectionRenderSourceKind::ActiveScene,
                opt_str(&self.scene_inventory.current_id),
                mixer_inspection_loaded_status(inputs),
                mixer_inspection_inputs(inputs),
            ),
            MixerVisibleRenderSource::Scene { scene, status } => {
                let (status, inputs) = mixer_inspection_scene_status(status);
                (MixerInspectionRenderSourceKind::Scene, Some(scene), status, inputs)
            },
            MixerVisibleRenderSource::MissingScene => (
                MixerInspectionRenderSourceKind::MissingScene,
                None,
                MixerInspectionStatus::MissingNoTarget,
                Vec::new(),
            ),
        };
        MixerInspectionSnapshot {
            mode: self.mixer.mode,
            selected_scene: opt_str(&self.mixer.selected_scene),
            pinned_scene: opt_str(&self.mixer.pinned_scene),
            refresh_target,
            render_source_kind,
            scene,
            status,
            inputs,
        }
    }

    /// Change the mute state of input `input_id` in the loaded mixer
    /// snapshot, whichever scene it belongs to. Returns whether there was
    /// such an input.
    pub fn update_mixer_input_mute(&mut self, input_id: &str, muted: bool) -> (updated: bool)
        ensures
            old(self).mixer_audio_refresh.loaded matches Some(snap) ==> {
                &&& updated == has_input(snap.inputs@, input_id@)
                &&& final(self).mixer_audio_refresh.loaded matches Some(f) && f.scene == snap.scene && (if updated {
                    exists|i: int|
                        first_input(snap.inputs@, input_id@, i) && f.inputs@ == snap.inputs@.update(
                            i,
                            AudioInput { muted, ..snap.inputs@[i] },
                        )
                } else {
                    f.inputs@ == snap.inputs@
                })
            },
            old(self).mixer_audio_refresh.loaded is None ==> !updated && *final(self) == *old(self),
            final(self).mixer_audio_refresh.requested_scene == old(self).mixer_audio_refresh.requested_scene,
            final(self).mixer_audio_refresh.error == old(self).mixer_audio_refresh.error,
            *final(self) == (AppState { mixer_audio_refresh: final(self).mixer_audio_refresh, ..*old(self) }),
    {
        let found = match &self.mixer_audio_refresh.loaded {
            Some(snapshot) => find_input(&snapshot.inputs, input_id),
            None => None,
        };
        match found {
            Some(i) => match &mut self.mixer_audio_refresh.loaded {
                Some(snapshot) => {
                    snapshot.inputs[i].muted = muted;
                    true
                },
                None => false,
            },
            None => false,
        }
    }

    /// Change the volume of input `input_id` in the loaded mixer snapshot,
    /// whichever scene it belongs to. Returns whether there was such an
    /// input.
    pub fn update_mixer_input_volume(&mut self, input_id: &str, volume_mul: u64, volume_db: u64) -> (updated: bool)
        ensures
            old(self).mixer_audio_refresh.loaded matches Some(snap) ==> {
                &&& updated == has_input(snap.inputs@, input_id@)
                &&& final(self).mixer_audio_refresh.loaded matches Some(f) && f.scene == snap.scene && (if updated {
                    exists|i: int|
                        first_input(snap.inputs@, input_id@, i) && f.inputs@ == snap.inputs@.update(
                            i,
                            AudioInput { volume_mul, volume_db, ..snap.inputs@[i] },
                        )
                } else {
                    f.inputs@ == snap.inputs@
                })
            },
            old(self).mixer_audio_refresh.loaded is None ==> !updated && *final(self) == *old(self),
            final(self).mixer_audio_refresh.requested_scene == old(self).mixer_audio_refresh.requested_scene,
            final(self).mixer_audio_refresh.error == old(self).mixer_audio_refresh.error,
            *final(self) == (AppState { mixer_audio_refresh: final(self).mixer_audio_refresh, ..*old(self) }),
    {
        let found = match &self.mixer_audio_refresh.loaded {
            Some(snapshot) => find_input(&snapshot.inputs, input_id),
            None => None,
        };
        match found {
            Some(i) => match &mut self.mixer_audio_refresh.loaded {
                Some(snapshot) => {
                    snapshot.inputs[i].volume_mul = volume_mul;
                    snapshot.inputs[i].volume_db = volume_db;
                    true
                },
                None => false,
            },
            None => false,
        }
    }

    /// Scene target for scene-specific mixer refresh requests.
    ///
    /// The active mode shows live program-scene audio and never dispatches a
    /// scene-specific refresh, so it has no target here.
    pub fn mixer_scene_refresh_target(&self) -> (r: Option<&str>)
        ensures
            match self.refresh_target_spec() {
                Some((t, _)) => r matches Some(s) && s@ == t,
                None => r is None,
            },
    {
        match self.mixer_scene_refresh_target_details() {
            Some(target) => Some(target.scene),
            None => None,
        }
    }

    /// Scene target for scene-specific mixer refresh requests, with the
    /// selected/pinned/fallback rule that produced it.
    pub fn mixer_scene_refresh_target_details(&self) -> (r: Option<MixerSceneRefreshTarget<'_>>)
        ensures
            target_view(r) == self.refresh_target_spec(),
    {
        let selected = opt_str(&self.mixer.selected_scene);
        let pinned = opt_str(&self.mixer.pinned_scene);
        let current = opt_str(&self.scene_inventory.current_id);
        match self.mixer.mode {
            MixerMode::ActiveScene => None,
            MixerMode::SelectedScene => match selected {
                Some(scene) => Some(
                    MixerSceneRefreshTarget { scene, reason: MixerSceneRefreshTargetReason::DirectSelectedScene },
                ),
                None => match current {
                    Some(scene) => Some(
                        MixerSceneRefreshTarget {
                            scene,
                            reason: MixerSceneRefreshTargetReason::SelectedModeCurrentSceneFallback,
                        },
                    ),
                    None => None,
                },
            },
            MixerMode::PinnedScene => match pinned {
                Some(scene) => Some(
                    MixerSceneRefreshTarget { scene, reason: MixerSceneRefreshTargetReason::DirectPinnedScene },
                ),
                None => match selected {
                    Some(scene) => Some(
                        MixerSceneRefreshTarget {
                            scene,
                            reason: MixerSceneRefreshTargetReason::PinnedModeSelectedSceneFallback,
                        },
                    ),
                    None => match current {
                        Some(scene) => Some(
                            MixerSceneRefreshTarget {
                                scene,
                                reason: MixerSceneRefreshTargetReason::PinnedModeCurrentSceneFallback,
                            },
                        ),
                        None => None,
                    },
                },
            },
        }
    }
}

/// Whether some input is named `id`.
pub open spec fn has_input(inputs: Seq<AudioInput>, id: Seq<char>) -> bool {
    exists|i: int| 0 <= i < inputs.len() && inputs[i].id@ == id
}

/// Whether `i` is the position of the first input named `id`.
pub open spec fn first_input(inputs: Seq<AudioInput>, id: Seq<char>, i: int) -> bool {
    &&& 0 <= i < inputs.len()
    &&& inputs[i].id@ == id
    &&& forall|j: int| 0 <= j < i ==> inputs[j].id@ != id
}

/// Position of the first input named `id`.
fn find_input(inputs: &Vec<AudioInput>, id: &str) -> (r: Option<usize>)
    ensures
        match r {
            Some(i) => first_input(inputs@, id@, i as int),
            None => !has_input(inputs@, id@),
        },
{
    let mut i: usize = 0;
    while i < inputs.len()
        invariant
            i <= inputs@.len(),
            forall|j: int| 0 <= j < i ==> inputs@[j].id@ != id@,
        decreases inputs@.len() - i,
    {
        if text_eq(inputs[i].id.as_str(), id) {
            return Some(i);
        }
        i = i + 1;
    }
    None
}

/// Status and strips for what the mixer shows for a scene target.
fn mixer_inspection_scene_status<'a>(status: MixerVisibleAudioStatus<'a>) -> (r: (MixerInspectionStatus<'a>, Vec<MixerInspectionInput<'a>>))
    ensures
        match status {
            MixerVisibleAudioStatus::Loading => r.0 == MixerInspectionStatus::LoadingPlaceholderShown && r.1@.len() == 0,
            MixerVisibleAudioStatus::Error(e) => r.0 matches MixerInspectionStatus::ErrorPlaceholderShown(m) && m@
                == e.message@ && r.1@.len() == 0,
            MixerVisibleAudioStatus::Loaded(inputs) => loaded_report(r.0, r.1@, inputs@),
            MixerVisibleAudioStatus::Missing => r.0 == MixerInspectionStatus::MissingNoTarget && r.1@.len() == 0,
        },
{
    match status {
        MixerVisibleAudioStatus::Loading => (MixerInspectionStatus::LoadingPlaceholderShown, Vec::new()),
        MixerVisibleAudioStatus::Error(error) => (
            MixerInspectionStatus::ErrorPlaceholderShown(error.message.as_str()),
            Vec::new(),
        ),
        MixerVisibleAudioStatus::Loaded(inputs) => (mixer_inspection_loaded_status(inputs), mixer_inspection_inputs(inputs)),
        MixerVisibleAudioStatus::Missing => (MixerInspectionStatus::MissingNoTarget, Vec::new()),
    }
}

/// Status for a list of loaded inputs.
fn mixer_inspection_loaded_status(inputs: &[AudioInput]) -> (s: MixerInspectionStatus<'static>)
    ensures
        s == if inputs@.len() == 0 {
            MixerInspectionStatus::LoadedNoAudioSources
        } else {
            MixerInspectionStatus::LoadedWithVisibleInputCards
        },
{
    if inputs.len() == 0 {
        MixerInspectionStatus::LoadedNoAudioSources
    } else {
        MixerInspectionStatus::LoadedWithVisibleInputCards
    }
}

/// One inspection strip per input.
fn mixer_inspection_inputs<'a>(inputs: &'a [AudioInput]) -> (r: Vec<MixerInspectionInput<'a>>)
    ensures
        strips_match(r@, inputs@),
{
    let mut strips: Vec<MixerInspectionInput<'a>> = Vec::new();
    let mut i: usize = 0;
    while i < inputs.len()
        invariant
            i <= inputs@.len(),
            strips_match(strips@, inputs@.take(i as int)),
        decreases inputs@.len() - i,
    {
        let input = &inputs[i];
        let ghost prev = strips@;
        strips.push(
            MixerInspectionInput {
                name: input.name.as_str(),
                display_name: input.display_name.as_str(),
                muted: input.muted,
                volume_mul: input.volume_mul,
                volume_db: input.volume_db,
            },
        );
        proof {
            let taken = inputs@.take(i + 1);
            assert forall|j: int| 0 <= j < strips@.len() implies {
                &&& #[trigger] strips@[j].name@ == taken[j].name@
                &&& strips@[j].display_name@ == taken[j].display_name@
                &&& strips@[j].muted == taken[j].muted
                &&& strips@[j].volume_mul == taken[j].volume_mul
                &&& strips@[j].volume_db == taken[j].volume_db
            } by {
                if j < i {
                    assert(inputs@.take(i as int)[j] == taken[j]);
                    assert(strips@[j] == prev[j]);
                    assert(prev[j].name@ == inputs@.take(i as int)[j].name@);
                }
            }
        }
        i = i + 1;
    }
    assert(inputs@.take(inputs@.len() as int) =~= inputs@);
    strips
}

} // verus!
