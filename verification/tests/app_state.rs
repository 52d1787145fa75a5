use scenedeck::controller::event::OutputCommandFailureRecovery;
use scenedeck::controller::state::{
    AppState, MixerAudioError, MixerAudioRefreshState, MixerAudioRefreshTransition, MixerAudioSnapshot,
    MixerInspectionInput, MixerInspectionRenderSourceKind, MixerInspectionStatus, MixerSceneRefreshTarget,
    MixerSceneRefreshTargetReason, MixerVisibleAudioStatus, MixerVisibleRenderSource, ObsStatus, Page,
};
use scenedeck::domain::appearance::ThemeMode;
use scenedeck::domain::audio::AudioInput;
use scenedeck::domain::mixer::{MixerMode, MixerSelection};
use scenedeck::domain::output::{OutputRunState, OutputStatus};
use scenedeck::storage::config::OutputConfig;

fn input(id: &str) -> AudioInput {
    AudioInput::new(id.to_string(), false, 1.0f64.to_bits(), 0.0f64.to_bits())
}

fn app_state() -> AppState {
    AppState::new(
        ThemeMode::default(),
        MixerSelection::default(),
        OutputConfig::default(),
        None,
    )
}

fn visible_loaded_input<'a>(state: &'a AppState, scene: &str, id: &str) -> &'a AudioInput {
    let MixerVisibleAudioStatus::Loaded(inputs) = state.visible_mixer_audio_status(scene)
    else {
        panic!("expected visible mixer inputs for {scene}");
    };

    inputs
        .iter()
        .find(|input| input.id == id)
        .expect("visible mixer input")
}

fn hidden_loaded_input<'a>(state: &'a AppState, scene: &str, id: &str) -> &'a AudioInput {
    let snapshot = state
        .mixer_audio_refresh
        .loaded
        .as_ref()
        .expect("loaded mixer snapshot");

    assert_eq!(snapshot.scene, scene);
    snapshot
        .inputs
        .iter()
        .find(|input| input.id == id)
        .expect("loaded mixer input")
}

fn loud_muted_input(id: &str) -> AudioInput {
    let mut input = AudioInput::new(id.to_string(), true, 0.5f64.to_bits(), (-6.24f64).to_bits());
    input.display_name = format!("{id} Display");
    input
}

fn assert_snapshot_input(input: &MixerInspectionInput<'_>, name: &str, muted: bool) {
    assert_eq!(input.name, name);
    assert_eq!(input.display_name, format!("{name} Display"));
    assert_eq!(input.muted, muted);
    assert_eq!(f64::from_bits(input.volume_mul), 0.5);
    assert_eq!(f64::from_bits(input.volume_db), -6.24);
}

fn output_status(active: bool, state: OutputRunState) -> OutputStatus {
    OutputStatus {
        active,
        state,
        detail: None,
    }
}

fn command_failure_recovery(
    message: &str,
    fallback_status: OutputStatus,
) -> OutputCommandFailureRecovery {
    OutputCommandFailureRecovery::with_failed_command_fallback_status(
        message.to_string(),
        fallback_status,
    )
}

fn unchecked_command_failure_recovery(
    message: &str,
    fallback_status: OutputStatus,
) -> OutputCommandFailureRecovery {
    OutputCommandFailureRecovery::with_exact_fallback_status(message.to_string(), fallback_status)
}

fn assert_non_transitioning(status: &OutputStatus) {
    assert!(
        !status.state.is_transitioning(),
        "expected non-transitioning status, got {:?}",
        status
    );
}

#[test]
fn stream_command_failure_sets_stream_error_only() {
    let mut state = app_state();

    state.set_stream_command_failure("stream failed".to_string());

    assert_eq!(
        state.last_stream_command_error.as_deref(),
        Some("stream failed")
    );
    assert_eq!(state.last_record_command_error, None);
}

#[test]
fn record_command_failure_sets_record_error_only() {
    let mut state = app_state();

    state.set_record_command_failure("record failed".to_string());

    assert_eq!(state.last_stream_command_error, None);
    assert_eq!(
        state.last_record_command_error.as_deref(),
        Some("record failed")
    );
}

#[test]
fn stream_command_start_failure_applies_inactive_recovery_payload() {
    let mut state = app_state();
    state.set_record_command_failure("existing record failure".to_string());
    state.set_stream_command_pending(output_status(false, OutputRunState::Starting));

    state.set_stream_command_failure_with_recovery(command_failure_recovery(
        "stream start failed",
        output_status(false, OutputRunState::Inactive),
    ));

    assert_eq!(
        state.stream_status,
        output_status(false, OutputRunState::Inactive)
    );
    assert_non_transitioning(&state.stream_status);
    assert_eq!(
        state.last_stream_command_error.as_deref(),
        Some("stream start failed")
    );
    assert_eq!(
        state.last_record_command_error.as_deref(),
        Some("existing record failure")
    );
}

#[test]
fn stream_command_stop_failure_applies_active_recovery_payload() {
    let mut state = app_state();
    state.set_record_command_failure("existing record failure".to_string());
    state.set_stream_command_pending(output_status(true, OutputRunState::Stopping));

    state.set_stream_command_failure_with_recovery(command_failure_recovery(
        "stream stop failed",
        output_status(true, OutputRunState::Active),
    ));

    assert_eq!(
        state.stream_status,
        output_status(true, OutputRunState::Active)
    );
    assert_non_transitioning(&state.stream_status);
    assert_eq!(
        state.last_stream_command_error.as_deref(),
        Some("stream stop failed")
    );
    assert_eq!(
        state.last_record_command_error.as_deref(),
        Some("existing record failure")
    );
}

#[test]
fn record_command_start_failure_applies_inactive_recovery_payload() {
    let mut state = app_state();
    state.set_stream_command_failure("existing stream failure".to_string());
    state.set_record_command_pending(output_status(false, OutputRunState::Starting));

    state.set_record_command_failure_with_recovery(command_failure_recovery(
        "record start failed",
        output_status(false, OutputRunState::Inactive),
    ));

    assert_eq!(
        state.record_status,
        output_status(false, OutputRunState::Inactive)
    );
    assert_non_transitioning(&state.record_status);
    assert_eq!(
        state.last_stream_command_error.as_deref(),
        Some("existing stream failure")
    );
    assert_eq!(
        state.last_record_command_error.as_deref(),
        Some("record start failed")
    );
}

#[test]
fn record_command_stop_failure_applies_active_recovery_payload() {
    let mut state = app_state();
    state.set_stream_command_failure("existing stream failure".to_string());
    state.set_record_command_pending(output_status(true, OutputRunState::Stopping));

    state.set_record_command_failure_with_recovery(command_failure_recovery(
        "record stop failed",
        output_status(true, OutputRunState::Active),
    ));

    assert_eq!(
        state.record_status,
        output_status(true, OutputRunState::Active)
    );
    assert_non_transitioning(&state.record_status);
    assert_eq!(
        state.last_stream_command_error.as_deref(),
        Some("existing stream failure")
    );
    assert_eq!(
        state.last_record_command_error.as_deref(),
        Some("record stop failed")
    );
}

#[test]
fn stream_failure_recovery_applies_exact_payload_status() {
    let mut state = app_state();
    state.set_stream_command_pending(output_status(false, OutputRunState::Starting));

    state.set_stream_command_failure_with_recovery(unchecked_command_failure_recovery(
        "stream failed",
        output_status(false, OutputRunState::Reconnecting),
    ));

    assert_eq!(
        state.stream_status,
        output_status(false, OutputRunState::Reconnecting)
    );
    assert_eq!(
        state.last_stream_command_error.as_deref(),
        Some("stream failed")
    );
}

#[test]
fn record_failure_recovery_applies_exact_payload_status() {
    let mut state = app_state();
    state.set_record_command_pending(output_status(true, OutputRunState::Stopping));

    state.set_record_command_failure_with_recovery(unchecked_command_failure_recovery(
        "record failed",
        output_status(true, OutputRunState::Reconnecting),
    ));

    assert_eq!(
        state.record_status,
        output_status(true, OutputRunState::Reconnecting)
    );
    assert_eq!(
        state.last_record_command_error.as_deref(),
        Some("record failed")
    );
}

#[test]
fn stream_failure_recovery_applies_payload_instead_of_current_state() {
    let mut state = app_state();
    state.set_stream_command_pending(output_status(false, OutputRunState::Starting));

    state.set_stream_command_failure_with_recovery(command_failure_recovery(
        "stream failed",
        output_status(true, OutputRunState::Active),
    ));

    assert_eq!(
        state.stream_status,
        output_status(true, OutputRunState::Active)
    );
    assert_eq!(
        state.last_stream_command_error.as_deref(),
        Some("stream failed")
    );
}

#[test]
fn record_failure_recovery_applies_payload_instead_of_current_state() {
    let mut state = app_state();
    state.set_record_command_pending(output_status(true, OutputRunState::Stopping));

    state.set_record_command_failure_with_recovery(command_failure_recovery(
        "record failed",
        output_status(false, OutputRunState::Inactive),
    ));

    assert_eq!(
        state.record_status,
        output_status(false, OutputRunState::Inactive)
    );
    assert_eq!(
        state.last_record_command_error.as_deref(),
        Some("record failed")
    );
}

#[test]
fn separate_status_event_can_reconnect_after_stream_failure_recovery() {
    let mut state = app_state();
    state.set_stream_command_pending(output_status(false, OutputRunState::Starting));
    state.set_stream_command_failure_with_recovery(command_failure_recovery(
        "stream failed",
        output_status(false, OutputRunState::Inactive),
    ));
    assert_non_transitioning(&state.stream_status);

    state.set_stream_status(output_status(false, OutputRunState::Reconnecting));

    assert_eq!(
        state.stream_status,
        output_status(false, OutputRunState::Reconnecting)
    );
    assert_eq!(
        state.last_stream_command_error.as_deref(),
        Some("stream failed")
    );
}

#[test]
fn separate_status_event_can_reconnect_after_record_failure_recovery() {
    let mut state = app_state();
    state.set_record_command_pending(output_status(false, OutputRunState::Starting));
    state.set_record_command_failure_with_recovery(command_failure_recovery(
        "record failed",
        output_status(false, OutputRunState::Inactive),
    ));
    assert_non_transitioning(&state.record_status);

    state.set_record_status(output_status(false, OutputRunState::Reconnecting));

    assert_eq!(
        state.record_status,
        output_status(false, OutputRunState::Reconnecting)
    );
    assert_eq!(
        state.last_record_command_error.as_deref(),
        Some("record failed")
    );
}

#[test]
fn stream_pending_and_success_clear_only_stream_error() {
    let mut state = app_state();
    state.set_stream_command_failure("old stream failure".to_string());
    state.set_record_command_failure("record failure".to_string());

    state.set_stream_command_pending(output_status(false, OutputRunState::Starting));

    assert_eq!(state.last_stream_command_error, None);
    assert_eq!(
        state.last_record_command_error.as_deref(),
        Some("record failure")
    );
    assert_eq!(state.stream_status.state, OutputRunState::Starting);

    state.set_stream_command_failure("new stream failure".to_string());
    state.set_stream_command_success();

    assert_eq!(state.last_stream_command_error, None);
    assert_eq!(
        state.last_record_command_error.as_deref(),
        Some("record failure")
    );
}

#[test]
fn record_pending_and_success_clear_only_record_error() {
    let mut state = app_state();
    state.set_stream_command_failure("stream failure".to_string());
    state.set_record_command_failure("old record failure".to_string());

    state.set_record_command_pending(output_status(true, OutputRunState::Stopping));

    assert_eq!(
        state.last_stream_command_error.as_deref(),
        Some("stream failure")
    );
    assert_eq!(state.last_record_command_error, None);
    assert_eq!(state.record_status.state, OutputRunState::Stopping);

    state.set_record_command_failure("new record failure".to_string());
    state.set_record_command_success();

    assert_eq!(
        state.last_stream_command_error.as_deref(),
        Some("stream failure")
    );
    assert_eq!(state.last_record_command_error, None);
}

#[test]
fn output_command_errors_clear_together_on_session_reset() {
    let mut state = app_state();
    state.set_stream_command_failure("stream failure".to_string());
    state.set_record_command_failure("record failure".to_string());

    state.clear_output_command_errors();

    assert_eq!(state.last_stream_command_error, None);
    assert_eq!(state.last_record_command_error, None);
}

#[test]
fn stream_command_failure_sequence_keeps_obs_connected_and_record_error() {
    let mut state = app_state();
    state.current_page = Page::Live;
    state.set_obs_status(ObsStatus::Connected {
        obs_version: "32.1.2".to_string(),
    });
    state.set_record_command_failure("existing record failure".to_string());

    state.set_stream_command_pending(output_status(false, OutputRunState::Starting));
    assert_eq!(state.stream_status.state, OutputRunState::Starting);
    assert_eq!(state.last_stream_command_error, None);

    let failure = command_failure_recovery(
        "stream command failed",
        output_status(false, OutputRunState::Inactive),
    );
    state.set_stream_command_failure_with_recovery(failure);

    assert_eq!(
        state.obs_status,
        ObsStatus::Connected {
            obs_version: "32.1.2".to_string()
        }
    );
    assert_eq!(state.current_page, Page::Live);
    assert!(!state.stream_status.state.is_transitioning());
    assert_eq!(
        state.last_stream_command_error.as_deref(),
        Some("stream command failed")
    );
    assert_eq!(
        state.last_record_command_error.as_deref(),
        Some("existing record failure")
    );

    state.set_stream_command_pending(output_status(false, OutputRunState::Starting));
    assert_eq!(state.last_stream_command_error, None);
    assert_eq!(
        state.last_record_command_error.as_deref(),
        Some("existing record failure")
    );

    state.set_stream_status(output_status(true, OutputRunState::Active));
    state.set_stream_command_success();

    assert_eq!(
        state.obs_status,
        ObsStatus::Connected {
            obs_version: "32.1.2".to_string()
        }
    );
    assert_eq!(state.current_page, Page::Live);
    assert!(!state.stream_status.state.is_transitioning());
    assert_eq!(state.last_stream_command_error, None);
    assert_eq!(
        state.last_record_command_error.as_deref(),
        Some("existing record failure")
    );
}

#[test]
fn record_command_failure_sequence_keeps_obs_connected_and_stream_error() {
    let mut state = app_state();
    state.current_page = Page::Live;
    state.set_obs_status(ObsStatus::Connected {
        obs_version: "32.1.2".to_string(),
    });
    state.set_stream_command_failure("existing stream failure".to_string());

    state.set_record_command_pending(output_status(true, OutputRunState::Stopping));
    assert_eq!(state.record_status.state, OutputRunState::Stopping);
    assert_eq!(state.last_record_command_error, None);

    let failure = command_failure_recovery(
        "record command failed",
        output_status(true, OutputRunState::Active),
    );
    state.set_record_command_failure_with_recovery(failure);

    assert_eq!(
        state.obs_status,
        ObsStatus::Connected {
            obs_version: "32.1.2".to_string()
        }
    );
    assert_eq!(state.current_page, Page::Live);
    assert!(!state.record_status.state.is_transitioning());
    assert_eq!(
        state.last_stream_command_error.as_deref(),
        Some("existing stream failure")
    );
    assert_eq!(
        state.last_record_command_error.as_deref(),
        Some("record command failed")
    );

    state.set_record_command_pending(output_status(true, OutputRunState::Stopping));
    assert_eq!(
        state.last_stream_command_error.as_deref(),
        Some("existing stream failure")
    );
    assert_eq!(state.last_record_command_error, None);

    state.set_record_status(output_status(false, OutputRunState::Inactive));
    state.set_record_command_success();

    assert_eq!(
        state.obs_status,
        ObsStatus::Connected {
            obs_version: "32.1.2".to_string()
        }
    );
    assert_eq!(state.current_page, Page::Live);
    assert!(!state.record_status.state.is_transitioning());
    assert_eq!(
        state.last_stream_command_error.as_deref(),
        Some("existing stream failure")
    );
    assert_eq!(state.last_record_command_error, None);
}

#[test]
fn mixer_refresh_loading_tracks_requested_scene_and_preserves_snapshot() {
    let mut state = MixerAudioRefreshState {
        requested_scene: None,
        loaded: Some(MixerAudioSnapshot {
            scene: "Loaded".to_string(),
            inputs: vec![input("Mic")],
        }),
        error: Some(MixerAudioError {
            scene: "Target".to_string(),
            message: "previous failure".to_string(),
        }),
    };

    let transition = state.loading("Target".to_string());

    assert_eq!(transition, MixerAudioRefreshTransition::Loading);
    assert_eq!(state.requested_scene.as_deref(), Some("Target"));
    assert_eq!(
        state
            .loaded
            .as_ref()
            .map(|snapshot| snapshot.scene.as_str()),
        Some("Loaded")
    );
    assert!(state.error.is_none());
}

#[test]
fn mixer_refresh_success_replaces_loaded_snapshot_for_current_request() {
    let mut state = MixerAudioRefreshState::default();
    state.loading("Scene A".to_string());

    let transition = state.success("Scene A".to_string(), vec![input("Mic A")]);

    assert_eq!(transition, MixerAudioRefreshTransition::Success);
    assert_eq!(state.requested_scene, None);
    let loaded = state.loaded.as_ref().expect("loaded mixer snapshot");
    assert_eq!(loaded.scene, "Scene A");
    assert_eq!(loaded.inputs.len(), 1);
    assert_eq!(loaded.inputs[0].id, "Mic A");
    assert!(state.error.is_none());
}

#[test]
fn mixer_refresh_repeated_same_scene_loading_accepts_same_scene_success() {
    let mut state = MixerAudioRefreshState::default();
    state.loading("Scene A".to_string());
    state.loading("Scene A".to_string());

    let transition = state.success("Scene A".to_string(), vec![input("Latest Mic")]);

    assert_eq!(transition, MixerAudioRefreshTransition::Success);
    assert_eq!(state.requested_scene, None);
    let loaded = state.loaded.as_ref().expect("loaded mixer snapshot");
    assert_eq!(loaded.scene, "Scene A");
    assert_eq!(loaded.inputs[0].id, "Latest Mic");
    assert!(state.error.is_none());
}

#[test]
fn mixer_refresh_failure_sets_visible_error_for_current_request() {
    let mut state = MixerAudioRefreshState {
        requested_scene: None,
        loaded: Some(MixerAudioSnapshot {
            scene: "Previous".to_string(),
            inputs: vec![input("Previous Mic")],
        }),
        error: None,
    };
    state.loading("Scene A".to_string());

    let transition = state.failure("Scene A".to_string(), "OBS failed".to_string());

    assert_eq!(transition, MixerAudioRefreshTransition::Failure);
    assert_eq!(state.requested_scene, None);
    assert_eq!(
        state
            .loaded
            .as_ref()
            .map(|snapshot| snapshot.scene.as_str()),
        Some("Previous")
    );
    assert_eq!(
        state.error,
        Some(MixerAudioError {
            scene: "Scene A".to_string(),
            message: "OBS failed".to_string(),
        })
    );
}

#[test]
fn mixer_refresh_stale_success_does_not_overwrite_current_state() {
    let mut state = MixerAudioRefreshState::default();
    state.loading("Scene A".to_string());
    state.loading("Scene B".to_string());

    let transition = state.success("Scene A".to_string(), vec![input("Stale Mic")]);

    assert_eq!(transition, MixerAudioRefreshTransition::StaleSuccess);
    assert_eq!(state.requested_scene.as_deref(), Some("Scene B"));
    assert!(state.loaded.is_none());
    assert!(state.error.is_none());

    let transition = state.success("Scene B".to_string(), vec![input("Current Mic")]);

    assert_eq!(transition, MixerAudioRefreshTransition::Success);
    let loaded = state.loaded.as_ref().expect("loaded mixer snapshot");
    assert_eq!(loaded.scene, "Scene B");
    assert_eq!(loaded.inputs[0].id, "Current Mic");
}

#[test]
fn mixer_refresh_stale_failure_does_not_overwrite_loaded_snapshot_or_visible_error() {
    let mut state = MixerAudioRefreshState {
        requested_scene: Some("Scene B".to_string()),
        loaded: Some(MixerAudioSnapshot {
            scene: "Loaded".to_string(),
            inputs: vec![input("Loaded Mic")],
        }),
        error: Some(MixerAudioError {
            scene: "Scene B".to_string(),
            message: "current failure".to_string(),
        }),
    };

    let transition = state.failure("Scene A".to_string(), "stale failure".to_string());

    assert_eq!(transition, MixerAudioRefreshTransition::StaleFailure);
    assert_eq!(state.requested_scene.as_deref(), Some("Scene B"));
    assert_eq!(
        state
            .loaded
            .as_ref()
            .map(|snapshot| snapshot.scene.as_str()),
        Some("Loaded")
    );
    assert_eq!(
        state.error,
        Some(MixerAudioError {
            scene: "Scene B".to_string(),
            message: "current failure".to_string(),
        })
    );
}

#[test]
fn visible_mixer_audio_status_reports_loading_for_target_scene() {
    let mut state = app_state();
    state.set_mixer_audio_loading("Scene A".to_string());

    assert!(matches!(
        state.visible_mixer_audio_status("Scene A"),
        MixerVisibleAudioStatus::Loading
    ));
}

#[test]
fn visible_mixer_audio_status_reports_error_for_target_scene() {
    let mut state = app_state();
    state.set_mixer_audio_loading("Scene A".to_string());
    state.set_mixer_audio_failure("Scene A".to_string(), "OBS failed".to_string());

    let MixerVisibleAudioStatus::Error(error) = state.visible_mixer_audio_status("Scene A")
    else {
        panic!("expected visible mixer error");
    };

    assert_eq!(error.scene, "Scene A");
    assert_eq!(error.message, "OBS failed");
}

#[test]
fn visible_mixer_audio_status_reports_loaded_inputs_for_target_scene() {
    let mut state = app_state();
    state.set_mixer_audio_loading("Scene A".to_string());
    state.set_mixer_audio_success("Scene A".to_string(), vec![input("Mic"), input("Music")]);

    let MixerVisibleAudioStatus::Loaded(inputs) = state.visible_mixer_audio_status("Scene A")
    else {
        panic!("expected visible mixer inputs");
    };

    assert_eq!(inputs.len(), 2);
    assert_eq!(inputs[0].id, "Mic");
    assert_eq!(inputs[1].id, "Music");
}

#[test]
fn visible_mixer_audio_status_reports_missing_without_target_state() {
    let state = app_state();

    assert!(matches!(
        state.visible_mixer_audio_status("Scene A"),
        MixerVisibleAudioStatus::Missing
    ));
}

#[test]
fn visible_mixer_audio_status_treats_other_scene_state_as_missing() {
    let mut state = app_state();
    state.set_mixer_audio_loading("Scene A".to_string());
    assert!(matches!(
        state.visible_mixer_audio_status("Scene B"),
        MixerVisibleAudioStatus::Missing
    ));

    state.set_mixer_audio_failure("Scene A".to_string(), "OBS failed".to_string());
    assert!(matches!(
        state.visible_mixer_audio_status("Scene B"),
        MixerVisibleAudioStatus::Missing
    ));

    state.set_mixer_audio_loading("Scene A".to_string());
    state.set_mixer_audio_success("Scene A".to_string(), vec![input("Mic")]);
    assert!(matches!(
        state.visible_mixer_audio_status("Scene B"),
        MixerVisibleAudioStatus::Missing
    ));
}

#[test]
fn visible_mixer_render_source_active_reads_live_audio_inputs() {
    let mut state = app_state();
    state.mixer.mode = MixerMode::ActiveScene;
    state.audio_inputs = vec![input("Live Mic"), input("Live Music")];
    state.set_mixer_audio_loading("Scene A".to_string());
    state.set_mixer_audio_failure("Scene A".to_string(), "OBS failed".to_string());

    let MixerVisibleRenderSource::ActiveScene(inputs) = state.visible_mixer_render_source()
    else {
        panic!("expected active mixer render source");
    };

    assert_eq!(inputs.len(), 2);
    assert_eq!(inputs[0].id, "Live Mic");
    assert_eq!(inputs[1].id, "Live Music");
}

#[test]
fn visible_mixer_render_source_selected_uses_selected_scene_status() {
    let mut state = app_state();
    state.mixer.mode = MixerMode::SelectedScene;
    state.scene_inventory.current_id = Some("Active".to_string());
    state.mixer.selected_scene = Some("Selected".to_string());
    state.set_mixer_audio_loading("Selected".to_string());
    state.set_mixer_audio_success("Selected".to_string(), vec![input("Selected Mic")]);

    let MixerVisibleRenderSource::Scene { scene, status } = state.visible_mixer_render_source()
    else {
        panic!("expected scene mixer render source");
    };

    assert_eq!(scene, "Selected");
    let MixerVisibleAudioStatus::Loaded(inputs) = status else {
        panic!("expected selected mixer inputs");
    };
    assert_eq!(inputs.len(), 1);
    assert_eq!(inputs[0].id, "Selected Mic");
}

#[test]
fn visible_mixer_render_source_pinned_uses_pinned_scene_status() {
    let mut state = app_state();
    state.mixer.mode = MixerMode::PinnedScene;
    state.scene_inventory.current_id = Some("Active".to_string());
    state.mixer.selected_scene = Some("Selected".to_string());
    state.mixer.pinned_scene = Some("Pinned".to_string());
    state.set_mixer_audio_loading("Pinned".to_string());

    let MixerVisibleRenderSource::Scene { scene, status } = state.visible_mixer_render_source()
    else {
        panic!("expected scene mixer render source");
    };

    assert_eq!(scene, "Pinned");
    assert!(matches!(status, MixerVisibleAudioStatus::Loading));
}

#[test]
fn visible_mixer_render_source_selected_reports_missing_for_other_loaded_scene() {
    let mut state = app_state();
    state.mixer.mode = MixerMode::SelectedScene;
    state.mixer.selected_scene = Some("Selected".to_string());
    state.set_mixer_audio_loading("Loaded".to_string());
    state.set_mixer_audio_success("Loaded".to_string(), vec![input("Other Mic")]);

    let MixerVisibleRenderSource::Scene { scene, status } = state.visible_mixer_render_source()
    else {
        panic!("expected scene mixer render source");
    };

    assert_eq!(scene, "Selected");
    assert!(matches!(status, MixerVisibleAudioStatus::Missing));
}

#[test]
fn visible_mixer_render_source_pinned_reports_target_error_over_other_loaded_scene() {
    let mut state = app_state();
    state.mixer.mode = MixerMode::PinnedScene;
    state.mixer.pinned_scene = Some("Pinned".to_string());
    state.set_mixer_audio_loading("Loaded".to_string());
    state.set_mixer_audio_success("Loaded".to_string(), vec![input("Other Mic")]);
    state.set_mixer_audio_loading("Pinned".to_string());
    state.set_mixer_audio_failure("Pinned".to_string(), "OBS failed".to_string());

    let MixerVisibleRenderSource::Scene { scene, status } = state.visible_mixer_render_source()
    else {
        panic!("expected scene mixer render source");
    };

    assert_eq!(scene, "Pinned");
    let MixerVisibleAudioStatus::Error(error) = status else {
        panic!("expected pinned mixer error");
    };
    assert_eq!(error.scene, "Pinned");
    assert_eq!(error.message, "OBS failed");
}

#[test]
fn visible_mixer_render_source_scene_modes_report_missing_without_target_scene() {
    let mut state = app_state();

    state.mixer.mode = MixerMode::SelectedScene;
    assert!(matches!(
        state.visible_mixer_render_source(),
        MixerVisibleRenderSource::MissingScene
    ));

    state.mixer.mode = MixerMode::PinnedScene;
    assert!(matches!(
        state.visible_mixer_render_source(),
        MixerVisibleRenderSource::MissingScene
    ));
}

#[test]
fn mixer_scene_refresh_target_active_mode_has_no_scene_specific_target() {
    let mut state = app_state();
    state.mixer.mode = MixerMode::ActiveScene;
    state.scene_inventory.current_id = Some("Active".to_string());
    state.mixer.selected_scene = Some("Selected".to_string());
    state.mixer.pinned_scene = Some("Pinned".to_string());

    assert_eq!(state.mixer_scene_refresh_target(), None);
}

#[test]
fn mixer_scene_refresh_target_selected_mode_uses_selected_scene() {
    let mut state = app_state();
    state.mixer.mode = MixerMode::SelectedScene;
    state.scene_inventory.current_id = Some("Active".to_string());
    state.mixer.selected_scene = Some("Selected".to_string());

    assert_eq!(state.mixer_scene_refresh_target(), Some("Selected"));
    assert_eq!(
        state.mixer_scene_refresh_target_details(),
        Some(MixerSceneRefreshTarget {
            scene: "Selected",
            reason: MixerSceneRefreshTargetReason::DirectSelectedScene,
        })
    );
}

#[test]
fn mixer_scene_refresh_target_selected_mode_falls_back_to_current_scene() {
    let mut state = app_state();
    state.mixer.mode = MixerMode::SelectedScene;
    state.scene_inventory.current_id = Some("Active".to_string());

    assert_eq!(state.mixer_scene_refresh_target(), Some("Active"));
    assert_eq!(
        state.mixer_scene_refresh_target_details(),
        Some(MixerSceneRefreshTarget {
            scene: "Active",
            reason: MixerSceneRefreshTargetReason::SelectedModeCurrentSceneFallback,
        })
    );
}

#[test]
fn mixer_scene_refresh_target_selected_mode_reports_none_without_selected_or_current_scene() {
    let mut state = app_state();
    state.mixer.mode = MixerMode::SelectedScene;

    assert_eq!(state.mixer_scene_refresh_target(), None);
    assert_eq!(state.mixer_scene_refresh_target_details(), None);
}

#[test]
fn mixer_scene_refresh_target_pinned_mode_uses_pinned_scene() {
    let mut state = app_state();
    state.mixer.mode = MixerMode::PinnedScene;
    state.scene_inventory.current_id = Some("Active".to_string());
    state.mixer.selected_scene = Some("Selected".to_string());
    state.mixer.pinned_scene = Some("Pinned".to_string());

    assert_eq!(state.mixer_scene_refresh_target(), Some("Pinned"));
    assert_eq!(
        state.mixer_scene_refresh_target_details(),
        Some(MixerSceneRefreshTarget {
            scene: "Pinned",
            reason: MixerSceneRefreshTargetReason::DirectPinnedScene,
        })
    );
}

#[test]
fn mixer_scene_refresh_target_pinned_mode_falls_back_to_selected_scene() {
    let mut state = app_state();
    state.mixer.mode = MixerMode::PinnedScene;
    state.scene_inventory.current_id = Some("Active".to_string());
    state.mixer.selected_scene = Some("Selected".to_string());

    assert_eq!(state.mixer_scene_refresh_target(), Some("Selected"));
    assert_eq!(
        state.mixer_scene_refresh_target_details(),
        Some(MixerSceneRefreshTarget {
            scene: "Selected",
            reason: MixerSceneRefreshTargetReason::PinnedModeSelectedSceneFallback,
        })
    );
}

#[test]
fn mixer_scene_refresh_target_pinned_mode_falls_back_to_current_scene() {
    let mut state = app_state();
    state.mixer.mode = MixerMode::PinnedScene;
    state.scene_inventory.current_id = Some("Active".to_string());

    assert_eq!(state.mixer_scene_refresh_target(), Some("Active"));
    assert_eq!(
        state.mixer_scene_refresh_target_details(),
        Some(MixerSceneRefreshTarget {
            scene: "Active",
            reason: MixerSceneRefreshTargetReason::PinnedModeCurrentSceneFallback,
        })
    );
}

#[test]
fn mixer_scene_refresh_target_pinned_mode_reports_none_without_any_fallback_scene() {
    let mut state = app_state();
    state.mixer.mode = MixerMode::PinnedScene;

    assert_eq!(state.mixer_scene_refresh_target(), None);
    assert_eq!(state.mixer_scene_refresh_target_details(), None);
}

#[test]
fn mixer_inspection_snapshot_reports_active_render_source() {
    let mut state = app_state();
    state.mixer.mode = MixerMode::ActiveScene;
    state.scene_inventory.current_id = Some("Active".to_string());
    state.mixer.selected_scene = Some("Selected".to_string());
    state.mixer.pinned_scene = Some("Pinned".to_string());
    state.audio_inputs = vec![loud_muted_input("Live Mic")];
    state.set_mixer_audio_loading("Selected".to_string());

    let snapshot = state.mixer_inspection_snapshot();

    assert_eq!(snapshot.mode, MixerMode::ActiveScene);
    assert_eq!(snapshot.selected_scene, Some("Selected"));
    assert_eq!(snapshot.pinned_scene, Some("Pinned"));
    assert_eq!(snapshot.refresh_target, None);
    assert_eq!(
        snapshot.render_source_kind,
        MixerInspectionRenderSourceKind::ActiveScene
    );
    assert_eq!(snapshot.scene, Some("Active"));
    assert_eq!(
        snapshot.status,
        MixerInspectionStatus::LoadedWithVisibleInputCards
    );
    assert_eq!(snapshot.inputs.len(), 1);
    assert_snapshot_input(&snapshot.inputs[0], "Live Mic", true);
}

#[test]
fn mixer_inspection_snapshot_reports_selected_direct_target() {
    let mut state = app_state();
    state.mixer.mode = MixerMode::SelectedScene;
    state.scene_inventory.current_id = Some("Active".to_string());
    state.mixer.selected_scene = Some("Selected".to_string());
    state.set_mixer_audio_loading("Selected".to_string());
    state.set_mixer_audio_success("Selected".to_string(), vec![loud_muted_input("Scene Mic")]);

    let snapshot = state.mixer_inspection_snapshot();

    assert_eq!(snapshot.mode, MixerMode::SelectedScene);
    assert_eq!(
        snapshot.refresh_target,
        Some(MixerSceneRefreshTarget {
            scene: "Selected",
            reason: MixerSceneRefreshTargetReason::DirectSelectedScene,
        })
    );
    assert_eq!(
        snapshot.render_source_kind,
        MixerInspectionRenderSourceKind::Scene
    );
    assert_eq!(snapshot.scene, Some("Selected"));
    assert_eq!(
        snapshot.status,
        MixerInspectionStatus::LoadedWithVisibleInputCards
    );
    assert_eq!(snapshot.inputs.len(), 1);
    assert_snapshot_input(&snapshot.inputs[0], "Scene Mic", true);
}

#[test]
fn mixer_inspection_snapshot_reports_selected_fallback_target() {
    let mut state = app_state();
    state.mixer.mode = MixerMode::SelectedScene;
    state.scene_inventory.current_id = Some("Active".to_string());
    state.set_mixer_audio_loading("Active".to_string());
    state.set_mixer_audio_success("Active".to_string(), vec![loud_muted_input("Active Mic")]);

    let snapshot = state.mixer_inspection_snapshot();

    assert_eq!(snapshot.selected_scene, None);
    assert_eq!(
        snapshot.refresh_target,
        Some(MixerSceneRefreshTarget {
            scene: "Active",
            reason: MixerSceneRefreshTargetReason::SelectedModeCurrentSceneFallback,
        })
    );
    assert_eq!(snapshot.scene, Some("Active"));
    assert_eq!(
        snapshot.status,
        MixerInspectionStatus::LoadedWithVisibleInputCards
    );
    assert_eq!(snapshot.inputs.len(), 1);
    assert_snapshot_input(&snapshot.inputs[0], "Active Mic", true);
}

#[test]
fn mixer_inspection_snapshot_reports_pinned_direct_target() {
    let mut state = app_state();
    state.mixer.mode = MixerMode::PinnedScene;
    state.scene_inventory.current_id = Some("Active".to_string());
    state.mixer.selected_scene = Some("Selected".to_string());
    state.mixer.pinned_scene = Some("Pinned".to_string());
    state.set_mixer_audio_loading("Pinned".to_string());
    state.set_mixer_audio_success("Pinned".to_string(), vec![loud_muted_input("Pinned Mic")]);

    let snapshot = state.mixer_inspection_snapshot();

    assert_eq!(snapshot.mode, MixerMode::PinnedScene);
    assert_eq!(snapshot.selected_scene, Some("Selected"));
    assert_eq!(snapshot.pinned_scene, Some("Pinned"));
    assert_eq!(
        snapshot.refresh_target,
        Some(MixerSceneRefreshTarget {
            scene: "Pinned",
            reason: MixerSceneRefreshTargetReason::DirectPinnedScene,
        })
    );
    assert_eq!(snapshot.scene, Some("Pinned"));
    assert_eq!(
        snapshot.status,
        MixerInspectionStatus::LoadedWithVisibleInputCards
    );
    assert_eq!(snapshot.inputs.len(), 1);
    assert_snapshot_input(&snapshot.inputs[0], "Pinned Mic", true);
}

#[test]
fn mixer_inspection_snapshot_reports_pinned_fallback_target() {
    let mut state = app_state();
    state.mixer.mode = MixerMode::PinnedScene;
    state.scene_inventory.current_id = Some("Active".to_string());
    state.mixer.selected_scene = Some("Selected".to_string());
    state.set_mixer_audio_loading("Selected".to_string());
    state.set_mixer_audio_success(
        "Selected".to_string(),
        vec![loud_muted_input("Selected Mic")],
    );

    let snapshot = state.mixer_inspection_snapshot();

    assert_eq!(snapshot.pinned_scene, None);
    assert_eq!(
        snapshot.refresh_target,
        Some(MixerSceneRefreshTarget {
            scene: "Selected",
            reason: MixerSceneRefreshTargetReason::PinnedModeSelectedSceneFallback,
        })
    );
    assert_eq!(snapshot.scene, Some("Selected"));
    assert_eq!(
        snapshot.status,
        MixerInspectionStatus::LoadedWithVisibleInputCards
    );
    assert_eq!(snapshot.inputs.len(), 1);
    assert_snapshot_input(&snapshot.inputs[0], "Selected Mic", true);
}

#[test]
fn mixer_inspection_snapshot_reports_loading_status() {
    let mut state = app_state();
    state.mixer.mode = MixerMode::SelectedScene;
    state.mixer.selected_scene = Some("Selected".to_string());
    state.set_mixer_audio_loading("Selected".to_string());

    let snapshot = state.mixer_inspection_snapshot();

    assert_eq!(snapshot.scene, Some("Selected"));
    assert_eq!(
        snapshot.status,
        MixerInspectionStatus::LoadingPlaceholderShown
    );
    assert!(snapshot.inputs.is_empty());
}

#[test]
fn mixer_inspection_snapshot_reports_error_status() {
    let mut state = app_state();
    state.mixer.mode = MixerMode::PinnedScene;
    state.mixer.pinned_scene = Some("Pinned".to_string());
    state.set_mixer_audio_loading("Pinned".to_string());
    state.set_mixer_audio_failure("Pinned".to_string(), "OBS failed".to_string());

    let snapshot = state.mixer_inspection_snapshot();

    assert_eq!(snapshot.scene, Some("Pinned"));
    assert_eq!(
        snapshot.status,
        MixerInspectionStatus::ErrorPlaceholderShown("OBS failed")
    );
    assert!(snapshot.inputs.is_empty());
}

#[test]
fn mixer_inspection_snapshot_reports_missing_status() {
    let mut state = app_state();
    state.mixer.mode = MixerMode::SelectedScene;
    state.mixer.selected_scene = Some("Selected".to_string());
    state.set_mixer_audio_loading("Other".to_string());
    state.set_mixer_audio_success("Other".to_string(), vec![loud_muted_input("Other Mic")]);

    let snapshot = state.mixer_inspection_snapshot();

    assert_eq!(
        snapshot.render_source_kind,
        MixerInspectionRenderSourceKind::Scene
    );
    assert_eq!(snapshot.scene, Some("Selected"));
    assert_eq!(snapshot.status, MixerInspectionStatus::MissingNoTarget);
    assert!(snapshot.inputs.is_empty());
}

#[test]
fn mixer_inspection_snapshot_reports_active_loaded_empty_status() {
    let mut state = app_state();
    state.mixer.mode = MixerMode::ActiveScene;
    state.scene_inventory.current_id = Some("Active".to_string());

    let snapshot = state.mixer_inspection_snapshot();

    assert_eq!(
        snapshot.render_source_kind,
        MixerInspectionRenderSourceKind::ActiveScene
    );
    assert_eq!(snapshot.scene, Some("Active"));
    assert_eq!(snapshot.status, MixerInspectionStatus::LoadedNoAudioSources);
    assert!(snapshot.inputs.is_empty());
}

#[test]
fn mixer_inspection_snapshot_reports_scene_loaded_empty_status() {
    let mut state = app_state();
    state.mixer.mode = MixerMode::SelectedScene;
    state.mixer.selected_scene = Some("Selected".to_string());
    state.set_mixer_audio_loading("Selected".to_string());
    state.set_mixer_audio_success("Selected".to_string(), Vec::new());

    let snapshot = state.mixer_inspection_snapshot();

    assert_eq!(
        snapshot.render_source_kind,
        MixerInspectionRenderSourceKind::Scene
    );
    assert_eq!(snapshot.scene, Some("Selected"));
    assert_eq!(snapshot.status, MixerInspectionStatus::LoadedNoAudioSources);
    assert!(snapshot.inputs.is_empty());
}

#[test]
fn mixer_inspection_status_can_represent_filtered_loaded_empty_status() {
    assert_ne!(
        MixerInspectionStatus::LoadedNoAudioSources,
        MixerInspectionStatus::LoadedNoMatchingAudioSourcesAfterFiltering
    );
}

#[test]
fn mixer_input_mute_update_changes_visible_loaded_snapshot() {
    let mut state = app_state();
    state.set_mixer_audio_loading("Scene A".to_string());
    state.set_mixer_audio_success("Scene A".to_string(), vec![input("Mic"), input("Music")]);

    assert!(state.update_mixer_input_mute("Mic", true));

    assert!(visible_loaded_input(&state, "Scene A", "Mic").muted);
    assert!(!visible_loaded_input(&state, "Scene A", "Music").muted);
}

#[test]
fn mixer_input_volume_update_changes_visible_loaded_snapshot() {
    let mut state = app_state();
    state.set_mixer_audio_loading("Scene A".to_string());
    state.set_mixer_audio_success("Scene A".to_string(), vec![input("Mic"), input("Music")]);

    assert!(state.update_mixer_input_volume("Music", 0.42f64.to_bits(), (-7.5f64).to_bits()));

    assert_eq!(
        f64::from_bits(visible_loaded_input(&state, "Scene A", "Music").volume_mul),
        0.42
    );
    assert_eq!(
        f64::from_bits(visible_loaded_input(&state, "Scene A", "Music").volume_db),
        -7.5
    );
    assert_eq!(
        f64::from_bits(visible_loaded_input(&state, "Scene A", "Mic").volume_mul),
        1.0
    );
}

#[test]
fn mixer_input_mute_update_preserves_hidden_loaded_snapshot_invariant() {
    let mut state = app_state();
    state.set_mixer_audio_loading("Scene A".to_string());
    state.set_mixer_audio_success("Scene A".to_string(), vec![input("Mic"), input("Music")]);

    assert!(state.update_mixer_input_mute("Mic", true));

    let transition = state.set_mixer_audio_loading("Scene A".to_string());
    assert_eq!(transition, MixerAudioRefreshTransition::Loading);
    assert!(hidden_loaded_input(&state, "Scene A", "Mic").muted);
    assert!(!hidden_loaded_input(&state, "Scene A", "Music").muted);

    let transition =
        state.set_mixer_audio_failure("Scene A".to_string(), "OBS failed".to_string());
    assert_eq!(transition, MixerAudioRefreshTransition::Failure);
    assert!(hidden_loaded_input(&state, "Scene A", "Mic").muted);
    assert!(!hidden_loaded_input(&state, "Scene A", "Music").muted);
}

#[test]
fn mixer_input_volume_update_preserves_hidden_loaded_snapshot_invariant() {
    let mut state = app_state();
    state.set_mixer_audio_loading("Scene A".to_string());
    state.set_mixer_audio_success("Scene A".to_string(), vec![input("Mic"), input("Music")]);

    assert!(state.update_mixer_input_volume("Music", 0.42f64.to_bits(), (-7.5f64).to_bits()));

    let transition = state.set_mixer_audio_loading("Scene A".to_string());
    assert_eq!(transition, MixerAudioRefreshTransition::Loading);
    assert_eq!(
        f64::from_bits(hidden_loaded_input(&state, "Scene A", "Music").volume_mul),
        0.42
    );
    assert_eq!(
        f64::from_bits(hidden_loaded_input(&state, "Scene A", "Music").volume_db),
        -7.5
    );
    assert_eq!(
        f64::from_bits(hidden_loaded_input(&state, "Scene A", "Mic").volume_mul),
        1.0
    );

    let transition =
        state.set_mixer_audio_failure("Scene A".to_string(), "OBS failed".to_string());
    assert_eq!(transition, MixerAudioRefreshTransition::Failure);
    assert_eq!(
        f64::from_bits(hidden_loaded_input(&state, "Scene A", "Music").volume_mul),
        0.42
    );
    assert_eq!(
        f64::from_bits(hidden_loaded_input(&state, "Scene A", "Music").volume_db),
        -7.5
    );
    assert_eq!(
        f64::from_bits(hidden_loaded_input(&state, "Scene A", "Mic").volume_mul),
        1.0
    );
}

#[test]
fn mixer_input_mute_update_is_hidden_by_same_scene_loading_and_failure_status() {
    let mut state = app_state();
    state.set_mixer_audio_loading("Scene A".to_string());
    state.set_mixer_audio_success("Scene A".to_string(), vec![input("Mic"), input("Music")]);

    assert!(state.update_mixer_input_mute("Mic", true));

    let transition = state.set_mixer_audio_loading("Scene A".to_string());
    assert_eq!(transition, MixerAudioRefreshTransition::Loading);
    assert!(matches!(
        state.visible_mixer_audio_status("Scene A"),
        MixerVisibleAudioStatus::Loading
    ));

    let transition =
        state.set_mixer_audio_failure("Scene A".to_string(), "OBS failed".to_string());
    assert_eq!(transition, MixerAudioRefreshTransition::Failure);
    let MixerVisibleAudioStatus::Error(error) = state.visible_mixer_audio_status("Scene A")
    else {
        panic!("expected visible mixer error");
    };
    assert_eq!(error.message, "OBS failed");

    state.clear_pending_mixer_audio_refresh();
    state.set_mixer_audio_loading("Scene A".to_string());
    state.set_mixer_audio_success("Scene A".to_string(), vec![input("Mic"), input("Music")]);
    assert!(!visible_loaded_input(&state, "Scene A", "Mic").muted);
}

#[test]
fn mixer_input_volume_update_is_hidden_by_same_scene_loading_and_failure_status() {
    let mut state = app_state();
    state.set_mixer_audio_loading("Scene A".to_string());
    state.set_mixer_audio_success("Scene A".to_string(), vec![input("Mic"), input("Music")]);

    assert!(state.update_mixer_input_volume("Music", 0.42f64.to_bits(), (-7.5f64).to_bits()));

    let transition = state.set_mixer_audio_loading("Scene A".to_string());
    assert_eq!(transition, MixerAudioRefreshTransition::Loading);
    assert!(matches!(
        state.visible_mixer_audio_status("Scene A"),
        MixerVisibleAudioStatus::Loading
    ));

    let transition =
        state.set_mixer_audio_failure("Scene A".to_string(), "OBS failed".to_string());
    assert_eq!(transition, MixerAudioRefreshTransition::Failure);
    let MixerVisibleAudioStatus::Error(error) = state.visible_mixer_audio_status("Scene A")
    else {
        panic!("expected visible mixer error");
    };
    assert_eq!(error.message, "OBS failed");

    state.clear_pending_mixer_audio_refresh();
    state.set_mixer_audio_loading("Scene A".to_string());
    state.set_mixer_audio_success("Scene A".to_string(), vec![input("Mic"), input("Music")]);
    assert_eq!(
        f64::from_bits(visible_loaded_input(&state, "Scene A", "Music").volume_mul),
        1.0
    );
    assert_eq!(
        f64::from_bits(visible_loaded_input(&state, "Scene A", "Music").volume_db),
        0.0
    );
}
