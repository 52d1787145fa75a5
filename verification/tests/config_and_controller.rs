use std::sync::Arc;

use scenedeck::controller::command::{route_command, AppCommand, CommandRoute};

use scenedeck::controller::dependencies::{AppConfigProvider, ControllerDependencies, ObsPasswordProvider};
use scenedeck::controller::event::{fallback_status_after_failed_output_command, AppEvent};
use scenedeck::controller::output_controller::{
    clear_record_pending, clear_stream_pending, mark_record_pending, mark_stream_pending, output_command_finished,
    pending_status, plan_output_command, OutputCommandPlan, OutputKind, OutputPending,
};
use scenedeck::controller::refresh_controller::{merge_named_list, session_actions, NamedList, SessionAction};
use scenedeck::domain::appearance::{CustomCssPreference, ThemeMode, ThemePreference};
use scenedeck::domain::audio::AudioInput;
use scenedeck::domain::obs::ObsNamedList;
use scenedeck::domain::output::{OutputRunState, OutputStatus};
use scenedeck::infra::error::AppError;
use scenedeck::obs::event::ObsEvent;
use scenedeck::obs::mapper::{map_output_state, map_record_status, map_scenes, map_stream_status, ObsOutputState};
use scenedeck::services::audio_service::AudioService;
use scenedeck::storage::config::{
    apply_migrations, migrate, AppConfig, ConfigRead, ConfigStartupNotice, LiveConfig, LoadedConfig, ObsConfig,
    CURRENT_VERSION,
};

struct StaticConfigProvider(AppConfig);

impl AppConfigProvider for StaticConfigProvider {
    fn load_config(&self) -> AppConfig {
        self.0.clone()
    }
}

struct StaticPasswordProvider(Option<String>);

impl ObsPasswordProvider for StaticPasswordProvider {
    fn obs_password(&self) -> Result<Option<String>, AppError> {
        Ok(self.0.clone())
    }
}

#[test]
fn dependencies_delegate_to_injected_providers() {
    let config = AppConfig {
        version: 1,
        obs: ObsConfig { host: "192.0.2.10".to_string(), port: 4455 },
        live: LiveConfig { audio_inputs: vec!["Mic".to_string()], ..LiveConfig::default() },
        appearance: ThemePreference { mode: ThemeMode::Dark, ..ThemePreference::default() },
        ..AppConfig::default()
    };

    let dependencies = ControllerDependencies::new(
        Arc::new(StaticConfigProvider(config)),
        Arc::new(StaticPasswordProvider(Some("secret".to_string()))),
    );

    assert_eq!(dependencies.load_config().obs.host, "192.0.2.10");
    assert_eq!(dependencies.obs_password().unwrap(), Some("secret".to_string()));
}

#[test]
fn defaults_match_a_fresh_install() {
    let c = AppConfig::default();
    assert_eq!(c.version, CURRENT_VERSION);
    assert_eq!(c.obs.host, "127.0.0.1");
    assert_eq!(c.obs.port, 4455);
    assert!(!c.outputs.confirm_start_stream);
    assert!(c.outputs.confirm_stop_stream);
    assert!(!c.outputs.confirm_start_recording);
    assert!(c.outputs.confirm_stop_recording);
    assert_eq!(c.appearance.mode, ThemeMode::System);
    assert_eq!(c.appearance.selected_theme_id(), "adwaita-default");
    assert!(!c.onboarding.welcome_shown);
}

#[test]
fn existing_configs_are_marked_greeted_on_upgrade() {
    let mut config = AppConfig { version: 2, ..AppConfig::default() };

    assert!(apply_migrations(&mut config));
    assert_eq!(config.version, CURRENT_VERSION);
    assert!(config.onboarding.welcome_shown);
}

#[test]
fn v1_theme_mode_moves_into_the_appearance_section() {
    let mut config = AppConfig { version: 1, legacy_theme_mode: Some(ThemeMode::Dark), ..AppConfig::default() };

    assert!(migrate(&mut config));
    assert_eq!(config.version, CURRENT_VERSION);
    assert_eq!(config.appearance.mode, ThemeMode::Dark);
    assert_eq!(config.legacy_theme_mode, None);
    assert!(config.onboarding.welcome_shown);
}

#[test]
fn a_legacy_stylesheet_is_migrated_alongside_the_version() {
    let mut config = AppConfig {
        version: 2,
        appearance: ThemePreference {
            custom_css: CustomCssPreference {
                enabled: true,
                legacy_path: Some("/tmp/scenedeck.css".to_string()),
                ..CustomCssPreference::default()
            },
            ..ThemePreference::default()
        },
        ..AppConfig::default()
    };

    assert!(apply_migrations(&mut config));
    assert_eq!(config.version, CURRENT_VERSION);
    assert_eq!(config.appearance.custom_css.light_path.as_deref(), Some("/tmp/scenedeck.css"));
    assert_eq!(config.appearance.custom_css.dark_path.as_deref(), Some("/tmp/scenedeck.css"));
    assert_eq!(config.appearance.custom_css.legacy_path, None);
}

#[test]
fn current_and_newer_configs_are_left_alone() {
    let mut current = AppConfig::default();
    assert!(!apply_migrations(&mut current));
    assert!(!current.onboarding.welcome_shown);

    let mut newer = AppConfig { version: 9, ..AppConfig::default() };
    assert!(!migrate(&mut newer));
    assert_eq!(newer.version, 9);
}

#[test]
fn a_fresh_install_is_greeted() {
    let (loaded, persist) = LoadedConfig::from_read(ConfigRead::Missing);

    assert_eq!(loaded.startup_notice, Some(ConfigStartupNotice::FirstLaunch));
    assert!(!loaded.config.onboarding.welcome_shown);
    assert!(!persist);
    // A first launch asks before stopping an output and has shortcuts on.
    assert!(loaded.config.outputs.confirm_stop_stream);
    assert!(loaded.config.outputs.confirm_stop_recording);
    assert!(loaded.config.hotkeys.enabled);
    assert_eq!(loaded.config, AppConfig::default());
}

#[test]
fn an_unparsable_config_starts_on_defaults_and_is_never_written_back() {
    let (loaded, persist) = LoadedConfig::from_read(ConfigRead::Unparsable {
        detail: "expected value".to_string(),
        backup: Some("/cfg/config.json.invalid".to_string()),
    });

    assert!(!persist);
    assert_eq!(loaded.config.obs.host, "127.0.0.1");
    match loaded.startup_notice {
        Some(ConfigStartupNotice::ParseFailed { backup: Some(at), .. }) => assert_eq!(at, "/cfg/config.json.invalid"),
        other => panic!("expected a ParseFailed notice naming the backup, got {other:?}"),
    }
}

#[test]
fn a_parsed_old_config_is_migrated_and_written_back() {
    let (loaded, persist) = LoadedConfig::from_read(ConfigRead::Parsed(AppConfig { version: 2, ..AppConfig::default() }));

    assert!(persist);
    assert_eq!(loaded.startup_notice, None);
    assert_eq!(loaded.config.version, CURRENT_VERSION);
    assert!(loaded.config.onboarding.welcome_shown);
}

#[test]
fn startup_notices_name_the_problem() {
    let notice = ConfigStartupNotice::ReadFailed("permission denied".to_string());
    assert!(notice.user_message().contains("permission denied"));
    let parse = ConfigStartupNotice::ParseFailed { detail: "bad comma".to_string(), backup: Some("/x.invalid".to_string()) };
    assert!(parse.user_message().contains("bad comma"));
    assert!(parse.user_message().contains("/x.invalid"));
}

#[test]
fn start_streaming_without_client_emits_stream_command_failure() {
    let mut pending = OutputPending::default();

    let CommandRoute::Output { kind, active } = route_command(AppCommand::StartStreaming) else {
        panic!("start streaming must be routed to the outputs");
    };
    assert_eq!((kind, active), (OutputKind::Stream, true));
    // With no session the plan carries exactly one event and sends nothing.
    let plan = plan_output_command(&mut pending, kind, active, false);

    match plan {
        OutputCommandPlan::NotConnected(AppEvent::StreamCommandFailed(failure)) => {
            assert_eq!(failure.message(), "Not connected to OBS");
            assert_eq!(*failure.fallback_status(), OutputStatus::default());
        },
        other => panic!("expected a stream command failure, got {other:?}"),
    }
    assert!(!pending.stream, "a refused command must not block the next one");
}

#[test]
fn start_recording_without_client_emits_record_command_failure() {
    let mut pending = OutputPending::default();

    let CommandRoute::Output { kind, active } = route_command(AppCommand::StartRecording) else {
        panic!("start recording must be routed to the outputs");
    };
    assert_eq!((kind, active), (OutputKind::Record, true));
    let plan = plan_output_command(&mut pending, kind, active, false);

    match plan {
        OutputCommandPlan::NotConnected(AppEvent::RecordCommandFailed(failure)) => {
            assert_eq!(failure.message(), "Not connected to OBS");
            assert_eq!(*failure.fallback_status(), OutputStatus::default());
        },
        other => panic!("expected a record command failure, got {other:?}"),
    }
    assert!(!pending.record);
}

#[test]
fn a_second_command_waits_for_the_first() {
    let mut pending = OutputPending::default();

    let first = plan_output_command(&mut pending, OutputKind::Stream, true, true);
    match first {
        OutputCommandPlan::Dispatch { pending: AppEvent::StreamCommandPending(status), fallback } => {
            assert_eq!(status, pending_status(true));
            assert_eq!(fallback, OutputStatus::new(false, OutputRunState::Inactive));
        },
        other => panic!("expected the command to be sent, got {other:?}"),
    }
    assert!(matches!(plan_output_command(&mut pending, OutputKind::Stream, false, true), OutputCommandPlan::Ignored));
    assert!(matches!(
        plan_output_command(&mut pending, OutputKind::Record, true, true),
        OutputCommandPlan::Dispatch { .. }
    ));
}

#[test]
fn pending_flags_are_per_output() {
    let mut pending = OutputPending::default();
    assert!(mark_stream_pending(&mut pending));
    assert!(!mark_stream_pending(&mut pending));
    assert!(mark_record_pending(&mut pending));
    clear_stream_pending(&mut pending);
    assert!(!pending.stream && pending.record);
    clear_record_pending(&mut pending);
    assert_eq!(pending, OutputPending::default());
}

#[test]
fn a_failed_stop_falls_back_to_active() {
    let fallback = fallback_status_after_failed_output_command(&pending_status(false));
    assert_eq!(fallback, OutputStatus::new(true, OutputRunState::Active));
    assert!(!fallback.state.is_transitioning());
}

#[test]
fn a_finished_recording_reports_its_file() {
    let events = output_command_finished(OutputKind::Record, Ok(Some("/tmp/take.mkv".to_string())), OutputStatus::active());
    assert_eq!(events.len(), 2);
    assert!(matches!(events[0], AppEvent::RecordCommandSucceeded));
    match &events[1] {
        AppEvent::RecordStatusUpdated(status) => {
            assert!(!status.active);
            assert_eq!(status.detail.as_deref(), Some("/tmp/take.mkv"));
        },
        other => panic!("expected a record status, got {other:?}"),
    }

    let failed = output_command_finished(OutputKind::Stream, Err("boom".to_string()), pending_status(true));
    match &failed[..] {
        [AppEvent::StreamCommandFailed(failure)] => {
            assert_eq!(failure.message(), "boom");
            assert_eq!(failure.fallback_status().state, OutputRunState::Inactive);
        },
        other => panic!("expected one stream failure, got {other:?}"),
    }
}

#[test]
fn refreshed_lists_prefer_the_event_and_fall_back_to_its_payload() {
    let fetched = ObsNamedList { items: Vec::new(), current: Some("Old".to_string()) };
    let merged = merge_named_list(fetched, Some("New".to_string()), vec!["A".to_string(), "New".to_string()]);
    assert_eq!(merged.current.as_deref(), Some("New"));
    assert_eq!(merged.items, ["A", "New"]);

    let fetched = ObsNamedList { items: vec!["X".to_string()], current: None };
    let merged = merge_named_list(fetched, None, vec!["ignored".to_string()]);
    assert_eq!(merged.items, ["X"]);
    assert_eq!(NamedList::SceneCollections.log_name(), "scene collection");
}

#[test]
fn a_new_scene_collection_refreshes_everything_live() {
    let actions = session_actions(ObsEvent::CurrentSceneCollectionChanged("Show".to_string()));
    assert_eq!(actions.len(), 2);
    assert!(matches!(
        &actions[0],
        SessionAction::RefreshNamedList { list: NamedList::SceneCollections, current: Some(name), fallback_items }
            if name == "Show" && fallback_items.is_empty()
    ));
    assert!(matches!(actions[1], SessionAction::RefreshLiveData));
    assert!(session_actions(ObsEvent::Ignored).is_empty());

    let scene = session_actions(ObsEvent::CurrentProgramSceneChanged("Main".to_string()));
    assert!(matches!(&scene[0], SessionAction::Publish(AppEvent::CurrentSceneChanged(s)) if s == "Main"));
    assert!(matches!(&scene[1], SessionAction::RefreshSceneAudio(s) if s == "Main"));
}

#[test]
fn stream_status_mapping_prioritizes_reconnecting() {
    assert_eq!(map_stream_status(true, true).state, OutputRunState::Reconnecting);
    assert_eq!(map_stream_status(true, false), OutputStatus::new(true, OutputRunState::Active));
    assert_eq!(map_stream_status(false, false), OutputStatus::new(false, OutputRunState::Inactive));
}

#[test]
fn record_status_mapping_prioritizes_paused() {
    assert_eq!(map_record_status(true, true).state, OutputRunState::Paused);
    assert_eq!(map_record_status(true, false).state, OutputRunState::Active);
    assert_eq!(map_record_status(false, false).state, OutputRunState::Inactive);
}

#[test]
fn output_state_mapping_preserves_lifecycle_meaning() {
    assert_eq!(map_output_state(ObsOutputState::Started), OutputRunState::Active);
    assert_eq!(map_output_state(ObsOutputState::Reconnected), OutputRunState::Active);
    assert_eq!(map_output_state(ObsOutputState::Resumed), OutputRunState::Active);
    assert_eq!(map_output_state(ObsOutputState::Stopped), OutputRunState::Inactive);
    assert_eq!(map_output_state(ObsOutputState::Unknown), OutputRunState::Unknown);
}

#[test]
fn scenes_come_back_in_switcher_order() {
    let inventory = map_scenes(vec!["Bottom".to_string(), "Top".to_string()], Some("Top".to_string()));
    let ids: Vec<&str> = inventory.scenes.iter().map(|s| s.id.as_str()).collect();
    assert_eq!(ids, ["Top", "Bottom"]);
    assert_eq!(inventory.current_id.as_deref(), Some("Top"));
}

fn input(name: &str) -> AudioInput {
    AudioInput::new(name.to_string(), false, 1.0f64.to_bits(), 0.0f64.to_bits())
}

#[test]
fn configured_inputs_filter_the_mixer() {
    let inputs = vec![input("Mic"), input("Music"), input("Desktop")];
    let all = AudioService::filter_configured(&inputs, &Vec::new());
    assert_eq!(all.len(), 3);

    let picked = AudioService::filter_configured(&inputs, &vec!["Desktop".to_string(), "Mic".to_string()]);
    let names: Vec<&str> = picked.iter().map(|i| i.name.as_str()).collect();
    assert_eq!(names, ["Mic", "Desktop"]);
}

#[test]
fn output_status_mapping_keeps_active_flag_and_detail() {
    let status = scenedeck::obs::mapper::map_output_status(
        true,
        ObsOutputState::Reconnected,
        Some("/tmp/recording.mkv".to_string()),
    );

    assert!(status.active);
    assert_eq!(status.state, OutputRunState::Active);
    assert_eq!(status.detail.as_deref(), Some("/tmp/recording.mkv"));
}

#[test]
fn stream_status_mapping_reports_active_and_inactive() {
    let active = map_stream_status(true, false);
    let inactive = map_stream_status(false, false);

    assert_eq!(active.state, OutputRunState::Active);
    assert_eq!(inactive.state, OutputRunState::Inactive);
}

#[test]
fn record_status_mapping_reports_active_and_inactive() {
    let active = map_record_status(true, false);
    let inactive = map_record_status(false, false);

    assert_eq!(active.state, OutputRunState::Active);
    assert_eq!(inactive.state, OutputRunState::Inactive);
}

#[test]
fn legacy_custom_css_path_migrates_to_light_and_dark_paths() {
    let mut preference = ThemePreference::default();
    preference.custom_css = CustomCssPreference {
        enabled: true,
        light_path: None,
        dark_path: None,
        legacy_path: Some("/tmp/scenedeck.css".to_string()),
    };

    assert!(preference.migrate_legacy_custom_css_path());
    assert_eq!(preference.custom_css.light_path.as_deref(), Some("/tmp/scenedeck.css"));
    assert_eq!(preference.custom_css.dark_path.as_deref(), Some("/tmp/scenedeck.css"));
}
