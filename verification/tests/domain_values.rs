use scenedeck::domain::appearance::{Language, ThemeMode, UiDensity};
use scenedeck::domain::diagnostic::{Diagnostic, DiagnosticSeverity};
use scenedeck::domain::graph::EdgeStatus;
use scenedeck::domain::hotkey::{LeaderKey, SceneHotkeyStyle};
use scenedeck::domain::mixer::{MixerGrouping, MixerMode};
use scenedeck::domain::obs::ObsNamedList;
use scenedeck::domain::output::{OutputRunState, OutputStatus};
use scenedeck::domain::role::SceneRole;

#[test]
fn unknown_theme_mode_falls_back_to_system() {
    assert_eq!("unexpected".parse::<ThemeMode>(), Ok(ThemeMode::System));
}

#[test]
fn unknown_language_falls_back_to_system() {
    assert_eq!("xx".parse::<Language>(), Ok(Language::System));
}

#[test]
fn language_round_trips_through_persisted_string() {
    for language in Language::ALL {
        assert_eq!(language.as_str().parse::<Language>(), Ok(language));
    }
}

#[test]
fn system_language_has_no_locale_tag() {
    assert_eq!(Language::System.locale_tag(), None);
    assert_eq!(Language::PtPt.locale_tag(), Some("pt-PT"));
}

#[test]
fn every_string_enum_round_trips_through_its_own_spelling() {
    for mode in [ThemeMode::System, ThemeMode::Light, ThemeMode::Dark] {
        assert_eq!(mode.as_str().parse::<ThemeMode>(), Ok(mode));
    }
    for language in Language::ALL {
        assert_eq!(language.as_str().parse::<Language>(), Ok(language));
    }
    for density in [UiDensity::Compact, UiDensity::Comfortable] {
        assert_eq!(density.as_str().parse::<UiDensity>(), Ok(density));
    }
    for style in SceneHotkeyStyle::ALL {
        assert_eq!(style.as_str().parse::<SceneHotkeyStyle>(), Ok(style));
    }
    for leader in LeaderKey::ALL {
        assert_eq!(leader.as_str().parse::<LeaderKey>(), Ok(leader));
    }
    for mode in [MixerMode::ActiveScene, MixerMode::SelectedScene, MixerMode::PinnedScene] {
        assert_eq!(mode.as_str().parse::<MixerMode>(), Ok(mode));
    }
    for grouping in [MixerGrouping::Scope, MixerGrouping::ScenePath, MixerGrouping::Ungrouped] {
        assert_eq!(grouping.as_str().parse::<MixerGrouping>(), Ok(grouping));
    }
}

#[test]
fn display_order_prioritizes_actionable_findings() {
    assert_eq!(
        DiagnosticSeverity::DISPLAY_ORDER,
        [DiagnosticSeverity::Error, DiagnosticSeverity::Warning, DiagnosticSeverity::Info]
    );
}

#[test]
fn count_labels_use_singular_and_plural_wording() {
    assert_eq!(DiagnosticSeverity::Error.format_count(1), "1 error");
    assert_eq!(DiagnosticSeverity::Error.format_count(2), "2 errors");
    assert_eq!(DiagnosticSeverity::Warning.format_count(1), "1 warning");
    assert_eq!(DiagnosticSeverity::Warning.format_count(3), "3 warnings");
    assert_eq!(DiagnosticSeverity::Info.format_count(1), "1 info item");
    assert_eq!(DiagnosticSeverity::Info.format_count(0), "0 info items");
}

fn diagnostic(severity: DiagnosticSeverity) -> Diagnostic {
    Diagnostic { severity, scene: None, message: String::new(), suggestion: None }
}

#[test]
fn count_in_filters_by_severity() {
    let diagnostics = vec![
        diagnostic(DiagnosticSeverity::Error),
        diagnostic(DiagnosticSeverity::Warning),
        diagnostic(DiagnosticSeverity::Warning),
    ];

    assert_eq!(DiagnosticSeverity::Error.count_in(&diagnostics), 1);
    assert_eq!(DiagnosticSeverity::Warning.count_in(&diagnostics), 2);
    assert_eq!(DiagnosticSeverity::Info.count_in(&diagnostics), 0);
}

#[test]
fn diagnostic_title_includes_scene_context_when_present() {
    let diagnostic = Diagnostic {
        severity: DiagnosticSeverity::Warning,
        scene: Some("Main".to_string()),
        message: "depends on Raw".to_string(),
        suggestion: None,
    };

    assert_eq!(diagnostic.title(), "Main: depends on Raw");
}

#[test]
fn diagnostic_title_uses_message_for_global_findings() {
    let diagnostic = Diagnostic {
        severity: DiagnosticSeverity::Info,
        scene: None,
        message: "No scene role assigned".to_string(),
        suggestion: None,
    };

    assert_eq!(diagnostic.title(), "No scene role assigned");
}

#[test]
fn edge_status_summary_order_matches_graph_legend() {
    assert_eq!(EdgeStatus::SUMMARY_ORDER, [EdgeStatus::Allowed, EdgeStatus::Warning, EdgeStatus::Forbidden]);
}

#[test]
fn edge_status_summary_text_explains_policy_result() {
    assert_eq!(EdgeStatus::Allowed.summary_label(), "OK");
    assert_eq!(EdgeStatus::Allowed.summary_tooltip(), "Edges that match the graph policy");
    assert_eq!(EdgeStatus::Warning.summary_label(), "Warning");
    assert_eq!(EdgeStatus::Warning.summary_tooltip(), "Edges outside an allow-list");
    assert_eq!(EdgeStatus::Forbidden.summary_label(), "Forbidden");
    assert_eq!(EdgeStatus::Forbidden.summary_tooltip(), "Edges forbidden by graph policy");
}

#[test]
fn current_index_finds_reported_item() {
    let list = ObsNamedList { items: vec!["One".to_string(), "Two".to_string()], current: Some("Two".to_string()) };

    assert_eq!(list.current_index(), Some(1));
    assert!(list.has_items());
}

#[test]
fn current_index_is_absent_when_current_is_missing_or_unknown() {
    let missing = ObsNamedList { items: vec!["One".to_string()], current: Some("Two".to_string()) };
    let unknown = ObsNamedList { items: vec!["One".to_string()], current: None };

    assert_eq!(missing.current_index(), None);
    assert_eq!(unknown.current_index(), None);
    assert!(!ObsNamedList::default().has_items());
}

#[test]
fn summary_uses_output_name_and_run_state_label() {
    let status = OutputStatus::new(true, OutputRunState::Reconnecting);

    assert_eq!(status.summary("Stream"), "Stream: Reconnecting");
}

#[test]
fn detail_tooltip_ignores_empty_details() {
    let mut status = OutputStatus::inactive().with_detail("");
    assert_eq!(status.detail_tooltip(), None);

    status.detail = Some("/tmp/recording.mkv".to_string());
    assert_eq!(status.detail_tooltip(), Some("/tmp/recording.mkv"));
}

#[test]
fn constructors_build_common_output_states() {
    assert_eq!(OutputStatus::default(), OutputStatus::inactive());
    assert_eq!(OutputStatus::inactive().state, OutputRunState::Inactive);
    assert!(!OutputStatus::inactive().active);
    assert_eq!(OutputStatus::inactive_with_detail("/tmp/done.mkv").detail.as_deref(), Some("/tmp/done.mkv"));
    assert_eq!(OutputStatus::active().state, OutputRunState::Active);
    assert!(OutputStatus::active().active);
    assert_eq!(OutputStatus::active_with_detail("/tmp/live.mkv").detail.as_deref(), Some("/tmp/live.mkv"));
}

#[test]
fn detail_builders_attach_recording_paths() {
    let completed = OutputStatus::inactive().with_detail("/tmp/done.mkv");
    let active = OutputStatus::active().with_optional_detail(Some("/tmp/live.mkv".into()));

    assert_eq!(completed.detail.as_deref(), Some("/tmp/done.mkv"));
    assert_eq!(active.detail.as_deref(), Some("/tmp/live.mkv"));
}

#[test]
fn transition_states_are_identified() {
    assert!(OutputRunState::Starting.is_transitioning());
    assert!(OutputRunState::Stopping.is_transitioning());
    assert!(OutputRunState::Reconnecting.is_transitioning());
    assert!(!OutputRunState::Active.is_transitioning());
    assert!(!OutputRunState::Inactive.is_transitioning());
}

#[test]
fn optional_role_label_uses_unassigned_fallback() {
    assert_eq!(SceneRole::label_or_unassigned(None), "Unassigned");
    assert_eq!(SceneRole::label_or_unassigned(Some(SceneRole::Primary)), "Primary");
}
