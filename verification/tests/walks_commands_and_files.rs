use scenedeck::controller::command::{route_command, AppCommand, ClientRequest, CommandRoute};
use scenedeck::controller::output_controller::{outputs_to_stop, OutputKind};
use scenedeck::domain::output::OutputStatus;
use scenedeck::domain::audio::AudioSourceScope;
use scenedeck::domain::role::SceneRole;
use scenedeck::obs::scan::{
    global_audio_input_names, inputs_from_readings, scene_graph_from_items, AudioInputSource, SceneAudioScan,
    SceneItemInfo, SceneItemKind,
};
use scenedeck::storage::registry::{
    registry_from_read, remove_scene_entry_in, set_scene_role_in, RegistryMutationError, RegistryRead,
    RegistryStorageError, SceneRegistry,
};

fn input(name: &str) -> SceneItemInfo {
    SceneItemInfo { source_name: name.to_string(), kind: SceneItemKind::Input, is_group: None, enabled: true }
}

fn nested(name: &str, group: bool) -> SceneItemInfo {
    SceneItemInfo { source_name: name.to_string(), kind: SceneItemKind::Scene, is_group: Some(group), enabled: true }
}

fn walk(scan: &mut SceneAudioScan, listings: &[(&str, Vec<SceneItemInfo>)]) -> Vec<String> {
    let mut order = Vec::new();
    while let Some(container) = scan.next_container() {
        order.push(container.name.clone());
        let items = listings
            .iter()
            .find(|(name, _)| *name == container.name.as_str())
            .map(|(_, items)| items.clone())
            .unwrap_or_default();
        scan.add_items(&container, &items);
    }
    order
}

#[test]
fn scene_walk_finds_globals_then_nested_inputs_once() {
    let mut scan = SceneAudioScan::new("Main", Vec::new(), vec!["Desktop".to_string(), "Mic".to_string()]);
    let listings = vec![
        ("Main", vec![input("Mic"), input("Music"), nested("Intro", false), nested("Cams", true)]),
        ("Intro", vec![input("Jingle"), input("Music")]),
        ("Cams", vec![input("Cam mic")]),
    ];
    let order = walk(&mut scan, &listings);
    // The most recently found container is listed first.
    assert_eq!(order, vec!["Main", "Cams", "Intro"]);

    let sources = scan.into_sources();
    let names: Vec<&str> = sources.iter().map(|s| s.name.as_str()).collect();
    assert_eq!(names, vec!["Desktop", "Mic", "Music", "Cam mic", "Jingle"]);
    assert_eq!(sources[0].scope, AudioSourceScope::Global);
    assert!(sources[0].parent_scene_path.is_empty());
    assert_eq!(sources[2].scope, AudioSourceScope::ActiveScene);
    assert_eq!(sources[2].parent_scene_path, vec!["Main".to_string()]);
    assert_eq!(sources[3].scope, AudioSourceScope::Group);
    assert_eq!(sources[3].parent_scene_path, vec!["Main".to_string(), "Cams".to_string()]);
    assert_eq!(sources[4].scope, AudioSourceScope::NestedScene);
}

#[test]
fn scene_walk_skips_disabled_items_filtered_inputs_and_revisits() {
    let mut scan = SceneAudioScan::new("Main", vec!["Voice".to_string()], Vec::new());
    let mut hidden = input("Voice");
    hidden.enabled = false;
    let listings = vec![
        ("Main", vec![hidden, input("Music"), nested("Loop", false)]),
        ("Loop", vec![nested("Main", false), input("Voice")]),
    ];
    let order = walk(&mut scan, &listings);
    assert_eq!(order, vec!["Main", "Loop"]);
    let sources = scan.into_sources();
    assert_eq!(sources.len(), 1);
    assert_eq!(sources[0].name, "Voice");
    assert_eq!(sources[0].parent_scene_path, vec!["Main".to_string(), "Loop".to_string()]);
}

#[test]
fn first_listed_container_is_required_and_nested_ones_are_not() {
    let mut scan = SceneAudioScan::new("Main", Vec::new(), Vec::new());
    let first = scan.next_container().expect("the inspected scene");
    assert!(first.required);
    assert!(!first.is_group);
    scan.add_items(&first, &vec![nested("Group", true)]);
    let second = scan.next_container().expect("the nested group");
    assert!(!second.required);
    assert!(second.is_group);
    assert!(scan.next_container().is_none());
}

#[test]
fn global_names_skip_empty_slots() {
    let slots = vec![Some("Desktop Audio".to_string()), None, Some("Mic/Aux".to_string()), None, None, None];
    assert_eq!(global_audio_input_names(slots), vec!["Desktop Audio".to_string(), "Mic/Aux".to_string()]);
}

#[test]
fn inputs_whose_reading_failed_are_left_out() {
    let sources = vec![
        AudioInputSource { name: "Mic".to_string(), scope: AudioSourceScope::Global, parent_scene_path: Vec::new() },
        AudioInputSource {
            name: "Music".to_string(),
            scope: AudioSourceScope::ActiveScene,
            parent_scene_path: vec!["Main".to_string()],
        },
    ];
    let half = 0.5f64.to_bits();
    let readings = vec![None, Some((true, half, (-6.0f64).to_bits()))];
    let inputs = inputs_from_readings(sources, readings);
    assert_eq!(inputs.len(), 1);
    assert_eq!(inputs[0].id, "Music");
    assert_eq!(inputs[0].display_name, "Music");
    assert!(inputs[0].muted);
    assert_eq!(inputs[0].volume_mul, half);
    assert_eq!(inputs[0].source_scope, AudioSourceScope::ActiveScene);
    assert_eq!(inputs[0].parent_scene_path, vec!["Main".to_string()]);
    assert!(!inputs[0].locked_locally);
}

#[test]
fn graph_maps_scenes_to_their_nested_scenes() {
    let scenes = vec![
        ("Main".to_string(), vec![input("Mic"), nested("Intro", false), nested("Cams", true)]),
        ("Intro".to_string(), vec![input("Music")]),
        ("Cams".to_string(), vec![nested("Overlay", false)]),
    ];
    let graph = scene_graph_from_items(&scenes);
    assert_eq!(graph.children("Main"), &["Intro".to_string(), "Cams".to_string()][..]);
    assert!(graph.children("Intro").is_empty());
    assert!(graph.is_reachable("Main", "Overlay"));
    assert!(!graph.is_reachable("Intro", "Main"));
}

#[test]
fn commands_are_routed() {
    assert_eq!(route_command(AppCommand::RefreshAll), CommandRoute::Connect);
    assert_eq!(route_command(AppCommand::Disconnect), CommandRoute::Disconnect);
    assert_eq!(
        route_command(AppCommand::StopStreaming),
        CommandRoute::Output { kind: OutputKind::Stream, active: false }
    );
    assert_eq!(
        route_command(AppCommand::SetRecording(true)),
        CommandRoute::Output { kind: OutputKind::Record, active: true }
    );
    assert_eq!(
        route_command(AppCommand::RefreshMixerSceneAudio("Main".to_string())),
        CommandRoute::MixerRefresh("Main".to_string())
    );
    assert_eq!(
        route_command(AppCommand::ToggleInputMute { input: "Mic".to_string() }),
        CommandRoute::Client(ClientRequest::ToggleInputMute("Mic".to_string()))
    );
    assert_eq!(
        route_command(AppCommand::SwitchPrimaryScene("Main".to_string())),
        CommandRoute::Client(ClientRequest::SwitchScene("Main".to_string()))
    );
}

#[test]
fn missing_registry_file_is_empty_and_broken_one_is_an_error() {
    let empty = registry_from_read("/tmp/scenes.json", RegistryRead::Missing).expect("empty registry");
    assert_eq!(empty.scenes.len(), 0);
    assert!(empty.scene_order.is_empty());
    assert!(empty.rules.primary_can_depend_on.is_empty());
    assert!(empty.rules.module_can_depend_on.is_empty());
    assert!(empty.rules.forbidden_edges.is_empty());

    let err = registry_from_read("/tmp/scenes.json", RegistryRead::Unparsable("expected value".to_string()))
        .err()
        .expect("parse error");
    assert_eq!(err.to_string(), "failed to parse scene registry at /tmp/scenes.json: expected value");

    let err = registry_from_read("/tmp/scenes.json", RegistryRead::Unreadable("permission denied".to_string()))
        .err()
        .expect("read error");
    assert_eq!(err.to_string(), "failed to read scene registry at /tmp/scenes.json: permission denied");
}

#[test]
fn role_change_on_a_broken_registry_writes_nothing() {
    let loaded = Err(RegistryStorageError::Parse { path: "p".to_string(), detail: "bad".to_string() });
    match set_scene_role_in(loaded, "Main", Some(SceneRole::Primary)) {
        Err(RegistryMutationError::Load(RegistryStorageError::Parse { path, detail })) => {
            assert_eq!(path, "p");
            assert_eq!(detail, "bad");
        }
        _ => panic!("the load error must come back"),
    }
    let loaded = Err(RegistryStorageError::Read { path: "p".to_string(), detail: "gone".to_string() });
    assert!(matches!(remove_scene_entry_in(loaded, "Main"), Err(RegistryMutationError::Load(_))));
}

#[test]
fn role_change_and_removal_on_a_loaded_registry() {
    let (registry, changed) =
        set_scene_role_in(Ok(SceneRegistry::default()), "Main", Some(SceneRole::Primary)).expect("updated");
    assert!(changed);
    assert_eq!(registry.scenes.get("Main").and_then(|e| e.role), Some(SceneRole::Primary));

    let (registry, changed) = set_scene_role_in(Ok(registry), "Main", Some(SceneRole::Primary)).expect("updated");
    assert!(!changed);

    let (registry, removed) = remove_scene_entry_in(Ok(registry), "Main").expect("updated");
    assert!(removed);
    assert!(registry.scenes.get("Main").is_none());
    let (_, removed) = remove_scene_entry_in(Ok(registry), "Main").expect("updated");
    assert!(!removed);
}

#[test]
fn write_failure_text() {
    let err = RegistryMutationError::Write { detail: "disk full".to_string() };
    assert_eq!(err.to_string(), "failed to write scene registry: disk full");
}

#[test]
fn only_outputs_reported_active_are_stopped_before_disconnect() {
    let active = Some(OutputStatus::active());
    let inactive = Some(OutputStatus::inactive());
    assert_eq!(outputs_to_stop(&active, &active), vec![OutputKind::Stream, OutputKind::Record]);
    assert_eq!(outputs_to_stop(&inactive, &active), vec![OutputKind::Record]);
    assert_eq!(outputs_to_stop(&None, &inactive), Vec::<OutputKind>::new());
}
