use std::collections::HashSet;

use scenedeck::domain::icon::{icon_catalogue, icon_choice, icon_label, icon_name, no_icon_label};
use scenedeck::domain::meter::{channel_label, ChannelLevel, InputLevelSnapshot, InputLevels, MeterZone};
use scenedeck::domain::stats::{ObsStats, StatsHistory, StreamHealth};

#[test]
fn catalogue_keys_are_unique() {
    let catalogue = icon_catalogue();
    let keys: HashSet<&str> = catalogue.iter().map(|icon| icon.key).collect();

    assert_eq!(keys.len(), catalogue.len());
}

#[test]
fn catalogue_icon_names_are_unique_and_symbolic() {
    let catalogue = icon_catalogue();
    let names: HashSet<&str> = catalogue.iter().map(|icon| icon.icon_name).collect();

    assert_eq!(names.len(), catalogue.len());
    assert!(catalogue.iter().all(|icon| icon.icon_name.starts_with("nf-") && icon.icon_name.ends_with("-symbolic")));
}

#[test]
fn every_key_has_its_own_label() {
    let catalogue = icon_catalogue();
    let labels: HashSet<String> = catalogue.iter().map(|icon| icon.label()).collect();

    assert_eq!(labels.len(), catalogue.len(), "two icons share a label, so the picker would be ambiguous");
    assert!(!labels.contains(&no_icon_label()), "an icon must not be labelled as no icon");
}

#[test]
fn known_keys_resolve_and_unknown_ones_do_not() {
    assert_eq!(icon_name("camera"), Some("nf-fa-video-camera-symbolic"));
    assert_eq!(icon_choice("microphone").map(|icon| icon.key), Some("microphone"));
    assert_eq!(icon_name("not-an-icon"), None);
    assert_eq!(icon_choice(""), None);
}

#[test]
fn unknown_keys_are_labelled_as_no_icon() {
    assert_eq!(icon_label("not-an-icon"), no_icon_label());
    assert_eq!(icon_label("waveform"), "Waveform");
}

#[test]
fn zones_order_from_quiet_to_loud() {
    assert!(MeterZone::Nominal < MeterZone::Warning);
    assert!(MeterZone::Warning < MeterZone::Error);
}

#[test]
fn zones_have_their_legend_classes() {
    assert_eq!(MeterZone::Nominal.css_class(), "audio-meter-nominal");
    assert_eq!(MeterZone::Warning.css_class(), "audio-meter-warning");
    assert_eq!(MeterZone::Error.css_class(), "audio-meter-error");
    assert_eq!(MeterZone::default(), MeterZone::Nominal);
}

fn levels(input: &str, channels: usize) -> InputLevels {
    InputLevels { input: input.to_string(), channels: vec![ChannelLevel::silent(); channels] }
}

#[test]
fn a_snapshot_hands_out_the_latest_reading_per_input() {
    let mut snapshot = InputLevelSnapshot::default();
    assert!(snapshot.is_empty());

    snapshot.update(vec![levels("Mic", 1), levels("Music", 1)]);
    let first = snapshot.sequence();

    assert_eq!(snapshot.get("Mic").unwrap().channel_count(), 1);
    assert!(snapshot.get("Missing").is_none());

    // An input that stops reporting drops out of the next update entirely.
    snapshot.update(vec![levels("Mic", 1)]);

    assert!(snapshot.get("Music").is_none());
    assert_ne!(snapshot.sequence(), first);
}

#[test]
fn clearing_a_snapshot_moves_the_sequence_only_when_it_had_levels() {
    let mut snapshot = InputLevelSnapshot::default();
    snapshot.update(vec![levels("Mic", 1)]);

    snapshot.clear();
    let cleared = snapshot.sequence();
    assert!(snapshot.is_empty());
    assert!(snapshot.get("Mic").is_none());

    snapshot.clear();
    assert_eq!(snapshot.sequence(), cleared);
}

#[test]
fn a_later_reading_for_the_same_input_wins() {
    let mut snapshot = InputLevelSnapshot::new();
    snapshot.update(vec![levels("Mic", 1), levels("Mic", 2)]);

    assert_eq!(snapshot.get("Mic").unwrap().channel_count(), 2);
    assert_eq!(snapshot.sequence(), 1);
}

#[test]
fn silence_is_negative_infinity_on_every_reading() {
    let silent = ChannelLevel::silent();
    assert_eq!(f64::from_bits(silent.magnitude_db), f64::NEG_INFINITY);
    assert_eq!(f64::from_bits(silent.peak_db), f64::NEG_INFINITY);
    assert_eq!(f64::from_bits(silent.input_peak_db), f64::NEG_INFINITY);
}

#[test]
fn channel_labels_follow_the_reported_channel_count() {
    assert_eq!(channel_label(0, 1), "Mono");
    assert_eq!(channel_label(0, 2), "Left");
    assert_eq!(channel_label(1, 2), "Right");
    assert_eq!(channel_label(3, 6), "LFE");
    assert_eq!(channel_label(7, 8), "Side right");
    assert_eq!(channel_label(9, 10), "Channel 10");
}

fn stats() -> ObsStats {
    ObsStats {
        cpu_usage_percent: 12.5f64.to_bits(),
        memory_usage_mb: 512.0f64.to_bits(),
        active_fps: 59.9f64.to_bits(),
        average_frame_render_time_ms: 4.2f64.to_bits(),
        render_skipped_frames: 1,
        render_total_frames: 1000,
        output_skipped_frames: 7,
        output_total_frames: 999,
    }
}

fn health() -> StreamHealth {
    StreamHealth {
        active: true,
        reconnecting: false,
        congestion: 0.25f64.to_bits(),
        skipped_frames: 4,
        total_frames: 400,
        bytes: 1_000_000,
    }
}

#[test]
fn dropped_frames_reports_output_skipped_frames() {
    assert_eq!(stats().dropped_frames(), 7);
}

#[test]
fn first_sample_has_zero_deltas() {
    let mut history = StatsHistory::default();
    history.push(stats(), None, None);

    let sample = history.latest().expect("a sample was pushed");
    assert_eq!(sample.render_skipped_delta, 0);
    assert_eq!(sample.output_skipped_delta, 0);
}

#[test]
fn deltas_are_measured_against_the_previous_sample() {
    let mut history = StatsHistory::default();
    history.push(stats(), None, None);
    history.push(ObsStats { render_skipped_frames: 4, output_skipped_frames: 10, ..stats() }, None, None);

    let sample = history.latest().expect("a second sample was pushed");
    assert_eq!(sample.render_skipped_delta, 3);
    assert_eq!(sample.output_skipped_delta, 3);
}

#[test]
fn counter_resets_record_a_zero_delta_instead_of_underflowing() {
    let mut history = StatsHistory::default();
    history.push(stats(), None, None);
    history.push(ObsStats { render_skipped_frames: 0, output_skipped_frames: 0, ..stats() }, None, None);

    let sample = history.latest().expect("a second sample was pushed");
    assert_eq!(sample.render_skipped_delta, 0);
    assert_eq!(sample.output_skipped_delta, 0);
}

#[test]
fn history_evicts_the_oldest_sample_once_full() {
    let mut history = StatsHistory::with_capacity(2);
    for fps in [10.0f64, 20.0, 30.0] {
        history.push(ObsStats { active_fps: fps.to_bits(), ..stats() }, None, None);
    }

    assert_eq!(history.len(), 2);
    assert_eq!(f64::from_bits(history.sample(0).stats.active_fps), 20.0);
    assert_eq!(f64::from_bits(history.sample(1).stats.active_fps), 30.0);
}

#[test]
fn samples_keep_the_bitrate_and_stream_health_they_were_pushed_with() {
    let mut history = StatsHistory::default();
    history.push(stats(), Some(6000.0f64.to_bits()), Some(health()));

    let sample = history.latest().unwrap();
    assert_eq!(sample.bitrate_kbps.map(f64::from_bits), Some(6000.0));
    assert_eq!(sample.stream, Some(health()));
}

#[test]
fn a_zero_capacity_history_still_keeps_the_latest_sample() {
    let mut history = StatsHistory::with_capacity(0);
    assert_eq!(history.capacity(), 1);
    history.push(stats(), None, None);
    history.push(ObsStats { output_skipped_frames: 9, ..stats() }, None, None);

    assert_eq!(history.len(), 1);
    assert_eq!(history.latest().unwrap().output_skipped_delta, 2);
}

#[test]
fn clearing_drops_every_sample() {
    let mut history = StatsHistory::default();
    history.push(stats(), None, None);
    history.clear();

    assert!(history.is_empty());
    assert!(history.latest().is_none());
}
