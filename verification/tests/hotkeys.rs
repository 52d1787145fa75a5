use scenedeck::domain::hotkey::{
    digit_for_slot, slot_badge, slot_for_digit, KeyStroke, KeySymbol, LeaderKey, Modifiers, SceneHotkeyConfig,
    SceneHotkeyStyle, DEFAULT_LEADER_TIMEOUT_MS, MAX_LEADER_TIMEOUT_MS, MAX_SLOTS, MIN_LEADER_TIMEOUT_MS,
};
use scenedeck::services::hotkey_service::{HotkeyOutcome, SceneHotkeyResolver};

#[test]
fn digits_map_to_slots_with_zero_last() {
    assert_eq!(slot_for_digit(1), Some(0));
    assert_eq!(slot_for_digit(9), Some(8));
    assert_eq!(slot_for_digit(0), Some(9));
    assert_eq!(slot_for_digit(10), None);
}

#[test]
fn slots_round_trip_through_digits() {
    for slot in 0..MAX_SLOTS {
        let digit = digit_for_slot(slot).unwrap();
        assert_eq!(slot_for_digit(digit), Some(slot));
    }
    assert_eq!(digit_for_slot(MAX_SLOTS), None);
}

#[test]
fn slot_badges_print_the_digit() {
    assert_eq!(slot_badge(0).as_deref(), Some("1"));
    assert_eq!(slot_badge(9).as_deref(), Some("0"));
    assert_eq!(slot_badge(10), None);
}

#[test]
fn styles_require_an_exact_modifier_set() {
    assert_eq!(SceneHotkeyStyle::Ctrl.modifiers(), Some(Modifiers::new(true, false, false, false)));
    assert_eq!(SceneHotkeyStyle::CtrlAlt.modifiers(), Some(Modifiers::new(true, true, false, false)));
    assert_eq!(SceneHotkeyStyle::Plain.modifiers(), Some(Modifiers::none()));
    assert_eq!(SceneHotkeyStyle::Leader.modifiers(), None);
}

#[test]
fn only_the_plain_style_fires_on_a_bare_digit() {
    assert!(SceneHotkeyStyle::Plain.is_bare_digit());
    for style in SceneHotkeyStyle::ALL {
        if style != SceneHotkeyStyle::Plain {
            assert!(!style.is_bare_digit(), "{style:?} claimed a bare digit");
        }
    }
}

#[test]
fn style_keys_round_trip_and_unknown_values_fall_back_to_ctrl() {
    for style in SceneHotkeyStyle::ALL {
        assert_eq!(style.as_str().parse(), Ok(style));
    }
    assert_eq!("chord".parse::<SceneHotkeyStyle>(), Ok(SceneHotkeyStyle::Ctrl));
}

#[test]
fn older_style_aliases_are_still_read() {
    assert_eq!("none".parse::<SceneHotkeyStyle>(), Ok(SceneHotkeyStyle::Plain));
    assert_eq!("logo".parse::<SceneHotkeyStyle>(), Ok(SceneHotkeyStyle::Super));
    assert_eq!("backtick".parse::<LeaderKey>(), Ok(LeaderKey::Grave));
}

#[test]
fn leader_keys_round_trip_and_unknown_values_fall_back_to_space() {
    for leader in LeaderKey::ALL {
        assert_eq!(leader.as_str().parse(), Ok(leader));
    }
    assert_eq!("meta".parse::<LeaderKey>(), Ok(LeaderKey::Space));
}

#[test]
fn leader_timeout_clamps_hand_edited_values() {
    let timeout = |millis| SceneHotkeyConfig { leader_timeout_ms: millis, ..SceneHotkeyConfig::default() }.leader_timeout();

    assert_eq!(timeout(0), MIN_LEADER_TIMEOUT_MS);
    assert_eq!(timeout(900), 900);
    assert_eq!(timeout(60_000), MAX_LEADER_TIMEOUT_MS);
}

#[test]
fn default_config_uses_ctrl_digits_and_the_space_leader() {
    let config = SceneHotkeyConfig::default();
    assert!(config.enabled);
    assert_eq!(config.style, SceneHotkeyStyle::Ctrl);
    assert_eq!(config.leader, LeaderKey::Space);
    assert_eq!(config.leader_timeout_ms, DEFAULT_LEADER_TIMEOUT_MS);
}

#[test]
fn shortcut_labels_describe_the_configured_binding() {
    let ctrl = SceneHotkeyConfig::default();
    assert_eq!(ctrl.shortcut_label(0).as_deref(), Some("Ctrl+1"));
    assert_eq!(ctrl.shortcut_label(9).as_deref(), Some("Ctrl+0"));
    assert_eq!(ctrl.shortcut_label(MAX_SLOTS), None);

    let plain = SceneHotkeyConfig { style: SceneHotkeyStyle::Plain, ..SceneHotkeyConfig::default() };
    assert_eq!(plain.shortcut_label(2).as_deref(), Some("3"));

    let leader =
        SceneHotkeyConfig { style: SceneHotkeyStyle::Leader, leader: LeaderKey::Space, ..SceneHotkeyConfig::default() };
    assert_eq!(leader.shortcut_label(0).as_deref(), Some("Space then 1"));
}

#[test]
fn disabled_hotkeys_have_no_labels_or_hint() {
    let config = SceneHotkeyConfig { enabled: false, ..SceneHotkeyConfig::default() };

    assert_eq!(config.shortcut_label(0), None);
    assert_eq!(config.hint_label(), None);
}

#[test]
fn hint_label_matches_the_configured_style() {
    let hint = |style, leader| SceneHotkeyConfig { style, leader, ..SceneHotkeyConfig::default() }.hint_label().unwrap();

    assert_eq!(hint(SceneHotkeyStyle::Plain, LeaderKey::Space), "Press 1 … 0");
    assert_eq!(hint(SceneHotkeyStyle::Alt, LeaderKey::Space), "Press Alt+1 … 0");
    assert_eq!(hint(SceneHotkeyStyle::Leader, LeaderKey::Comma), "Press Comma, then 1 … 0");
}

#[test]
fn bare_digit_requires_an_empty_modifier_set() {
    let bare = KeyStroke::new(KeySymbol::Digit(4), Modifiers::none());
    let with_ctrl = KeyStroke::new(KeySymbol::Digit(4), Modifiers::new(true, false, false, false));

    assert_eq!(bare.bare_digit(), Some(4));
    assert_eq!(with_ctrl.bare_digit(), None);
    assert_eq!(KeyStroke::new(KeySymbol::Space, Modifiers::none()).bare_digit(), None);
}

// ── Resolver ─────────────────────────────────────────────────────────────────

fn ctrl_config() -> SceneHotkeyConfig {
    SceneHotkeyConfig::default()
}

fn leader_config() -> SceneHotkeyConfig {
    SceneHotkeyConfig {
        style: SceneHotkeyStyle::Leader,
        leader: LeaderKey::Space,
        leader_timeout_ms: 1_000,
        ..SceneHotkeyConfig::default()
    }
}

fn stroke(key: KeySymbol, modifiers: Modifiers) -> KeyStroke {
    KeyStroke::new(key, modifiers)
}

fn ctrl() -> Modifiers {
    Modifiers::new(true, false, false, false)
}

/// A monotonic clock reading, in milliseconds, to start each scenario from.
const START: u64 = 1_000_000;

#[test]
fn modifier_binding_activates_the_matching_slot() {
    let mut resolver = SceneHotkeyResolver::new();
    let now = START;

    assert_eq!(resolver.resolve(&ctrl_config(), stroke(KeySymbol::Digit(3), ctrl()), now), HotkeyOutcome::Activate(2));
    assert_eq!(resolver.resolve(&ctrl_config(), stroke(KeySymbol::Digit(0), ctrl()), now), HotkeyOutcome::Activate(9));
}

#[test]
fn modifier_binding_ignores_extra_and_missing_modifiers() {
    let mut resolver = SceneHotkeyResolver::new();
    let now = START;

    assert_eq!(
        resolver.resolve(&ctrl_config(), stroke(KeySymbol::Digit(1), Modifiers::none()), now),
        HotkeyOutcome::Ignored
    );
    assert_eq!(
        resolver.resolve(&ctrl_config(), stroke(KeySymbol::Digit(1), Modifiers::new(true, true, false, false)), now),
        HotkeyOutcome::Ignored
    );
}

#[test]
fn plain_binding_activates_on_a_bare_digit() {
    let config = SceneHotkeyConfig { style: SceneHotkeyStyle::Plain, ..SceneHotkeyConfig::default() };
    let mut resolver = SceneHotkeyResolver::new();
    let now = START;

    assert_eq!(resolver.resolve(&config, stroke(KeySymbol::Digit(2), Modifiers::none()), now), HotkeyOutcome::Activate(1));
    assert_eq!(resolver.resolve(&config, stroke(KeySymbol::Digit(2), ctrl()), now), HotkeyOutcome::Ignored);
}

#[test]
fn disabled_hotkeys_ignore_every_stroke() {
    let config = SceneHotkeyConfig { enabled: false, style: SceneHotkeyStyle::Plain, ..SceneHotkeyConfig::default() };
    let mut resolver = SceneHotkeyResolver::new();
    let now = START;

    assert_eq!(resolver.resolve(&config, stroke(KeySymbol::Digit(1), Modifiers::none()), now), HotkeyOutcome::Ignored);
}

#[test]
fn leader_then_digit_activates_a_slot() {
    let config = leader_config();
    let mut resolver = SceneHotkeyResolver::new();
    let start = START;

    assert_eq!(resolver.resolve(&config, stroke(KeySymbol::Space, Modifiers::none()), start), HotkeyOutcome::LeaderArmed);
    assert!(resolver.is_armed(&config, start));
    assert_eq!(
        resolver.resolve(&config, stroke(KeySymbol::Digit(5), Modifiers::none()), start + 300),
        HotkeyOutcome::Activate(4)
    );
    assert!(!resolver.is_armed(&config, start + 300));
}

#[test]
fn digit_without_a_leader_is_ignored() {
    let config = leader_config();
    let mut resolver = SceneHotkeyResolver::new();

    assert_eq!(resolver.resolve(&config, stroke(KeySymbol::Digit(1), Modifiers::none()), START), HotkeyOutcome::Ignored);
}

#[test]
fn leader_expires_after_the_configured_timeout() {
    let config = leader_config();
    let mut resolver = SceneHotkeyResolver::new();
    let start = START;

    resolver.resolve(&config, stroke(KeySymbol::Space, Modifiers::none()), start);
    let late = start + 1_001;

    assert!(!resolver.is_armed(&config, late));
    assert_eq!(resolver.resolve(&config, stroke(KeySymbol::Digit(1), Modifiers::none()), late), HotkeyOutcome::Ignored);
}

#[test]
fn pressing_the_leader_again_restarts_the_window() {
    let config = leader_config();
    let mut resolver = SceneHotkeyResolver::new();
    let start = START;

    resolver.resolve(&config, stroke(KeySymbol::Space, Modifiers::none()), start);
    let again = start + 900;
    assert_eq!(resolver.resolve(&config, stroke(KeySymbol::Space, Modifiers::none()), again), HotkeyOutcome::LeaderArmed);

    // Still armed 900 ms after the second press, 1.8 s after the first.
    assert_eq!(
        resolver.resolve(&config, stroke(KeySymbol::Digit(1), Modifiers::none()), again + 900),
        HotkeyOutcome::Activate(0)
    );
}

#[test]
fn unrelated_key_cancels_an_armed_leader() {
    let config = leader_config();
    let mut resolver = SceneHotkeyResolver::new();
    let start = START;

    resolver.resolve(&config, stroke(KeySymbol::Space, Modifiers::none()), start);
    assert_eq!(
        resolver.resolve(&config, stroke(KeySymbol::Escape, Modifiers::none()), start),
        HotkeyOutcome::LeaderCancelled
    );
    assert!(!resolver.is_armed(&config, start));
}

#[test]
fn modified_digit_cancels_an_armed_leader_instead_of_switching() {
    let config = leader_config();
    let mut resolver = SceneHotkeyResolver::new();
    let start = START;

    resolver.resolve(&config, stroke(KeySymbol::Space, Modifiers::none()), start);
    assert_eq!(resolver.resolve(&config, stroke(KeySymbol::Digit(1), ctrl()), start), HotkeyOutcome::LeaderCancelled);
}

#[test]
fn modifier_presses_never_cancel_an_armed_leader() {
    let config = leader_config();
    let mut resolver = SceneHotkeyResolver::new();
    let start = START;

    resolver.resolve(&config, stroke(KeySymbol::Space, Modifiers::none()), start);
    assert_eq!(resolver.resolve(&config, stroke(KeySymbol::Modifier, Modifiers::none()), start), HotkeyOutcome::Ignored);
    assert!(resolver.is_armed(&config, start));
}

#[test]
fn leader_key_is_configurable() {
    let config = SceneHotkeyConfig { leader: LeaderKey::Comma, ..leader_config() };
    let mut resolver = SceneHotkeyResolver::new();
    let start = START;

    assert_eq!(resolver.resolve(&config, stroke(KeySymbol::Space, Modifiers::none()), start), HotkeyOutcome::Ignored);
    assert_eq!(resolver.resolve(&config, stroke(KeySymbol::Comma, Modifiers::none()), start), HotkeyOutcome::LeaderArmed);
}

#[test]
fn switching_style_away_from_leader_drops_an_armed_leader() {
    let mut resolver = SceneHotkeyResolver::new();
    let start = START;
    resolver.resolve(&leader_config(), stroke(KeySymbol::Space, Modifiers::none()), start);

    resolver.resolve(&ctrl_config(), stroke(KeySymbol::Digit(1), ctrl()), start);

    assert!(!resolver.is_armed(&leader_config(), start));
}

#[test]
fn only_ignored_outcomes_let_the_event_propagate() {
    assert!(!HotkeyOutcome::Ignored.consumes_event());
    assert!(HotkeyOutcome::LeaderArmed.consumes_event());
    assert!(HotkeyOutcome::LeaderCancelled.consumes_event());
    assert!(HotkeyOutcome::Activate(0).consumes_event());
}

#[test]
fn a_clock_reading_before_the_leader_press_counts_as_no_time() {
    let config = leader_config();
    let mut resolver = SceneHotkeyResolver::new();
    resolver.resolve(&config, stroke(KeySymbol::Space, Modifiers::none()), START);

    assert!(resolver.is_armed(&config, START - 5_000));
    resolver.disarm();
    assert!(!resolver.is_armed(&config, START));
}
