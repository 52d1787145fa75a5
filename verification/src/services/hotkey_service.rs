//! Scene-hotkey resolution: which key press activates which scene slot.
//!
//! [`SceneHotkeyResolver`] is the whole decision layer for Live-page shortcuts,
//! including the vim-style leader state machine. It is free of any clock:
//! callers pass the current reading of a monotonic millisecond clock, so
//! leader expiry is testable without sleeping.

use vstd::prelude::*;
use crate::domain::hotkey::{
    bare_digit_of, clamped_timeout, leader_symbol, no_modifiers, slot_for_digit, slot_of_digit,
    style_modifiers, KeyStroke, KeySymbol, Modifiers, SceneHotkeyConfig, SceneHotkeyStyle, MIN_LEADER_TIMEOUT_MS,
};

verus! {

/// What a key press means for the Live page.
#[derive(Debug, Clone, Copy, PartialEq, Eq, Structural)]
pub enum HotkeyOutcome {
    /// Not a scene shortcut. The key event must keep propagating.
    Ignored,
    /// A leader key was pressed; the next digit selects a scene.
    LeaderArmed,
    /// An armed leader was cancelled by an unrelated key.
    LeaderCancelled,
    /// Switch to the scene card at this slot index.
    Activate(usize),
}

impl HotkeyOutcome {
    /// Whether the key event was consumed and must not propagate further.
    pub fn consumes_event(self) -> (r: bool)
        ensures
            r == (self != HotkeyOutcome::Ignored),
    {
        !matches!(self, HotkeyOutcome::Ignored)
    }
}

/// Milliseconds from `since` to `now`; a clock reading before `since` counts
/// as no time at all.
pub open spec fn elapsed_ms(now: u64, since: u64) -> nat {
    if now >= since {
        (now - since) as nat
    } else {
        0
    }
}

/// Whether a leader armed at `armed_at` is still waiting for its digit at
/// `now`.
pub open spec fn leader_armed(armed_at: Option<u64>, config: SceneHotkeyConfig, now: u64) -> bool {
    match armed_at {
        Some(t) => elapsed_ms(now, t) <= clamped_timeout(config.leader_timeout_ms),
        None => false,
    }
}

/// Whether `stroke` is the configured leader key pressed on its own.
pub open spec fn is_leader_stroke(config: SceneHotkeyConfig, stroke: KeyStroke) -> bool {
    no_modifiers(stroke.modifiers) && stroke.key == leader_symbol(config.leader)
}

/// What a stroke does under a modifier style: the digit's slot when exactly
/// the style's modifiers are held, nothing otherwise.
pub open spec fn modifier_outcome(style: SceneHotkeyStyle, stroke: KeyStroke) -> HotkeyOutcome {
    match style_modifiers(style) {
        None => HotkeyOutcome::Ignored,
        Some(required) => if stroke.modifiers != required {
            HotkeyOutcome::Ignored
        } else {
            match stroke.key {
                KeySymbol::Digit(d) => match slot_of_digit(d) {
                    Some(slot) => HotkeyOutcome::Activate(slot),
                    None => HotkeyOutcome::Ignored,
                },
                _ => HotkeyOutcome::Ignored,
            }
        },
    }
}

/// Next armed state and outcome of the leader style.
pub open spec fn leader_step(armed_at: Option<u64>, config: SceneHotkeyConfig, stroke: KeyStroke, now: u64) -> (Option<u64>, HotkeyOutcome) {
    if is_leader_stroke(config, stroke) {
        // A leader press arms the window, or restarts one that is running.
        (Some(now), HotkeyOutcome::LeaderArmed)
    } else if !leader_armed(armed_at, config, now) {
        // An expired leader is simply not armed.
        (None, HotkeyOutcome::Ignored)
    } else {
        (None, match bare_digit_of(stroke) {
            Some(d) => match slot_of_digit(d) {
                Some(slot) => HotkeyOutcome::Activate(slot),
                None => HotkeyOutcome::LeaderCancelled,
            },
            None => HotkeyOutcome::LeaderCancelled,
        })
    }
}

/// Next armed state and outcome for one key press.
pub open spec fn resolve_step(armed_at: Option<u64>, config: SceneHotkeyConfig, stroke: KeyStroke, now: u64) -> (Option<u64>, HotkeyOutcome) {
    if stroke.key == KeySymbol::Modifier {
        // Modifier keys are pressed as part of a shortcut, so they never
        // count as the unrelated key that cancels an armed leader.
        (armed_at, HotkeyOutcome::Ignored)
    } else if !config.enabled {
        (None, HotkeyOutcome::Ignored)
    } else if config.style == SceneHotkeyStyle::Leader {
        leader_step(armed_at, config, stroke, now)
    } else {
        (None, modifier_outcome(config.style, stroke))
    }
}

/// Tracks whether a leader key is currently armed.
///
/// One resolver lives on the UI thread for the lifetime of the window.
/// Configuration is passed per call rather than stored, so changing the
/// binding in Settings takes effect on the very next key press.
#[derive(Debug)]
pub struct SceneHotkeyResolver {
    armed_at: Option<u64>,
}

impl View for SceneHotkeyResolver {
    /// The clock reading at which the leader was armed, if it is.
    type V = Option<u64>;

    closed spec fn view(&self) -> Option<u64> {
        self.armed_at
    }
}

impl Default for SceneHotkeyResolver {
    fn default() -> (r: SceneHotkeyResolver)
        ensures
            r@ is None,
    {
        SceneHotkeyResolver::new()
    }
}

impl SceneHotkeyResolver {
    /// Create a resolver with no leader armed.
    pub fn new() -> (r: SceneHotkeyResolver)
        ensures
            r@ is None,
    {
        SceneHotkeyResolver { armed_at: None }
    }

    /// Whether a leader is armed and has not yet timed out at `now`.
    pub fn is_armed(&self, config: &SceneHotkeyConfig, now: u64) -> (r: bool)
        ensures
            r == leader_armed(self@, *config, now),
    {
        match self.armed_at {
            Some(armed_at) => {
                let elapsed = if now >= armed_at { now - armed_at } else { 0 };
                elapsed <= config.leader_timeout()
            },
            None => false,
        }
    }

    /// Drop any armed leader, e.g. when the Live page is left or OBS drops.
    pub fn disarm(&mut self)
        ensures
            final(self)@ is None,
    {
        self.armed_at = None;
    }

    /// Decide what `stroke`, pressed at clock reading `now`, does under
    /// `config`.
    pub fn resolve(&mut self, config: &SceneHotkeyConfig, stroke: KeyStroke, now: u64) -> (r: HotkeyOutcome)
        ensures
            (final(self)@, r) == resolve_step(old(self)@, *config, stroke, now),
    {
        if stroke.key == KeySymbol::Modifier {
            return HotkeyOutcome::Ignored;
        }
        if !config.enabled {
            self.disarm();
            return HotkeyOutcome::Ignored;
        }
        if config.style == SceneHotkeyStyle::Leader {
            return self.resolve_leader(config, stroke, now);
        }
        self.disarm();
        let required = match config.style.modifiers() {
            Some(m) => m,
            None => {
                return HotkeyOutcome::Ignored;
            },
        };
        // Equality, not containment: Ctrl+Alt+1 must not fire a Ctrl binding.
        if stroke.modifiers != required {
            return HotkeyOutcome::Ignored;
        }
        match stroke.key {
            KeySymbol::Digit(digit) => match slot_for_digit(digit) {
                Some(slot) => HotkeyOutcome::Activate(slot),
                None => HotkeyOutcome::Ignored,
            },
            _ => HotkeyOutcome::Ignored,
        }
    }

    fn resolve_leader(&mut self, config: &SceneHotkeyConfig, stroke: KeyStroke, now: u64) -> (r: HotkeyOutcome)
        ensures
            (final(self)@, r) == leader_step(old(self)@, *config, stroke, now),
    {
        let armed = self.is_armed(config, now);
        if !armed {
            self.disarm();
            if Self::matches_leader(config, stroke) {
                self.armed_at = Some(now);
                return HotkeyOutcome::LeaderArmed;
            }
            return HotkeyOutcome::Ignored;
        }
        // Pressing the leader again restarts the window rather than cancelling.
        if Self::matches_leader(config, stroke) {
            self.armed_at = Some(now);
            return HotkeyOutcome::LeaderArmed;
        }
        self.disarm();
        match stroke.bare_digit() {
            Some(digit) => match slot_for_digit(digit) {
                Some(slot) => HotkeyOutcome::Activate(slot),
                None => HotkeyOutcome::LeaderCancelled,
            },
            None => HotkeyOutcome::LeaderCancelled,
        }
    }

    fn matches_leader(config: &SceneHotkeyConfig, stroke: KeyStroke) -> (r: bool)
        ensures
            r == is_leader_stroke(*config, stroke),
    {
        stroke.modifiers.is_empty() && stroke.key == config.leader.symbol()
    }
}

/// A modifier key on its own changes nothing: it is ignored and an armed
/// leader stays armed.
pub proof fn lemma_modifier_keys_change_nothing(armed_at: Option<u64>, config: SceneHotkeyConfig, modifiers: Modifiers, now: u64)
    ensures
        resolve_step(armed_at, config, KeyStroke { key: KeySymbol::Modifier, modifiers }, now) == (armed_at, HotkeyOutcome::Ignored),
{
}

/// With hotkeys off every other key is ignored and no leader stays armed.
pub proof fn lemma_disabled_ignores_everything(armed_at: Option<u64>, config: SceneHotkeyConfig, stroke: KeyStroke, now: u64)
    requires
        !config.enabled,
        stroke.key != KeySymbol::Modifier,
    ensures
        resolve_step(armed_at, config, stroke, now) == (None::<u64>, HotkeyOutcome::Ignored),
{
}

/// Under a modifier style only the exact modifier set fires, and no leader
/// survives the key press.
pub proof fn lemma_modifier_style_needs_exact_modifiers(armed_at: Option<u64>, config: SceneHotkeyConfig, stroke: KeyStroke, now: u64)
    requires
        config.enabled,
        config.style != SceneHotkeyStyle::Leader,
        stroke.key != KeySymbol::Modifier,
    ensures
        resolve_step(armed_at, config, stroke, now).0 is None,
        style_modifiers(config.style) matches Some(m) && stroke.modifiers != m
            ==> resolve_step(armed_at, config, stroke, now).1 == HotkeyOutcome::Ignored,
        (stroke.key is Digit && stroke.key->0 < 10 && style_modifiers(config.style) == Some(stroke.modifiers))
            ==> resolve_step(armed_at, config, stroke, now).1 == HotkeyOutcome::Activate(slot_of_digit(stroke.key->0).unwrap()),
{
}

/// A leader press followed, within the configured window, by a bare digit
/// activates that digit's slot and leaves nothing armed; whatever was armed
/// before does not matter.
pub proof fn lemma_leader_then_digit_activates(armed_at: Option<u64>, config: SceneHotkeyConfig, t0: u64, digit: u8, t1: u64)
    requires
        config.enabled,
        config.style == SceneHotkeyStyle::Leader,
        digit < 10,
        t0 <= t1,
        t1 - t0 <= clamped_timeout(config.leader_timeout_ms),
    ensures
        ({
            let leader = KeyStroke { key: leader_symbol(config.leader), modifiers: Modifiers { ctrl: false, alt: false, shift: false, logo: false } };
            let d = KeyStroke { key: KeySymbol::Digit(digit), modifiers: Modifiers { ctrl: false, alt: false, shift: false, logo: false } };
            let (armed, first) = resolve_step(armed_at, config, leader, t0);
            &&& first == HotkeyOutcome::LeaderArmed
            &&& armed == Some(t0)
            &&& resolve_step(armed, config, d, t1) == (None::<u64>, HotkeyOutcome::Activate(slot_of_digit(digit).unwrap()))
        }),
{
}

/// Once the window has passed, a digit after a leader press is ignored and
/// the leader is gone.
pub proof fn lemma_leader_expires(config: SceneHotkeyConfig, t0: u64, stroke: KeyStroke, t1: u64)
    requires
        config.enabled,
        config.style == SceneHotkeyStyle::Leader,
        stroke.key != KeySymbol::Modifier,
        !is_leader_stroke(config, stroke),
        t1 >= t0,
        t1 - t0 > clamped_timeout(config.leader_timeout_ms),
    ensures
        resolve_step(Some(t0), config, stroke, t1) == (None::<u64>, HotkeyOutcome::Ignored),
{
}

/// Right after an outcome the resolver is armed exactly when that outcome
/// was `LeaderArmed` (modifier keys aside, which change nothing).
pub proof fn lemma_armed_only_after_leader(armed_at: Option<u64>, config: SceneHotkeyConfig, stroke: KeyStroke, now: u64)
    requires
        stroke.key != KeySymbol::Modifier,
    ensures
        ({
            let (next, outcome) = resolve_step(armed_at, config, stroke, now);
            leader_armed(next, config, now) <==> outcome == HotkeyOutcome::LeaderArmed
        }),
{
    assert(MIN_LEADER_TIMEOUT_MS > 0);
}

} // verus!
