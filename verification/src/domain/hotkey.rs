//! Scene-switch keyboard shortcuts for the Live page.
//!
//! Live scene cards are laid out in the order stored in the registry, so the
//! nth switchable card always has the same index. This module turns that index
//! into a keyboard binding: a digit key, optionally qualified by modifiers or
//! preceded by a vim-style leader key.
//!
//! `services::hotkey_service` owns the leader state machine; the window
//! translates toolkit key events into [`KeyStroke`].

use vstd::prelude::*;
use crate::text::{decimal, decimal_string, digit_str, join2, join3, owned, text_eq};

verus! {

/// Number of scene cards reachable by a digit key: `1`–`9` then `0`.
pub const MAX_SLOTS: usize = 10;

/// Slot reached by a digit key: `1`–`9` are the first nine, `0` the tenth.
pub open spec fn slot_of_digit(digit: u8) -> Option<usize> {
    if 1 <= digit && digit <= 9 {
        Some((digit - 1) as usize)
    } else if digit == 0 {
        Some(9)
    } else {
        None
    }
}

/// Digit key that reaches a slot.
pub open spec fn digit_of_slot(slot: usize) -> Option<u8> {
    if slot <= 8 {
        Some((slot + 1) as u8)
    } else if slot == 9 {
        Some(0)
    } else {
        None
    }
}

/// Slot index for a digit key, or `None` when the digit has no slot.
///
/// `1`–`9` map to the first nine cards and `0` maps to the tenth, matching the
/// row of digits on a keyboard rather than their numeric value.
pub fn slot_for_digit(digit: u8) -> (r: Option<usize>)
    ensures
        r == slot_of_digit(digit),
{
    if 1 <= digit && digit <= 9 {
        Some((digit - 1) as usize)
    } else if digit == 0 {
        Some(9)
    } else {
        None
    }
}

/// Digit key that activates `slot`, or `None` for slots past [`MAX_SLOTS`].
pub fn digit_for_slot(slot: usize) -> (r: Option<u8>)
    ensures
        r == digit_of_slot(slot),
{
    if slot <= 8 {
        Some((slot + 1) as u8)
    } else if slot == 9 {
        Some(0)
    } else {
        None
    }
}

/// Every slot below [`MAX_SLOTS`] has a digit, and that digit leads back to
/// the slot; no slot past it has one.
pub proof fn lemma_slot_digit_round_trip(slot: usize)
    ensures
        slot < MAX_SLOTS ==> (digit_of_slot(slot) matches Some(d) && slot_of_digit(d) == Some(slot)),
        slot >= MAX_SLOTS ==> digit_of_slot(slot) is None,
{
}

/// Every digit key reaches a slot, and that slot's digit is the key again.
pub proof fn lemma_digit_slot_round_trip(digit: u8)
    ensures
        digit < 10 ==> (slot_of_digit(digit) matches Some(s) && s < MAX_SLOTS && digit_of_slot(s) == Some(digit)),
        digit >= 10 ==> slot_of_digit(digit) is None,
{
}

/// Label printed on a scene card's shortcut badge: the slot's digit.
pub fn slot_badge(slot: usize) -> (r: Option<String>)
    ensures
        match digit_of_slot(slot) {
            Some(d) => r matches Some(s) && s@ == decimal(d as nat),
            None => r is None,
        },
{
    match digit_for_slot(slot) {
        Some(digit) => Some(decimal_string(digit as u64)),
        None => None,
    }
}

// ── Modifiers ─────────────────────────────────────────────────────────────────

/// Modifier keys held down when a key was pressed.
///
/// Compared for equality, never as a subset: `Ctrl+Alt+1` must not trigger a
/// binding configured as `Ctrl` + digit.
#[derive(Debug, Clone, Copy, PartialEq, Eq, Structural)]
pub struct Modifiers {
    /// Control key.
    pub ctrl: bool,
    /// Alt / Meta key.
    pub alt: bool,
    /// Shift key.
    pub shift: bool,
    /// Super / Windows key.
    pub logo: bool,
}

/// Whether no modifier is held.
pub open spec fn no_modifiers(m: Modifiers) -> bool {
    !m.ctrl && !m.alt && !m.shift && !m.logo
}

impl Modifiers {
    /// No modifiers held.
    pub fn none() -> (m: Modifiers)
        ensures
            no_modifiers(m),
    {
        Modifiers { ctrl: false, alt: false, shift: false, logo: false }
    }

    /// Build a modifier set from individual flags.
    pub fn new(ctrl: bool, alt: bool, shift: bool, logo: bool) -> (m: Modifiers)
        ensures
            m == (Modifiers { ctrl, alt, shift, logo }),
    {
        Modifiers { ctrl, alt, shift, logo }
    }

    /// Whether no modifier is held.
    pub fn is_empty(self) -> (r: bool)
        ensures
            r == no_modifiers(self),
    {
        !self.ctrl && !self.alt && !self.shift && !self.logo
    }
}

impl Default for Modifiers {
    fn default() -> (m: Modifiers)
        ensures
            no_modifiers(m),
    {
        Modifiers::none()
    }
}

// ── Binding style ─────────────────────────────────────────────────────────────

/// How a scene slot is reached from the keyboard.
#[derive(Debug, Clone, Copy, PartialEq, Eq, Structural)]
pub enum SceneHotkeyStyle {
    /// Bare digit keys, with no modifier held.
    Plain,
    /// `Ctrl` + digit. The default: it cannot fire while typing.
    Ctrl,
    /// `Alt` + digit.
    Alt,
    /// `Shift` + digit.
    Shift,
    /// `Super` + digit.
    Super,
    /// `Ctrl+Alt` + digit.
    CtrlAlt,
    /// `Ctrl+Shift` + digit.
    CtrlShift,
    /// A leader key pressed and released, then a digit (vim style).
    Leader,
}

/// Persisted spelling of a style.
pub open spec fn style_str(s: SceneHotkeyStyle) -> Seq<char> {
    match s {
        SceneHotkeyStyle::Plain => "plain"@,
        SceneHotkeyStyle::Ctrl => "ctrl"@,
        SceneHotkeyStyle::Alt => "alt"@,
        SceneHotkeyStyle::Shift => "shift"@,
        SceneHotkeyStyle::Super => "super"@,
        SceneHotkeyStyle::CtrlAlt => "ctrl-alt"@,
        SceneHotkeyStyle::CtrlShift => "ctrl-shift"@,
        SceneHotkeyStyle::Leader => "leader"@,
    }
}

/// Style read back from a persisted value, with the older aliases `none` and
/// `logo`; anything unknown is `Ctrl`.
pub open spec fn parse_style(s: Seq<char>) -> SceneHotkeyStyle {
    if s == "plain"@ || s == "none"@ {
        SceneHotkeyStyle::Plain
    } else if s == "alt"@ {
        SceneHotkeyStyle::Alt
    } else if s == "shift"@ {
        SceneHotkeyStyle::Shift
    } else if s == "super"@ || s == "logo"@ {
        SceneHotkeyStyle::Super
    } else if s == "ctrl-alt"@ {
        SceneHotkeyStyle::CtrlAlt
    } else if s == "ctrl-shift"@ {
        SceneHotkeyStyle::CtrlShift
    } else if s == "leader"@ {
        SceneHotkeyStyle::Leader
    } else {
        SceneHotkeyStyle::Ctrl
    }
}

/// Modifiers a style requires with the digit; the leader style has none.
pub open spec fn style_modifiers(s: SceneHotkeyStyle) -> Option<Modifiers> {
    match s {
        SceneHotkeyStyle::Plain => Some(Modifiers { ctrl: false, alt: false, shift: false, logo: false }),
        SceneHotkeyStyle::Ctrl => Some(Modifiers { ctrl: true, alt: false, shift: false, logo: false }),
        SceneHotkeyStyle::Alt => Some(Modifiers { ctrl: false, alt: true, shift: false, logo: false }),
        SceneHotkeyStyle::Shift => Some(Modifiers { ctrl: false, alt: false, shift: true, logo: false }),
        SceneHotkeyStyle::Super => Some(Modifiers { ctrl: false, alt: false, shift: false, logo: true }),
        SceneHotkeyStyle::CtrlAlt => Some(Modifiers { ctrl: true, alt: true, shift: false, logo: false }),
        SceneHotkeyStyle::CtrlShift => Some(Modifiers { ctrl: true, alt: false, shift: true, logo: false }),
        SceneHotkeyStyle::Leader => None,
    }
}

/// Modifier prefix shown in shortcut labels, e.g. `Ctrl+`.
pub open spec fn modifier_prefix_text(s: SceneHotkeyStyle) -> Seq<char> {
    match s {
        SceneHotkeyStyle::Plain | SceneHotkeyStyle::Leader => ""@,
        SceneHotkeyStyle::Ctrl => "Ctrl+"@,
        SceneHotkeyStyle::Alt => "Alt+"@,
        SceneHotkeyStyle::Shift => "Shift+"@,
        SceneHotkeyStyle::Super => "Super+"@,
        SceneHotkeyStyle::CtrlAlt => "Ctrl+Alt+"@,
        SceneHotkeyStyle::CtrlShift => "Ctrl+Shift+"@,
    }
}

/// Name of a style in the Settings picker.
pub open spec fn style_label_text(s: SceneHotkeyStyle) -> Seq<char> {
    match s {
        SceneHotkeyStyle::Plain => "Digit keys"@,
        SceneHotkeyStyle::Ctrl => "Ctrl + digit"@,
        SceneHotkeyStyle::Alt => "Alt + digit"@,
        SceneHotkeyStyle::Shift => "Shift + digit"@,
        SceneHotkeyStyle::Super => "Super + digit"@,
        SceneHotkeyStyle::CtrlAlt => "Ctrl+Alt + digit"@,
        SceneHotkeyStyle::CtrlShift => "Ctrl+Shift + digit"@,
        SceneHotkeyStyle::Leader => "Leader key, then digit"@,
    }
}

impl SceneHotkeyStyle {
    /// Stable display order used by the Settings picker.
    pub const ALL: [SceneHotkeyStyle; 8] = [
        SceneHotkeyStyle::Plain,
        SceneHotkeyStyle::Ctrl,
        SceneHotkeyStyle::Alt,
        SceneHotkeyStyle::Shift,
        SceneHotkeyStyle::Super,
        SceneHotkeyStyle::CtrlAlt,
        SceneHotkeyStyle::CtrlShift,
        SceneHotkeyStyle::Leader,
    ];

    /// Persisted config value.
    pub fn as_str(self) -> (s: &'static str)
        ensures
            s@ == style_str(self),
    {
        match self {
            SceneHotkeyStyle::Plain => "plain",
            SceneHotkeyStyle::Ctrl => "ctrl",
            SceneHotkeyStyle::Alt => "alt",
            SceneHotkeyStyle::Shift => "shift",
            SceneHotkeyStyle::Super => "super",
            SceneHotkeyStyle::CtrlAlt => "ctrl-alt",
            SceneHotkeyStyle::CtrlShift => "ctrl-shift",
            SceneHotkeyStyle::Leader => "leader",
        }
    }

    /// Read a persisted value; parsing never fails and unknown values fall
    /// back to `Ctrl`.
    pub fn parse_str(s: &str) -> (r: SceneHotkeyStyle)
        ensures
            r == parse_style(s@),
    {
        if text_eq(s, "plain") || text_eq(s, "none") {
            SceneHotkeyStyle::Plain
        } else if text_eq(s, "alt") {
            SceneHotkeyStyle::Alt
        } else if text_eq(s, "shift") {
            SceneHotkeyStyle::Shift
        } else if text_eq(s, "super") || text_eq(s, "logo") {
            SceneHotkeyStyle::Super
        } else if text_eq(s, "ctrl-alt") {
            SceneHotkeyStyle::CtrlAlt
        } else if text_eq(s, "ctrl-shift") {
            SceneHotkeyStyle::CtrlShift
        } else if text_eq(s, "leader") {
            SceneHotkeyStyle::Leader
        } else {
            SceneHotkeyStyle::Ctrl
        }
    }

    /// Modifiers that must be held with the digit, or `None` for
    /// [`Self::Leader`], which the leader state machine drives instead.
    pub fn modifiers(self) -> (r: Option<Modifiers>)
        ensures
            r == style_modifiers(self),
    {
        match self {
            SceneHotkeyStyle::Plain => Some(Modifiers::new(false, false, false, false)),
            SceneHotkeyStyle::Ctrl => Some(Modifiers::new(true, false, false, false)),
            SceneHotkeyStyle::Alt => Some(Modifiers::new(false, true, false, false)),
            SceneHotkeyStyle::Shift => Some(Modifiers::new(false, false, true, false)),
            SceneHotkeyStyle::Super => Some(Modifiers::new(false, false, false, true)),
            SceneHotkeyStyle::CtrlAlt => Some(Modifiers::new(true, true, false, false)),
            SceneHotkeyStyle::CtrlShift => Some(Modifiers::new(true, false, true, false)),
            SceneHotkeyStyle::Leader => None,
        }
    }

    /// Whether this style fires on a bare digit, with nothing else held.
    ///
    /// Such bindings are suppressed while a text entry has focus.
    pub fn is_bare_digit(self) -> (r: bool)
        ensures
            r == (self == SceneHotkeyStyle::Plain),
            r == (style_modifiers(self) matches Some(m) && no_modifiers(m)),
    {
        matches!(self, SceneHotkeyStyle::Plain)
    }

    /// Modifier prefix shown in shortcut labels, e.g. `Ctrl+`.
    pub fn modifier_prefix(self) -> (s: &'static str)
        ensures
            s@ == modifier_prefix_text(self),
    {
        match self {
            SceneHotkeyStyle::Plain | SceneHotkeyStyle::Leader => "",
            SceneHotkeyStyle::Ctrl => "Ctrl+",
            SceneHotkeyStyle::Alt => "Alt+",
            SceneHotkeyStyle::Shift => "Shift+",
            SceneHotkeyStyle::Super => "Super+",
            SceneHotkeyStyle::CtrlAlt => "Ctrl+Alt+",
            SceneHotkeyStyle::CtrlShift => "Ctrl+Shift+",
        }
    }

    /// User-facing name for the Settings picker.
    pub fn label(self) -> (s: String)
        ensures
            s@ == style_label_text(self),
    {
        let text = match self {
            SceneHotkeyStyle::Plain => "Digit keys",
            SceneHotkeyStyle::Ctrl => "Ctrl + digit",
            SceneHotkeyStyle::Alt => "Alt + digit",
            SceneHotkeyStyle::Shift => "Shift + digit",
            SceneHotkeyStyle::Super => "Super + digit",
            SceneHotkeyStyle::CtrlAlt => "Ctrl+Alt + digit",
            SceneHotkeyStyle::CtrlShift => "Ctrl+Shift + digit",
            SceneHotkeyStyle::Leader => "Leader key, then digit",
        };
        owned(text)
    }
}

impl Default for SceneHotkeyStyle {
    fn default() -> (s: SceneHotkeyStyle)
        ensures
            s == SceneHotkeyStyle::Ctrl,
    {
        SceneHotkeyStyle::Ctrl
    }
}

impl std::str::FromStr for SceneHotkeyStyle {
    /// Parsing never fails: unknown persisted values fall back to `Ctrl`.
    type Err = std::convert::Infallible;

    fn from_str(s: &str) -> (r: Result<SceneHotkeyStyle, std::convert::Infallible>)
        ensures
            r == Ok::<SceneHotkeyStyle, std::convert::Infallible>(parse_style(s@)),
    {
        Ok(SceneHotkeyStyle::parse_str(s))
    }
}

/// Every style reads back from its own persisted spelling.
pub proof fn lemma_style_round_trip(s: SceneHotkeyStyle)
    ensures
        parse_style(style_str(s)) == s,
{
    reveal_strlit("plain");
    reveal_strlit("none");
    reveal_strlit("ctrl");
    reveal_strlit("alt");
    reveal_strlit("shift");
    reveal_strlit("super");
    reveal_strlit("logo");
    reveal_strlit("ctrl-alt");
    reveal_strlit("ctrl-shift");
    reveal_strlit("leader");
    assert("plain"@.len() == 5 && "none"@.len() == 4 && "ctrl"@.len() == 4 && "alt"@.len() == 3);
    assert("shift"@.len() == 5 && "super"@.len() == 5 && "logo"@.len() == 4 && "leader"@.len() == 6);
    assert("ctrl-alt"@.len() == 8 && "ctrl-shift"@.len() == 10);
    assert("plain"@[0] == 'p' && "shift"@[0] == 's' && "super"@[1] == 'u' && "shift"@[1] == 'h');
    assert("none"@[0] == 'n' && "ctrl"@[0] == 'c' && "logo"@[0] == 'l');
}

/// The label prefix that names a set of modifier keys, in the fixed order
/// Ctrl, Alt, Shift, Super.
pub open spec fn modifiers_prefix(m: Modifiers) -> Seq<char> {
    (if m.ctrl { "Ctrl+"@ } else { ""@ }) + (if m.alt { "Alt+"@ } else { ""@ }) + (if m.shift { "Shift+"@ } else {
        ""@
    }) + (if m.logo { "Super+"@ } else { ""@ })
}

/// A modifier style requires exactly the keys its label prefix names (so
/// `Ctrl+Shift+` needs both Ctrl and Shift, and nothing else), and only the
/// leader style has no modifier set.
pub proof fn lemma_style_requires_the_keys_it_names(s: SceneHotkeyStyle)
    ensures
        style_modifiers(s) is None <==> s == SceneHotkeyStyle::Leader,
        style_modifiers(s) matches Some(m) ==> modifier_prefix_text(s) == modifiers_prefix(m),
{
    reveal_strlit("");
    reveal_strlit("Ctrl+");
    reveal_strlit("Alt+");
    reveal_strlit("Shift+");
    reveal_strlit("Super+");
    reveal_strlit("Ctrl+Alt+");
    reveal_strlit("Ctrl+Shift+");
    match s {
        SceneHotkeyStyle::Plain => {
            assert(modifiers_prefix(style_modifiers(s)->0) =~= ""@);
        },
        SceneHotkeyStyle::Ctrl => {
            assert(modifiers_prefix(style_modifiers(s)->0) =~= "Ctrl+"@);
        },
        SceneHotkeyStyle::Alt => {
            assert(modifiers_prefix(style_modifiers(s)->0) =~= "Alt+"@);
        },
        SceneHotkeyStyle::Shift => {
            assert(modifiers_prefix(style_modifiers(s)->0) =~= "Shift+"@);
        },
        SceneHotkeyStyle::Super => {
            assert(modifiers_prefix(style_modifiers(s)->0) =~= "Super+"@);
        },
        SceneHotkeyStyle::CtrlAlt => {
            assert(modifiers_prefix(style_modifiers(s)->0) =~= "Ctrl+Alt+"@);
        },
        SceneHotkeyStyle::CtrlShift => {
            assert(modifiers_prefix(style_modifiers(s)->0) =~= "Ctrl+Shift+"@);
        },
        SceneHotkeyStyle::Leader => {},
    }
}

// ── Key strokes ───────────────────────────────────────────────────────────────

/// The subset of keyboard keys scene hotkeys care about.
///
/// The window maps toolkit key values onto this; every other key is
/// [`Self::Other`].
#[derive(Debug, Clone, Copy, PartialEq, Eq, Structural)]
pub enum KeySymbol {
    /// A digit from the number row or the keypad.
    Digit(u8),
    /// Space bar.
    Space,
    /// `,`
    Comma,
    /// `;`
    Semicolon,
    /// `\`
    Backslash,
    /// `` ` ``
    Grave,
    /// Escape, which cancels an armed leader.
    Escape,
    /// A modifier key on its own. Never cancels an armed leader.
    Modifier,
    /// Any other key.
    Other,
}

// ── Leader key ────────────────────────────────────────────────────────────────

/// Key that starts a vim-style two-stroke scene shortcut.
#[derive(Debug, Clone, Copy, PartialEq, Eq, Structural)]
pub enum LeaderKey {
    /// Space bar — the vim convention.
    Space,
    /// `,`
    Comma,
    /// `;`
    Semicolon,
    /// `\`
    Backslash,
    /// `` ` ``
    Grave,
}

/// Persisted spelling of a leader key.
pub open spec fn leader_str(k: LeaderKey) -> Seq<char> {
    match k {
        LeaderKey::Space => "space"@,
        LeaderKey::Comma => "comma"@,
        LeaderKey::Semicolon => "semicolon"@,
        LeaderKey::Backslash => "backslash"@,
        LeaderKey::Grave => "grave"@,
    }
}

/// Leader key read back from a persisted value, with the alias `backtick`;
/// anything unknown is `Space`.
pub open spec fn parse_leader(s: Seq<char>) -> LeaderKey {
    if s == "comma"@ {
        LeaderKey::Comma
    } else if s == "semicolon"@ {
        LeaderKey::Semicolon
    } else if s == "backslash"@ {
        LeaderKey::Backslash
    } else if s == "grave"@ || s == "backtick"@ {
        LeaderKey::Grave
    } else {
        LeaderKey::Space
    }
}

/// Key symbol a leader is pressed as.
pub open spec fn leader_symbol(k: LeaderKey) -> KeySymbol {
    match k {
        LeaderKey::Space => KeySymbol::Space,
        LeaderKey::Comma => KeySymbol::Comma,
        LeaderKey::Semicolon => KeySymbol::Semicolon,
        LeaderKey::Backslash => KeySymbol::Backslash,
        LeaderKey::Grave => KeySymbol::Grave,
    }
}

/// User-facing name of a leader key.
pub open spec fn leader_label_text(k: LeaderKey) -> Seq<char> {
    match k {
        LeaderKey::Space => "Space"@,
        LeaderKey::Comma => "Comma"@,
        LeaderKey::Semicolon => "Semicolon"@,
        LeaderKey::Backslash => "Backslash"@,
        LeaderKey::Grave => "Grave"@,
    }
}

impl LeaderKey {
    /// Stable display order used by the Settings picker.
    pub const ALL: [LeaderKey; 5] = [
        LeaderKey::Space,
        LeaderKey::Comma,
        LeaderKey::Semicolon,
        LeaderKey::Backslash,
        LeaderKey::Grave,
    ];

    /// Persisted config value.
    pub fn as_str(self) -> (s: &'static str)
        ensures
            s@ == leader_str(self),
    {
        match self {
            LeaderKey::Space => "space",
            LeaderKey::Comma => "comma",
            LeaderKey::Semicolon => "semicolon",
            LeaderKey::Backslash => "backslash",
            LeaderKey::Grave => "grave",
        }
    }

    /// Read a persisted value; parsing never fails and unknown values fall
    /// back to `Space`.
    pub fn parse_str(s: &str) -> (r: LeaderKey)
        ensures
            r == parse_leader(s@),
    {
        if text_eq(s, "comma") {
            LeaderKey::Comma
        } else if text_eq(s, "semicolon") {
            LeaderKey::Semicolon
        } else if text_eq(s, "backslash") {
            LeaderKey::Backslash
        } else if text_eq(s, "grave") || text_eq(s, "backtick") {
            LeaderKey::Grave
        } else {
            LeaderKey::Space
        }
    }

    /// Key symbol this leader is pressed as.
    pub fn symbol(self) -> (k: KeySymbol)
        ensures
            k == leader_symbol(self),
    {
        match self {
            LeaderKey::Space => KeySymbol::Space,
            LeaderKey::Comma => KeySymbol::Comma,
            LeaderKey::Semicolon => KeySymbol::Semicolon,
            LeaderKey::Backslash => KeySymbol::Backslash,
            LeaderKey::Grave => KeySymbol::Grave,
        }
    }

    /// User-facing name as a static string.
    fn label_str(self) -> (s: &'static str)
        ensures
            s@ == leader_label_text(self),
    {
        match self {
            LeaderKey::Space => "Space",
            LeaderKey::Comma => "Comma",
            LeaderKey::Semicolon => "Semicolon",
            LeaderKey::Backslash => "Backslash",
            LeaderKey::Grave => "Grave",
        }
    }

    /// User-facing name, e.g. `Space`.
    pub fn label(self) -> (s: String)
        ensures
            s@ == leader_label_text(self),
    {
        owned(self.label_str())
    }
}

impl Default for LeaderKey {
    fn default() -> (k: LeaderKey)
        ensures
            k == LeaderKey::Space,
    {
        LeaderKey::Space
    }
}

impl std::str::FromStr for LeaderKey {
    /// Parsing never fails: unknown persisted values fall back to `Space`.
    type Err = std::convert::Infallible;

    fn from_str(s: &str) -> (r: Result<LeaderKey, std::convert::Infallible>)
        ensures
            r == Ok::<LeaderKey, std::convert::Infallible>(parse_leader(s@)),
    {
        Ok(LeaderKey::parse_str(s))
    }
}

/// Every leader key reads back from its own persisted spelling.
pub proof fn lemma_leader_round_trip(k: LeaderKey)
    ensures
        parse_leader(leader_str(k)) == k,
{
    reveal_strlit("space");
    reveal_strlit("comma");
    reveal_strlit("semicolon");
    reveal_strlit("backslash");
    reveal_strlit("grave");
    reveal_strlit("backtick");
    assert("space"@.len() == 5 && "comma"@.len() == 5 && "grave"@.len() == 5);
    assert("semicolon"@.len() == 9 && "backslash"@.len() == 9 && "backtick"@.len() == 8);
    assert("space"@[0] == 's' && "comma"@[0] == 'c' && "grave"@[0] == 'g');
    assert("semicolon"@[0] == 's' && "backslash"@[0] == 'b');
}

/// One key press: a symbol plus the modifiers held with it.
#[derive(Debug, Clone, Copy, PartialEq, Eq, Structural)]
pub struct KeyStroke {
    /// Key that was pressed.
    pub key: KeySymbol,
    /// Modifiers held down at the time.
    pub modifiers: Modifiers,
}

/// Digit pressed with no modifiers held, if any.
pub open spec fn bare_digit_of(stroke: KeyStroke) -> Option<u8> {
    match stroke.key {
        KeySymbol::Digit(d) => if no_modifiers(stroke.modifiers) { Some(d) } else { None },
        _ => None,
    }
}

impl KeyStroke {
    /// Build a key stroke.
    pub fn new(key: KeySymbol, modifiers: Modifiers) -> (s: KeyStroke)
        ensures
            s == (KeyStroke { key, modifiers }),
    {
        KeyStroke { key, modifiers }
    }

    /// Digit pressed with no modifiers held, if any.
    pub fn bare_digit(self) -> (r: Option<u8>)
        ensures
            r == bare_digit_of(self),
    {
        match self.key {
            KeySymbol::Digit(digit) => if self.modifiers.is_empty() {
                Some(digit)
            } else {
                None
            },
            _ => None,
        }
    }
}

// ── Configuration ─────────────────────────────────────────────────────────────

/// Smallest leader window a user can configure, in milliseconds.
pub const MIN_LEADER_TIMEOUT_MS: u64 = 250;
/// Largest leader window a user can configure, in milliseconds.
pub const MAX_LEADER_TIMEOUT_MS: u64 = 5_000;
/// Leader window applied when none is configured.
pub const DEFAULT_LEADER_TIMEOUT_MS: u64 = 1_500;

/// User preferences for Live-page scene shortcuts.
#[derive(Debug, Clone, Copy, PartialEq, Eq, Structural)]
pub struct SceneHotkeyConfig {
    /// Whether digit shortcuts switch scenes at all.
    pub enabled: bool,
    /// Which key combination activates a scene slot.
    pub style: SceneHotkeyStyle,
    /// Leader key used when `style` is [`SceneHotkeyStyle::Leader`].
    pub leader: LeaderKey,
    /// How long an armed leader waits for its digit, in milliseconds.
    pub leader_timeout_ms: u64,
}

/// A configured leader window clamped into the range the Settings page
/// offers.
pub open spec fn clamped_timeout(ms: u64) -> u64 {
    if ms < MIN_LEADER_TIMEOUT_MS {
        MIN_LEADER_TIMEOUT_MS
    } else if ms > MAX_LEADER_TIMEOUT_MS {
        MAX_LEADER_TIMEOUT_MS
    } else {
        ms
    }
}

/// Full shortcut label for one slot, if hotkeys are on and the slot has a
/// digit.
pub open spec fn shortcut_text(c: SceneHotkeyConfig, slot: usize) -> Option<Seq<char>> {
    if !c.enabled {
        None
    } else {
        match digit_of_slot(slot) {
            None => None,
            Some(d) => Some(
                if c.style == SceneHotkeyStyle::Leader {
                    leader_label_text(c.leader) + " then "@ + decimal(d as nat)
                } else {
                    modifier_prefix_text(c.style) + decimal(d as nat)
                },
            ),
        }
    }
}

/// One-line summary above the Live scene cards, if hotkeys are on.
pub open spec fn hint_text(c: SceneHotkeyConfig) -> Option<Seq<char>> {
    if !c.enabled {
        None
    } else if c.style == SceneHotkeyStyle::Leader {
        Some("Press "@ + leader_label_text(c.leader) + ", then 1 … 0"@)
    } else if c.style == SceneHotkeyStyle::Plain {
        Some("Press 1 … 0"@)
    } else {
        Some("Press "@ + modifier_prefix_text(c.style) + "1 … 0"@)
    }
}

/// Scene shortcuts are on unless the configuration turns them off.
pub fn default_enabled() -> (b: bool)
    ensures
        b,
{
    true
}

/// Leader window used when the configuration names none.
pub fn default_leader_timeout_ms() -> (ms: u64)
    ensures
        ms == DEFAULT_LEADER_TIMEOUT_MS,
{
    DEFAULT_LEADER_TIMEOUT_MS
}

impl Default for SceneHotkeyConfig {
    fn default() -> (c: SceneHotkeyConfig)
        ensures
            c == (SceneHotkeyConfig {
                enabled: true,
                style: SceneHotkeyStyle::Ctrl,
                leader: LeaderKey::Space,
                leader_timeout_ms: DEFAULT_LEADER_TIMEOUT_MS,
            }),
    {
        SceneHotkeyConfig {
            enabled: default_enabled(),
            style: SceneHotkeyStyle::Ctrl,
            leader: LeaderKey::Space,
            leader_timeout_ms: default_leader_timeout_ms(),
        }
    }
}

impl SceneHotkeyConfig {
    /// Leader window in milliseconds, clamped to the range the Settings page
    /// offers.
    ///
    /// Hand-edited config files can hold anything; clamping here keeps a `0`
    /// from making the leader impossible to use.
    pub fn leader_timeout(self) -> (ms: u64)
        ensures
            ms == clamped_timeout(self.leader_timeout_ms),
            MIN_LEADER_TIMEOUT_MS <= ms <= MAX_LEADER_TIMEOUT_MS,
            MIN_LEADER_TIMEOUT_MS <= self.leader_timeout_ms <= MAX_LEADER_TIMEOUT_MS ==> ms == self.leader_timeout_ms,
    {
        if self.leader_timeout_ms < MIN_LEADER_TIMEOUT_MS {
            MIN_LEADER_TIMEOUT_MS
        } else if self.leader_timeout_ms > MAX_LEADER_TIMEOUT_MS {
            MAX_LEADER_TIMEOUT_MS
        } else {
            self.leader_timeout_ms
        }
    }

    /// Full shortcut label for one slot, e.g. `Ctrl+1` or `Space then 1`.
    ///
    /// Returns `None` when hotkeys are off or the slot is past [`MAX_SLOTS`].
    pub fn shortcut_label(&self, slot: usize) -> (r: Option<String>)
        ensures
            match shortcut_text(*self, slot) {
                Some(t) => r matches Some(s) && s@ == t,
                None => r is None,
            },
    {
        if !self.enabled {
            return None;
        }
        let digit = match digit_for_slot(slot) {
            Some(d) => d,
            None => {
                return None;
            },
        };
        let digit_text = digit_str(digit as u64);
        proof {
            reveal_with_fuel(decimal, 1);
        }
        match self.style {
            SceneHotkeyStyle::Leader => Some(join3(self.leader.label_str(), " then ", digit_text)),
            style => Some(join2(style.modifier_prefix(), digit_text)),
        }
    }

    /// One-line summary shown above the Live scene cards, e.g. `Ctrl+1 … 0`.
    ///
    /// Returns `None` when hotkeys are off, so the hint can be hidden.
    pub fn hint_label(&self) -> (r: Option<String>)
        ensures
            match hint_text(*self) {
                Some(t) => r matches Some(s) && s@ == t,
                None => r is None,
            },
    {
        if !self.enabled {
            return None;
        }
        match self.style {
            SceneHotkeyStyle::Leader => Some(join3("Press ", self.leader.label_str(), ", then 1 … 0")),
            SceneHotkeyStyle::Plain => Some(owned("Press 1 … 0")),
            style => Some(join3("Press ", style.modifier_prefix(), "1 … 0")),
        }
    }
}

} // verus!
