//! Appearance preferences that are independent from GTK widgets.

use vstd::prelude::*;
use crate::text::text_eq;

verus! {

/// Light/dark preference.
#[derive(Debug, Default, Clone, Copy, PartialEq, Eq, Structural)]
pub enum ThemeMode {
    /// Follow the desktop.
    #[default]
    System,
    /// Always light.
    Light,
    /// Always dark.
    Dark,
}

/// Persisted spelling of a theme mode.
pub open spec fn theme_mode_str(m: ThemeMode) -> Seq<char> {
    match m {
        ThemeMode::System => "system"@,
        ThemeMode::Light => "light"@,
        ThemeMode::Dark => "dark"@,
    }
}

/// Theme mode read back from its persisted spelling; anything unknown is
/// `System`.
pub open spec fn parse_theme_mode(s: Seq<char>) -> ThemeMode {
    if s == "light"@ {
        ThemeMode::Light
    } else if s == "dark"@ {
        ThemeMode::Dark
    } else {
        ThemeMode::System
    }
}

impl ThemeMode {
    /// Persisted config value.
    pub fn as_str(self) -> (s: &'static str)
        ensures
            s@ == theme_mode_str(self),
    {
        match self {
            ThemeMode::System => "system",
            ThemeMode::Light => "light",
            ThemeMode::Dark => "dark",
        }
    }

    /// Read a persisted value; unknown values fall back to `System`.
    pub fn parse_str(s: &str) -> (m: ThemeMode)
        ensures
            m == parse_theme_mode(s@),
    {
        if text_eq(s, "light") {
            ThemeMode::Light
        } else if text_eq(s, "dark") {
            ThemeMode::Dark
        } else {
            ThemeMode::System
        }
    }
}

impl std::str::FromStr for ThemeMode {
    type Err = std::convert::Infallible;

    fn from_str(s: &str) -> (r: Result<Self, Self::Err>)
        ensures
            r == Ok::<ThemeMode, std::convert::Infallible>(parse_theme_mode(s@)),
    {
        Ok(ThemeMode::parse_str(s))
    }
}

/// UI language preference. `System` follows the desktop locale; every other
/// variant pins the UI to a specific shipped translation.
#[derive(Debug, Default, Clone, Copy, PartialEq, Eq, Structural)]
pub enum Language {
    /// Desktop locale.
    #[default]
    System,
    /// English.
    En,
    /// British English.
    EnGb,
    /// German.
    De,
    /// Swiss German.
    DeCh,
    /// Spanish.
    Es,
    /// Italian.
    It,
    /// Polish.
    Pl,
    /// European Portuguese.
    PtPt,
    /// Ukrainian.
    Uk,
}

/// Persisted spelling of a language.
pub open spec fn language_str(l: Language) -> Seq<char> {
    match l {
        Language::System => "system"@,
        Language::En => "en"@,
        Language::EnGb => "en-gb"@,
        Language::De => "de"@,
        Language::DeCh => "de-ch"@,
        Language::Es => "es"@,
        Language::It => "it"@,
        Language::Pl => "pl"@,
        Language::PtPt => "pt-pt"@,
        Language::Uk => "uk"@,
    }
}

/// Language read back from its persisted spelling; anything unknown is
/// `System`.
pub open spec fn parse_language(s: Seq<char>) -> Language {
    if s == "en"@ {
        Language::En
    } else if s == "en-gb"@ {
        Language::EnGb
    } else if s == "de"@ {
        Language::De
    } else if s == "de-ch"@ {
        Language::DeCh
    } else if s == "es"@ {
        Language::Es
    } else if s == "it"@ {
        Language::It
    } else if s == "pl"@ {
        Language::Pl
    } else if s == "pt-pt"@ {
        Language::PtPt
    } else if s == "uk"@ {
        Language::Uk
    } else {
        Language::System
    }
}

impl Language {
    /// All selectable languages in picker order, `System` first.
    pub const ALL: [Language; 10] = [
        Language::System,
        Language::En,
        Language::EnGb,
        Language::De,
        Language::DeCh,
        Language::Es,
        Language::It,
        Language::Pl,
        Language::PtPt,
        Language::Uk,
    ];

    /// Persisted config value.
    pub fn as_str(self) -> (s: &'static str)
        ensures
            s@ == language_str(self),
    {
        match self {
            Language::System => "system",
            Language::En => "en",
            Language::EnGb => "en-gb",
            Language::De => "de",
            Language::DeCh => "de-ch",
            Language::Es => "es",
            Language::It => "it",
            Language::Pl => "pl",
            Language::PtPt => "pt-pt",
            Language::Uk => "uk",
        }
    }

    /// Read a persisted value; unknown values fall back to `System`.
    pub fn parse_str(s: &str) -> (l: Language)
        ensures
            l == parse_language(s@),
    {
        if text_eq(s, "en") {
            Language::En
        } else if text_eq(s, "en-gb") {
            Language::EnGb
        } else if text_eq(s, "de") {
            Language::De
        } else if text_eq(s, "de-ch") {
            Language::DeCh
        } else if text_eq(s, "es") {
            Language::Es
        } else if text_eq(s, "it") {
            Language::It
        } else if text_eq(s, "pl") {
            Language::Pl
        } else if text_eq(s, "pt-pt") {
            Language::PtPt
        } else if text_eq(s, "uk") {
            Language::Uk
        } else {
            Language::System
        }
    }

    /// BCP-47 locale tag to request from the loader, or `None` for `System`,
    /// meaning "use the desktop locale".
    pub fn locale_tag(self) -> (t: Option<&'static str>)
        ensures
            match self {
                Language::System => t is None,
                Language::En => t matches Some(x) && x@ == "en"@,
                Language::EnGb => t matches Some(x) && x@ == "en-GB"@,
                Language::De => t matches Some(x) && x@ == "de"@,
                Language::DeCh => t matches Some(x) && x@ == "de-CH"@,
                Language::Es => t matches Some(x) && x@ == "es"@,
                Language::It => t matches Some(x) && x@ == "it"@,
                Language::Pl => t matches Some(x) && x@ == "pl"@,
                Language::PtPt => t matches Some(x) && x@ == "pt-PT"@,
                Language::Uk => t matches Some(x) && x@ == "uk"@,
            },
    {
        match self {
            Language::System => None,
            Language::En => Some("en"),
            Language::EnGb => Some("en-GB"),
            Language::De => Some("de"),
            Language::DeCh => Some("de-CH"),
            Language::Es => Some("es"),
            Language::It => Some("it"),
            Language::Pl => Some("pl"),
            Language::PtPt => Some("pt-PT"),
            Language::Uk => Some("uk"),
        }
    }

    /// Name shown in the language picker, as the language's own autonym.
    pub fn display_name(self) -> (s: &'static str)
        ensures
            s@ == match self {
                Language::System => "System Default"@,
                Language::En => "English"@,
                Language::EnGb => "English (UK)"@,
                Language::De => "Deutsch"@,
                Language::DeCh => "Deutsch (Schweiz)"@,
                Language::Es => "Español"@,
                Language::It => "Italiano"@,
                Language::Pl => "Polski"@,
                Language::PtPt => "Português (Portugal)"@,
                Language::Uk => "Українська"@,
            },
    {
        match self {
            Language::System => "System Default",
            Language::En => "English",
            Language::EnGb => "English (UK)",
            Language::De => "Deutsch",
            Language::DeCh => "Deutsch (Schweiz)",
            Language::Es => "Español",
            Language::It => "Italiano",
            Language::Pl => "Polski",
            Language::PtPt => "Português (Portugal)",
            Language::Uk => "Українська",
        }
    }
}

impl std::str::FromStr for Language {
    type Err = std::convert::Infallible;

    fn from_str(s: &str) -> (r: Result<Language, std::convert::Infallible>)
        ensures
            r == Ok::<Language, std::convert::Infallible>(parse_language(s@)),
    {
        Ok(Language::parse_str(s))
    }
}

/// Identifier of a built-in theme.
#[derive(Debug, Clone, PartialEq, Eq)]
pub struct ThemeId(pub String);

impl ThemeId {
    /// Wrap a theme identifier.
    pub fn new(id: &str) -> (t: ThemeId)
        ensures
            t.0@ == id@,
    {
        ThemeId(id.to_owned())
    }

    /// The identifier text.
    pub fn as_str(&self) -> (s: &str)
        ensures
            s@ == self.0@,
    {
        self.0.as_str()
    }
}

impl Default for ThemeId {
    fn default() -> (t: ThemeId)
        ensures
            t.0@ == "adwaita-default"@,
    {
        ThemeId::new("adwaita-default")
    }
}

/// Theme selected when the configuration names none: the built-in default.
pub fn default_selected_theme() -> (t: Option<ThemeId>)
    ensures
        t matches Some(id) && id.0@ == "adwaita-default"@,
{
    Some(ThemeId::default())
}

/// Where the active stylesheet comes from.
#[derive(Debug, Default, Clone, Copy, PartialEq, Eq, Structural)]
pub enum ThemeSource {
    /// One of the built-in themes.
    #[default]
    BuiltIn,
    /// A user-provided CSS file.
    UserCssFile,
}

/// Spacing density of the UI.
#[derive(Debug, Default, Clone, Copy, PartialEq, Eq, Structural)]
pub enum UiDensity {
    /// Tighter spacing.
    Compact,
    /// Default spacing.
    #[default]
    Comfortable,
}

/// Persisted spelling of a density.
pub open spec fn ui_density_str(d: UiDensity) -> Seq<char> {
    match d {
        UiDensity::Compact => "compact"@,
        UiDensity::Comfortable => "comfortable"@,
    }
}

/// Density read back from its spelling; anything unknown is `Comfortable`.
pub open spec fn parse_ui_density(s: Seq<char>) -> UiDensity {
    if s == "compact"@ {
        UiDensity::Compact
    } else {
        UiDensity::Comfortable
    }
}

impl UiDensity {
    /// Persisted config value.
    pub fn as_str(self) -> (s: &'static str)
        ensures
            s@ == ui_density_str(self),
    {
        match self {
            UiDensity::Compact => "compact",
            UiDensity::Comfortable => "comfortable",
        }
    }

    /// Read a persisted value; unknown values fall back to `Comfortable`.
    pub fn parse_str(s: &str) -> (d: UiDensity)
        ensures
            d == parse_ui_density(s@),
    {
        if text_eq(s, "compact") {
            UiDensity::Compact
        } else {
            UiDensity::Comfortable
        }
    }
}

impl std::str::FromStr for UiDensity {
    type Err = std::convert::Infallible;

    fn from_str(s: &str) -> (r: Result<UiDensity, std::convert::Infallible>)
        ensures
            r == Ok::<UiDensity, std::convert::Infallible>(parse_ui_density(s@)),
    {
        Ok(UiDensity::parse_str(s))
    }
}

/// User stylesheet preference. Paths are held as the text of the path.
#[derive(Debug, Default, Clone, PartialEq, Eq)]
pub struct CustomCssPreference {
    /// Whether the user stylesheet is applied.
    pub enabled: bool,
    /// Stylesheet for the light mode.
    pub light_path: Option<String>,
    /// Stylesheet for the dark mode.
    pub dark_path: Option<String>,
    /// Single stylesheet of the older format (`path`), read but never written.
    pub legacy_path: Option<String>,
}

/// Theme and stylesheet preferences.
#[derive(Debug, Clone, PartialEq, Eq)]
pub struct ThemePreference {
    /// Light/dark preference.
    pub mode: ThemeMode,
    /// Selected built-in theme.
    pub selected_theme: Option<ThemeId>,
    /// Spacing density.
    pub ui_density: UiDensity,
    /// User stylesheet preference.
    pub custom_css: CustomCssPreference,
}

impl Default for ThemePreference {
    fn default() -> (p: ThemePreference)
        ensures
            p.mode == ThemeMode::System,
            p.selected_theme matches Some(t) && t.0@ == "adwaita-default"@,
            p.ui_density == UiDensity::Comfortable,
            !p.custom_css.enabled,
            p.custom_css.light_path is None,
            p.custom_css.dark_path is None,
            p.custom_css.legacy_path is None,
    {
        ThemePreference {
            mode: ThemeMode::System,
            selected_theme: default_selected_theme(),
            ui_density: UiDensity::Comfortable,
            custom_css: CustomCssPreference {
                enabled: false,
                light_path: None,
                dark_path: None,
                legacy_path: None,
            },
        }
    }
}

/// First present path among `a`, `b`.
pub open spec fn or_path(a: Option<String>, b: Option<String>) -> Option<String> {
    if a is Some {
        a
    } else {
        b
    }
}

impl ThemePreference {
    /// Identifier of the selected theme, `adwaita-default` when none is set.
    pub fn selected_theme_id(&self) -> (s: &str)
        ensures
            s@ == match self.selected_theme {
                Some(t) => t.0@,
                None => "adwaita-default"@,
            },
    {
        match &self.selected_theme {
            Some(t) => t.as_str(),
            None => "adwaita-default",
        }
    }

    /// Whether the user stylesheet is applied.
    pub fn custom_css_enabled(&self) -> (b: bool)
        ensures
            b == self.custom_css.enabled,
    {
        self.custom_css.enabled
    }

    /// The light stylesheet, else the dark one, else the legacy one.
    pub fn custom_css_path(&self) -> (r: Option<&String>)
        ensures
            r == match or_path(
                self.custom_css.light_path,
                or_path(self.custom_css.dark_path, self.custom_css.legacy_path),
            ) {
                Some(p) => Some(&p),
                None => None::<&String>,
            },
    {
        match &self.custom_css.light_path {
            Some(p) => Some(p),
            None => match &self.custom_css.dark_path {
                Some(p) => Some(p),
                None => match &self.custom_css.legacy_path {
                    Some(p) => Some(p),
                    None => None,
                },
            },
        }
    }

    /// Stylesheet for one mode: that mode's own path, else the legacy one;
    /// `System` takes whichever stylesheet [`Self::custom_css_path`] picks.
    pub fn custom_css_path_for_mode(&self, mode: ThemeMode) -> (r: Option<&String>)
        ensures
            r == match match mode {
                ThemeMode::Light => or_path(self.custom_css.light_path, self.custom_css.legacy_path),
                ThemeMode::Dark => or_path(self.custom_css.dark_path, self.custom_css.legacy_path),
                ThemeMode::System => or_path(
                    self.custom_css.light_path,
                    or_path(self.custom_css.dark_path, self.custom_css.legacy_path),
                ),
            } {
                Some(p) => Some(&p),
                None => None::<&String>,
            },
    {
        match mode {
            ThemeMode::Light => match &self.custom_css.light_path {
                Some(p) => Some(p),
                None => match &self.custom_css.legacy_path {
                    Some(p) => Some(p),
                    None => None,
                },
            },
            ThemeMode::Dark => match &self.custom_css.dark_path {
                Some(p) => Some(p),
                None => match &self.custom_css.legacy_path {
                    Some(p) => Some(p),
                    None => None,
                },
            },
            ThemeMode::System => self.custom_css_path(),
        }
    }

    /// Move a legacy single stylesheet into whichever of the light and dark
    /// paths are unset. The legacy path is always dropped. Returns whether a
    /// light or dark path was filled in.
    pub fn migrate_legacy_custom_css_path(&mut self) -> (changed: bool)
        ensures
            final(self).custom_css.legacy_path is None,
            final(self).mode == old(self).mode,
            final(self).selected_theme == old(self).selected_theme,
            final(self).ui_density == old(self).ui_density,
            final(self).custom_css.enabled == old(self).custom_css.enabled,
            final(self).custom_css.light_path == or_path(
                old(self).custom_css.light_path,
                old(self).custom_css.legacy_path,
            ),
            final(self).custom_css.dark_path == or_path(
                old(self).custom_css.dark_path,
                old(self).custom_css.legacy_path,
            ),
            changed == (old(self).custom_css.legacy_path is Some && (old(
                self,
            ).custom_css.light_path is None || old(self).custom_css.dark_path is None)),
    {
        let legacy = self.custom_css.legacy_path.take();
        match legacy {
            None => false,
            Some(path) => {
                let mut changed = false;
                if self.custom_css.light_path.is_none() {
                    self.custom_css.light_path = Some(path.clone());
                    changed = true;
                }
                if self.custom_css.dark_path.is_none() {
                    self.custom_css.dark_path = Some(path);
                    changed = true;
                }
                changed
            },
        }
    }
}

/// Every theme mode reads back from its own spelling.
pub proof fn lemma_theme_mode_round_trip(m: ThemeMode)
    ensures
        parse_theme_mode(theme_mode_str(m)) == m,
{
    reveal_strlit("system");
    reveal_strlit("light");
    reveal_strlit("dark");
    assert("system"@.len() == 6 && "light"@.len() == 5 && "dark"@.len() == 4);
}

/// Every language reads back from its own spelling.
pub proof fn lemma_language_round_trip(l: Language)
    ensures
        parse_language(language_str(l)) == l,
{
    reveal_strlit("system");
    reveal_strlit("en");
    reveal_strlit("en-gb");
    reveal_strlit("de");
    reveal_strlit("de-ch");
    reveal_strlit("es");
    reveal_strlit("it");
    reveal_strlit("pl");
    reveal_strlit("pt-pt");
    reveal_strlit("uk");
    assert("system"@.len() == 6 && "en"@.len() == 2 && "en-gb"@.len() == 5);
    assert("de"@.len() == 2 && "de-ch"@.len() == 5 && "es"@.len() == 2);
    assert("it"@.len() == 2 && "pl"@.len() == 2 && "pt-pt"@.len() == 5 && "uk"@.len() == 2);
    assert("en"@[0] == 'e' && "en"@[1] == 'n' && "de"@[0] == 'd' && "es"@[1] == 's');
    assert("it"@[0] == 'i' && "pl"@[0] == 'p' && "uk"@[0] == 'u' && "es"@[0] == 'e');
    assert("en-gb"@[0] == 'e' && "de-ch"@[0] == 'd' && "pt-pt"@[0] == 'p');
}

/// Every density reads back from its own spelling.
pub proof fn lemma_ui_density_round_trip(d: UiDensity)
    ensures
        parse_ui_density(ui_density_str(d)) == d,
{
    reveal_strlit("compact");
    reveal_strlit("comfortable");
    assert("compact"@.len() == 7 && "comfortable"@.len() == 11);
}

} // verus!
