//! Application configuration: its shape, defaults, schema migrations, and
//! what a load reports.
//!
//! The file itself (`config.json` under the XDG config directory) is read,
//! parsed and written by the application shell; this module decides what the
//! parsed, missing or broken file turns into.

use vstd::prelude::*;
use crate::domain::appearance::{or_path, CustomCssPreference, Language, ThemeMode, ThemePreference, UiDensity};
use crate::domain::hotkey::{LeaderKey, SceneHotkeyConfig, SceneHotkeyStyle, DEFAULT_LEADER_TIMEOUT_MS};
use crate::domain::mixer::{MixerGrouping, MixerMode, MixerSelection};
use crate::text::{join3, owned};

verus! {

/// Current on-disk config schema version.  Bump when adding a migration.
pub const CURRENT_VERSION: u32 = 3;

/// Schema version of a config file that does not say.
pub fn default_version() -> (v: u32)
    ensures
        v == CURRENT_VERSION,
{
    CURRENT_VERSION
}

/// OBS host used when none is configured.
pub fn default_obs_host() -> (h: String)
    ensures
        h@ == "127.0.0.1"@,
{
    owned("127.0.0.1")
}

/// OBS websocket port used when none is configured.
pub fn default_obs_port() -> (p: u16)
    ensures
        p == 4455,
{
    4455
}

/// Roles shown on the Live page when a `live` section does not list them.
pub fn default_show_roles() -> (r: Vec<String>)
    ensures
        r@.len() == 1 && r@[0]@ == "primary"@,
{
    let mut r = Vec::new();
    r.push(owned("primary"));
    r
}

/// Roles switchable from Live when a `live` section does not list them.
pub fn default_allow_switching() -> (r: Vec<String>)
    ensures
        r@.len() == 1 && r@[0]@ == "primary"@,
{
    let mut r = Vec::new();
    r.push(owned("primary"));
    r
}

/// Whether stopping the stream asks first, when not configured.
pub fn default_confirm_stop_stream() -> (b: bool)
    ensures
        b,
{
    true
}

/// Whether stopping a recording asks first, when not configured.
pub fn default_confirm_stop_recording() -> (b: bool)
    ensures
        b,
{
    true
}

/// Connection settings for OBS.
#[derive(Debug, Clone, PartialEq, Eq)]
pub struct ObsConfig {
    /// Host name or address of the OBS websocket.
    pub host: String,
    /// Port of the OBS websocket.
    pub port: u16,
}

impl Default for ObsConfig {
    fn default() -> (c: ObsConfig)
        ensures
            c.host@ == "127.0.0.1"@,
            c.port == 4455,
    {
        ObsConfig { host: default_obs_host(), port: default_obs_port() }
    }
}

/// Confirmation prompts for the output controls.
#[derive(Debug, Clone, Copy, PartialEq, Eq, Structural)]
pub struct OutputConfig {
    /// Ask before starting the stream.
    pub confirm_start_stream: bool,
    /// Ask before stopping the stream.
    pub confirm_stop_stream: bool,
    /// Ask before starting a recording.
    pub confirm_start_recording: bool,
    /// Ask before stopping a recording.
    pub confirm_stop_recording: bool,
}

impl Default for OutputConfig {
    fn default() -> (c: OutputConfig)
        ensures
            c == (OutputConfig {
                confirm_start_stream: false,
                confirm_stop_stream: true,
                confirm_start_recording: false,
                confirm_stop_recording: true,
            }),
    {
        OutputConfig {
            confirm_start_stream: false,
            confirm_stop_stream: default_confirm_stop_stream(),
            confirm_start_recording: false,
            confirm_stop_recording: default_confirm_stop_recording(),
        }
    }
}

/// What the Live page shows.
#[derive(Debug, Clone, PartialEq, Eq)]
pub struct LiveConfig {
    /// Roles whose scenes appear on the Live page.
    pub show_roles: Vec<String>,
    /// OBS input names shown in the audio mixer.
    pub audio_inputs: Vec<String>,
    /// Roles whose scenes can be switched from Live.
    pub allow_switching_only: Vec<String>,
}

impl Default for LiveConfig {
    fn default() -> (c: LiveConfig)
        ensures
            c.show_roles@.len() == 0,
            c.audio_inputs@.len() == 0,
            c.allow_switching_only@.len() == 0,
    {
        LiveConfig { show_roles: Vec::new(), audio_inputs: Vec::new(), allow_switching_only: Vec::new() }
    }
}

/// First-run onboarding state.
///
/// A brand-new user is greeted with a welcome dialog that points at the Help
/// page. `welcome_shown` records that the greeting has happened, so it only
/// ever interrupts once.
#[derive(Debug, Clone, Copy, PartialEq, Eq, Structural)]
pub struct OnboardingConfig {
    /// Whether the welcome dialog has been shown.
    pub welcome_shown: bool,
}

impl Default for OnboardingConfig {
    fn default() -> (c: OnboardingConfig)
        ensures
            !c.welcome_shown,
    {
        OnboardingConfig { welcome_shown: false }
    }
}

/// The whole configuration file.
#[derive(Debug, Clone, PartialEq, Eq)]
pub struct AppConfig {
    /// Schema version the file was written with.
    pub version: u32,
    /// OBS connection.
    pub obs: ObsConfig,
    /// Live page.
    pub live: LiveConfig,
    /// Output confirmations.
    pub outputs: OutputConfig,
    /// Theme and stylesheet.
    pub appearance: ThemePreference,
    /// UI language.
    pub language: Language,
    /// Mixer page selection.
    pub mixer: MixerSelection,
    /// Live-page scene-switch shortcuts.
    pub hotkeys: SceneHotkeyConfig,
    /// What the first-run onboarding has already shown this user.
    pub onboarding: OnboardingConfig,
    /// Top-level `theme_mode` of version 1 files, read but never written.
    pub legacy_theme_mode: Option<ThemeMode>,
}

impl Default for AppConfig {
    fn default() -> (c: AppConfig)
        ensures
            is_default_config(c),
    {
        AppConfig {
            version: default_version(),
            obs: ObsConfig::default(),
            live: LiveConfig::default(),
            outputs: OutputConfig::default(),
            appearance: ThemePreference::default(),
            language: Language::System,
            mixer: MixerSelection::default(),
            hotkeys: SceneHotkeyConfig::default(),
            onboarding: OnboardingConfig::default(),
            legacy_theme_mode: None,
        }
    }
}

/// The config after the version steps: a version 0 or 1 file takes its
/// top-level theme mode into the appearance section, and every file older
/// than version 3 already belongs to a user who was greeted. Files of the
/// current or a newer version are left as they are.
pub open spec fn version_migrated(c: AppConfig) -> AppConfig {
    if c.version >= CURRENT_VERSION {
        c
    } else {
        let appearance = if c.version < 2 {
            match c.legacy_theme_mode {
                Some(mode) => ThemePreference { mode, ..c.appearance },
                None => c.appearance,
            }
        } else {
            c.appearance
        };
        let legacy = if c.version < 2 { None } else { c.legacy_theme_mode };
        AppConfig {
            version: CURRENT_VERSION,
            appearance,
            legacy_theme_mode: legacy,
            onboarding: OnboardingConfig { welcome_shown: true },
            ..c
        }
    }
}

/// The appearance after moving a legacy single stylesheet into whichever of
/// the light and dark paths are unset.
pub open spec fn css_migrated(p: ThemePreference) -> ThemePreference {
    ThemePreference {
        custom_css: CustomCssPreference {
            light_path: or_path(p.custom_css.light_path, p.custom_css.legacy_path),
            dark_path: or_path(p.custom_css.dark_path, p.custom_css.legacy_path),
            legacy_path: None,
            ..p.custom_css
        },
        ..p
    }
}

/// Whether the stylesheet step has anything to fill in.
pub open spec fn css_step_changes(p: ThemePreference) -> bool {
    p.custom_css.legacy_path is Some && (p.custom_css.light_path is None || p.custom_css.dark_path is None)
}

/// The config after every migration step.
pub open spec fn fully_migrated(c: AppConfig) -> AppConfig {
    let v = version_migrated(c);
    AppConfig { appearance: css_migrated(v.appearance), ..v }
}

/// Whether any migration step changes something worth writing back.
pub open spec fn migration_changes(c: AppConfig) -> bool {
    c.version < CURRENT_VERSION || css_step_changes(version_migrated(c).appearance)
}

/// Upgrade an older config in place, one version step at a time.  Returns
/// whether anything changed, so the caller can re-persist.
pub fn migrate(config: &mut AppConfig) -> (changed: bool)
    ensures
        *final(config) == version_migrated(*old(config)),
        changed == (old(config).version < CURRENT_VERSION),
{
    let mut changed = false;
    if config.version > CURRENT_VERSION {
        // Written by a newer build: keep the user's data as it is.
        return false;
    }
    let ghost start = *config;
    while config.version < CURRENT_VERSION
        invariant
            start.version <= CURRENT_VERSION,
            start.version <= config.version <= CURRENT_VERSION,
            start.version < CURRENT_VERSION ==> config.version >= 2 || config.version == start.version,
            changed == (config.version != start.version),
            config.version == start.version ==> *config == start,
            config.version == 2 && start.version < 2 ==> *config == (AppConfig {
                version: 2,
                appearance: version_migrated(start).appearance,
                legacy_theme_mode: None,
                ..start
            }),
            config.version == CURRENT_VERSION && start.version < CURRENT_VERSION ==> *config == version_migrated(start),
        decreases CURRENT_VERSION - config.version,
    {
        if config.version < 2 {
            match config.legacy_theme_mode.take() {
                Some(mode) => {
                    config.appearance.mode = mode;
                },
                None => {},
            }
            config.version = 2;
        } else {
            // A config file that already exists belongs to someone who has
            // been using the application; the first-run greeting is for new
            // users only.
            config.onboarding.welcome_shown = true;
            config.version = CURRENT_VERSION;
        }
        changed = true;
    }
    changed
}

/// Run every migration step over a freshly parsed config.
///
/// Returns `true` if any step changed something, so the caller re-persists.
/// Every step runs, whatever the ones before it reported.
pub fn apply_migrations(config: &mut AppConfig) -> (changed: bool)
    ensures
        *final(config) == fully_migrated(*old(config)),
        changed == migration_changes(*old(config)),
{
    let version_changed = migrate(config);
    let custom_css_changed = config.appearance.migrate_legacy_custom_css_path();
    version_changed || custom_css_changed
}

/// A config that has been migrated needs nothing more: running the
/// migrations again changes nothing and asks for no write.
pub proof fn lemma_migrations_settle(c: AppConfig)
    ensures
        fully_migrated(fully_migrated(c)) == fully_migrated(c),
        !migration_changes(fully_migrated(c)),
{
}

/// A config written by a newer build keeps everything but a legacy
/// stylesheet path, which is moved as for any other config.
pub proof fn lemma_newer_configs_keep_their_version(c: AppConfig)
    requires
        c.version >= CURRENT_VERSION,
    ensures
        fully_migrated(c).version == c.version,
        fully_migrated(c).onboarding == c.onboarding,
        fully_migrated(c).appearance.mode == c.appearance.mode,
{
}

/// Why the application started the way it did.
#[derive(Debug, Clone, PartialEq, Eq)]
pub enum ConfigStartupNotice {
    /// No config file: a brand-new user.
    FirstLaunch,
    /// The file exists but could not be read.
    ReadFailed(String),
    /// The file exists but is not valid JSON. `backup` is where the original
    /// was moved to, when it could be moved at all.
    ParseFailed {
        /// Parser error text.
        detail: String,
        /// Path the unparsable file was moved to.
        backup: Option<String>,
    },
}

/// Text shown for a startup notice.
pub open spec fn notice_text(n: ConfigStartupNotice) -> Seq<char> {
    match n {
        ConfigStartupNotice::FirstLaunch => "Welcome to SceneDeck. No configuration was found, so the defaults are in use."@,
        ConfigStartupNotice::ReadFailed(err) => "Could not read the configuration: "@ + err@ + ". The defaults are in use."@,
        ConfigStartupNotice::ParseFailed { detail, backup } => match backup {
            Some(path) => "The configuration could not be parsed: "@ + detail@ + ". The original was kept as "@ + path@
                + " and the defaults are in use."@,
            None => "The configuration could not be parsed: "@ + detail@ + ". The defaults are in use."@,
        },
    }
}

impl ConfigStartupNotice {
    /// Message shown to the user at startup.
    pub fn user_message(&self) -> (s: String)
        ensures
            s@ == notice_text(*self),
    {
        match self {
            ConfigStartupNotice::FirstLaunch => owned("Welcome to SceneDeck. No configuration was found, so the defaults are in use."),
            ConfigStartupNotice::ReadFailed(err) => join3("Could not read the configuration: ", err.as_str(), ". The defaults are in use."),
            ConfigStartupNotice::ParseFailed { detail, backup } => match backup {
                Some(path) => {
                    let mut s = join3("The configuration could not be parsed: ", detail.as_str(), ". The original was kept as ");
                    s.append(path.as_str());
                    s.append(" and the defaults are in use.");
                    s
                },
                None => join3("The configuration could not be parsed: ", detail.as_str(), ". The defaults are in use."),
            },
        }
    }
}

/// What reading the config file produced.
#[derive(Debug, Clone, PartialEq, Eq)]
pub enum ConfigRead {
    /// The file was read and parsed.
    Parsed(AppConfig),
    /// The file was read but did not parse; it was moved to `backup` when
    /// that was possible.
    Unparsable {
        /// Parser error text.
        detail: String,
        /// Path the unparsable file was moved to.
        backup: Option<String>,
    },
    /// There is no config file.
    Missing,
    /// The file could not be read for another reason.
    Unreadable(String),
}

/// The configuration to start with, and why.
#[derive(Debug)]
pub struct LoadedConfig {
    /// Configuration in effect.
    pub config: AppConfig,
    /// Notice to show at startup, if any.
    pub startup_notice: Option<ConfigStartupNotice>,
}

/// Whether `c` is the default configuration, field by field: what a first
/// launch and a broken file start on.
pub open spec fn is_default_config(c: AppConfig) -> bool {
    &&& c.version == CURRENT_VERSION
    &&& c.obs.host@ == "127.0.0.1"@
    &&& c.obs.port == 4455
    &&& c.live.show_roles@.len() == 0
    &&& c.live.audio_inputs@.len() == 0
    &&& c.live.allow_switching_only@.len() == 0
    &&& c.outputs == (OutputConfig {
        confirm_start_stream: false,
        confirm_stop_stream: true,
        confirm_start_recording: false,
        confirm_stop_recording: true,
    })
    &&& c.appearance.mode == ThemeMode::System
    &&& c.appearance.selected_theme matches Some(t) && t.0@ == "adwaita-default"@
    &&& c.appearance.ui_density == UiDensity::Comfortable
    &&& !c.appearance.custom_css.enabled
    &&& c.appearance.custom_css.light_path is None
    &&& c.appearance.custom_css.dark_path is None
    &&& c.appearance.custom_css.legacy_path is None
    &&& c.language == Language::System
    &&& c.mixer.mode == MixerMode::ActiveScene
    &&& c.mixer.selected_scene is None
    &&& c.mixer.pinned_scene is None
    &&& c.mixer.search@ == Seq::<char>::empty()
    &&& c.mixer.grouping == MixerGrouping::Scope
    &&& c.hotkeys == (SceneHotkeyConfig {
        enabled: true,
        style: SceneHotkeyStyle::Ctrl,
        leader: LeaderKey::Space,
        leader_timeout_ms: DEFAULT_LEADER_TIMEOUT_MS,
    })
    &&& !c.onboarding.welcome_shown
    &&& c.legacy_theme_mode is None
}

impl LoadedConfig {
    /// Settle what was read into the configuration to start with, and say
    /// whether it must be written back.
    ///
    /// A parsed file is migrated, and written back when a migration changed
    /// it. Anything else starts on defaults: a missing file greets a new
    /// user, an unreadable or unparsable one is reported. Nothing but a
    /// migrated file is ever written, so a broken file is never overwritten
    /// here.
    pub fn from_read(read: ConfigRead) -> (r: (LoadedConfig, bool))
        ensures
            match read {
                ConfigRead::Parsed(c) => {
                    &&& r.0.config == fully_migrated(c)
                    &&& r.0.startup_notice is None
                    &&& r.1 == migration_changes(c)
                },
                ConfigRead::Unparsable { detail, backup } => {
                    &&& is_default_config(r.0.config)
                    &&& r.0.startup_notice == Some(ConfigStartupNotice::ParseFailed { detail, backup })
                    &&& !r.1
                },
                ConfigRead::Missing => {
                    &&& is_default_config(r.0.config)
                    &&& r.0.startup_notice == Some(ConfigStartupNotice::FirstLaunch)
                    &&& !r.1
                },
                ConfigRead::Unreadable(err) => {
                    &&& is_default_config(r.0.config)
                    &&& r.0.startup_notice == Some(ConfigStartupNotice::ReadFailed(err))
                    &&& !r.1
                },
            },
    {
        match read {
            ConfigRead::Parsed(config) => {
                let mut config = config;
                let changed = apply_migrations(&mut config);
                (LoadedConfig { config, startup_notice: None }, changed)
            },
            ConfigRead::Unparsable { detail, backup } => (
                LoadedConfig {
                    config: AppConfig::default(),
                    startup_notice: Some(ConfigStartupNotice::ParseFailed { detail, backup }),
                },
                false,
            ),
            ConfigRead::Missing => (
                LoadedConfig { config: AppConfig::default(), startup_notice: Some(ConfigStartupNotice::FirstLaunch) },
                false,
            ),
            ConfigRead::Unreadable(err) => (
                LoadedConfig { config: AppConfig::default(), startup_notice: Some(ConfigStartupNotice::ReadFailed(err)) },
                false,
            ),
        }
    }
}

} // verus!
