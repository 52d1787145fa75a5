//! Mixer page preferences.

use vstd::prelude::*;
use crate::text::text_eq;

verus! {

/// Which scene the mixer shows.
#[derive(Debug, Default, Clone, Copy, PartialEq, Eq, Structural)]
pub enum MixerMode {
    /// Follow the OBS program scene.
    #[default]
    ActiveScene,
    /// Inspect the selected scene.
    SelectedScene,
    /// Keep the selected scene pinned.
    PinnedScene,
}

/// Persisted spelling of a mixer mode.
pub open spec fn mixer_mode_str(m: MixerMode) -> Seq<char> {
    match m {
        MixerMode::ActiveScene => "active"@,
        MixerMode::SelectedScene => "selected"@,
        MixerMode::PinnedScene => "pinned"@,
    }
}

/// Mixer mode read back from its spelling; anything unknown is `ActiveScene`.
pub open spec fn parse_mixer_mode(s: Seq<char>) -> MixerMode {
    if s == "selected"@ {
        MixerMode::SelectedScene
    } else if s == "pinned"@ {
        MixerMode::PinnedScene
    } else {
        MixerMode::ActiveScene
    }
}

impl MixerMode {
    /// Short picker label.
    pub fn label(self) -> (s: &'static str)
        ensures
            s@ == match self {
                MixerMode::ActiveScene => "Active"@,
                MixerMode::SelectedScene => "Selected"@,
                MixerMode::PinnedScene => "Pinned"@,
            },
    {
        match self {
            MixerMode::ActiveScene => "Active",
            MixerMode::SelectedScene => "Selected",
            MixerMode::PinnedScene => "Pinned",
        }
    }

    /// One-line explanation shown beside the picker.
    pub fn description(self) -> (s: &'static str)
        ensures
            s@ == match self {
                MixerMode::ActiveScene => "Follow the OBS program scene."@,
                MixerMode::SelectedScene => "Inspect the selected scene without following OBS."@,
                MixerMode::PinnedScene => "Keep the selected scene stable while operating."@,
            },
    {
        match self {
            MixerMode::ActiveScene => "Follow the OBS program scene.",
            MixerMode::SelectedScene => "Inspect the selected scene without following OBS.",
            MixerMode::PinnedScene => "Keep the selected scene stable while operating.",
        }
    }

    /// Persisted config value.
    pub fn as_str(self) -> (s: &'static str)
        ensures
            s@ == mixer_mode_str(self),
    {
        match self {
            MixerMode::ActiveScene => "active",
            MixerMode::SelectedScene => "selected",
            MixerMode::PinnedScene => "pinned",
        }
    }

    /// Read a persisted value; unknown values fall back to `ActiveScene`.
    pub fn parse_str(s: &str) -> (m: MixerMode)
        ensures
            m == parse_mixer_mode(s@),
    {
        if text_eq(s, "selected") {
            MixerMode::SelectedScene
        } else if text_eq(s, "pinned") {
            MixerMode::PinnedScene
        } else {
            MixerMode::ActiveScene
        }
    }
}

impl std::str::FromStr for MixerMode {
    type Err = std::convert::Infallible;

    fn from_str(s: &str) -> (r: Result<MixerMode, std::convert::Infallible>)
        ensures
            r == Ok::<MixerMode, std::convert::Infallible>(parse_mixer_mode(s@)),
    {
        Ok(MixerMode::parse_str(s))
    }
}

/// How mixer strips are grouped.
#[derive(Debug, Default, Clone, Copy, PartialEq, Eq, Structural)]
pub enum MixerGrouping {
    /// By source scope.
    #[default]
    Scope,
    /// By nesting path.
    ScenePath,
    /// Flat list.
    Ungrouped,
}

/// Persisted spelling of a grouping.
pub open spec fn mixer_grouping_str(g: MixerGrouping) -> Seq<char> {
    match g {
        MixerGrouping::Scope => "scope"@,
        MixerGrouping::ScenePath => "scene_path"@,
        MixerGrouping::Ungrouped => "none"@,
    }
}

/// Grouping read back from its spelling; anything unknown is `Scope`.
pub open spec fn parse_mixer_grouping(s: Seq<char>) -> MixerGrouping {
    if s == "scene_path"@ {
        MixerGrouping::ScenePath
    } else if s == "none"@ {
        MixerGrouping::Ungrouped
    } else {
        MixerGrouping::Scope
    }
}

impl MixerGrouping {
    /// Short picker label.
    pub fn label(self) -> (s: &'static str)
        ensures
            s@ == match self {
                MixerGrouping::Scope => "Scope"@,
                MixerGrouping::ScenePath => "Scene Path"@,
                MixerGrouping::Ungrouped => "None"@,
            },
    {
        match self {
            MixerGrouping::Scope => "Scope",
            MixerGrouping::ScenePath => "Scene Path",
            MixerGrouping::Ungrouped => "None",
        }
    }

    /// Persisted config value.
    pub fn as_str(self) -> (s: &'static str)
        ensures
            s@ == mixer_grouping_str(self),
    {
        match self {
            MixerGrouping::Scope => "scope",
            MixerGrouping::ScenePath => "scene_path",
            MixerGrouping::Ungrouped => "none",
        }
    }

    /// Read a persisted value; unknown values fall back to `Scope`.
    pub fn parse_str(s: &str) -> (g: MixerGrouping)
        ensures
            g == parse_mixer_grouping(s@),
    {
        if text_eq(s, "scene_path") {
            MixerGrouping::ScenePath
        } else if text_eq(s, "none") {
            MixerGrouping::Ungrouped
        } else {
            MixerGrouping::Scope
        }
    }
}

impl std::str::FromStr for MixerGrouping {
    type Err = std::convert::Infallible;

    fn from_str(s: &str) -> (r: Result<MixerGrouping, std::convert::Infallible>)
        ensures
            r == Ok::<MixerGrouping, std::convert::Infallible>(parse_mixer_grouping(s@)),
    {
        Ok(MixerGrouping::parse_str(s))
    }
}

/// Mixer page selection state. `search` is never persisted.
#[derive(Debug, Clone, PartialEq, Eq)]
pub struct MixerSelection {
    /// Which scene the mixer follows.
    pub mode: MixerMode,
    /// Scene chosen in the picker.
    pub selected_scene: Option<String>,
    /// Scene pinned for operation.
    pub pinned_scene: Option<String>,
    /// Source-name filter typed by the user.
    pub search: String,
    /// Strip grouping.
    pub grouping: MixerGrouping,
}

impl Default for MixerSelection {
    fn default() -> (m: MixerSelection)
        ensures
            m.mode == MixerMode::ActiveScene,
            m.selected_scene is None,
            m.pinned_scene is None,
            m.search@ == Seq::<char>::empty(),
            m.grouping == MixerGrouping::Scope,
    {
        MixerSelection {
            mode: MixerMode::ActiveScene,
            selected_scene: None,
            pinned_scene: None,
            search: String::new(),
            grouping: MixerGrouping::Scope,
        }
    }
}

/// Every mixer mode and grouping reads back from its own spelling.
pub proof fn lemma_mixer_spellings_round_trip(m: MixerMode, g: MixerGrouping)
    ensures
        parse_mixer_mode(mixer_mode_str(m)) == m,
        parse_mixer_grouping(mixer_grouping_str(g)) == g,
{
    reveal_strlit("active");
    reveal_strlit("selected");
    reveal_strlit("pinned");
    reveal_strlit("scope");
    reveal_strlit("scene_path");
    reveal_strlit("none");
    assert("active"@.len() == 6 && "selected"@.len() == 8 && "pinned"@.len() == 6);
    assert("active"@[0] == 'a' && "pinned"@[0] == 'p');
    assert("scope"@.len() == 5 && "scene_path"@.len() == 10 && "none"@.len() == 4);
}

} // verus!
