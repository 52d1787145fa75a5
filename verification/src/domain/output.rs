//! Streaming and recording output state.

use vstd::prelude::*;
use crate::text::join3;

verus! {

/// OBS output lifecycle state normalized for UI display.
#[derive(Debug, Clone, Copy, PartialEq, Eq, Structural)]
pub enum OutputRunState {
    /// Output is fully stopped.
    Inactive,
    /// OBS accepted a start command and is transitioning to active.
    Starting,
    /// Output is actively running.
    Active,
    /// OBS accepted a stop command and is shutting down the output.
    Stopping,
    /// Output is trying to reconnect after a transport failure.
    Reconnecting,
    /// Output is paused but still active.
    Paused,
    /// OBS returned a state SceneDeck does not yet classify.
    Unknown,
}

/// User-facing label of a run state.
pub open spec fn run_state_label(state: OutputRunState) -> Seq<char> {
    match state {
        OutputRunState::Inactive => "Inactive"@,
        OutputRunState::Starting => "Starting"@,
        OutputRunState::Active => "Active"@,
        OutputRunState::Stopping => "Stopping"@,
        OutputRunState::Reconnecting => "Reconnecting"@,
        OutputRunState::Paused => "Paused"@,
        OutputRunState::Unknown => "Unknown"@,
    }
}

impl OutputRunState {
    /// User-facing label for compact output status text.
    pub fn label(self) -> (s: &'static str)
        ensures
            s@ == run_state_label(self),
    {
        match self {
            OutputRunState::Inactive => "Inactive",
            OutputRunState::Starting => "Starting",
            OutputRunState::Active => "Active",
            OutputRunState::Stopping => "Stopping",
            OutputRunState::Reconnecting => "Reconnecting",
            OutputRunState::Paused => "Paused",
            OutputRunState::Unknown => "Unknown",
        }
    }

    /// Whether OBS is between two stable states.
    pub fn is_transitioning(self) -> (b: bool)
        ensures
            b == (self == OutputRunState::Starting || self == OutputRunState::Stopping || self
                == OutputRunState::Reconnecting),
    {
        matches!(self, OutputRunState::Starting | OutputRunState::Stopping | OutputRunState::Reconnecting)
    }
}

/// Current state for one OBS output, such as streaming or recording.
#[derive(Debug, Clone, PartialEq, Eq)]
pub struct OutputStatus {
    /// Whether OBS considers the output active.
    pub active: bool,
    /// More detailed lifecycle state.
    pub state: OutputRunState,
    /// Optional OBS-provided detail, such as a recording path.
    pub detail: Option<String>,
}

impl Default for OutputStatus {
    fn default() -> (s: Self)
        ensures
            s == OutputStatus::inactive_spec(),
    {
        Self::inactive()
    }
}

impl OutputStatus {
    /// An inactive output without detail.
    pub open spec fn inactive_spec() -> OutputStatus {
        OutputStatus { active: false, state: OutputRunState::Inactive, detail: None }
    }

    /// Build an output status with no extra detail.
    pub fn new(active: bool, state: OutputRunState) -> (s: Self)
        ensures
            s == (OutputStatus { active, state, detail: None }),
    {
        OutputStatus { active, state, detail: None }
    }

    /// Build an inactive output status with no extra detail.
    pub fn inactive() -> (s: Self)
        ensures
            s == OutputStatus::inactive_spec(),
    {
        Self::new(false, OutputRunState::Inactive)
    }

    /// Build an inactive output status with a detail string.
    pub fn inactive_with_detail(detail: &str) -> (s: Self)
        ensures
            !s.active,
            s.state == OutputRunState::Inactive,
            s.detail matches Some(d) && d@ == detail@,
    {
        Self::inactive().with_detail(detail)
    }

    /// Build an active output status with no extra detail.
    pub fn active() -> (s: Self)
        ensures
            s == (OutputStatus { active: true, state: OutputRunState::Active, detail: None }),
    {
        Self::new(true, OutputRunState::Active)
    }

    /// Build an active output status with a detail string.
    pub fn active_with_detail(detail: &str) -> (s: Self)
        ensures
            s.active,
            s.state == OutputRunState::Active,
            s.detail matches Some(d) && d@ == detail@,
    {
        Self::active().with_detail(detail)
    }

    /// Attach a detail string, such as a completed recording path.
    pub fn with_detail(self, detail: &str) -> (s: Self)
        ensures
            s.active == self.active,
            s.state == self.state,
            s.detail matches Some(d) && d@ == detail@,
    {
        OutputStatus { detail: Some(detail.to_owned()), ..self }
    }

    /// Attach an optional detail string.
    pub fn with_optional_detail(self, detail: Option<String>) -> (s: Self)
        ensures
            s == (OutputStatus { detail, ..self }),
    {
        OutputStatus { detail, ..self }
    }

    /// Compact user-facing label for one output control, `name: state`.
    pub fn summary(&self, output_name: &str) -> (s: String)
        ensures
            s@ == output_name@ + ": "@ + run_state_label(self.state),
    {
        join3(output_name, ": ", self.state.label())
    }

    /// Detail suitable for a tooltip; an empty detail counts as none.
    pub fn detail_tooltip(&self) -> (r: Option<&str>)
        ensures
            match r {
                Some(t) => self.detail matches Some(d) && d@ == t@ && t@.len() > 0,
                None => self.detail is None || self.detail->0@.len() == 0,
            },
    {
        match &self.detail {
            Some(d) => {
                let t = d.as_str();
                if t.unicode_len() == 0 {
                    None
                } else {
                    Some(t)
                }
            },
            None => None,
        }
    }
}

} // verus!
