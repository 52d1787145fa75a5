//! Audio inputs as the mixer shows them.
//!
//! Gains are carried as the IEEE-754 bit patterns of the `f64` values OBS
//! reports: this layer stores and forwards them, and never does arithmetic on
//! them.

use vstd::prelude::*;
use crate::assoc::clone_strings;
use crate::text::{join_strings, joined};

verus! {

/// Where an audio input was found relative to the inspected scene.
#[derive(Debug, Default, Clone, Copy, PartialEq, Eq, Structural)]
pub enum AudioSourceScope {
    /// A global desktop/mic input.
    Global,
    /// Directly in the inspected scene.
    #[default]
    ActiveScene,
    /// Inside a nested scene.
    NestedScene,
    /// Inside a group.
    Group,
}

impl AudioSourceScope {
    /// Short badge label.
    pub fn label(self) -> (s: &'static str)
        ensures
            s@ == match self {
                AudioSourceScope::Global => "Global"@,
                AudioSourceScope::ActiveScene => "Scene"@,
                AudioSourceScope::NestedScene => "Nested"@,
                AudioSourceScope::Group => "Group"@,
            },
    {
        match self {
            AudioSourceScope::Global => "Global",
            AudioSourceScope::ActiveScene => "Scene",
            AudioSourceScope::NestedScene => "Nested",
            AudioSourceScope::Group => "Group",
        }
    }

    /// CSS class of the badge.
    pub fn css_class(self) -> (s: &'static str)
        ensures
            s@ == match self {
                AudioSourceScope::Global => "audio-scope-global"@,
                AudioSourceScope::ActiveScene => "audio-scope-active"@,
                AudioSourceScope::NestedScene => "audio-scope-nested"@,
                AudioSourceScope::Group => "audio-scope-group"@,
            },
    {
        match self {
            AudioSourceScope::Global => "audio-scope-global",
            AudioSourceScope::ActiveScene => "audio-scope-active",
            AudioSourceScope::NestedScene => "audio-scope-nested",
            AudioSourceScope::Group => "audio-scope-group",
        }
    }
}

/// One OBS audio input.
#[derive(Debug, Clone)]
pub struct AudioInput {
    /// OBS `inputName`, unique within a scene collection.
    pub id: String,
    /// Input name.
    pub name: String,
    /// Name shown on the strip.
    pub display_name: String,
    /// Where the input was found.
    pub source_scope: AudioSourceScope,
    /// Scenes leading from the inspected scene to this input.
    pub parent_scene_path: Vec<String>,
    /// Whether the input is muted.
    pub muted: bool,
    /// Bit pattern of the linear gain multiplier (1.0 = 0 dB).
    pub volume_mul: u64,
    /// Bit pattern of the gain in decibels.
    pub volume_db: u64,
    /// Whether the strip is locked in this UI.
    pub locked_locally: bool,
}

/// Whether two inputs hold the same values, field by field.
pub open spec fn same_input(a: AudioInput, b: AudioInput) -> bool {
    &&& a.id@ == b.id@
    &&& a.name@ == b.name@
    &&& a.display_name@ == b.display_name@
    &&& a.source_scope == b.source_scope
    &&& a.parent_scene_path@ == b.parent_scene_path@
    &&& a.muted == b.muted
    &&& a.volume_mul == b.volume_mul
    &&& a.volume_db == b.volume_db
    &&& a.locked_locally == b.locked_locally
}

impl AudioInput {
    /// A copy holding the same values.
    pub fn clone_input(&self) -> (c: AudioInput)
        ensures
            same_input(c, *self),
    {
        AudioInput {
            id: self.id.clone(),
            name: self.name.clone(),
            display_name: self.display_name.clone(),
            source_scope: self.source_scope,
            parent_scene_path: clone_strings(&self.parent_scene_path),
            muted: self.muted,
            volume_mul: self.volume_mul,
            volume_db: self.volume_db,
            locked_locally: self.locked_locally,
        }
    }

    /// An input found directly in the inspected scene, named by its id.
    pub fn new(id: String, muted: bool, volume_mul: u64, volume_db: u64) -> (a: AudioInput)
        ensures
            a.id == id,
            a.name@ == id@,
            a.display_name@ == id@,
            a.source_scope == AudioSourceScope::ActiveScene,
            a.parent_scene_path@.len() == 0,
            a.muted == muted,
            a.volume_mul == volume_mul,
            a.volume_db == volume_db,
            !a.locked_locally,
    {
        AudioInput {
            display_name: id.clone(),
            name: id.clone(),
            id,
            source_scope: AudioSourceScope::ActiveScene,
            parent_scene_path: Vec::new(),
            muted,
            volume_mul,
            volume_db,
            locked_locally: false,
        }
    }

    /// The same input, found at `parent_scene_path` with `source_scope`.
    pub fn with_source_context(
        self,
        source_scope: AudioSourceScope,
        parent_scene_path: Vec<String>,
    ) -> (a: AudioInput)
        ensures
            a == (AudioInput { source_scope, parent_scene_path, ..self }),
    {
        AudioInput { source_scope, parent_scene_path, ..self }
    }

    /// `A / B / C` path of the scenes leading to this input, if any.
    pub fn source_path_label(&self) -> (r: Option<String>)
        ensures
            match r {
                Some(s) => self.parent_scene_path@.len() > 0 && s@ == joined(
                    self.parent_scene_path@.map_values(|p: String| p@),
                    " / "@,
                ),
                None => self.parent_scene_path@.len() == 0,
            },
    {
        if self.parent_scene_path.len() == 0 {
            None
        } else {
            Some(join_strings(&self.parent_scene_path, " / "))
        }
    }
}

} // verus!
