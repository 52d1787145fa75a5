//! Scene role classification used by Live, Inventory, Graph, and Doctor.

use vstd::prelude::*;
use crate::text::text_eq;

verus! {

/// Local classification assigned to an OBS scene.
#[derive(Debug, Default, Clone, Copy, PartialEq, Eq, Hash, Structural)]
pub enum SceneRole {
    /// Live-switchable program scene.
    Primary,
    /// Valid scene hidden from Live by default.
    Secondary,
    /// Reusable nested scene intended as a building block.
    Module,
    /// Source-wrapper scene that should remain a leaf in the graph.
    #[default]
    Raw,
    /// Temporary test scene that should not be on a live path.
    Debug,
    /// Preserved scene excluded from active workflows.
    Archive,
}

/// Lowercase policy key of a role, as stored in config and registry files.
pub open spec fn role_key_spec(role: SceneRole) -> Seq<char> {
    match role {
        SceneRole::Primary => "primary"@,
        SceneRole::Secondary => "secondary"@,
        SceneRole::Module => "module"@,
        SceneRole::Raw => "raw"@,
        SceneRole::Debug => "debug"@,
        SceneRole::Archive => "archive"@,
    }
}

/// Role named by a policy key, if the key is one of the six.
pub open spec fn role_from_key_spec(key: Seq<char>) -> Option<SceneRole> {
    if key == "primary"@ {
        Some(SceneRole::Primary)
    } else if key == "secondary"@ {
        Some(SceneRole::Secondary)
    } else if key == "module"@ {
        Some(SceneRole::Module)
    } else if key == "raw"@ {
        Some(SceneRole::Raw)
    } else if key == "debug"@ {
        Some(SceneRole::Debug)
    } else if key == "archive"@ {
        Some(SceneRole::Archive)
    } else {
        None
    }
}

/// User-facing role name.
pub open spec fn role_label_spec(role: SceneRole) -> Seq<char> {
    match role {
        SceneRole::Primary => "Primary"@,
        SceneRole::Secondary => "Secondary"@,
        SceneRole::Module => "Module"@,
        SceneRole::Raw => "Raw"@,
        SceneRole::Debug => "Debug"@,
        SceneRole::Archive => "Archive"@,
    }
}

impl SceneRole {
    /// Stable display order used by role selectors and summaries.
    pub const ALL: [SceneRole; 6] = [
        SceneRole::Primary,
        SceneRole::Secondary,
        SceneRole::Module,
        SceneRole::Raw,
        SceneRole::Debug,
        SceneRole::Archive,
    ];

    /// Parse the lowercase policy key used by config and registry files.
    pub fn from_rule_key(key: &str) -> (r: Option<SceneRole>)
        ensures
            r == role_from_key_spec(key@),
    {
        if text_eq(key, "primary") {
            Some(SceneRole::Primary)
        } else if text_eq(key, "secondary") {
            Some(SceneRole::Secondary)
        } else if text_eq(key, "module") {
            Some(SceneRole::Module)
        } else if text_eq(key, "raw") {
            Some(SceneRole::Raw)
        } else if text_eq(key, "debug") {
            Some(SceneRole::Debug)
        } else if text_eq(key, "archive") {
            Some(SceneRole::Archive)
        } else {
            None
        }
    }

    /// User-facing role name.
    pub fn label(self) -> (s: &'static str)
        ensures
            s@ == role_label_spec(self),
    {
        match self {
            SceneRole::Primary => "Primary",
            SceneRole::Secondary => "Secondary",
            SceneRole::Module => "Module",
            SceneRole::Raw => "Raw",
            SceneRole::Debug => "Debug",
            SceneRole::Archive => "Archive",
        }
    }

    /// User-facing role name, falling back to `Unassigned`.
    pub fn label_or_unassigned(role: Option<SceneRole>) -> (s: &'static str)
        ensures
            s@ == match role {
                Some(r) => role_label_spec(r),
                None => "Unassigned"@,
            },
    {
        match role {
            Some(role) => role.label(),
            None => "Unassigned",
        }
    }

    /// Short user-facing explanation for Inventory role selectors.
    pub fn description(self) -> (s: &'static str)
        ensures
            s@ == match self {
                SceneRole::Primary => "Live-switchable scene"@,
                SceneRole::Secondary => "Valid scene, hidden from Live by default"@,
                SceneRole::Module => "Reusable nested scene, not directly switchable"@,
                SceneRole::Raw => "Hardware or source wrapper scene"@,
                SceneRole::Debug => "Temporary test scene"@,
                SceneRole::Archive => "Preserved but excluded from all workflows"@,
            },
    {
        match self {
            SceneRole::Primary => "Live-switchable scene",
            SceneRole::Secondary => "Valid scene, hidden from Live by default",
            SceneRole::Module => "Reusable nested scene, not directly switchable",
            SceneRole::Raw => "Hardware or source wrapper scene",
            SceneRole::Debug => "Temporary test scene",
            SceneRole::Archive => "Preserved but excluded from all workflows",
        }
    }

    /// CSS class applied to role badges in the UI.
    pub fn css_class(self) -> (s: &'static str)
        ensures
            s@ == match self {
                SceneRole::Primary => "role-primary"@,
                SceneRole::Secondary => "role-secondary"@,
                SceneRole::Module => "role-module"@,
                SceneRole::Raw => "role-raw"@,
                SceneRole::Debug => "role-debug"@,
                SceneRole::Archive => "role-archive"@,
            },
    {
        match self {
            SceneRole::Primary => "role-primary",
            SceneRole::Secondary => "role-secondary",
            SceneRole::Module => "role-module",
            SceneRole::Raw => "role-raw",
            SceneRole::Debug => "role-debug",
            SceneRole::Archive => "role-archive",
        }
    }

    /// Lowercase key used in the registry rules (matches the stored form).
    pub fn rule_key(self) -> (s: &'static str)
        ensures
            s@ == role_key_spec(self),
    {
        match self {
            SceneRole::Primary => "primary",
            SceneRole::Secondary => "secondary",
            SceneRole::Module => "module",
            SceneRole::Raw => "raw",
            SceneRole::Debug => "debug",
            SceneRole::Archive => "archive",
        }
    }

    /// Whether this role is directly switchable from the Live page.
    pub fn is_live_switchable(self) -> (b: bool)
        ensures
            b == (self == SceneRole::Primary),
    {
        matches!(self, SceneRole::Primary)
    }
}

/// Every role reads back from its own rule key, and the six keys differ.
pub proof fn lemma_rule_key_round_trip(role: SceneRole)
    ensures
        role_from_key_spec(role_key_spec(role)) == Some(role),
{
    reveal_strlit("primary");
    reveal_strlit("secondary");
    reveal_strlit("module");
    reveal_strlit("raw");
    reveal_strlit("debug");
    reveal_strlit("archive");
    assert("primary"@.len() == 7 && "archive"@.len() == 7 && "secondary"@.len() == 9);
    assert("module"@.len() == 6 && "raw"@.len() == 3 && "debug"@.len() == 5);
    assert("primary"@[0] != "archive"@[0]);
}

} // verus!
