//! Scene switching and role enforcement.

use vstd::prelude::*;
use crate::domain::registry::{role_in, SceneRegistrySnapshot};
use crate::domain::role::{role_label_spec, SceneRole};
use crate::domain::scene::{has_scene, inventory_has_scene, SceneInventory};
use crate::text::join3;

verus! {

/// Reason a scene switch request cannot be executed safely.
#[derive(Debug, Clone, Eq, PartialEq)]
pub enum SceneSwitchError {
    /// The requested scene id is not present in the current OBS inventory.
    SceneNotFound {
        /// Requested OBS scene id.
        scene_id: String,
    },
    /// The scene exists but has no role assigned in the registry.
    NoRoleAssigned {
        /// Requested OBS scene id.
        scene_id: String,
    },
    /// The scene exists but does not have a live-switchable role.
    NotLiveSwitchable {
        /// Requested OBS scene id.
        scene_id: String,
        /// Current local role that blocked the switch.
        role: SceneRole,
    },
}

impl SceneSwitchError {
    /// The error's message.
    pub fn to_string(&self) -> (s: String)
        ensures
            s@ == match self {
                SceneSwitchError::SceneNotFound { scene_id } => "scene '"@ + scene_id@ + "' was not found in OBS"@,
                SceneSwitchError::NoRoleAssigned { scene_id } => "scene '"@ + scene_id@ + "' has no role assigned"@,
                SceneSwitchError::NotLiveSwitchable { scene_id, role } => "scene '"@ + scene_id@ + "' has role "@
                    + role_label_spec(*role) + ", which is not configured as live-switchable"@,
            },
    {
        match self {
            SceneSwitchError::SceneNotFound { scene_id } => join3("scene '", scene_id.as_str(), "' was not found in OBS"),
            SceneSwitchError::NoRoleAssigned { scene_id } => join3("scene '", scene_id.as_str(), "' has no role assigned"),
            SceneSwitchError::NotLiveSwitchable { scene_id, role } => {
                let mut s = join3("scene '", scene_id.as_str(), "' has role ");
                s.append(role.label());
                s.append(", which is not configured as live-switchable");
                s
            },
        }
    }
}

/// Why a switch request is refused, if it is: the scene is not in the
/// inventory, it has no registered role, or its role is not allowed.
pub enum SwitchRefusal {
    /// Not in the inventory.
    Missing,
    /// No role assigned.
    Unassigned,
    /// Its role, which is not among the allowed ones.
    Disallowed(SceneRole),
}

/// Outcome of a switch request: the refusal, if any. A scene can be
/// switched to only when it exists and has one of the allowed roles.
pub open spec fn switch_check(
    inventory: SceneInventory,
    registry: SceneRegistrySnapshot,
    scene: Seq<char>,
    allowed: Seq<SceneRole>,
) -> Option<SwitchRefusal> {
    if !has_scene(inventory.scenes@, scene) {
        Some(SwitchRefusal::Missing)
    } else {
        match role_in(registry.scene_map(), scene) {
            None => Some(SwitchRefusal::Unassigned),
            Some(role) => if allowed.contains(role) {
                None
            } else {
                Some(SwitchRefusal::Disallowed(role))
            },
        }
    }
}

/// Validates scene switching rules before OBS commands are sent.
pub struct SceneService;

/// Whether a role list holds `role`.
fn has_role(roles: &[SceneRole], role: SceneRole) -> (b: bool)
    ensures
        b == roles@.contains(role),
{
    let mut i: usize = 0;
    while i < roles.len()
        invariant
            i <= roles@.len(),
            forall|j: int| 0 <= j < i ==> roles@[j] != role,
        decreases roles@.len() - i,
    {
        if roles[i] == role {
            return true;
        }
        i = i + 1;
    }
    false
}

impl SceneService {
    /// `Ok` exactly when `scene_id` is in the inventory and has one of
    /// `allowed_roles`; otherwise the reason. A scene with no registered
    /// role is refused whatever the allowed roles are.
    pub fn validate_switch_with_roles(
        inventory: &SceneInventory,
        registry: &SceneRegistrySnapshot,
        scene_id: &str,
        allowed_roles: &[SceneRole],
    ) -> (r: Result<(), SceneSwitchError>)
        ensures
            match r {
                Ok(()) => switch_check(*inventory, *registry, scene_id@, allowed_roles@) is None,
                Err(SceneSwitchError::SceneNotFound { scene_id: id }) => id@ == scene_id@ && switch_check(
                    *inventory,
                    *registry,
                    scene_id@,
                    allowed_roles@,
                ) == Some(SwitchRefusal::Missing),
                Err(SceneSwitchError::NoRoleAssigned { scene_id: id }) => id@ == scene_id@ && switch_check(
                    *inventory,
                    *registry,
                    scene_id@,
                    allowed_roles@,
                ) == Some(SwitchRefusal::Unassigned),
                Err(SceneSwitchError::NotLiveSwitchable { scene_id: id, role }) => id@ == scene_id@
                    && switch_check(*inventory, *registry, scene_id@, allowed_roles@) == Some(
                    SwitchRefusal::Disallowed(role),
                ),
            },
    {
        if !inventory_has_scene(&inventory.scenes, scene_id) {
            return Err(SceneSwitchError::SceneNotFound { scene_id: scene_id.to_owned() });
        }
        let role = match registry.scene_role(scene_id) {
            Some(r) => r,
            None => {
                return Err(SceneSwitchError::NoRoleAssigned { scene_id: scene_id.to_owned() });
            },
        };
        if !has_role(allowed_roles, role) {
            return Err(SceneSwitchError::NotLiveSwitchable { scene_id: scene_id.to_owned(), role });
        }
        Ok(())
    }

    /// `true` when a scene has a registered role among `shown_roles` and is
    /// switchable under `switchable_roles`.
    pub fn can_show_live_card(
        inventory: &SceneInventory,
        registry: &SceneRegistrySnapshot,
        scene_id: &str,
        shown_roles: &[SceneRole],
        switchable_roles: &[SceneRole],
    ) -> (b: bool)
        ensures
            b == (role_in(registry.scene_map(), scene_id@) matches Some(r) && shown_roles@.contains(r)
                && switch_check(*inventory, *registry, scene_id@, switchable_roles@) is None),
    {
        let role = match registry.scene_role(scene_id) {
            Some(r) => r,
            None => {
                return false;
            },
        };
        has_role(shown_roles, role) && Self::validate_switch_with_roles(inventory, registry, scene_id, switchable_roles).is_ok()
    }
}

} // verus!
