//! Domain-facing scene registry metadata.
//!
//! Storage owns the serialized registry format. Application services consume
//! this snapshot so diagnostics and validation do not depend on file formats.

use vstd::prelude::*;
use crate::assoc::{has_key, keys_distinct, StrMap};
use crate::domain::role::SceneRole;

verus! {

/// Local metadata assigned to an OBS scene.
#[derive(Debug, Clone, Eq, PartialEq)]
pub struct SceneMetadata {
    /// Scene role used by Live, Doctor, and graph validation.
    pub role: SceneRole,
    /// Free-form labels reserved for user workflows and future filters.
    pub tags: Vec<String>,
    /// Protected scenes are expected to be building blocks, not live switches.
    pub protected: bool,
}

/// Typed role dependency rule.
#[derive(Debug, Clone, Copy, Eq, PartialEq, Structural)]
pub struct RoleDependency {
    /// Parent scene role.
    pub from: SceneRole,
    /// Nested child scene role.
    pub to: SceneRole,
}

impl RoleDependency {
    /// Build a typed role dependency rule.
    pub fn new(from: SceneRole, to: SceneRole) -> (d: RoleDependency)
        ensures
            d == (RoleDependency { from, to }),
    {
        RoleDependency { from, to }
    }
}

/// Graph validation policy used by Doctor and the Graph page.
#[derive(Debug, Clone, Eq, PartialEq)]
pub struct GraphDependencyPolicy {
    /// Roles that Primary scenes may depend on without warning.
    pub primary_can_depend_on: Vec<SceneRole>,
    /// Roles that Module scenes may depend on without warning.
    pub module_can_depend_on: Vec<SceneRole>,
    /// Role pairs that are always invalid.
    pub forbidden_edges: Vec<RoleDependency>,
}

/// Built-in Primary allow-list.
pub open spec fn default_primary_allow() -> Seq<SceneRole> {
    seq![SceneRole::Primary, SceneRole::Secondary, SceneRole::Module, SceneRole::Archive]
}

/// Built-in Module allow-list.
pub open spec fn default_module_allow() -> Seq<SceneRole> {
    seq![SceneRole::Secondary, SceneRole::Module, SceneRole::Raw, SceneRole::Debug, SceneRole::Archive]
}

/// Built-in forbidden pairs.
pub open spec fn default_forbidden() -> Seq<RoleDependency> {
    seq![
        RoleDependency { from: SceneRole::Primary, to: SceneRole::Debug },
        RoleDependency { from: SceneRole::Module, to: SceneRole::Primary },
        RoleDependency { from: SceneRole::Raw, to: SceneRole::Primary },
        RoleDependency { from: SceneRole::Raw, to: SceneRole::Secondary },
        RoleDependency { from: SceneRole::Raw, to: SceneRole::Module },
        RoleDependency { from: SceneRole::Raw, to: SceneRole::Raw },
        RoleDependency { from: SceneRole::Raw, to: SceneRole::Debug },
        RoleDependency { from: SceneRole::Raw, to: SceneRole::Archive },
    ]
}

impl Default for GraphDependencyPolicy {
    fn default() -> (p: GraphDependencyPolicy)
        ensures
            p.primary_can_depend_on@ == default_primary_allow(),
            p.module_can_depend_on@ == default_module_allow(),
            p.forbidden_edges@ == default_forbidden(),
    {
        GraphDependencyPolicy::scene_architecture_defaults()
    }
}

impl GraphDependencyPolicy {
    /// Built-in SceneDeck architecture rules: Primary scenes should not
    /// depend on Debug or Raw scenes, Modules should not depend on Primary
    /// scenes, and Raw scenes should stay leaf nodes.
    pub fn scene_architecture_defaults() -> (p: GraphDependencyPolicy)
        ensures
            p.primary_can_depend_on@ == default_primary_allow(),
            p.module_can_depend_on@ == default_module_allow(),
            p.forbidden_edges@ == default_forbidden(),
    {
        let mut primary = Vec::new();
        primary.push(SceneRole::Primary);
        primary.push(SceneRole::Secondary);
        primary.push(SceneRole::Module);
        primary.push(SceneRole::Archive);
        let mut module = Vec::new();
        module.push(SceneRole::Secondary);
        module.push(SceneRole::Module);
        module.push(SceneRole::Raw);
        module.push(SceneRole::Debug);
        module.push(SceneRole::Archive);
        let mut forbidden = Vec::new();
        forbidden.push(RoleDependency::new(SceneRole::Primary, SceneRole::Debug));
        forbidden.push(RoleDependency::new(SceneRole::Module, SceneRole::Primary));
        forbidden.push(RoleDependency::new(SceneRole::Raw, SceneRole::Primary));
        forbidden.push(RoleDependency::new(SceneRole::Raw, SceneRole::Secondary));
        forbidden.push(RoleDependency::new(SceneRole::Raw, SceneRole::Module));
        forbidden.push(RoleDependency::new(SceneRole::Raw, SceneRole::Raw));
        forbidden.push(RoleDependency::new(SceneRole::Raw, SceneRole::Debug));
        forbidden.push(RoleDependency::new(SceneRole::Raw, SceneRole::Archive));
        assert(primary@ =~= default_primary_allow());
        assert(module@ =~= default_module_allow());
        assert(forbidden@ =~= default_forbidden());
        GraphDependencyPolicy {
            primary_can_depend_on: primary,
            module_can_depend_on: module,
            forbidden_edges: forbidden,
        }
    }

    /// Set the Primary-scene allow-list.
    pub fn primary_can_depend_on(self, roles: Vec<SceneRole>) -> (p: GraphDependencyPolicy)
        ensures
            p == (GraphDependencyPolicy { primary_can_depend_on: roles, ..self }),
    {
        GraphDependencyPolicy { primary_can_depend_on: roles, ..self }
    }

    /// Set the Module-scene allow-list.
    pub fn module_can_depend_on(self, roles: Vec<SceneRole>) -> (p: GraphDependencyPolicy)
        ensures
            p == (GraphDependencyPolicy { module_can_depend_on: roles, ..self }),
    {
        GraphDependencyPolicy { module_can_depend_on: roles, ..self }
    }

    /// Add one forbidden role pair to the policy, unless it is already there.
    pub fn forbid(self, from: SceneRole, to: SceneRole) -> (p: GraphDependencyPolicy)
        ensures
            p.primary_can_depend_on == self.primary_can_depend_on,
            p.module_can_depend_on == self.module_can_depend_on,
            p.forbidden_edges@ == if self.forbidden_edges@.contains(RoleDependency { from, to }) {
                self.forbidden_edges@
            } else {
                self.forbidden_edges@.push(RoleDependency { from, to })
            },
    {
        let edge = RoleDependency::new(from, to);
        let mut policy = self;
        let mut i: usize = 0;
        let mut found = false;
        while i < policy.forbidden_edges.len()
            invariant
                i <= policy.forbidden_edges@.len(),
                policy == self,
                found == exists|j: int| 0 <= j < i && policy.forbidden_edges@[j] == edge,
            decreases policy.forbidden_edges@.len() - i,
        {
            if policy.forbidden_edges[i] == edge {
                found = true;
            }
            i = i + 1;
        }
        if !found {
            policy.forbidden_edges.push(edge);
        }
        policy
    }
}

/// Immutable registry snapshot used by application services.
#[derive(Debug)]
pub struct SceneRegistrySnapshot {
    scenes: StrMap<SceneMetadata>,
    graph_policy: GraphDependencyPolicy,
}

impl SceneRegistrySnapshot {
    /// Metadata of every registered scene, keyed by scene id.
    pub closed spec fn scene_map(&self) -> Map<Seq<char>, SceneMetadata> {
        self.scenes@
    }

    /// Registered scenes in their stored order.
    pub closed spec fn scene_entries(&self) -> Seq<(String, SceneMetadata)> {
        self.scenes.entry_seq()
    }

    /// The policy the snapshot was built with.
    pub closed spec fn policy(&self) -> GraphDependencyPolicy {
        self.graph_policy
    }

    /// Create an immutable registry snapshot from typed metadata and policy.
    pub fn new(scenes: StrMap<SceneMetadata>, graph_policy: GraphDependencyPolicy) -> (s: SceneRegistrySnapshot)
        ensures
            s.scene_map() == scenes@,
            s.scene_entries() == scenes.entry_seq(),
            s.policy() == graph_policy,
    {
        SceneRegistrySnapshot { scenes, graph_policy }
    }

    /// Metadata for a scene id, if it has a registry entry.
    pub fn scene_metadata(&self, scene: &str) -> (r: Option<&SceneMetadata>)
        ensures
            match r {
                Some(m) => self.scene_map().contains_key(scene@) && *m == self.scene_map()[scene@],
                None => !self.scene_map().contains_key(scene@),
            },
    {
        self.scenes.get(scene)
    }

    /// Role for a scene id, if it has a registry entry.
    pub fn scene_role(&self, scene: &str) -> (r: Option<SceneRole>)
        ensures
            r == role_in(self.scene_map(), scene@),
    {
        match self.scenes.get(scene) {
            Some(m) => Some(m.role),
            None => None,
        }
    }

    /// Whether the registry contains metadata for `scene`.
    pub fn contains_scene(&self, scene: &str) -> (b: bool)
        ensures
            b == self.scene_map().contains_key(scene@),
    {
        self.scenes.contains_key(scene)
    }

    /// All registered scenes and their metadata, in stored order.
    pub fn scenes(&self) -> (e: &Vec<(String, SceneMetadata)>)
        ensures
            e@ == self.scene_entries(),
            keys_distinct(e@),
            forall|k: Seq<char>| #[trigger] self.scene_map().contains_key(k) <==> has_key(e@, k),
            forall|i: int| 0 <= i < e@.len() ==> #[trigger] self.scene_map()[e@[i].0@] == e@[i].1,
    {
        self.scenes.entries()
    }

    /// Graph dependency policy associated with this snapshot.
    pub fn graph_policy(&self) -> (p: &GraphDependencyPolicy)
        ensures
            *p == self.policy(),
    {
        &self.graph_policy
    }
}

impl Default for SceneRegistrySnapshot {
    fn default() -> (s: SceneRegistrySnapshot)
        ensures
            s.scene_map() == Map::<Seq<char>, SceneMetadata>::empty(),
            s.policy().primary_can_depend_on@ == default_primary_allow(),
            s.policy().module_can_depend_on@ == default_module_allow(),
            s.policy().forbidden_edges@ == default_forbidden(),
    {
        SceneRegistrySnapshot::new(StrMap::new(), GraphDependencyPolicy::default())
    }
}

/// Role recorded for `scene` in a scene map.
pub open spec fn role_in(m: Map<Seq<char>, SceneMetadata>, scene: Seq<char>) -> Option<SceneRole> {
    if m.contains_key(scene) {
        Some(m[scene].role)
    } else {
        None
    }
}

} // verus!
