//! Scene role registry — the local metadata layer that augments the raw OBS
//! scene list with roles, tags, and protection flags.
//!
//! Reading and writing `registry.json` happens at the application edge; this
//! module holds the registry itself and every rule applied to it.

use vstd::prelude::*;
use crate::assoc::{clone_strings, contains_text, dedup, dedup_strings, lemma_dedup_contains, same_strings, views, StrMap};
use crate::domain::registry::{
    default_forbidden, default_module_allow, default_primary_allow, GraphDependencyPolicy,
    RoleDependency, SceneMetadata, SceneRegistrySnapshot,
};
use crate::domain::role::{lemma_rule_key_round_trip, role_from_key_spec, role_key_spec, SceneRole};
use crate::text::{join2, join3};

verus! {

/// Serialized metadata for one OBS scene.
#[derive(Debug, Clone, PartialEq, Eq)]
pub struct SceneEntry {
    /// Local classification used by Live, Graph, and Doctor.
    pub role: Option<SceneRole>,
    /// Free-form labels reserved for user workflows and future filters.
    pub tags: Vec<String>,
    /// Protected scenes are expected to be building blocks, not live switches.
    pub protected: bool,
    /// Optional scene-card accent stored as an opaque `#RRGGBB` value.
    pub accent_color: Option<String>,
}

/// Graph dependency rules, stored as role keys so the file stays
/// hand-editable.
#[derive(Debug, Default, Clone)]
pub struct RuleConfig {
    /// Role keys that Primary scenes may depend on without warning.
    pub primary_can_depend_on: Vec<String>,
    /// Role keys that Module scenes may depend on without warning.
    pub module_can_depend_on: Vec<String>,
    /// Pairs `[from_role, to_role]` that are unconditionally forbidden.
    pub forbidden_edges: Vec<[String; 2]>,
}

/// Root registry payload.
#[derive(Debug)]
pub struct SceneRegistry {
    /// Per-scene metadata keyed by OBS scene name.
    pub scenes: StrMap<SceneEntry>,
    /// User-defined display order for Inventory and Live scene cards.
    pub scene_order: Vec<String>,
    /// Graph validation rules.
    pub rules: RuleConfig,
}

impl Default for SceneRegistry {
    fn default() -> (r: SceneRegistry)
        ensures
            r.scenes@ == Map::<Seq<char>, SceneEntry>::empty(),
            r.scene_order@.len() == 0,
            r.rules.primary_can_depend_on@.len() == 0,
            r.rules.module_can_depend_on@.len() == 0,
            r.rules.forbidden_edges@.len() == 0,
    {
        SceneRegistry {
            scenes: StrMap::new(),
            scene_order: Vec::new(),
            rules: RuleConfig {
                primary_can_depend_on: Vec::new(),
                module_can_depend_on: Vec::new(),
                forbidden_edges: Vec::new(),
            },
        }
    }
}

/// Display order: saved ids that are still available, then every other
/// available id, each id once.
pub open spec fn ordered_ids(order: Seq<Seq<char>>, available: Seq<Seq<char>>) -> Seq<Seq<char>> {
    dedup(order.filter(|x: Seq<char>| available.contains(x)) + available)
}

/// Roles named by known keys, in order; unknown keys are skipped.
pub open spec fn parsed_roles(keys: Seq<Seq<char>>) -> Seq<SceneRole>
    decreases keys.len(),
{
    if keys.len() == 0 {
        Seq::empty()
    } else {
        let rest = parsed_roles(keys.drop_last());
        match role_from_key_spec(keys.last()) {
            Some(r) => rest.push(r),
            None => rest,
        }
    }
}

/// Forbidden pairs after adding each known stored pair once, in order.
pub open spec fn with_forbidden(base: Seq<RoleDependency>, pairs: Seq<(Seq<char>, Seq<char>)>) -> Seq<RoleDependency>
    decreases pairs.len(),
{
    if pairs.len() == 0 {
        base
    } else {
        let acc = with_forbidden(base, pairs.drop_last());
        match (role_from_key_spec(pairs.last().0), role_from_key_spec(pairs.last().1)) {
            (Some(f), Some(t)) => if acc.contains(RoleDependency { from: f, to: t }) {
                acc
            } else {
                acc.push(RoleDependency { from: f, to: t })
            },
            _ => acc,
        }
    }
}

/// Stored forbidden pairs as pairs of key texts.
pub open spec fn pair_views(pairs: Seq<[String; 2]>) -> Seq<(Seq<char>, Seq<char>)> {
    pairs.map_values(|p: [String; 2]| (p@[0]@, p@[1]@))
}

/// Typed policy a rule set stands for: non-empty allow-lists replace the
/// built-in ones, and stored forbidden pairs are added to the built-in ones.
pub open spec fn policy_of(rules: RuleConfig) -> (Seq<SceneRole>, Seq<SceneRole>, Seq<RoleDependency>) {
    let primary = parsed_roles(views(rules.primary_can_depend_on@));
    let module = parsed_roles(views(rules.module_can_depend_on@));
    (
        if primary.len() > 0 { primary } else { default_primary_allow() },
        if module.len() > 0 { module } else { default_module_allow() },
        with_forbidden(default_forbidden(), pair_views(rules.forbidden_edges@)),
    )
}

/// Roles named by the known keys of a stored list.
pub fn parse_role_list(keys: &Vec<String>) -> (r: Vec<SceneRole>)
    ensures
        r@ == parsed_roles(views(keys@)),
{
    let ghost ks = views(keys@);
    let mut r = Vec::new();
    let mut i: usize = 0;
    while i < keys.len()
        invariant
            i <= keys@.len(),
            ks == views(keys@),
            r@ == parsed_roles(ks.take(i as int)),
        decreases keys@.len() - i,
    {
        proof {
            assert(ks.take(i + 1).drop_last() =~= ks.take(i as int));
        }
        match SceneRole::from_rule_key(keys[i].as_str()) {
            Some(role) => r.push(role),
            None => {},
        }
        i = i + 1;
    }
    assert(ks.take(keys@.len() as int) =~= ks);
    r
}

impl RuleConfig {
    /// Convert stored role keys into a typed graph policy. Empty allow-lists
    /// keep the built-in defaults; non-empty ones replace them. Forbidden
    /// pairs are added to the built-in ones. Unknown role keys are ignored.
    pub fn policy(&self) -> (p: GraphDependencyPolicy)
        ensures
            p.primary_can_depend_on@ == policy_of(*self).0,
            p.module_can_depend_on@ == policy_of(*self).1,
            p.forbidden_edges@ == policy_of(*self).2,
    {
        let mut policy = GraphDependencyPolicy::default();
        let primary = parse_role_list(&self.primary_can_depend_on);
        if primary.len() > 0 {
            policy = policy.primary_can_depend_on(primary);
        }
        let module = parse_role_list(&self.module_can_depend_on);
        if module.len() > 0 {
            policy = policy.module_can_depend_on(module);
        }
        let ghost pairs = pair_views(self.forbidden_edges@);
        let ghost prim = policy.primary_can_depend_on;
        let ghost modl = policy.module_can_depend_on;
        let mut i: usize = 0;
        while i < self.forbidden_edges.len()
            invariant
                i <= self.forbidden_edges@.len(),
                pairs == pair_views(self.forbidden_edges@),
                policy.primary_can_depend_on == prim,
                policy.module_can_depend_on == modl,
                policy.forbidden_edges@ == with_forbidden(default_forbidden(), pairs.take(i as int)),
            decreases self.forbidden_edges@.len() - i,
        {
            proof {
                assert(pairs.take(i + 1).drop_last() =~= pairs.take(i as int));
                assert(pairs.take(i + 1).last() == pairs[i as int]);
            }
            let pair = &self.forbidden_edges[i];
            let from = SceneRole::from_rule_key(pair[0].as_str());
            let to = SceneRole::from_rule_key(pair[1].as_str());
            match (from, to) {
                (Some(f), Some(t)) => {
                    policy = policy.forbid(f, t);
                },
                _ => {},
            }
            i = i + 1;
        }
        assert(pairs.take(self.forbidden_edges@.len() as int) =~= pairs);
        policy
    }
}

/// The parts of a scene entry: role, tags, protection flag, accent.
pub type EntryView = (Option<SceneRole>, Seq<String>, bool, Option<String>);

/// The parts of `e`.
pub open spec fn entry_view(e: SceneEntry) -> EntryView {
    (e.role, e.tags@, e.protected, e.accent_color)
}

/// How one scene entry changes when its role is set to `role`: `None` when
/// the entry is absent afterwards.
pub open spec fn entry_after_role(existing: Option<EntryView>, role: Option<SceneRole>) -> Option<EntryView> {
    match (existing, role) {
        (Some(e), Some(r)) => Some((Some(r), e.1, e.2, e.3)),
        (None, Some(r)) => Some((Some(r), Seq::empty(), false, None)),
        (Some(e), None) => if e.0 is None {
            Some(e)
        } else if e.3 is None && e.1.len() == 0 && !e.2 {
            None
        } else {
            Some((None, e.1, e.2, e.3))
        },
        (None, None) => None,
    }
}

/// The parts of the entry stored for `k`, if any.
pub open spec fn existing_entry(m: Map<Seq<char>, SceneEntry>, k: Seq<char>) -> Option<EntryView> {
    if m.contains_key(k) {
        Some(entry_view(m[k]))
    } else {
        None
    }
}

/// Copy of an optional string.
fn clone_opt(s: &Option<String>) -> (r: Option<String>)
    ensures
        r == *s,
{
    match s {
        Some(x) => Some(x.clone()),
        None => None,
    }
}

impl SceneRegistry {
    /// Known scene ids in persisted order, followed by ids not yet stored,
    /// each once.
    pub fn ordered_scene_ids(&self, scene_ids: &[&str]) -> (r: Vec<String>)
        ensures
            views(r@) == ordered_ids(views(self.scene_order@), scene_ids@.map_values(|s: &str| s@)),
    {
        let ghost avail = scene_ids@.map_values(|s: &str| s@);
        let mut available: Vec<String> = Vec::new();
        let mut i: usize = 0;
        while i < scene_ids.len()
            invariant
                i <= scene_ids@.len(),
                avail == scene_ids@.map_values(|s: &str| s@),
                views(available@) == avail.take(i as int),
            decreases scene_ids@.len() - i,
        {
            let owned = scene_ids[i].to_owned();
            let ghost before = available@;
            available.push(owned);
            proof {
                assert(available@ == before.push(owned));
                assert(views(available@) =~= views(before).push(owned@));
                assert(avail.take(i + 1) =~= avail.take(i as int).push(avail[i as int]));
            }
            i = i + 1;
        }
        assert(avail.take(scene_ids@.len() as int) =~= avail);
        let ghost order = views(self.scene_order@);
        let ghost kept = order.filter(|x: Seq<char>| avail.contains(x));
        let mut candidates: Vec<String> = Vec::new();
        let mut j: usize = 0;
        while j < self.scene_order.len()
            invariant
                j <= self.scene_order@.len(),
                order == views(self.scene_order@),
                views(available@) == avail,
                views(candidates@) == order.take(j as int).filter(|x: Seq<char>| avail.contains(x)),
            decreases self.scene_order@.len() - j,
        {
            proof {
                assert(order.take(j + 1).drop_last() =~= order.take(j as int));
                reveal_with_fuel(Seq::filter, 1);
            }
            if contains_text(&available, self.scene_order[j].as_str()) {
                proof {
                    let w = choose|w: int| 0 <= w < available@.len() && available@[w]@ == self.scene_order@[j as int]@;
                    assert(avail[w] == self.scene_order@[j as int]@);
                }
                candidates.push(self.scene_order[j].clone());
                assert(views(candidates@) =~= order.take(j as int).filter(|x: Seq<char>| avail.contains(x)).push(order[j as int]));
            } else {
                proof {
                    if avail.contains(order[j as int]) {
                        let w = choose|w: int| 0 <= w < avail.len() && avail[w] == order[j as int];
                        assert(available@[w]@ == avail[w]);
                    }
                }
            }
            j = j + 1;
        }
        assert(order.take(self.scene_order@.len() as int) =~= order);
        let mut k: usize = 0;
        while k < available.len()
            invariant
                k <= available@.len(),
                views(available@) == avail,
                views(candidates@) == kept + avail.take(k as int),
            decreases available@.len() - k,
        {
            let c = available[k].clone();
            let ghost before = candidates@;
            candidates.push(c);
            proof {
                assert(views(candidates@) =~= views(before).push(c@));
                assert(c@ == avail[k as int]);
                assert(avail.take(k + 1) =~= avail.take(k as int).push(avail[k as int]));
                assert(kept + avail.take(k + 1) =~= (kept + avail.take(k as int)).push(avail[k as int]));
            }
            k = k + 1;
        }
        assert(avail.take(available@.len() as int) =~= avail);
        dedup_strings(&candidates)
    }

    /// Replace the persisted display order after removing duplicate ids.
    /// Returns whether the stored order changed.
    pub fn set_scene_order(&mut self, scene_ids: Vec<String>) -> (changed: bool)
        ensures
            views(final(self).scene_order@) == dedup(views(scene_ids@)),
            changed == (views(old(self).scene_order@) != dedup(views(scene_ids@))),
            final(self).scenes@ == old(self).scenes@,
            final(self).scenes.entry_seq() == old(self).scenes.entry_seq(),
            final(self).rules == old(self).rules,
    {
        let order = dedup_strings(&scene_ids);
        if same_strings(&self.scene_order, &order) {
            return false;
        }
        self.scene_order = order;
        true
    }

    /// Domain-facing snapshot: every scene that has a role, with its tags and
    /// protection flag, and the typed policy of the stored rules.
    pub fn snapshot(&self) -> (s: SceneRegistrySnapshot)
        ensures
            forall|k: Seq<char>| #[trigger] s.scene_map().contains_key(k) <==> (self.scenes@.contains_key(k) && self.scenes@[k].role is Some),
            forall|k: Seq<char>| #[trigger] s.scene_map().contains_key(k) ==> {
                &&& s.scene_map()[k].role == self.scenes@[k].role->0
                &&& s.scene_map()[k].tags@ == self.scenes@[k].tags@
                &&& s.scene_map()[k].protected == self.scenes@[k].protected
            },
            s.policy().primary_can_depend_on@ == policy_of(self.rules).0,
            s.policy().module_can_depend_on@ == policy_of(self.rules).1,
            s.policy().forbidden_edges@ == policy_of(self.rules).2,
    {
        let entries = self.scenes.entries();
        let mut scenes: StrMap<SceneMetadata> = StrMap::new();
        let mut i: usize = 0;
        while i < entries.len()
            invariant
                i <= entries@.len(),
                crate::assoc::keys_distinct(entries@),
                forall|k: Seq<char>| #[trigger] self.scenes@.contains_key(k) <==> crate::assoc::has_key(entries@, k),
                forall|j: int| 0 <= j < entries@.len() ==> #[trigger] self.scenes@[entries@[j].0@] == entries@[j].1,
                forall|k: Seq<char>| #[trigger] scenes@.contains_key(k) <==> (exists|j: int| 0 <= j < i && entries@[j].0@ == k && entries@[j].1.role is Some),
                forall|j: int| 0 <= j < i && #[trigger] entries@[j].1.role is Some ==> {
                    &&& scenes@[entries@[j].0@].role == entries@[j].1.role->0
                    &&& scenes@[entries@[j].0@].tags@ == entries@[j].1.tags@
                    &&& scenes@[entries@[j].0@].protected == entries@[j].1.protected
                },
            decreases entries@.len() - i,
        {
            let (key, entry) = (&entries[i].0, &entries[i].1);
            match entry.role {
                Some(role) => {
                    let meta = SceneMetadata { role, tags: clone_strings(&entry.tags), protected: entry.protected };
                    let ghost before = scenes@;
                    scenes.insert(key.clone(), meta);
                    proof {
                        assert forall|j: int| 0 <= j < i + 1 && #[trigger] entries@[j].1.role is Some implies {
                            &&& scenes@[entries@[j].0@].role == entries@[j].1.role->0
                            &&& scenes@[entries@[j].0@].tags@ == entries@[j].1.tags@
                            &&& scenes@[entries@[j].0@].protected == entries@[j].1.protected
                        } by {
                            if j < i {
                                assert(entries@[j].0@ != entries@[i as int].0@);
                            }
                        }
                    }
                },
                None => {},
            }
            i = i + 1;
        }
        proof {
            assert forall|k: Seq<char>| #[trigger] scenes@.contains_key(k) implies {
                &&& scenes@[k].role == self.scenes@[k].role->0
                &&& scenes@[k].tags@ == self.scenes@[k].tags@
                &&& scenes@[k].protected == self.scenes@[k].protected
            } by {
                let j = choose|j: int| 0 <= j < entries@.len() && entries@[j].0@ == k && entries@[j].1.role is Some;
                assert(self.scenes@[entries@[j].0@] == entries@[j].1);
            }
            assert forall|k: Seq<char>| (self.scenes@.contains_key(k) && self.scenes@[k].role is Some) implies #[trigger] scenes@.contains_key(k) by {
                let j = choose|j: int| 0 <= j < entries@.len() && entries@[j].0@ == k;
                assert(self.scenes@[entries@[j].0@] == entries@[j].1);
            }
            assert forall|k: Seq<char>| #[trigger] scenes@.contains_key(k) implies (self.scenes@.contains_key(k) && self.scenes@[k].role is Some) by {
                let j = choose|j: int| 0 <= j < entries@.len() && entries@[j].0@ == k && entries@[j].1.role is Some;
                assert(crate::assoc::has_key(entries@, k));
                assert(self.scenes@[entries@[j].0@] == entries@[j].1);
            }
        }
        SceneRegistrySnapshot::new(scenes, self.rules.policy())
    }

    /// Set or clear the role for one scene while preserving its other
    /// metadata. Assigning a role creates default metadata for a scene that
    /// is not registered yet; clearing the role drops an entry that has no
    /// other metadata left. Returns whether the registry changed.
    pub fn set_scene_role(&mut self, scene_id: &str, role: Option<SceneRole>) -> (changed: bool)
        ensures
            final(self).scenes@.contains_key(scene_id@) == entry_after_role(existing_entry(old(self).scenes@, scene_id@), role) is Some,
            forall|k: Seq<char>| k != scene_id@ ==> (#[trigger] final(self).scenes@.contains_key(k) == old(self).scenes@.contains_key(k)),
            forall|k: Seq<char>| k != scene_id@ && #[trigger] final(self).scenes@.contains_key(k) ==> final(self).scenes@[k] == old(self).scenes@[k],
            entry_after_role(existing_entry(old(self).scenes@, scene_id@), role) matches Some(e) ==> entry_view(final(self).scenes@[scene_id@]) == e,
            changed == ((existing_entry(old(self).scenes@, scene_id@) matches Some(e) ==> e.0 != role) && (existing_entry(old(self).scenes@, scene_id@) is None ==> role is Some)),
            final(self).scene_order == old(self).scene_order,
            final(self).rules == old(self).rules,
    {
        let current = match self.scenes.get(scene_id) {
            Some(e) => Some(SceneEntry {
                role: e.role,
                tags: clone_strings(&e.tags),
                protected: e.protected,
                accent_color: clone_opt(&e.accent_color),
            }),
            None => None,
        };
        match role {
            Some(r) => match current {
                Some(e) => {
                    if e.role == Some(r) {
                        assert(self.scenes@.dom() =~= self.scenes@.dom().insert(scene_id@));
                        false
                    } else {
                        self.scenes.insert(scene_id.to_owned(), SceneEntry { role: Some(r), ..e });
                        true
                    }
                },
                None => {
                    self.scenes.insert(
                        scene_id.to_owned(),
                        SceneEntry { role: Some(r), tags: Vec::new(), protected: false, accent_color: None },
                    );
                    true
                },
            },
            None => match current {
                None => {
                    assert(self.scenes@.dom() =~= self.scenes@.dom().remove(scene_id@));
                    false
                },
                Some(e) => {
                    if e.role.is_none() {
                        assert(self.scenes@.dom() =~= self.scenes@.dom().insert(scene_id@));
                        false
                    } else if e.accent_color.is_none() && e.tags.len() == 0 && !e.protected {
                        let _ = self.scenes.remove(scene_id);
                        true
                    } else {
                        self.scenes.insert(scene_id.to_owned(), SceneEntry { role: None, ..e });
                        true
                    }
                },
            },
        }
    }

    /// Remove one scene entry. Returns whether an entry existed.
    pub fn remove_scene(&mut self, scene_id: &str) -> (removed: bool)
        ensures
            final(self).scenes@ == old(self).scenes@.remove(scene_id@),
            removed == old(self).scenes@.contains_key(scene_id@),
            final(self).scene_order == old(self).scene_order,
            final(self).rules == old(self).rules,
    {
        self.scenes.remove(scene_id).is_some()
    }
}

/// Why the stored registry could not be loaded.
#[derive(Debug, Clone, PartialEq, Eq)]
pub enum RegistryStorageError {
    /// The registry file could not be read.
    Read {
        /// Path that failed to load.
        path: String,
        /// Underlying I/O failure.
        detail: String,
    },
    /// The registry file was readable but invalid JSON.
    Parse {
        /// Path that failed to parse.
        path: String,
        /// Underlying parse failure.
        detail: String,
    },
}

/// Text of a load failure.
pub open spec fn storage_error_text(e: RegistryStorageError) -> Seq<char> {
    match e {
        RegistryStorageError::Read { path, detail } => "failed to read scene registry at "@ + path@ + ": "@ + detail@,
        RegistryStorageError::Parse { path, detail } => "failed to parse scene registry at "@ + path@ + ": "@
            + detail@,
    }
}

impl RegistryStorageError {
    /// The failure's display text.
    pub fn to_string(&self) -> (s: String)
        ensures
            s@ == storage_error_text(*self),
    {
        match self {
            RegistryStorageError::Read { path, detail } => {
                let mut s = join3("failed to read scene registry at ", path.as_str(), ": ");
                s.append(detail.as_str());
                s
            },
            RegistryStorageError::Parse { path, detail } => {
                let mut s = join3("failed to parse scene registry at ", path.as_str(), ": ");
                s.append(detail.as_str());
                s
            },
        }
    }
}

/// Why a change to the stored registry was not made.
#[derive(Debug, Clone, PartialEq, Eq)]
pub enum RegistryMutationError {
    /// The existing registry could not be loaded safely, so nothing was
    /// written.
    Load(RegistryStorageError),
    /// The updated registry could not be written.
    Write {
        /// Underlying I/O failure.
        detail: String,
    },
}

impl RegistryMutationError {
    /// The failure's display text.
    pub fn to_string(&self) -> (s: String)
        ensures
            s@ == match *self {
                RegistryMutationError::Load(e) => storage_error_text(e),
                RegistryMutationError::Write { detail } => "failed to write scene registry: "@ + detail@,
            },
    {
        match self {
            RegistryMutationError::Load(e) => e.to_string(),
            RegistryMutationError::Write { detail } => join2("failed to write scene registry: ", detail.as_str()),
        }
    }
}

/// What reading the registry file produced.
#[derive(Debug)]
pub enum RegistryRead {
    /// The file was read and parsed.
    Parsed(SceneRegistry),
    /// There is no registry file yet.
    Missing,
    /// The file could not be read; the I/O error text.
    Unreadable(String),
    /// The file did not parse; the parser's error text.
    Unparsable(String),
}

/// The registry a read produced: a missing file is an empty registry, and
/// a file that cannot be read or parsed is an error rather than an empty
/// registry, so that nothing is ever written over it.
pub fn registry_from_read(path: &str, read: RegistryRead) -> (r: Result<SceneRegistry, RegistryStorageError>)
    ensures
        match read {
            RegistryRead::Parsed(reg) => r == Ok::<SceneRegistry, RegistryStorageError>(reg),
            RegistryRead::Missing => r matches Ok(reg) && reg.scenes@ == Map::<Seq<char>, SceneEntry>::empty()
                && reg.scene_order@.len() == 0 && reg.rules.primary_can_depend_on@.len() == 0
                && reg.rules.module_can_depend_on@.len() == 0 && reg.rules.forbidden_edges@.len() == 0,
            RegistryRead::Unreadable(detail) => r matches Err(RegistryStorageError::Read { path: p, detail: d }) && p@
                == path@ && d == detail,
            RegistryRead::Unparsable(detail) => r matches Err(RegistryStorageError::Parse { path: p, detail: d }) && p@
                == path@ && d == detail,
        },
{
    match read {
        RegistryRead::Parsed(reg) => Ok(reg),
        RegistryRead::Missing => Ok(SceneRegistry::default()),
        RegistryRead::Unreadable(detail) => Err(RegistryStorageError::Read { path: path.to_owned(), detail }),
        RegistryRead::Unparsable(detail) => Err(RegistryStorageError::Parse { path: path.to_owned(), detail }),
    }
}

/// Whether `new` is `old` with the role of `scene_id` set to `role`, and
/// `changed` says whether that changed anything.
pub open spec fn role_was_set(old: SceneRegistry, new: SceneRegistry, scene_id: Seq<char>, role: Option<SceneRole>, changed: bool) -> bool {
    &&& new.scenes@.contains_key(scene_id) == entry_after_role(existing_entry(old.scenes@, scene_id), role) is Some
    &&& forall|k: Seq<char>| k != scene_id ==> (#[trigger] new.scenes@.contains_key(k) == old.scenes@.contains_key(k))
    &&& forall|k: Seq<char>| k != scene_id && #[trigger] new.scenes@.contains_key(k) ==> new.scenes@[k] == old.scenes@[k]
    &&& entry_after_role(existing_entry(old.scenes@, scene_id), role) matches Some(e) ==> entry_view(new.scenes@[scene_id]) == e
    &&& changed == ((existing_entry(old.scenes@, scene_id) matches Some(e) ==> e.0 != role) && (existing_entry(
        old.scenes@,
        scene_id,
    ) is None ==> role is Some))
    &&& new.scene_order == old.scene_order
    &&& new.rules == old.rules
}

/// Set or clear one scene role in a loaded registry. A registry that failed
/// to load is not touched: the load error comes back and nothing is to be
/// written. Otherwise the updated registry comes back, to be written when
/// it changed.
pub fn set_scene_role_in(
    loaded: Result<SceneRegistry, RegistryStorageError>,
    scene_id: &str,
    role: Option<SceneRole>,
) -> (r: Result<(SceneRegistry, bool), RegistryMutationError>)
    ensures
        match loaded {
            Err(e) => r == Err::<(SceneRegistry, bool), RegistryMutationError>(RegistryMutationError::Load(e)),
            Ok(old) => r matches Ok((new, changed)) && role_was_set(old, new, scene_id@, role, changed),
        },
{
    match loaded {
        Err(e) => Err(RegistryMutationError::Load(e)),
        Ok(registry) => {
            let mut registry = registry;
            let changed = registry.set_scene_role(scene_id, role);
            Ok((registry, changed))
        },
    }
}

/// Remove one scene entry from a loaded registry. A registry that failed to
/// load is not touched: the load error comes back and nothing is to be
/// written. Otherwise the updated registry comes back with whether an entry
/// was removed.
pub fn remove_scene_entry_in(
    loaded: Result<SceneRegistry, RegistryStorageError>,
    scene_id: &str,
) -> (r: Result<(SceneRegistry, bool), RegistryMutationError>)
    ensures
        match loaded {
            Err(e) => r == Err::<(SceneRegistry, bool), RegistryMutationError>(RegistryMutationError::Load(e)),
            Ok(old) => r matches Ok((new, removed)) && new.scenes@ == old.scenes@.remove(scene_id@) && removed
                == old.scenes@.contains_key(scene_id@) && new.scene_order == old.scene_order && new.rules == old.rules,
        },
{
    match loaded {
        Err(e) => Err(RegistryMutationError::Load(e)),
        Ok(registry) => {
            let mut registry = registry;
            let removed = registry.remove_scene(scene_id);
            Ok((registry, removed))
        },
    }
}

/// Whether a stored key list names at least one known role.
pub open spec fn names_known_role(keys: Seq<Seq<char>>) -> bool {
    exists|i: int| 0 <= i < keys.len() && (#[trigger] role_from_key_spec(keys[i])) is Some
}

/// A key names a role exactly when it is that role's key.
proof fn lemma_key_names_role(k: Seq<char>, r: SceneRole)
    ensures
        role_from_key_spec(k) == Some(r) <==> k == role_key_spec(r),
{
    lemma_rule_key_round_trip(r);
}

/// The parsed roles of a key list are the roles whose keys it holds, and
/// there are some exactly when it names a known role.
proof fn lemma_parsed_roles_are_the_named_roles(keys: Seq<Seq<char>>, r: SceneRole)
    ensures
        parsed_roles(keys).contains(r) <==> keys.contains(role_key_spec(r)),
        parsed_roles(keys).len() > 0 <==> names_known_role(keys),
    decreases keys.len(),
{
    if keys.len() > 0 {
        let rest = keys.drop_last();
        lemma_parsed_roles_are_the_named_roles(rest, r);
        lemma_key_names_role(keys.last(), r);
        assert(keys =~= rest.push(keys.last()));
        assert(keys.contains(role_key_spec(r)) <==> (rest.contains(role_key_spec(r)) || keys.last() == role_key_spec(r)));
        if names_known_role(keys) {
            let i = choose|i: int| 0 <= i < keys.len() && (#[trigger] role_from_key_spec(keys[i])) is Some;
            if i < keys.len() - 1 {
                assert(rest[i] == keys[i]);
            }
        }
        if names_known_role(rest) {
            let i = choose|i: int| 0 <= i < rest.len() && (#[trigger] role_from_key_spec(rest[i])) is Some;
            assert(keys[i] == rest[i]);
        }
        if role_from_key_spec(keys.last()) is Some {
            assert(role_from_key_spec(keys[keys.len() - 1]) is Some);
        }
        let p = parsed_roles(rest);
        match role_from_key_spec(keys.last()) {
            Some(x) => {
                assert(parsed_roles(keys) == p.push(x));
                assert(p.push(x).contains(r) <==> (p.contains(r) || x == r)) by {
                    if p.contains(r) {
                        let j = choose|j: int| 0 <= j < p.len() && p[j] == r;
                        assert(p.push(x)[j] == r);
                    }
                    if x == r {
                        assert(p.push(x)[p.len() as int] == r);
                    }
                    if p.push(x).contains(r) {
                        let j = choose|j: int| 0 <= j < p.len() + 1 && p.push(x)[j] == r;
                        if j < p.len() {
                            assert(p[j] == r);
                        }
                    }
                }
            },
            None => {
                assert(parsed_roles(keys) == p);
            },
        }
    }
}

/// A stored allow-list that names at least one known role replaces the
/// built-in one: a role is then allowed for that side exactly when its key
/// is stored. A list that names no known role leaves the built-in list in
/// place. This holds for the Primary and the Module list alike.
pub proof fn lemma_stored_allow_lists_replace_defaults(rules: RuleConfig, r: SceneRole)
    ensures
        names_known_role(views(rules.primary_can_depend_on@)) ==> (policy_of(rules).0.contains(r) <==> views(
            rules.primary_can_depend_on@,
        ).contains(role_key_spec(r))),
        !names_known_role(views(rules.primary_can_depend_on@)) ==> policy_of(rules).0 == default_primary_allow(),
        names_known_role(views(rules.module_can_depend_on@)) ==> (policy_of(rules).1.contains(r) <==> views(
            rules.module_can_depend_on@,
        ).contains(role_key_spec(r))),
        !names_known_role(views(rules.module_can_depend_on@)) ==> policy_of(rules).1 == default_module_allow(),
{
    lemma_parsed_roles_are_the_named_roles(views(rules.primary_can_depend_on@), r);
    lemma_parsed_roles_are_the_named_roles(views(rules.module_can_depend_on@), r);
}

/// Changing a scene's role never loses what else its entry holds: the tags,
/// protection flag and accent stay as they were and only the role changes;
/// clearing the role drops an entry that had a role only when it holds
/// nothing else (no tags, no accent, not protected).
pub proof fn lemma_role_changes_keep_entry_metadata(e: EntryView, role: Option<SceneRole>)
    ensures
        entry_after_role(Some(e), role) matches Some(n) ==> n.0 == role && n.1 == e.1 && n.2 == e.2 && n.3 == e.3,
        entry_after_role(Some(e), None) is None <==> (e.0 is Some && e.1.len() == 0 && !e.2 && e.3 is None),
        role is Some ==> entry_after_role(Some(e), role) is Some,
{
}

/// In a stored registry, clearing the role of a scene whose entry has tags,
/// an accent, or protection keeps the entry with all of them and no role;
/// other scenes and the display order are untouched.
pub proof fn lemma_clearing_a_role_keeps_scene_metadata(
    old: SceneRegistry,
    new: SceneRegistry,
    scene_id: Seq<char>,
    changed: bool,
)
    requires
        role_was_set(old, new, scene_id, None, changed),
        old.scenes@.contains_key(scene_id),
        old.scenes@[scene_id].tags@.len() > 0 || old.scenes@[scene_id].protected || old.scenes@[scene_id].accent_color
            is Some,
    ensures
        new.scenes@.contains_key(scene_id),
        new.scenes@[scene_id].role is None,
        new.scenes@[scene_id].tags@ == old.scenes@[scene_id].tags@,
        new.scenes@[scene_id].protected == old.scenes@[scene_id].protected,
        new.scenes@[scene_id].accent_color == old.scenes@[scene_id].accent_color,
        new.scene_order == old.scene_order,
{
}

/// The display order lists every available scene id exactly once, and
/// nothing else.
pub proof fn lemma_ordered_ids_cover_available(order: Seq<Seq<char>>, available: Seq<Seq<char>>)
    ensures
        forall|x: Seq<char>| #[trigger] ordered_ids(order, available).contains(x) <==> available.contains(x),
        ordered_ids(order, available).no_duplicates(),
{
    let kept = order.filter(|x: Seq<char>| available.contains(x));
    lemma_dedup_contains(kept + available);
    assert forall|x: Seq<char>| #[trigger] (kept + available).contains(x) <==> available.contains(x) by {
        if (kept + available).contains(x) {
            let i = choose|i: int| 0 <= i < (kept + available).len() && (kept + available)[i] == x;
            if i < kept.len() {
                assert(kept[i] == x);
                order.lemma_filter_pred(|y: Seq<char>| available.contains(y), i);
            } else {
                assert(available[i - kept.len()] == x);
            }
        }
        if available.contains(x) {
            let i = choose|i: int| 0 <= i < available.len() && available[i] == x;
            assert((kept + available)[kept.len() + i] == x);
        }
    }
}

} // verus!

verus! {

/// `c` is an ASCII hexadecimal digit.
pub open spec fn is_hex_digit(c: char) -> bool {
    (48 <= c as int <= 57) || (97 <= c as int <= 102) || (65 <= c as int <= 70)
}

/// Value of an ASCII hexadecimal digit.
pub open spec fn hex_value(c: char) -> int {
    if 48 <= c as int <= 57 {
        c as int - 48
    } else if 97 <= c as int <= 102 {
        c as int - 87
    } else {
        c as int - 55
    }
}

/// The digits of a stored accent: one leading `#` is optional.
pub open spec fn accent_digits(v: Seq<char>) -> Seq<char> {
    if v.len() > 0 && v[0] == '#' {
        v.subrange(1, v.len() as int)
    } else {
        v
    }
}

/// RGB channels of a stored accent, or `None` unless it is exactly six
/// hexadecimal digits (after an optional `#`).
pub open spec fn accent_channels(v: Seq<char>) -> Option<(u8, u8, u8)> {
    let h = accent_digits(v);
    if h.len() == 6 && forall|i: int| 0 <= i < 6 ==> #[trigger] is_hex_digit(h[i]) {
        Some((
            (16 * hex_value(h[0]) + hex_value(h[1])) as u8,
            (16 * hex_value(h[2]) + hex_value(h[3])) as u8,
            (16 * hex_value(h[4]) + hex_value(h[5])) as u8,
        ))
    } else {
        None
    }
}

/// Value of a hexadecimal digit, or `None` for any other character.
fn hex_digit(c: char) -> (r: Option<u8>)
    ensures
        match r {
            Some(v) => is_hex_digit(c) && v as int == hex_value(c),
            None => !is_hex_digit(c),
        },
{
    let n = c as u32;
    if 48 <= n && n <= 57 {
        Some((n - 48) as u8)
    } else if 97 <= n && n <= 102 {
        Some((n - 87) as u8)
    } else if 65 <= n && n <= 70 {
        Some((n - 55) as u8)
    } else {
        None
    }
}

/// Parse a stored scene accent; invalid hand-edited values are ignored.
pub fn parse_scene_accent(value: &str) -> (r: Option<(u8, u8, u8)>)
    ensures
        r == accent_channels(value@),
{
    let len = value.unicode_len();
    let start: usize = if len > 0 && value.get_char(0) == '#' { 1 } else { 0 };
    let ghost h = accent_digits(value@);
    if len - start != 6 {
        return None;
    }
    assert(h =~= value@.subrange(start as int, len as int));
    let mut digits: Vec<u8> = Vec::new();
    let mut i: usize = 0;
    while i < 6
        invariant
            i <= 6,
            len == value@.len(),
            len - start == 6,
            h =~= value@.subrange(start as int, len as int),
            digits@.len() == i,
            forall|j: int| 0 <= j < i ==> is_hex_digit(#[trigger] h[j]) && digits@[j] as int == hex_value(h[j]),
        decreases 6 - i,
    {
        let c = value.get_char(start + i);
        assert(c == h[i as int]);
        match hex_digit(c) {
            Some(v) => digits.push(v),
            None => {
                return None;
            },
        }
        i = i + 1;
    }
    assert(forall|j: int| 0 <= j < 6 ==> #[trigger] is_hex_digit(h[j]));
    let red = 16 * digits[0] + digits[1];
    let green = 16 * digits[2] + digits[3];
    let blue = 16 * digits[4] + digits[5];
    Some((red, green, blue))
}

} // verus!
