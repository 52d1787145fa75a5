//! Scene architecture diagnostics.
//!
//! Pure functions over the scene inventory, the local registry, and the
//! dependency graph. Produces a list of diagnostics, most severe first.

use vstd::prelude::*;
use crate::assoc::views;
use crate::domain::diagnostic::{Diagnostic, DiagnosticSeverity};
use crate::domain::graph::{reachable, Adjacency, EdgeStatus, SceneGraph};
use crate::domain::registry::{role_in, GraphDependencyPolicy, SceneMetadata, SceneRegistrySnapshot};
use crate::domain::role::{role_label_spec, SceneRole};
use crate::domain::scene::{has_scene, inventory_has_scene, Scene, SceneInventory};
use crate::services::graph_service::{classify_policy_edge, classify_policy_spec};
use crate::text::{join3, opt_view, owned};

verus! {

/// What a diagnostic says: severity, scene, message, suggestion.
pub type DiagView = (DiagnosticSeverity, Option<Seq<char>>, Seq<char>, Option<Seq<char>>);

/// What `d` says.
pub open spec fn diag_view(d: Diagnostic) -> DiagView {
    (d.severity, opt_view(d.scene), d.message@, opt_view(d.suggestion))
}

/// What each diagnostic in `s` says.
pub open spec fn diag_views(s: Seq<Diagnostic>) -> Seq<DiagView> {
    s.map_values(|d: Diagnostic| diag_view(d))
}

/// Findings for scenes that have no registry role.
pub open spec fn coverage_diags(scenes: Seq<Scene>, registry: Map<Seq<char>, SceneMetadata>) -> Seq<DiagView>
    decreases scenes.len(),
{
    if scenes.len() == 0 {
        Seq::empty()
    } else {
        let rest = coverage_diags(scenes.drop_last(), registry);
        let id = scenes.last().id@;
        if registry.contains_key(id) {
            rest
        } else {
            rest.push((DiagnosticSeverity::Warning, Some(id), "No scene role assigned"@, Some("Assign a role on the Inventory page."@)))
        }
    }
}

/// Findings for registry entries whose scene is gone from OBS.
pub open spec fn stale_diags(entries: Seq<(String, SceneMetadata)>, scenes: Seq<Scene>) -> Seq<DiagView>
    decreases entries.len(),
{
    if entries.len() == 0 {
        Seq::empty()
    } else {
        let rest = stale_diags(entries.drop_last(), scenes);
        let id = entries.last().0@;
        if has_scene(scenes, id) {
            rest
        } else {
            rest.push((DiagnosticSeverity::Info, Some(id), "Registry entry has no matching OBS scene"@, Some("Remove the entry or recreate the scene in OBS."@)))
        }
    }
}

/// Findings for protected scenes in a live-switchable role.
pub open spec fn protected_diags(entries: Seq<(String, SceneMetadata)>) -> Seq<DiagView>
    decreases entries.len(),
{
    if entries.len() == 0 {
        Seq::empty()
    } else {
        let rest = protected_diags(entries.drop_last());
        let (id, m) = entries.last();
        if m.protected && m.role == SceneRole::Primary {
            rest.push((
                DiagnosticSeverity::Warning,
                Some(id@),
                "Protected scene has the "@ + role_label_spec(m.role) + " role, which is live-switchable"@,
                Some("Give protected scenes a role that is not live-switchable."@),
            ))
        } else {
            rest
        }
    }
}

/// Message and suggestion for a non-allowed edge; the first matching rule
/// wins.
pub open spec fn edge_text(parent_role: SceneRole, child_role: SceneRole, status: EdgeStatus, child: Seq<char>) -> (Seq<char>, Seq<char>) {
    if parent_role == SceneRole::Primary && child_role == SceneRole::Debug && status == EdgeStatus::Forbidden {
        ("Depends on Debug scene '"@ + child + "'"@, "Remove the Debug scene from the live path."@)
    } else if parent_role == SceneRole::Primary && child_role == SceneRole::Raw && status == EdgeStatus::Warning {
        ("Primary scene directly wraps a Raw source '"@ + child + "'"@, "Wrap the source in a Module scene."@)
    } else if parent_role == SceneRole::Module && child_role == SceneRole::Primary && status == EdgeStatus::Forbidden {
        ("Module nests Primary scene '"@ + child + "', inverting the hierarchy"@, "Move the shared content into a Module scene."@)
    } else if parent_role == SceneRole::Raw && status == EdgeStatus::Forbidden {
        ("Raw scene nests another scene '"@ + child + "'"@, "Keep Raw scenes as leaf nodes."@)
    } else if status == EdgeStatus::Forbidden {
        ("Depends on '"@ + child + "', which the graph policy forbids"@, "Adjust the scene or the graph policy."@)
    } else {
        ("Depends on '"@ + child + "', which is outside the graph policy allow-list"@, "Adjust the scene or the graph policy."@)
    }
}

/// How bad an edge is depends only on whether the policy forbids it.
pub open spec fn severity_of(status: EdgeStatus) -> DiagnosticSeverity {
    match status {
        EdgeStatus::Forbidden => DiagnosticSeverity::Error,
        EdgeStatus::Allowed | EdgeStatus::Warning => DiagnosticSeverity::Warning,
    }
}

/// Severity of a finding on an edge with this status: forbidden edges are
/// errors, everything else a warning.
fn edge_severity(status: EdgeStatus) -> (s: DiagnosticSeverity)
    ensures
        s == severity_of(status),
{
    match status {
        EdgeStatus::Forbidden => DiagnosticSeverity::Error,
        EdgeStatus::Allowed | EdgeStatus::Warning => DiagnosticSeverity::Warning,
    }
}

/// Finding for one edge, if any: edges touching an unassigned scene and
/// allowed edges have none; forbidden edges are errors, the rest warnings.
pub open spec fn edge_diag(
    parent: Seq<char>,
    parent_role: Option<SceneRole>,
    child: Seq<char>,
    child_role: Option<SceneRole>,
    status: EdgeStatus,
) -> Option<DiagView> {
    match (parent_role, child_role) {
        (Some(pr), Some(cr)) => if status == EdgeStatus::Allowed {
            None
        } else {
            let text = edge_text(pr, cr, status, child);
            Some((
                severity_of(status),
                Some(parent),
                text.0,
                Some(text.1),
            ))
        },
        _ => None,
    }
}

/// Findings for the edges from `parent` to each of `children`.
pub open spec fn child_diags(
    parent: Seq<char>,
    children: Seq<Seq<char>>,
    registry: Map<Seq<char>, SceneMetadata>,
    policy: GraphDependencyPolicy,
) -> Seq<DiagView>
    decreases children.len(),
{
    if children.len() == 0 {
        Seq::empty()
    } else {
        let rest = child_diags(parent, children.drop_last(), registry, policy);
        let child = children.last();
        let pr = role_in(registry, parent);
        let cr = role_in(registry, child);
        match edge_diag(parent, pr, child, cr, classify_policy_spec(pr, cr, policy)) {
            Some(d) => rest.push(d),
            None => rest,
        }
    }
}

/// Findings for every edge of the graph, entry by entry.
pub open spec fn edge_diags(
    entries: Seq<(String, Vec<String>)>,
    registry: Map<Seq<char>, SceneMetadata>,
    policy: GraphDependencyPolicy,
) -> Seq<DiagView>
    decreases entries.len(),
{
    if entries.len() == 0 {
        Seq::empty()
    } else {
        edge_diags(entries.drop_last(), registry, policy) + child_diags(entries.last().0@, views(entries.last().1@), registry, policy)
    }
}

/// First child of `parent` that reaches back to it.
pub open spec fn first_cycle_child(g: Adjacency, parent: Seq<char>, children: Seq<Seq<char>>) -> Option<Seq<char>>
    decreases children.len(),
{
    if children.len() == 0 {
        None
    } else if reachable(g, children[0], parent) {
        Some(children[0])
    } else {
        first_cycle_child(g, parent, children.skip(1))
    }
}

/// One finding per parent scene that lies on a cycle, naming the first
/// child that closes it.
pub open spec fn cycle_diags(g: Adjacency, entries: Seq<(String, Vec<String>)>) -> Seq<DiagView>
    decreases entries.len(),
{
    if entries.len() == 0 {
        Seq::empty()
    } else {
        let rest = cycle_diags(g, entries.drop_last());
        let parent = entries.last().0@;
        match first_cycle_child(g, parent, views(entries.last().1@)) {
            Some(child) => rest.push((
                DiagnosticSeverity::Error,
                Some(parent),
                "Circular scene reference: "@ + parent + " → "@ + child,
                Some("Remove one of the nested scene sources to break the cycle."@),
            )),
            None => rest,
        }
    }
}

/// Every finding, check by check, before sorting.
pub open spec fn all_diags(inventory: SceneInventory, registry: SceneRegistrySnapshot, graph: SceneGraph) -> Seq<DiagView> {
    coverage_diags(inventory.scenes@, registry.scene_map())
        + stale_diags(registry.scene_entries(), inventory.scenes@)
        + protected_diags(registry.scene_entries())
        + edge_diags(graph.entry_seq(), registry.scene_map(), registry.policy())
        + cycle_diags(graph@, graph.entry_seq())
}

/// Findings of one severity, in their original order.
pub open spec fn of_severity(s: Seq<DiagView>, severity: DiagnosticSeverity) -> Seq<DiagView> {
    s.filter(|d: DiagView| d.0 == severity)
}

/// Most severe first, keeping the order within each severity.
pub open spec fn most_severe_first(s: Seq<DiagView>) -> Seq<DiagView> {
    of_severity(s, DiagnosticSeverity::Error) + of_severity(s, DiagnosticSeverity::Warning) + of_severity(s, DiagnosticSeverity::Info)
}

/// Runs scene architecture diagnostics over domain state.
pub struct DoctorService;

/// Build a finding from its parts.
fn diagnostic(severity: DiagnosticSeverity, scene: &str, message: String, suggestion: &str) -> (d: Diagnostic)
    ensures
        diag_view(d) == (severity, Some(scene@), message@, Some(suggestion@)),
{
    Diagnostic { severity, scene: Some(owned(scene)), message, suggestion: Some(owned(suggestion)) }
}

/// Append one finding, extending the views.
fn push_diag(diags: &mut Vec<Diagnostic>, d: Diagnostic)
    ensures
        diag_views(final(diags)@) == diag_views(old(diags)@).push(diag_view(d)),
{
    diags.push(d);
    assert(diag_views(diags@) =~= diag_views(old(diags)@).push(diag_view(d)));
}

impl DoctorService {
    /// All findings, most severe first and stable within a severity.
    pub fn run(inventory: &SceneInventory, registry: &SceneRegistrySnapshot, graph: &SceneGraph) -> (r: Vec<Diagnostic>)
        ensures
            diag_views(r@) == most_severe_first(all_diags(*inventory, *registry, *graph)),
    {
        let mut diags: Vec<Diagnostic> = Vec::new();
        assert(diag_views(diags@) =~= Seq::<DiagView>::empty());
        Self::check_role_coverage(inventory, registry, &mut diags);
        Self::check_stale_entries(inventory, registry, &mut diags);
        Self::check_protected_switchable(registry, &mut diags);
        Self::check_edges(registry, graph, &mut diags);
        Self::check_cycles(graph, &mut diags);
        assert(diag_views(diags@) =~= all_diags(*inventory, *registry, *graph));
        sort_most_severe_first(diags)
    }

    /// Every OBS scene should have a role assigned.
    fn check_role_coverage(inventory: &SceneInventory, registry: &SceneRegistrySnapshot, diags: &mut Vec<Diagnostic>)
        ensures
            diag_views(final(diags)@) == diag_views(old(diags)@) + coverage_diags(inventory.scenes@, registry.scene_map()),
    {
        let ghost start = diag_views(diags@);
        let mut i: usize = 0;
        while i < inventory.scenes.len()
            invariant
                i <= inventory.scenes@.len(),
                diag_views(diags@) == start + coverage_diags(inventory.scenes@.take(i as int), registry.scene_map()),
            decreases inventory.scenes@.len() - i,
        {
            proof {
                assert(inventory.scenes@.take(i + 1).drop_last() =~= inventory.scenes@.take(i as int));
            }
            let id = inventory.scenes[i].id.as_str();
            if !registry.contains_scene(id) {
                push_diag(diags, diagnostic(DiagnosticSeverity::Warning, id, owned("No scene role assigned"), "Assign a role on the Inventory page."));
            }
            i = i + 1;
        }
        assert(inventory.scenes@.take(inventory.scenes@.len() as int) =~= inventory.scenes@);
    }

    /// Registry entries that no longer exist in OBS.
    fn check_stale_entries(inventory: &SceneInventory, registry: &SceneRegistrySnapshot, diags: &mut Vec<Diagnostic>)
        ensures
            diag_views(final(diags)@) == diag_views(old(diags)@) + stale_diags(registry.scene_entries(), inventory.scenes@),
    {
        let entries = registry.scenes();
        let ghost start = diag_views(diags@);
        let mut i: usize = 0;
        while i < entries.len()
            invariant
                i <= entries@.len(),
                entries@ == registry.scene_entries(),
                diag_views(diags@) == start + stale_diags(entries@.take(i as int), inventory.scenes@),
            decreases entries@.len() - i,
        {
            proof {
                assert(entries@.take(i + 1).drop_last() =~= entries@.take(i as int));
            }
            let id = entries[i].0.as_str();
            if !inventory_has_scene(&inventory.scenes, id) {
                push_diag(diags, diagnostic(DiagnosticSeverity::Info, id, owned("Registry entry has no matching OBS scene"), "Remove the entry or recreate the scene in OBS."));
            }
            i = i + 1;
        }
        assert(entries@.take(entries@.len() as int) =~= entries@);
    }

    /// Protected scenes should not be in a live-switchable role.
    fn check_protected_switchable(registry: &SceneRegistrySnapshot, diags: &mut Vec<Diagnostic>)
        ensures
            diag_views(final(diags)@) == diag_views(old(diags)@) + protected_diags(registry.scene_entries()),
    {
        let entries = registry.scenes();
        let ghost start = diag_views(diags@);
        let mut i: usize = 0;
        while i < entries.len()
            invariant
                i <= entries@.len(),
                entries@ == registry.scene_entries(),
                diag_views(diags@) == start + protected_diags(entries@.take(i as int)),
            decreases entries@.len() - i,
        {
            proof {
                assert(entries@.take(i + 1).drop_last() =~= entries@.take(i as int));
            }
            let (id, meta) = (&entries[i].0, &entries[i].1);
            if meta.protected && meta.role.is_live_switchable() {
                let message = join3("Protected scene has the ", meta.role.label(), " role, which is live-switchable");
                push_diag(diags, diagnostic(DiagnosticSeverity::Warning, id.as_str(), message, "Give protected scenes a role that is not live-switchable."));
            }
            i = i + 1;
        }
        assert(entries@.take(entries@.len() as int) =~= entries@);
    }

    /// Structural rules between connected scenes, based on their roles.
    fn check_edges(registry: &SceneRegistrySnapshot, graph: &SceneGraph, diags: &mut Vec<Diagnostic>)
        ensures
            diag_views(final(diags)@) == diag_views(old(diags)@) + edge_diags(graph.entry_seq(), registry.scene_map(), registry.policy()),
    {
        let entries = graph.entries();
        let policy = registry.graph_policy();
        let ghost start = diag_views(diags@);
        let mut i: usize = 0;
        while i < entries.len()
            invariant
                i <= entries@.len(),
                entries@ == graph.entry_seq(),
                *policy == registry.policy(),
                diag_views(diags@) == start + edge_diags(entries@.take(i as int), registry.scene_map(), registry.policy()),
            decreases entries@.len() - i,
        {
            proof {
                assert(entries@.take(i + 1).drop_last() =~= entries@.take(i as int));
            }
            let parent = entries[i].0.as_str();
            let children = &entries[i].1;
            let parent_role = registry.scene_role(parent);
            let ghost before = diag_views(diags@);
            let ghost kids = views(children@);
            let mut j: usize = 0;
            while j < children.len()
                invariant
                    j <= children@.len(),
                    kids == views(children@),
                    *policy == registry.policy(),
                    parent_role == role_in(registry.scene_map(), parent@),
                    diag_views(diags@) == before + child_diags(parent@, kids.take(j as int), registry.scene_map(), registry.policy()),
                decreases children@.len() - j,
            {
                proof {
                    assert(kids.take(j + 1).drop_last() =~= kids.take(j as int));
                    assert(kids.take(j + 1).last() == children@[j as int]@);
                }
                let child = children[j].as_str();
                let child_role = registry.scene_role(child);
                let status = classify_policy_edge(parent_role, child_role, policy);
                match edge_diagnostic(parent, parent_role, child, child_role, status) {
                    Some(d) => push_diag(diags, d),
                    None => {},
                }
                j = j + 1;
            }
            proof {
                assert(kids.take(children@.len() as int) =~= kids);
                assert(start + edge_diags(entries@.take(i + 1), registry.scene_map(), registry.policy()) =~= before + child_diags(parent@, kids, registry.scene_map(), registry.policy()));
            }
            i = i + 1;
        }
        assert(entries@.take(entries@.len() as int) =~= entries@);
    }

    /// Detect circular scene references (A nests B … nests A), reporting each
    /// parent scene on a cycle once.
    fn check_cycles(graph: &SceneGraph, diags: &mut Vec<Diagnostic>)
        ensures
            diag_views(final(diags)@) == diag_views(old(diags)@) + cycle_diags(graph@, graph.entry_seq()),
    {
        let entries = graph.entries();
        let ghost start = diag_views(diags@);
        let mut i: usize = 0;
        while i < entries.len()
            invariant
                i <= entries@.len(),
                entries@ == graph.entry_seq(),
                diag_views(diags@) == start + cycle_diags(graph@, entries@.take(i as int)),
            decreases entries@.len() - i,
        {
            proof {
                assert(entries@.take(i + 1).drop_last() =~= entries@.take(i as int));
            }
            let parent = entries[i].0.as_str();
            let children = &entries[i].1;
            let ghost kids = views(children@);
            let mut j: usize = 0;
            let mut found: Option<usize> = None;
            assert(kids.skip(0) =~= kids);
            while j < children.len()
                invariant_except_break
                    found is None,
                    first_cycle_child(graph@, parent@, kids) == first_cycle_child(graph@, parent@, kids.skip(j as int)),
                invariant
                    j <= children@.len(),
                    kids == views(children@),
                ensures
                    match found {
                        Some(k) => k < children@.len() && first_cycle_child(graph@, parent@, kids) == Some(kids[k as int]),
                        None => first_cycle_child(graph@, parent@, kids) is None,
                    },
                decreases children@.len() - j,
            {
                proof {
                    assert(kids.skip(j as int)[0] == children@[j as int]@);
                    assert(kids.skip(j as int).skip(1) =~= kids.skip(j + 1));
                }
                if graph.is_reachable(children[j].as_str(), parent) {
                    found = Some(j);
                    break;
                }
                j = j + 1;
                proof {
                    if j == children@.len() {
                        assert(kids.skip(j as int) =~= Seq::<Seq<char>>::empty());
                    }
                }
            }
            match found {
                Some(k) => {
                    let mut message = join3("Circular scene reference: ", parent, " → ");
                    message.append(children[k].as_str());
                    push_diag(diags, diagnostic(DiagnosticSeverity::Error, parent, message, "Remove one of the nested scene sources to break the cycle."));
                },
                None => {},
            }
            i = i + 1;
        }
        assert(entries@.take(entries@.len() as int) =~= entries@);
    }
}

/// Finding for one parent→child relationship, if the edge is not allowed.
fn edge_diagnostic(
    parent: &str,
    parent_role: Option<SceneRole>,
    child: &str,
    child_role: Option<SceneRole>,
    status: EdgeStatus,
) -> (r: Option<Diagnostic>)
    ensures
        match r {
            Some(d) => edge_diag(parent@, parent_role, child@, child_role, status) == Some(diag_view(d)),
            None => edge_diag(parent@, parent_role, child@, child_role, status) is None,
        },
{
    let (pr, cr) = match (parent_role, child_role) {
        (Some(pr), Some(cr)) => (pr, cr),
        _ => {
            return None;
        },
    };
    if status == EdgeStatus::Allowed {
        return None;
    }
    let forbidden = status == EdgeStatus::Forbidden;
    let (message, suggestion) = if pr == SceneRole::Primary && cr == SceneRole::Debug && forbidden {
        (join3("Depends on Debug scene '", child, "'"), "Remove the Debug scene from the live path.")
    } else if pr == SceneRole::Primary && cr == SceneRole::Raw && status == EdgeStatus::Warning {
        (join3("Primary scene directly wraps a Raw source '", child, "'"), "Wrap the source in a Module scene.")
    } else if pr == SceneRole::Module && cr == SceneRole::Primary && forbidden {
        (join3("Module nests Primary scene '", child, "', inverting the hierarchy"), "Move the shared content into a Module scene.")
    } else if pr == SceneRole::Raw && forbidden {
        (join3("Raw scene nests another scene '", child, "'"), "Keep Raw scenes as leaf nodes.")
    } else if forbidden {
        (join3("Depends on '", child, "', which the graph policy forbids"), "Adjust the scene or the graph policy.")
    } else {
        (join3("Depends on '", child, "', which is outside the graph policy allow-list"), "Adjust the scene or the graph policy.")
    };
    Some(diagnostic(edge_severity(status), parent, message, suggestion))
}

/// Stable partition: errors, then warnings, then info.
fn sort_most_severe_first(diags: Vec<Diagnostic>) -> (r: Vec<Diagnostic>)
    ensures
        diag_views(r@) == most_severe_first(diag_views(diags@)),
{
    let ghost all = diag_views(diags@);
    let mut errors: Vec<Diagnostic> = Vec::new();
    let mut warnings: Vec<Diagnostic> = Vec::new();
    let mut infos: Vec<Diagnostic> = Vec::new();
    let mut rest = diags;
    let ghost orig = rest@;
    let mut i: usize = 0;
    while i < rest.len()
        invariant
            i <= orig.len(),
            all == diag_views(orig),
            rest@ == orig,
            diag_views(errors@) == of_severity(all.take(i as int), DiagnosticSeverity::Error),
            diag_views(warnings@) == of_severity(all.take(i as int), DiagnosticSeverity::Warning),
            diag_views(infos@) == of_severity(all.take(i as int), DiagnosticSeverity::Info),
        decreases orig.len() - i,
    {
        proof {
            assert(all.take(i + 1).drop_last() =~= all.take(i as int));
            assert(all.take(i + 1).last() == diag_view(orig[i as int]));
            reveal_with_fuel(Seq::filter, 1);
        }
        let d = rest[i].clone_diag();
        match d.severity {
            DiagnosticSeverity::Error => push_diag(&mut errors, d),
            DiagnosticSeverity::Warning => push_diag(&mut warnings, d),
            DiagnosticSeverity::Info => push_diag(&mut infos, d),
        }
        i = i + 1;
    }
    assert(all.take(orig.len() as int) =~= all);
    let ghost e = diag_views(errors@);
    let ghost w = diag_views(warnings@);
    let ghost f = diag_views(infos@);
    errors.append(&mut warnings);
    errors.append(&mut infos);
    proof {
        assert(diag_views(errors@) =~= e + w + f);
    }
    errors
}

impl Diagnostic {
    /// A copy with the same contents.
    pub fn clone_diag(&self) -> (d: Diagnostic)
        ensures
            diag_view(d) == diag_view(*self),
    {
        Diagnostic {
            severity: self.severity,
            scene: match &self.scene {
                Some(s) => Some(s.clone()),
                None => None,
            },
            message: self.message.clone(),
            suggestion: match &self.suggestion {
                Some(s) => Some(s.clone()),
                None => None,
            },
        }
    }
}

} // verus!
