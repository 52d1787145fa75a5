//! Scene dependency graph validation: classify each edge against the rules.

use vstd::prelude::*;
use crate::assoc::views;
use crate::domain::graph::EdgeStatus;
use crate::domain::registry::{GraphDependencyPolicy, RoleDependency};
use crate::domain::role::{role_key_spec, SceneRole};
use crate::storage::registry::{pair_views, RuleConfig};
use crate::text::text_eq;

verus! {

/// Status of the edge `from → to` under stored (string-keyed) rules:
/// an unassigned endpoint is `Allowed`; an explicit forbidden pair is
/// `Forbidden`; a non-empty Primary or Module allow-list that does not list
/// the target is `Warning`; anything else is `Allowed`.
pub open spec fn classify_spec(from: Option<SceneRole>, to: Option<SceneRole>, rules: RuleConfig) -> EdgeStatus {
    match (from, to) {
        (Some(f), Some(t)) => {
            let fk = role_key_spec(f);
            let tk = role_key_spec(t);
            if pair_views(rules.forbidden_edges@).contains((fk, tk)) {
                EdgeStatus::Forbidden
            } else {
                let list = if f == SceneRole::Primary {
                    Some(views(rules.primary_can_depend_on@))
                } else if f == SceneRole::Module {
                    Some(views(rules.module_can_depend_on@))
                } else {
                    None
                };
                match list {
                    Some(l) => if l.len() > 0 && !l.contains(tk) {
                        EdgeStatus::Warning
                    } else {
                        EdgeStatus::Allowed
                    },
                    None => EdgeStatus::Allowed,
                }
            }
        },
        _ => EdgeStatus::Allowed,
    }
}

/// The same classification under a typed policy.
pub open spec fn classify_policy_spec(from: Option<SceneRole>, to: Option<SceneRole>, policy: GraphDependencyPolicy) -> EdgeStatus {
    match (from, to) {
        (Some(f), Some(t)) => {
            if policy.forbidden_edges@.contains(RoleDependency { from: f, to: t }) {
                EdgeStatus::Forbidden
            } else {
                let list = if f == SceneRole::Primary {
                    Some(policy.primary_can_depend_on@)
                } else if f == SceneRole::Module {
                    Some(policy.module_can_depend_on@)
                } else {
                    None
                };
                match list {
                    Some(l) => if l.len() > 0 && !l.contains(t) {
                        EdgeStatus::Warning
                    } else {
                        EdgeStatus::Allowed
                    },
                    None => EdgeStatus::Allowed,
                }
            }
        },
        _ => EdgeStatus::Allowed,
    }
}

/// Whether a stored key list names `key`.
fn lists_key(list: &Vec<String>, key: &str) -> (b: bool)
    ensures
        b == views(list@).contains(key@),
{
    let r = crate::assoc::contains_text(list, key);
    proof {
        if r {
            let i = choose|i: int| 0 <= i < list@.len() && list@[i]@ == key@;
            assert(views(list@)[i] == key@);
        }
        if views(list@).contains(key@) {
            let i = choose|i: int| 0 <= i < views(list@).len() && views(list@)[i] == key@;
            assert(list@[i]@ == key@);
        }
    }
    r
}

/// Classify a single dependency edge `from → to` against stored rules.
pub fn classify_edge(from: Option<SceneRole>, to: Option<SceneRole>, rules: &RuleConfig) -> (s: EdgeStatus)
    ensures
        s == classify_spec(from, to, *rules),
{
    let (f, t) = match (from, to) {
        (Some(f), Some(t)) => (f, t),
        _ => {
            return EdgeStatus::Allowed;
        },
    };
    let from_key = f.rule_key();
    let to_key = t.rule_key();
    let ghost pairs = pair_views(rules.forbidden_edges@);
    let mut i: usize = 0;
    while i < rules.forbidden_edges.len()
        invariant
            i <= rules.forbidden_edges@.len(),
            pairs == pair_views(rules.forbidden_edges@),
            from == Some(f) && to == Some(t),
            from_key@ == role_key_spec(f) && to_key@ == role_key_spec(t),
            forall|j: int| 0 <= j < i ==> pairs[j] != (from_key@, to_key@),
        decreases rules.forbidden_edges@.len() - i,
    {
        let pair = &rules.forbidden_edges[i];
        proof {
            assert(pairs[i as int] == (pair@[0]@, pair@[1]@));
        }
        if text_eq(pair[0].as_str(), from_key) && text_eq(pair[1].as_str(), to_key) {
            proof {
                assert(pair@[0] == pair[0] && pair@[1] == pair[1]);
                assert(pairs[i as int] == (from_key@, to_key@));
                assert(pairs.contains((from_key@, to_key@)));
            }
            return EdgeStatus::Forbidden;
        }
        i = i + 1;
    }
    proof {
        if pairs.contains((from_key@, to_key@)) {
            let j = choose|j: int| 0 <= j < pairs.len() && pairs[j] == (from_key@, to_key@);
        }
    }
    let list = match f {
        SceneRole::Primary => Some(&rules.primary_can_depend_on),
        SceneRole::Module => Some(&rules.module_can_depend_on),
        _ => None,
    };
    match list {
        Some(list) => {
            if list.len() > 0 && !lists_key(list, to_key) {
                EdgeStatus::Warning
            } else {
                EdgeStatus::Allowed
            }
        },
        None => EdgeStatus::Allowed,
    }
}

/// Whether a role list holds `role`.
fn lists_role(list: &Vec<SceneRole>, role: SceneRole) -> (b: bool)
    ensures
        b == list@.contains(role),
{
    let mut i: usize = 0;
    while i < list.len()
        invariant
            i <= list@.len(),
            forall|j: int| 0 <= j < i ==> list@[j] != role,
        decreases list@.len() - i,
    {
        if list[i] == role {
            return true;
        }
        i = i + 1;
    }
    false
}

/// Classify a single dependency edge `from → to` against a typed policy.
pub fn classify_policy_edge(
    from: Option<SceneRole>,
    to: Option<SceneRole>,
    policy: &GraphDependencyPolicy,
) -> (s: EdgeStatus)
    ensures
        s == classify_policy_spec(from, to, *policy),
{
    let (f, t) = match (from, to) {
        (Some(f), Some(t)) => (f, t),
        _ => {
            return EdgeStatus::Allowed;
        },
    };
    let edge = RoleDependency::new(f, t);
    let mut i: usize = 0;
    while i < policy.forbidden_edges.len()
        invariant
            i <= policy.forbidden_edges@.len(),
            from == Some(f) && to == Some(t),
            edge == (RoleDependency { from: f, to: t }),
            forall|j: int| 0 <= j < i ==> policy.forbidden_edges@[j] != edge,
        decreases policy.forbidden_edges@.len() - i,
    {
        if policy.forbidden_edges[i] == edge {
            assert(policy.forbidden_edges@[i as int] == edge);
            assert(policy.forbidden_edges@.contains(edge));
            return EdgeStatus::Forbidden;
        }
        i = i + 1;
    }
    let list = match f {
        SceneRole::Primary => Some(&policy.primary_can_depend_on),
        SceneRole::Module => Some(&policy.module_can_depend_on),
        _ => None,
    };
    match list {
        Some(list) => {
            if list.len() > 0 && !lists_role(list, t) {
                EdgeStatus::Warning
            } else {
                EdgeStatus::Allowed
            }
        },
        None => EdgeStatus::Allowed,
    }
}

/// Under a typed policy each allow-list governs the edges out of its own
/// role: an edge out of a Module scene draws a warning exactly when the
/// Module allow-list is non-empty, does not name the target, and the pair is
/// not forbidden, whatever the Primary list says; the same holds for Primary
/// scenes with the Primary list; edges out of any other role never draw a
/// warning; and an edge is forbidden exactly when the pair is listed.
pub proof fn lemma_policy_allow_lists_govern_their_own_role(policy: GraphDependencyPolicy, from: SceneRole, to: SceneRole)
    ensures
        classify_policy_spec(Some(SceneRole::Module), Some(to), policy) == EdgeStatus::Warning <==> (
        !policy.forbidden_edges@.contains(RoleDependency { from: SceneRole::Module, to })
            && policy.module_can_depend_on@.len() > 0 && !policy.module_can_depend_on@.contains(to)),
        classify_policy_spec(Some(SceneRole::Primary), Some(to), policy) == EdgeStatus::Warning <==> (
        !policy.forbidden_edges@.contains(RoleDependency { from: SceneRole::Primary, to })
            && policy.primary_can_depend_on@.len() > 0 && !policy.primary_can_depend_on@.contains(to)),
        from != SceneRole::Primary && from != SceneRole::Module ==> classify_policy_spec(Some(from), Some(to), policy)
            != EdgeStatus::Warning,
        classify_policy_spec(Some(from), Some(to), policy) == EdgeStatus::Forbidden
            <==> policy.forbidden_edges@.contains(RoleDependency { from, to }),
{
}

/// Under stored rules each allow-list of role keys governs the edges out
/// of its own role: an edge out of a Module scene draws a warning exactly
/// when the stored Module list is non-empty, does not hold the target's key,
/// and the key pair is not forbidden, whatever the Primary list holds; the
/// same holds for Primary scenes with the Primary list.
pub proof fn lemma_rule_allow_lists_govern_their_own_role(rules: RuleConfig, to: SceneRole)
    ensures
        classify_spec(Some(SceneRole::Module), Some(to), rules) == EdgeStatus::Warning <==> (!pair_views(
            rules.forbidden_edges@,
        ).contains((role_key_spec(SceneRole::Module), role_key_spec(to))) && rules.module_can_depend_on@.len() > 0
            && !views(rules.module_can_depend_on@).contains(role_key_spec(to))),
        classify_spec(Some(SceneRole::Primary), Some(to), rules) == EdgeStatus::Warning <==> (!pair_views(
            rules.forbidden_edges@,
        ).contains((role_key_spec(SceneRole::Primary), role_key_spec(to))) && rules.primary_can_depend_on@.len() > 0
            && !views(rules.primary_can_depend_on@).contains(role_key_spec(to))),
{
}

} // verus!
