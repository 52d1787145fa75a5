//! Directed scene dependency graph types.

use vstd::prelude::*;
use vstd::seq_lib::seq_to_set_is_finite;
use vstd::set_lib::lemma_len_subset;
use crate::assoc::{find_key, has_key, keys_distinct, views};
use crate::text::text_eq;

verus! {

/// Result of validating a single dependency edge against the role rules.
#[derive(Debug, Clone, Copy, PartialEq, Eq, Structural)]
pub enum EdgeStatus {
    /// Edge satisfies the rules.
    Allowed,
    /// Edge is allowed but discouraged (e.g. `primary → raw`).
    Warning,
    /// Edge is explicitly forbidden (e.g. `module → primary`).
    Forbidden,
}

impl EdgeStatus {
    /// Display order for graph summary chips.
    pub const SUMMARY_ORDER: [EdgeStatus; 3] = [EdgeStatus::Allowed, EdgeStatus::Warning, EdgeStatus::Forbidden];

    /// Short label used in the graph edge summary.
    pub fn summary_label(self) -> (s: &'static str)
        ensures
            s@ == match self {
                EdgeStatus::Allowed => "OK"@,
                EdgeStatus::Warning => "Warning"@,
                EdgeStatus::Forbidden => "Forbidden"@,
            },
    {
        match self {
            EdgeStatus::Allowed => "OK",
            EdgeStatus::Warning => "Warning",
            EdgeStatus::Forbidden => "Forbidden",
        }
    }

    /// Tooltip explaining this edge status in the graph summary.
    pub fn summary_tooltip(self) -> (s: &'static str)
        ensures
            s@ == match self {
                EdgeStatus::Allowed => "Edges that match the graph policy"@,
                EdgeStatus::Warning => "Edges outside an allow-list"@,
                EdgeStatus::Forbidden => "Edges forbidden by graph policy"@,
            },
    {
        match self {
            EdgeStatus::Allowed => "Edges that match the graph policy",
            EdgeStatus::Warning => "Edges outside an allow-list",
            EdgeStatus::Forbidden => "Edges forbidden by graph policy",
        }
    }

    /// Symbolic icon name for displaying this status in the UI.
    pub fn icon_name(self) -> (s: &'static str)
        ensures
            s@ == match self {
                EdgeStatus::Allowed => "object-select-symbolic"@,
                EdgeStatus::Warning => "dialog-warning-symbolic"@,
                EdgeStatus::Forbidden => "dialog-error-symbolic"@,
            },
    {
        match self {
            EdgeStatus::Allowed => "object-select-symbolic",
            EdgeStatus::Warning => "dialog-warning-symbolic",
            EdgeStatus::Forbidden => "dialog-error-symbolic",
        }
    }

    /// CSS class used to colour the status icon.
    pub fn css_class(self) -> (s: &'static str)
        ensures
            s@ == match self {
                EdgeStatus::Allowed => "diag-ok"@,
                EdgeStatus::Warning => "diag-warning"@,
                EdgeStatus::Forbidden => "diag-error"@,
            },
    {
        match self {
            EdgeStatus::Allowed => "diag-ok",
            EdgeStatus::Warning => "diag-warning",
            EdgeStatus::Forbidden => "diag-error",
        }
    }
}

/// Adjacency of a scene graph: each parent scene and the scenes it nests.
pub type Adjacency = Map<Seq<char>, Seq<Seq<char>>>;

/// Direct children of `scene` (none when it has no entry).
pub open spec fn children_of(g: Adjacency, scene: Seq<char>) -> Seq<Seq<char>> {
    if g.contains_key(scene) {
        g[scene]
    } else {
        Seq::empty()
    }
}

/// `path` walks the graph from its first scene to its last one.
pub open spec fn is_path(g: Adjacency, path: Seq<Seq<char>>) -> bool {
    &&& path.len() >= 1
    &&& forall|i: int| 0 <= i < path.len() - 1 ==> #[trigger] children_of(g, path[i]).contains(path[i + 1])
}

/// `to` is reachable from `from` through zero or more nesting steps.
pub open spec fn reachable(g: Adjacency, from: Seq<char>, to: Seq<char>) -> bool {
    exists|path: Seq<Seq<char>>| is_path(g, path) && path[0] == from && path.last() == to
}

/// Directed dependency graph of OBS scenes.
///
/// An entry `A → [B, C]` means scene A contains B and C as nested scene
/// sources. Each parent scene has at most one entry.
#[derive(Debug)]
pub struct SceneGraph {
    edges: Vec<(String, Vec<String>)>,
}

/// Index of the entry keyed by `k`.
pub open spec fn entry_index(edges: Seq<(String, Vec<String>)>, k: Seq<char>) -> int {
    choose|i: int| 0 <= i < edges.len() && edges[i].0@ == k
}

/// Every scene named in the entries, as parent or as child.
pub open spec fn all_nodes(edges: Seq<(String, Vec<String>)>) -> Seq<Seq<char>>
    decreases edges.len(),
{
    if edges.len() == 0 {
        Seq::empty()
    } else {
        all_nodes(edges.drop_last()) + seq![edges.last().0@] + views(edges.last().1@)
    }
}

impl View for SceneGraph {
    type V = Adjacency;

    closed spec fn view(&self) -> Adjacency {
        Map::new(
            |k: Seq<char>| has_key(self.edges@, k),
            |k: Seq<char>| views(self.edges@[entry_index(self.edges@, k)].1@),
        )
    }
}

proof fn lemma_child_in_all_nodes(edges: Seq<(String, Vec<String>)>, i: int, j: int)
    requires
        0 <= i < edges.len(),
        0 <= j < edges[i].1@.len(),
    ensures
        all_nodes(edges).contains(edges[i].1@[j]@),
    decreases edges.len(),
{
    let pre = all_nodes(edges.drop_last());
    let tail = views(edges.last().1@);
    if i == edges.len() - 1 {
        assert((pre + seq![edges.last().0@] + tail)[pre.len() + 1 + j] == tail[j]);
    } else {
        assert(edges.drop_last()[i] == edges[i]);
        lemma_child_in_all_nodes(edges.drop_last(), i, j);
        let k = choose|k: int| 0 <= k < pre.len() && pre[k] == edges[i].1@[j]@;
        assert((pre + seq![edges.last().0@] + tail)[k] == pre[k]);
    }
}

impl Clone for SceneGraph {
    fn clone(&self) -> (c: SceneGraph)
        ensures
            c@ == self@,
    {
        proof {
            use_type_invariant(self);
        }
        let mut edges: Vec<(String, Vec<String>)> = Vec::new();
        let mut i: usize = 0;
        while i < self.edges.len()
            invariant
                i <= self.edges@.len(),
                edges@.len() == i,
                forall|j: int| 0 <= j < i ==> #[trigger] edges@[j].0 == self.edges@[j].0 && edges@[j].1@ == self.edges@[j].1@,
            decreases self.edges@.len() - i,
        {
            let entry = (self.edges[i].0.clone(), crate::assoc::clone_strings(&self.edges[i].1));
            edges.push(entry);
            i = i + 1;
        }
        let c = SceneGraph { edges };
        proof {
            assert forall|k: Seq<char>| #[trigger] has_key(c.edges@, k) == has_key(self.edges@, k) by {
                if has_key(c.edges@, k) {
                    let w = choose|w: int| 0 <= w < c.edges@.len() && c.edges@[w].0@ == k;
                    assert(self.edges@[w].0 == c.edges@[w].0);
                }
                if has_key(self.edges@, k) {
                    let w = choose|w: int| 0 <= w < self.edges@.len() && self.edges@[w].0@ == k;
                    assert(self.edges@[w].0 == c.edges@[w].0);
                }
            }
            assert forall|k: Seq<char>| #[trigger] c@.contains_key(k) implies c@[k] == self@[k] by {
                let w = entry_index(c.edges@, k);
                let w2 = entry_index(self.edges@, k);
                assert(self.edges@[w].0 == c.edges@[w].0);
                assert(c.edges@[w2].0 == self.edges@[w2].0);
            }
            assert(c@ =~= self@);
        }
        c
    }
}

impl Default for SceneGraph {
    fn default() -> (g: SceneGraph)
        ensures
            g@ == Map::<Seq<char>, Seq<Seq<char>>>::empty(),
    {
        SceneGraph::new()
    }
}

impl SceneGraph {
    #[verifier::type_invariant]
    spec fn entries_distinct(self) -> bool {
        keys_distinct(self.edges@)
    }

    /// The entries, in insertion order.
    pub closed spec fn entry_seq(self) -> Seq<(String, Vec<String>)> {
        self.edges@
    }

    /// Every scene the graph names, plus `extra`.
    spec fn universe(self, extra: Seq<char>) -> Set<Seq<char>> {
        all_nodes(self.edges@).to_set().insert(extra)
    }

    proof fn lemma_children_in_universe(self, v: Seq<char>, extra: Seq<char>)
        ensures
            forall|c: Seq<char>| #[trigger] children_of(self@, v).contains(c) ==> self.universe(extra).contains(c),
    {
        assert forall|c: Seq<char>| #[trigger] children_of(self@, v).contains(c) implies self.universe(extra).contains(c) by {
            let i = entry_index(self.edges@, v);
            let j = choose|j: int| 0 <= j < children_of(self@, v).len() && children_of(self@, v)[j] == c;
            lemma_child_in_all_nodes(self.edges@, i, j);
        }
    }

    /// An empty graph.
    pub fn new() -> (g: SceneGraph)
        ensures
            g@ == Map::<Seq<char>, Seq<Seq<char>>>::empty(),
    {
        let g = SceneGraph { edges: Vec::new() };
        assert(g@ =~= Map::<Seq<char>, Seq<Seq<char>>>::empty());
        g
    }

    /// Record that `parent` nests `children`, replacing any earlier entry for
    /// `parent`.
    pub fn insert(&mut self, parent: String, children: Vec<String>)
        ensures
            final(self)@ == old(self)@.insert(parent@, views(children@)),
    {
        proof {
            use_type_invariant(&*self);
        }
        let ghost pv = parent@;
        let ghost cv = views(children@);
        let ghost before = self.edges@;
        let mut edges = Vec::new();
        std::mem::swap(&mut edges, &mut self.edges);
        let ghost mut idx: int = 0;
        match find_key(&edges, parent.as_str()) {
            Some(i) => {
                edges.set(i, (parent, children));
                proof {
                    idx = i as int;
                }
                proof {
                    assert forall|a: int, b: int| 0 <= a < b < edges@.len() implies edges@[a].0@ != edges@[b].0@ by {
                        if a != i as int && b != i as int {
                            assert(edges@[a] == before[a] && edges@[b] == before[b]);
                        } else if a == i as int {
                            assert(edges@[b] == before[b]);
                        } else {
                            assert(edges@[a] == before[a]);
                        }
                    }
                }
            },
            None => {
                edges.push((parent, children));
                proof {
                    idx = before.len() as int;
                    assert forall|a: int, b: int| 0 <= a < b < edges@.len() implies edges@[a].0@ != edges@[b].0@ by {
                        if b < before.len() {
                            assert(edges@[a] == before[a] && edges@[b] == before[b]);
                        } else {
                            assert(edges@[a] == before[a]);
                        }
                    }
                }
            },
        }
        self.edges = edges;
        proof {
            let old_map = Map::new(
                |k: Seq<char>| has_key(before, k),
                |k: Seq<char>| views(before[entry_index(before, k)].1@),
            );
            assert forall|k: Seq<char>| #[trigger] self@.contains_key(k) == old_map.insert(pv, cv).contains_key(k) by {
                if k != pv && has_key(before, k) {
                    let w = choose|w: int| 0 <= w < before.len() && before[w].0@ == k;
                    assert(self.edges@[w].0@ == k);
                }
                if k != pv && has_key(self.edges@, k) {
                    let w = choose|w: int| 0 <= w < self.edges@.len() && self.edges@[w].0@ == k;
                    assert(before[w].0@ == k);
                }
                if k == pv {
                    assert(self.edges@[idx].0@ == k);
                }
            }
            assert forall|k: Seq<char>| #[trigger] self@.contains_key(k) implies self@[k] == old_map.insert(pv, cv)[k] by {
                let w = entry_index(self.edges@, k);
                if k == pv {
                    assert(self.edges@[w].1@ == children@ || views(self.edges@[w].1@) == cv);
                } else {
                    let w2 = entry_index(before, k);
                    assert(before[w].0@ == k);
                    assert(self.edges@[w2] == before[w2]);
                }
            }
            assert(self@ =~= old(self)@.insert(pv, cv));
        }
    }

    /// Parent scenes that have an entry, in insertion order, each with the
    /// scenes it nests.
    pub fn entries(&self) -> (e: &Vec<(String, Vec<String>)>)
        ensures
            e@ == self.entry_seq(),
            keys_distinct(e@),
            forall|k: Seq<char>| #[trigger] self@.contains_key(k) <==> has_key(e@, k),
            forall|i: int| 0 <= i < e@.len() ==> #[trigger] self@[e@[i].0@] == views(e@[i].1@),
    {
        proof {
            use_type_invariant(self);
            assert forall|i: int| 0 <= i < self.edges@.len() implies #[trigger] self@[self.edges@[i].0@] == views(self.edges@[i].1@) by {
                assert(has_key(self.edges@, self.edges@[i].0@));
            }
        }
        &self.edges
    }

    /// Direct children of `scene`.
    pub fn children(&self, scene: &str) -> (c: &[String])
        ensures
            views(c@) == children_of(self@, scene@),
    {
        proof {
            use_type_invariant(self);
        }
        match find_key(&self.edges, scene) {
            Some(i) => {
                proof {
                    assert(has_key(self.edges@, scene@));
                }
                self.edges[i].1.as_slice()
            },
            None => {
                let empty: &[String] = &[];
                assert(views(empty@) =~= Seq::<Seq<char>>::empty());
                empty
            },
        }
    }

    /// `true` if `from` depends on `to` through any path (every scene reaches
    /// itself).
    pub fn is_reachable(&self, from: &str, to: &str) -> (r: bool)
        ensures
            r == reachable(self@, from@, to@),
    {
        proof {
            use_type_invariant(self);
        }
        if text_eq(from, to) {
            proof {
                lemma_reachable_reflexive(self@, from@);
            }
            return true;
        }
        let ghost g = self@;
        let ghost u = self.universe(from@);
        proof {
            seq_to_set_is_finite(all_nodes(self.edges@));
        }
        let target = to.to_owned();
        let mut visited: Vec<String> = Vec::new();
        let mut stack: Vec<String> = Vec::new();
        visited.push(from.to_owned());
        stack.push(from.to_owned());
        let ghost mut vis: Set<Seq<char>> = Set::empty().insert(from@);
        proof {
            lemma_reachable_reflexive(g, from@);
            assert(visited@[0]@ == from@);
            assert(stack@[0]@ == from@);
            assert forall|s: Seq<char>| vis.contains(s) <==> exists|i: int| 0 <= i < visited@.len() && visited@[i]@ == s by {
                if vis.contains(s) {
                    assert(visited@[0]@ == s);
                }
            }
            assert(all_nodes(self.edges@).to_set().insert(from@).contains(from@));
        }
        while stack.len() > 0
            invariant
                g == self@,
                u == self.universe(from@),
                u.finite(),
                from@ != to@,
                target@ == to@,
                vis.contains(from@),
                !vis.contains(to@),
                vis.subset_of(u),
                forall|s: Seq<char>| vis.contains(s) <==> exists|i: int| 0 <= i < visited@.len() && visited@[i]@ == s,
                forall|i: int| 0 <= i < stack@.len() ==> vis.contains(#[trigger] stack@[i]@),
                forall|s: Seq<char>| #[trigger] vis.contains(s) ==> reachable(g, from@, s),
                forall|s: Seq<char>| #[trigger] vis.contains(s) ==> (exists|i: int| 0 <= i < stack@.len() && stack@[i]@ == s) || (forall|c: Seq<char>| #[trigger] children_of(g, s).contains(c) ==> vis.contains(c)),
            decreases u.len() - vis.len(), stack@.len(),
        {
            proof {
                lemma_len_subset(vis, u);
            }
            let ghost stack_before_pop = stack@;
            let current = stack.pop().unwrap();
            let ghost vis_at_pop = vis;
            let ghost stack_at_pop = stack@;
            proof {
                assert(stack_before_pop == stack_at_pop.push(current));
                assert(vis.contains(stack_before_pop[stack_before_pop.len() - 1]@));
                assert forall|s: Seq<char>| #[trigger] vis_at_pop.contains(s) && s != current@ implies (exists|i: int| 0 <= i < stack_at_pop.len() && stack_at_pop[i]@ == s) || (forall|c: Seq<char>| #[trigger] children_of(g, s).contains(c) ==> vis.contains(c)) by {
                    if exists|i: int| 0 <= i < stack_before_pop.len() && stack_before_pop[i]@ == s {
                        let i = choose|i: int| 0 <= i < stack_before_pop.len() && stack_before_pop[i]@ == s;
                        if i < stack_at_pop.len() {
                            assert(stack_at_pop[i] == stack_before_pop[i]);
                        }
                    }
                }
            }
            let kids = self.children(current.as_str());
            proof {
                self.lemma_children_in_universe(current@, from@);
            }
            let mut k: usize = 0;
            while k < kids.len()
                invariant
                    g == self@,
                    u == self.universe(from@),
                    u.finite(),
                    from@ != to@,
                    target@ == to@,
                    views(kids@) == children_of(g, current@),
                    k <= kids@.len(),
                    vis.contains(current@),
                    vis.contains(from@),
                    !vis.contains(to@),
                    vis.subset_of(u),
                    vis_at_pop.subset_of(vis),
                    vis.len() >= vis_at_pop.len(),
                    vis.len() > vis_at_pop.len() || stack@ == stack_at_pop,
                    forall|c: Seq<char>| #[trigger] children_of(g, current@).contains(c) ==> u.contains(c),
                    forall|s: Seq<char>| vis.contains(s) <==> exists|i: int| 0 <= i < visited@.len() && visited@[i]@ == s,
                    forall|i: int| 0 <= i < stack@.len() ==> vis.contains(#[trigger] stack@[i]@),
                    forall|i: int| 0 <= i < stack_at_pop.len() ==> stack@[i] == #[trigger] stack_at_pop[i],
                    stack@.len() >= stack_at_pop.len(),
                    forall|j: int| 0 <= j < k ==> vis.contains(#[trigger] views(kids@)[j]),
                    forall|s: Seq<char>| #[trigger] vis.contains(s) ==> reachable(g, from@, s),
                    forall|s: Seq<char>| #[trigger] vis.contains(s) && !vis_at_pop.contains(s) ==> exists|i: int| 0 <= i < stack@.len() && stack@[i]@ == s,
                    forall|s: Seq<char>| #[trigger] vis_at_pop.contains(s) && s != current@ ==> (exists|i: int| 0 <= i < stack_at_pop.len() && stack_at_pop[i]@ == s) || (forall|c: Seq<char>| #[trigger] children_of(g, s).contains(c) ==> vis.contains(c)),
                decreases kids@.len() - k,
            {
                let child = &kids[k];
                proof {
                    assert(views(kids@)[k as int] == child@);
                    assert(children_of(g, current@).contains(child@));
                }
                if *child == target {
                    proof {
                        lemma_reachable_step(g, from@, current@, child@);
                    }
                    return true;
                }
                if !crate::assoc::contains_text(&visited, child.as_str()) {
                    proof {
                        lemma_reachable_step(g, from@, current@, child@);
                        lemma_len_subset(vis, u);
                    }
                    let ghost visited_before = visited@;
                    let ghost vis_before = vis;
                    let ghost stack_before_push = stack@;
                    visited.push(child.clone());
                    stack.push(child.clone());
                    proof {
                        vis = vis.insert(child@);
                        assert(visited@[visited@.len() - 1]@ == child@);
                        assert forall|s: Seq<char>| vis.contains(s) implies exists|i: int| 0 <= i < visited@.len() && visited@[i]@ == s by {
                            if s == child@ {
                                assert(visited@[visited@.len() - 1]@ == s);
                            } else {
                                assert(vis_before.contains(s));
                                let i = choose|i: int| 0 <= i < visited_before.len() && visited_before[i]@ == s;
                                assert(visited@[i] == visited_before[i]);
                            }
                        }
                        assert forall|s: Seq<char>| (exists|i: int| 0 <= i < visited@.len() && visited@[i]@ == s) implies vis.contains(s) by {
                            let i = choose|i: int| 0 <= i < visited@.len() && visited@[i]@ == s;
                            if i < visited@.len() - 1 {
                                assert(visited_before[i] == visited@[i]);
                            }
                        }
                        assert(stack@[stack@.len() - 1]@ == child@);
                        assert forall|s: Seq<char>| #[trigger] vis.contains(s) && !vis_at_pop.contains(s) implies exists|i: int| 0 <= i < stack@.len() && stack@[i]@ == s by {
                            if s == child@ {
                                assert(stack@[stack@.len() - 1]@ == s);
                            } else {
                                assert(vis_before.contains(s));
                                let i = choose|i: int| 0 <= i < stack_before_push.len() && stack_before_push[i]@ == s;
                                assert(stack@[i] == stack_before_push[i]);
                            }
                        }
                        assert forall|i: int| 0 <= i < stack_at_pop.len() implies stack@[i] == #[trigger] stack_at_pop[i] by {
                            assert(stack@[i] == stack_before_push[i]);
                        }
                    }
                } else {
                    proof {
                        let i = choose|i: int| 0 <= i < visited@.len() && visited@[i]@ == child@;
                        assert(vis.contains(child@));
                    }
                }
                k = k + 1;
            }
            proof {
                assert forall|s: Seq<char>| #[trigger] vis.contains(s) implies (exists|i: int| 0 <= i < stack@.len() && stack@[i]@ == s) || (forall|c: Seq<char>| #[trigger] children_of(g, s).contains(c) ==> vis.contains(c)) by {
                    if s == current@ {
                        assert forall|c: Seq<char>| #[trigger] children_of(g, s).contains(c) implies vis.contains(c) by {
                            let j = choose|j: int| 0 <= j < children_of(g, s).len() && children_of(g, s)[j] == c;
                            assert(views(kids@)[j] == c);
                        }
                    } else if vis_at_pop.contains(s) {
                        if exists|i: int| 0 <= i < stack_at_pop.len() && stack_at_pop[i]@ == s {
                            let i = choose|i: int| 0 <= i < stack_at_pop.len() && stack_at_pop[i]@ == s;
                            assert(stack@[i] == stack_at_pop[i]);
                        }
                    }
                }
                lemma_len_subset(vis, u);
            }
        }
        proof {
            if reachable(g, from@, to@) {
                let path = choose|path: Seq<Seq<char>>| is_path(g, path) && path[0] == from@ && path.last() == to@;
                lemma_closed_contains_path(g, vis, path, (path.len() - 1) as nat);
            }
        }
        false
    }
}

/// A child of a reachable scene is reachable.
pub proof fn lemma_reachable_step(g: Adjacency, from: Seq<char>, v: Seq<char>, c: Seq<char>)
    requires
        reachable(g, from, v),
        children_of(g, v).contains(c),
    ensures
        reachable(g, from, c),
{
    let path = choose|path: Seq<Seq<char>>| is_path(g, path) && path[0] == from && path.last() == v;
    let longer = path.push(c);
    assert forall|i: int| 0 <= i < longer.len() - 1 implies #[trigger] children_of(g, longer[i]).contains(longer[i + 1]) by {
        if i < path.len() - 1 {
            assert(longer[i] == path[i] && longer[i + 1] == path[i + 1]);
        }
    }
    assert(is_path(g, longer) && longer[0] == from && longer.last() == c);
}

/// A set closed under nesting that holds a path's first scene holds its
/// whole prefix up to `n`.
proof fn lemma_closed_contains_path(g: Adjacency, vis: Set<Seq<char>>, path: Seq<Seq<char>>, n: nat)
    requires
        is_path(g, path),
        n < path.len(),
        vis.contains(path[0]),
        forall|s: Seq<char>| #[trigger] vis.contains(s) ==> (forall|c: Seq<char>| #[trigger] children_of(g, s).contains(c) ==> vis.contains(c)),
    ensures
        vis.contains(path[n as int]),
    decreases n,
{
    if n > 0 {
        lemma_closed_contains_path(g, vis, path, (n - 1) as nat);
        let i = n - 1;
        assert(children_of(g, path[i]).contains(path[i + 1]));
        assert(path[i + 1] == path[n as int]);
    }
}

/// Every scene reaches itself.
pub proof fn lemma_reachable_reflexive(g: Adjacency, s: Seq<char>)
    ensures
        reachable(g, s, s),
{
    let path = seq![s];
    assert(path.len() == 1 && path[0] == s && path.last() == s);
    assert(is_path(g, path));
}

} // verus!
