//! The scene walks behind the mixer and the dependency graph.
//!
//! OBS answers one scene at a time, so finding the audio inputs of a scene
//! means listing its items, following nested scenes and groups, and asking
//! again. The websocket client does the asking; [`SceneAudioScan`] decides
//! what to ask next and what the answers mean.

use vstd::prelude::*;
use crate::assoc::{clone_strings, contains_text, views};
use crate::domain::audio::{AudioInput, AudioSourceScope};
use crate::domain::graph::SceneGraph;
use crate::text::owned;

verus! {

/// What a scene item is, as far as the walks care.
#[derive(Debug, Clone, Copy, PartialEq, Eq, Structural)]
pub enum SceneItemKind {
    /// An input source.
    Input,
    /// A nested scene or a group.
    Scene,
    /// Anything else (filters, transitions).
    Other,
}

/// One item of a scene, as OBS listed it.
#[derive(Debug, Clone, PartialEq, Eq)]
pub struct SceneItemInfo {
    /// Name of the item's source.
    pub source_name: String,
    /// What the item is.
    pub kind: SceneItemKind,
    /// Whether a nested scene item is a group, when OBS says.
    pub is_group: Option<bool>,
    /// Whether the item is enabled (visible) in its scene.
    pub enabled: bool,
}

/// A scene or group still to be listed.
#[derive(Debug, Clone, PartialEq, Eq)]
pub struct SceneAudioContainer {
    /// Scene or group name.
    pub name: String,
    /// Whether it is a group.
    pub is_group: bool,
    /// Whether failing to list it fails the whole walk.
    pub required: bool,
    /// Scenes leading from the inspected scene to this one, both included.
    pub path: Vec<String>,
    /// Scope of the inputs found directly in it.
    pub scope: AudioSourceScope,
}

/// An input found by the walk, before its levels are read.
#[derive(Debug, Clone, PartialEq, Eq)]
pub struct AudioInputSource {
    /// Input name.
    pub name: String,
    /// Where it was found.
    pub scope: AudioSourceScope,
    /// Scenes leading from the inspected scene to it.
    pub parent_scene_path: Vec<String>,
}

/// What a container says: name, group, required, path, scope.
pub type ContainerView = (Seq<char>, bool, bool, Seq<Seq<char>>, AudioSourceScope);

/// What a found input says: name, scope, path.
pub type SourceView = (Seq<char>, AudioSourceScope, Seq<Seq<char>>);

/// View of a container.
pub open spec fn container_view(c: SceneAudioContainer) -> ContainerView {
    (c.name@, c.is_group, c.required, views(c.path@), c.scope)
}

/// View of a found input.
pub open spec fn source_view(s: AudioInputSource) -> SourceView {
    (s.name@, s.scope, views(s.parent_scene_path@))
}

/// Views of the found inputs.
pub open spec fn source_views(s: Seq<AudioInputSource>) -> Seq<SourceView> {
    s.map_values(|x: AudioInputSource| source_view(x))
}

/// Views of the containers.
pub open spec fn container_views(s: Seq<SceneAudioContainer>) -> Seq<ContainerView> {
    s.map_values(|x: SceneAudioContainer| container_view(x))
}

/// Seen names, found inputs and pending containers after the items of
/// container `c` are taken in order: an enabled input passes the filter
/// (when there is one) and is found once, in `c`'s scope and at `c`'s path;
/// an enabled nested scene or group becomes a container one level deeper.
pub open spec fn after_items(
    seen: Seq<Seq<char>>,
    sources: Seq<SourceView>,
    pending: Seq<ContainerView>,
    filter: Seq<Seq<char>>,
    c: ContainerView,
    items: Seq<SceneItemInfo>,
) -> (Seq<Seq<char>>, Seq<SourceView>, Seq<ContainerView>)
    decreases items.len(),
{
    if items.len() == 0 {
        (seen, sources, pending)
    } else {
        let (s0, f0, p0) = after_items(seen, sources, pending, filter, c, items.drop_last());
        let item = items.last();
        let name = item.source_name@;
        if !item.enabled {
            (s0, f0, p0)
        } else {
            match item.kind {
                SceneItemKind::Input => if (filter.len() > 0 && !filter.contains(name)) || s0.contains(name) {
                    (s0, f0, p0)
                } else {
                    (s0.push(name), f0.push((name, c.4, c.3)), p0)
                },
                SceneItemKind::Scene => {
                    let group = match item.is_group {
                        Some(g) => g,
                        None => false,
                    };
                    (
                        s0,
                        f0,
                        p0.push(
                            (
                                name,
                                group,
                                false,
                                c.3.push(name),
                                if group { AudioSourceScope::Group } else { AudioSourceScope::NestedScene },
                            ),
                        ),
                    )
                },
                SceneItemKind::Other => (s0, f0, p0),
            }
        }
    }
}

/// Global inputs found once each, in order.
pub open spec fn globals_found(names: Seq<Seq<char>>) -> (Seq<Seq<char>>, Seq<SourceView>)
    decreases names.len(),
{
    if names.len() == 0 {
        (Seq::empty(), Seq::empty())
    } else {
        let (s, f) = globals_found(names.drop_last());
        let n = names.last();
        if s.contains(n) {
            (s, f)
        } else {
            (s.push(n), f.push((n, AudioSourceScope::Global, Seq::<Seq<char>>::empty())))
        }
    }
}

/// Pending containers after dropping already-visited ones from the top,
/// and the container taken next, if any.
pub open spec fn take_next(pending: Seq<ContainerView>, visited: Seq<(Seq<char>, bool)>) -> (Seq<ContainerView>, Option<ContainerView>)
    decreases pending.len(),
{
    if pending.len() == 0 {
        (pending, None)
    } else {
        let top = pending.last();
        if visited.contains((top.0, top.1)) {
            take_next(pending.drop_last(), visited)
        } else {
            (pending.drop_last(), Some(top))
        }
    }
}

/// Names of the found inputs, in order.
pub open spec fn found_names(found: Seq<SourceView>) -> Seq<Seq<char>> {
    found.map_values(|v: SourceView| v.0)
}

/// The walk's bookkeeping agrees with what it found: the seen names are the
/// found inputs' names, and no name is there twice.
pub open spec fn found_once(seen: Seq<Seq<char>>, found: Seq<SourceView>) -> bool {
    seen.no_duplicates() && found_names(found) == seen
}

/// The global inputs are found once each.
pub proof fn lemma_globals_found_once(names: Seq<Seq<char>>)
    ensures
        found_once(globals_found(names).0, globals_found(names).1),
    decreases names.len(),
{
    if names.len() == 0 {
        assert(found_names(Seq::<SourceView>::empty()) =~= Seq::<Seq<char>>::empty());
    } else {
        lemma_globals_found_once(names.drop_last());
        let (s, f) = globals_found(names.drop_last());
        let n = names.last();
        if !s.contains(n) {
            assert(found_names(f.push((n, AudioSourceScope::Global, Seq::<Seq<char>>::empty()))) =~= found_names(f).push(n));
        }
    }
}

/// Taking a container's items keeps every input found once: an input
/// already seen is not found again, and an input that is found becomes
/// seen.
pub proof fn lemma_items_keep_inputs_found_once(
    seen: Seq<Seq<char>>,
    sources: Seq<SourceView>,
    pending: Seq<ContainerView>,
    filter: Seq<Seq<char>>,
    c: ContainerView,
    items: Seq<SceneItemInfo>,
)
    requires
        found_once(seen, sources),
    ensures
        found_once(
            after_items(seen, sources, pending, filter, c, items).0,
            after_items(seen, sources, pending, filter, c, items).1,
        ),
    decreases items.len(),
{
    if items.len() > 0 {
        lemma_items_keep_inputs_found_once(seen, sources, pending, filter, c, items.drop_last());
        let (s0, f0, p0) = after_items(seen, sources, pending, filter, c, items.drop_last());
        let name = items.last().source_name@;
        assert(found_names(f0.push((name, c.4, c.3))) =~= found_names(f0).push(name));
    }
}

/// A walk over the scenes and groups nested in one scene, collecting its
/// audio inputs. Global inputs (desktop and microphone devices) come first;
/// every input is found once, at the first place the walk meets it.
#[derive(Debug)]
pub struct SceneAudioScan {
    filter: Vec<String>,
    seen: Vec<String>,
    sources: Vec<AudioInputSource>,
    visited: Vec<(String, bool)>,
    pending: Vec<SceneAudioContainer>,
}

impl SceneAudioScan {
    /// Names of the inputs found so far.
    pub closed spec fn seen_names(&self) -> Seq<Seq<char>> {
        views(self.seen@)
    }

    /// Inputs found so far, in order.
    pub closed spec fn found(&self) -> Seq<SourceView> {
        source_views(self.sources@)
    }

    /// Containers already listed.
    pub closed spec fn visited_containers(&self) -> Seq<(Seq<char>, bool)> {
        self.visited@.map_values(|v: (String, bool)| (v.0@, v.1))
    }

    /// Containers still to list; the last one is listed first.
    pub closed spec fn pending_containers(&self) -> Seq<ContainerView> {
        container_views(self.pending@)
    }

    /// Input names the walk keeps, or all when empty.
    pub closed spec fn filter_names(&self) -> Seq<Seq<char>> {
        views(self.filter@)
    }

    /// Start a walk of `scene_name`, keeping only inputs named in `filter`
    /// (all when it is empty) among those found in scenes, after the global
    /// inputs `global_names`.
    pub fn new(scene_name: &str, filter: Vec<String>, global_names: Vec<String>) -> (s: SceneAudioScan)
        ensures
            (s.seen_names(), s.found()) == globals_found(views(global_names@)),
            s.visited_containers().len() == 0,
            s.pending_containers() == seq![
                (scene_name@, false, true, seq![scene_name@], AudioSourceScope::ActiveScene),
            ],
            s.filter_names() == views(filter@),
    {
        let mut seen: Vec<String> = Vec::new();
        let mut sources: Vec<AudioInputSource> = Vec::new();
        let ghost names = views(global_names@);
        let mut i: usize = 0;
        while i < global_names.len()
            invariant
                i <= global_names@.len(),
                names == views(global_names@),
                (views(seen@), source_views(sources@)) == globals_found(names.take(i as int)),
            decreases global_names@.len() - i,
        {
            proof {
                assert(names.take(i + 1).drop_last() =~= names.take(i as int));
            }
            let name = global_names[i].as_str();
            if !contains_text(&seen, name) {
                let ghost s0 = views(seen@);
                let ghost f0 = source_views(sources@);
                seen.push(owned(name));
                let empty: Vec<String> = Vec::new();
                proof {
                    assert(views(empty@) =~= Seq::<Seq<char>>::empty());
                }
                sources.push(AudioInputSource { name: owned(name), scope: AudioSourceScope::Global, parent_scene_path: empty });
                proof {
                    assert(views(seen@) =~= s0.push(name@));
                    assert(source_views(sources@) =~= f0.push((name@, AudioSourceScope::Global, Seq::<Seq<char>>::empty())));
                }
            } else {
                proof {
                    let j = choose|j: int| 0 <= j < seen@.len() && seen@[j]@ == name@;
                    assert(views(seen@)[j] == name@);
                }
            }
            i = i + 1;
        }
        assert(names.take(global_names@.len() as int) =~= names);
        let mut path: Vec<String> = Vec::new();
        path.push(owned(scene_name));
        assert(views(path@) =~= seq![scene_name@]);
        let mut pending: Vec<SceneAudioContainer> = Vec::new();
        pending.push(
            SceneAudioContainer {
                name: owned(scene_name),
                is_group: false,
                required: true,
                path,
                scope: AudioSourceScope::ActiveScene,
            },
        );
        let s = SceneAudioScan { filter, seen, sources, visited: Vec::new(), pending };
        proof {
            assert(s.pending_containers() =~= seq![
                (scene_name@, false, true, seq![scene_name@], AudioSourceScope::ActiveScene),
            ]);
            assert(s.visited_containers() =~= Seq::<(Seq<char>, bool)>::empty());
        }
        s
    }

    /// Whether a container with this name and kind was already listed.
    fn was_visited(&self, name: &str, is_group: bool) -> (r: bool)
        ensures
            r == self.visited_containers().contains((name@, is_group)),
    {
        let mut i: usize = 0;
        while i < self.visited.len()
            invariant
                i <= self.visited@.len(),
                forall|j: int| 0 <= j < i ==> #[trigger] self.visited_containers()[j] != (name@, is_group),
            decreases self.visited@.len() - i,
        {
            if self.visited[i].1 == is_group && self.visited[i].0.as_str().unicode_len() == name.unicode_len() {
                if crate::text::text_eq(self.visited[i].0.as_str(), name) {
                    assert(self.visited_containers()[i as int] == (name@, is_group));
                    return true;
                }
            }
            i = i + 1;
        }
        false
    }

    /// The next container to list: the most recently found one that was not
    /// listed yet. It is marked as listed.
    pub fn next_container(&mut self) -> (r: Option<SceneAudioContainer>)
        ensures
            ({
                let (rest, next) = take_next(old(self).pending_containers(), old(self).visited_containers());
                &&& final(self).pending_containers() == rest
                &&& match next {
                    Some(c) => r matches Some(x) && container_view(x) == c && final(self).visited_containers()
                        == old(self).visited_containers().push((c.0, c.1)),
                    None => r is None && final(self).visited_containers() == old(self).visited_containers(),
                }
            }),
            final(self).seen_names() == old(self).seen_names(),
            final(self).found() == old(self).found(),
            final(self).filter_names() == old(self).filter_names(),
    {
        let ghost visited0 = self.visited_containers();
        loop
            invariant
                self.visited_containers() == visited0,
                visited0 == old(self).visited_containers(),
                take_next(old(self).pending_containers(), visited0) == take_next(self.pending_containers(), visited0),
                self.seen_names() == old(self).seen_names(),
                self.found() == old(self).found(),
                self.filter_names() == old(self).filter_names(),
            decreases self.pending@.len(),
        {
            let ghost before = self.pending@;
            match self.pending.pop() {
                None => {
                    assert(self.pending_containers() =~= Seq::<ContainerView>::empty());
                    assert(take_next(self.pending_containers(), visited0) == (self.pending_containers(), None::<ContainerView>));
                    return None;
                },
                Some(container) => {
                    proof {
                        assert(container_views(self.pending@) =~= container_views(before).drop_last());
                        assert(container_views(before).last() == container_view(container));
                        assert(container_views(before).len() > 0);
                    }
                    if !self.was_visited(container.name.as_str(), container.is_group) {
                        let ghost vis = self.visited@;
                        self.visited.push((owned(container.name.as_str()), container.is_group));
                        proof {
                            assert(self.visited_containers() =~= visited0.push((container.name@, container.is_group)));
                            assert(take_next(container_views(before), visited0) == (
                                container_views(before).drop_last(),
                                Some(container_view(container)),
                            ));
                        }
                        return Some(container);
                    }
                },
            }
        }
    }

    /// Take the items listed for `container`, in their order.
    pub fn add_items(&mut self, container: &SceneAudioContainer, items: &Vec<SceneItemInfo>)
        ensures
            (final(self).seen_names(), final(self).found(), final(self).pending_containers()) == after_items(
                old(self).seen_names(),
                old(self).found(),
                old(self).pending_containers(),
                old(self).filter_names(),
                container_view(*container),
                items@,
            ),
            final(self).visited_containers() == old(self).visited_containers(),
            final(self).filter_names() == old(self).filter_names(),
    {
        let ghost c = container_view(*container);
        let mut i: usize = 0;
        while i < items.len()
            invariant
                i <= items@.len(),
                c == container_view(*container),
                (self.seen_names(), self.found(), self.pending_containers()) == after_items(
                    old(self).seen_names(),
                    old(self).found(),
                    old(self).pending_containers(),
                    old(self).filter_names(),
                    c,
                    items@.take(i as int),
                ),
                self.visited_containers() == old(self).visited_containers(),
                self.filter_names() == old(self).filter_names(),
            decreases items@.len() - i,
        {
            proof {
                assert(items@.take(i + 1).drop_last() =~= items@.take(i as int));
            }
            let item = &items[i];
            if item.enabled {
                match item.kind {
                    SceneItemKind::Input => {
                        let name = item.source_name.as_str();
                        let passes = self.filter.len() == 0 || contains_text(&self.filter, name);
                        let seen = contains_text(&self.seen, name);
                        proof {
                            let f = self.filter_names();
                            if f.len() > 0 && !contains_text_spec(self.filter@, name@) {
                                assert forall|j: int| 0 <= j < f.len() implies f[j] != name@ by {
                                    assert(f[j] == self.filter@[j]@);
                                }
                            }
                            if contains_text_spec(self.filter@, name@) {
                                let j = choose|j: int| 0 <= j < self.filter@.len() && self.filter@[j]@ == name@;
                                assert(f[j] == name@);
                            }
                            let s = self.seen_names();
                            if contains_text_spec(self.seen@, name@) {
                                let j = choose|j: int| 0 <= j < self.seen@.len() && self.seen@[j]@ == name@;
                                assert(s[j] == name@);
                            } else {
                                assert forall|j: int| 0 <= j < s.len() implies s[j] != name@ by {
                                    assert(s[j] == self.seen@[j]@);
                                }
                            }
                        }
                        if passes && !seen {
                            let ghost s0 = self.seen_names();
                            let ghost f0 = self.found();
                            self.seen.push(owned(name));
                            self.sources.push(
                                AudioInputSource {
                                    name: owned(name),
                                    scope: container.scope,
                                    parent_scene_path: clone_strings(&container.path),
                                },
                            );
                            proof {
                                assert(self.seen_names() =~= s0.push(name@));
                                assert(self.found() =~= f0.push((name@, c.4, c.3)));
                            }
                        }
                    },
                    SceneItemKind::Scene => {
                        let is_group = match item.is_group {
                            Some(g) => g,
                            None => false,
                        };
                        let mut path = clone_strings(&container.path);
                        let ghost p0 = self.pending_containers();
                        path.push(owned(item.source_name.as_str()));
                        assert(views(path@) =~= c.3.push(item.source_name@));
                        self.pending.push(
                            SceneAudioContainer {
                                name: owned(item.source_name.as_str()),
                                is_group,
                                required: false,
                                path,
                                scope: if is_group { AudioSourceScope::Group } else { AudioSourceScope::NestedScene },
                            },
                        );
                        proof {
                            assert(self.pending_containers() =~= p0.push(
                                (
                                    item.source_name@,
                                    is_group,
                                    false,
                                    c.3.push(item.source_name@),
                                    if is_group { AudioSourceScope::Group } else { AudioSourceScope::NestedScene },
                                ),
                            ));
                        }
                    },
                    SceneItemKind::Other => {},
                }
            }
            i = i + 1;
        }
        assert(items@.take(items@.len() as int) =~= items@);
    }

    /// The inputs found, in order.
    pub fn into_sources(self) -> (r: Vec<AudioInputSource>)
        ensures
            source_views(r@) == self.found(),
    {
        self.sources
    }
}

/// Names of the global audio inputs OBS reports (two desktop and four
/// microphone slots), skipping the empty slots, in slot order.
pub fn global_audio_input_names(slots: Vec<Option<String>>) -> (r: Vec<String>)
    ensures
        views(r@) == slots@.filter(|o: Option<String>| o is Some).map_values(|o: Option<String>| o->0@),
{
    let ghost want = slots@.filter(|o: Option<String>| o is Some).map_values(|o: Option<String>| o->0@);
    let mut r: Vec<String> = Vec::new();
    let mut i: usize = 0;
    while i < slots.len()
        invariant
            i <= slots@.len(),
            views(r@) == slots@.take(i as int).filter(|o: Option<String>| o is Some).map_values(|o: Option<String>| o->0@),
        decreases slots@.len() - i,
    {
        proof {
            reveal_with_fuel(Seq::filter, 1);
            assert(slots@.take(i + 1).drop_last() =~= slots@.take(i as int));
        }
        let ghost before = views(r@);
        match &slots[i] {
            Some(name) => {
                r.push(owned(name.as_str()));
                assert(views(r@) =~= before.push(name@));
            },
            None => {},
        }
        proof {
            let t = slots@.take(i + 1).filter(|o: Option<String>| o is Some);
            let t0 = slots@.take(i as int).filter(|o: Option<String>| o is Some);
            if slots@[i as int] is Some {
                assert(t =~= t0.push(slots@[i as int]));
                assert(t.map_values(|o: Option<String>| o->0@) =~= t0.map_values(|o: Option<String>| o->0@).push(slots@[i as int]->0@));
            } else {
                assert(t =~= t0);
            }
        }
        i = i + 1;
    }
    assert(slots@.take(slots@.len() as int) =~= slots@);
    r
}

/// What was read of one found input: mute state and the bit patterns of
/// its volume multiplier and decibels; `None` when either read failed.
pub type InputReading = Option<(bool, u64, u64)>;

/// The audio inputs for the found sources whose readings succeeded, in
/// order; a source whose reading failed is left out.
pub open spec fn read_inputs(sources: Seq<AudioInputSource>, readings: Seq<InputReading>) -> Seq<AudioInputSource>
    decreases sources.len(),
{
    if sources.len() == 0 || readings.len() != sources.len() {
        Seq::empty()
    } else {
        let rest = read_inputs(sources.drop_last(), readings.drop_last());
        if readings.last() is Some {
            rest.push(sources.last())
        } else {
            rest
        }
    }
}

/// The readings that succeeded, in order.
pub open spec fn read_values(readings: Seq<InputReading>) -> Seq<(bool, u64, u64)> {
    readings.filter(|r: InputReading| r is Some).map_values(|r: InputReading| r->0)
}

/// Whether `a` is the mixer input built from source `s` with reading `v`.
pub open spec fn input_read_as(a: AudioInput, s: AudioInputSource, v: (bool, u64, u64)) -> bool {
    &&& a.id@ == s.name@
    &&& a.name@ == s.name@
    &&& a.display_name@ == s.name@
    &&& a.source_scope == s.scope
    &&& a.parent_scene_path@ == s.parent_scene_path@
    &&& a.muted == v.0
    &&& a.volume_mul == v.1
    &&& a.volume_db == v.2
    &&& !a.locked_locally
}

/// Build the mixer inputs from the found sources and what was read of
/// each; a source whose mute state or volume could not be read is left out.
pub fn inputs_from_readings(sources: Vec<AudioInputSource>, readings: Vec<InputReading>) -> (r: Vec<AudioInput>)
    requires
        sources@.len() == readings@.len(),
    ensures
        r@.len() == read_inputs(sources@, readings@).len(),
        r@.len() == read_values(readings@).len(),
        forall|i: int|
            0 <= i < r@.len() ==> input_read_as(#[trigger] r@[i], read_inputs(sources@, readings@)[i], read_values(readings@)[i]),
{
    let mut r: Vec<AudioInput> = Vec::new();
    let mut i: usize = 0;
    while i < sources.len()
        invariant
            i <= sources@.len(),
            sources@.len() == readings@.len(),
            r@.len() == read_inputs(sources@.take(i as int), readings@.take(i as int)).len(),
            r@.len() == read_values(readings@.take(i as int)).len(),
            forall|j: int|
                0 <= j < r@.len() ==> input_read_as(#[trigger] r@[j], read_inputs(sources@.take(i as int), readings@.take(i as int))[j], read_values(readings@.take(i as int))[j]),
        decreases sources@.len() - i,
    {
        proof {
            reveal_with_fuel(Seq::filter, 1);
            assert(sources@.take(i + 1).drop_last() =~= sources@.take(i as int));
            assert(readings@.take(i + 1).drop_last() =~= readings@.take(i as int));
        }
        let ghost prev_inputs = read_inputs(sources@.take(i as int), readings@.take(i as int));
        let ghost prev_values = read_values(readings@.take(i as int));
        let ghost old_r = r@;
        match readings[i] {
            Some((muted, volume_mul, volume_db)) => {
                let source = &sources[i];
                let input = AudioInput::new(owned(source.name.as_str()), muted, volume_mul, volume_db)
                    .with_source_context(source.scope, clone_strings(&source.parent_scene_path));
                r.push(input);
                proof {
                    let t = readings@.take(i + 1).filter(|x: InputReading| x is Some);
                    let t0 = readings@.take(i as int).filter(|x: InputReading| x is Some);
                    assert(t =~= t0.push(readings@[i as int]));
                    assert(read_values(readings@.take(i + 1)) =~= prev_values.push((muted, volume_mul, volume_db)));
                    assert(read_inputs(sources@.take(i + 1), readings@.take(i + 1)) =~= prev_inputs.push(sources@[i as int]));
                    assert forall|j: int| 0 <= j < r@.len() implies input_read_as(#[trigger] r@[j], read_inputs(sources@.take(i + 1), readings@.take(i + 1))[j], read_values(readings@.take(i + 1))[j]) by {
                        if j < old_r.len() {
                            assert(r@[j] == old_r[j]);
                            assert(input_read_as(old_r[j], prev_inputs[j], prev_values[j]));
                        }
                    }
                }
            },
            None => {
                proof {
                    let t = readings@.take(i + 1).filter(|x: InputReading| x is Some);
                    let t0 = readings@.take(i as int).filter(|x: InputReading| x is Some);
                    assert(t =~= t0);
                    assert(read_values(readings@.take(i + 1)) =~= prev_values);
                    assert(read_inputs(sources@.take(i + 1), readings@.take(i + 1)) =~= prev_inputs);
                    assert forall|j: int| 0 <= j < r@.len() implies input_read_as(#[trigger] r@[j], read_inputs(sources@.take(i + 1), readings@.take(i + 1))[j], read_values(readings@.take(i + 1))[j]) by {
                        assert(r@[j].id@ == prev_inputs[j].name@);
                    }
                }
            },
        }
        i = i + 1;
    }
    assert(sources@.take(sources@.len() as int) =~= sources@);
    assert(readings@.take(readings@.len() as int) =~= readings@);
    r
}

/// Names of the nested scenes among a scene's items, in order.
pub open spec fn nested_scene_names(items: Seq<SceneItemInfo>) -> Seq<Seq<char>> {
    items.filter(|it: SceneItemInfo| it.kind == SceneItemKind::Scene).map_values(|it: SceneItemInfo| it.source_name@)
}

/// The dependency graph of scenes listed with their items: each scene that
/// nests other scenes maps to them; scenes that nest none are left out.
pub open spec fn graph_of(scenes: Seq<(String, Vec<SceneItemInfo>)>) -> Map<Seq<char>, Seq<Seq<char>>>
    decreases scenes.len(),
{
    if scenes.len() == 0 {
        Map::empty()
    } else {
        let g = graph_of(scenes.drop_last());
        let kids = nested_scene_names(scenes.last().1@);
        if kids.len() == 0 {
            g
        } else {
            g.insert(scenes.last().0@, kids)
        }
    }
}

/// Build the scene dependency graph from each scene's listed items.
pub fn scene_graph_from_items(scenes: &Vec<(String, Vec<SceneItemInfo>)>) -> (g: SceneGraph)
    ensures
        g@ == graph_of(scenes@),
{
    let mut graph = SceneGraph::new();
    let mut i: usize = 0;
    while i < scenes.len()
        invariant
            i <= scenes@.len(),
            graph@ == graph_of(scenes@.take(i as int)),
        decreases scenes@.len() - i,
    {
        proof {
            assert(scenes@.take(i + 1).drop_last() =~= scenes@.take(i as int));
        }
        let items = &scenes[i].1;
        let mut children: Vec<String> = Vec::new();
        let mut j: usize = 0;
        while j < items.len()
            invariant
                j <= items@.len(),
                views(children@) == nested_scene_names(items@.take(j as int)),
            decreases items@.len() - j,
        {
            proof {
                reveal_with_fuel(Seq::filter, 1);
                assert(items@.take(j + 1).drop_last() =~= items@.take(j as int));
            }
            let ghost before = views(children@);
            if items[j].kind == SceneItemKind::Scene {
                children.push(owned(items[j].source_name.as_str()));
            }
            proof {
                let t = items@.take(j + 1).filter(|it: SceneItemInfo| it.kind == SceneItemKind::Scene);
                let t0 = items@.take(j as int).filter(|it: SceneItemInfo| it.kind == SceneItemKind::Scene);
                if items@[j as int].kind == SceneItemKind::Scene {
                    assert(t =~= t0.push(items@[j as int]));
                    assert(views(children@) =~= before.push(items@[j as int].source_name@));
                    assert(t.map_values(|it: SceneItemInfo| it.source_name@) =~= t0.map_values(
                        |it: SceneItemInfo| it.source_name@,
                    ).push(items@[j as int].source_name@));
                } else {
                    assert(t =~= t0);
                }
            }
            j = j + 1;
        }
        assert(items@.take(items@.len() as int) =~= items@);
        if children.len() > 0 {
            graph.insert(owned(scenes[i].0.as_str()), children);
        }
        i = i + 1;
    }
    assert(scenes@.take(scenes@.len() as int) =~= scenes@);
    graph
}

/// Whether some string in `items` spells `k`.
pub open spec fn contains_text_spec(items: Seq<String>, k: Seq<char>) -> bool {
    exists|i: int| 0 <= i < items.len() && items[i]@ == k
}

} // verus!
