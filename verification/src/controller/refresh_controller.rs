//! Decisions behind the OBS refresh helpers.

use vstd::prelude::*;
use crate::controller::event::AppEvent;
use crate::domain::meter::InputLevels;
use crate::domain::obs::ObsNamedList;
use crate::obs::event::ObsEvent;
use crate::text::opt_view;

verus! {

/// Which of the two OBS name lists a refresh concerns.
#[derive(Debug, Clone, Copy, PartialEq, Eq, Structural)]
pub enum NamedList {
    /// Profiles.
    Profiles,
    /// Scene collections.
    SceneCollections,
}

impl NamedList {
    /// Name used when a refresh of this list fails, so the log still says
    /// which list it was.
    pub fn log_name(self) -> (s: &'static str)
        ensures
            s@ == match self {
                NamedList::Profiles => "profile"@,
                NamedList::SceneCollections => "scene collection"@,
            },
    {
        match self {
            NamedList::Profiles => "profile",
            NamedList::SceneCollections => "scene collection",
        }
    }
}

/// The list to publish after a refresh: `current` overrides the active
/// entry when the change event named it, and `fallback_items` stand in when
/// OBS returned no items — which it does for the list-changed events, whose
/// payload is the list itself.
pub fn merge_named_list(fetched: ObsNamedList, current: Option<String>, fallback_items: Vec<String>) -> (r: ObsNamedList)
    ensures
        opt_view(r.current) == match current {
            Some(c) => Some(c@),
            None => opt_view(fetched.current),
        },
        r.items@ == if fetched.items@.len() == 0 { fallback_items@ } else { fetched.items@ },
{
    let mut list = fetched;
    match current {
        Some(c) => {
            list.current = Some(c);
        },
        None => {},
    }
    if list.items.len() == 0 {
        list.items = fallback_items;
    }
    list
}

/// Event that publishes a refreshed list.
pub fn named_list_event(list: NamedList, fetched: ObsNamedList) -> (e: AppEvent)
    ensures
        match list {
            NamedList::Profiles => e matches AppEvent::ProfilesUpdated(l) && l == fetched,
            NamedList::SceneCollections => e matches AppEvent::SceneCollectionsUpdated(l) && l == fetched,
        },
{
    match list {
        NamedList::Profiles => AppEvent::ProfilesUpdated(fetched),
        NamedList::SceneCollections => AppEvent::SceneCollectionsUpdated(fetched),
    }
}

/// What the session does about one OBS event.
#[derive(Debug)]
pub enum SessionAction {
    /// Hand this event to the UI.
    Publish(AppEvent),
    /// Hand a meter frame to the UI without waiting: a busy UI drops the
    /// frame, a closed channel ends the session.
    PublishLevels(Vec<InputLevels>),
    /// Re-read the audio inputs of this scene.
    RefreshSceneAudio(String),
    /// Re-read the audio inputs of the program scene.
    RefreshCurrentSceneAudio,
    /// Re-read a name list and publish it.
    RefreshNamedList {
        /// Which list.
        list: NamedList,
        /// Active entry named by the event, if it named one.
        current: Option<String>,
        /// Items to use if OBS returns none.
        fallback_items: Vec<String>,
    },
    /// Re-read scenes, program-scene audio and the graph.
    RefreshLiveData,
}

/// Whether `a` re-reads `list` with `current` and no fallback items.
pub open spec fn refreshes_named(a: SessionAction, list: NamedList, current: Option<String>) -> bool {
    a matches SessionAction::RefreshNamedList { list: l, current: c, fallback_items: f } && l == list && c == current
        && f@.len() == 0
}

/// Whether `actions` is what the session does about `event`, in order.
pub open spec fn actions_for(actions: Seq<SessionAction>, event: ObsEvent) -> bool {
    match event {
        ObsEvent::StreamStatusUpdated(s) => actions =~= seq![SessionAction::Publish(AppEvent::StreamStatusUpdated(s))],
        ObsEvent::RecordStatusUpdated(s) => actions =~= seq![SessionAction::Publish(AppEvent::RecordStatusUpdated(s))],
        ObsEvent::CurrentProgramSceneChanged(scene) => actions =~= seq![
            SessionAction::Publish(AppEvent::CurrentSceneChanged(scene)),
            SessionAction::RefreshSceneAudio(scene),
        ],
        ObsEvent::InputMuteChanged { input, muted } => actions =~= seq![
            SessionAction::Publish(AppEvent::InputMuteChanged { input, muted }),
        ],
        ObsEvent::InputVolumeChanged { input, volume_mul, volume_db } => actions =~= seq![
            SessionAction::Publish(AppEvent::InputVolumeChanged { input, volume_mul, volume_db }),
        ],
        ObsEvent::InputLevelsUpdated(levels) => actions =~= seq![SessionAction::PublishLevels(levels)],
        ObsEvent::InputsChanged | ObsEvent::SceneItemsChanged => actions =~= seq![SessionAction::RefreshCurrentSceneAudio],
        ObsEvent::CurrentProfileChanged(name) => actions.len() == 1 && refreshes_named(
            actions[0],
            NamedList::Profiles,
            Some(name),
        ),
        ObsEvent::ProfileListChanged(items) => actions =~= seq![
            SessionAction::RefreshNamedList { list: NamedList::Profiles, current: None, fallback_items: items },
        ],
        ObsEvent::CurrentSceneCollectionChanged(name) => actions.len() == 2 && refreshes_named(
            actions[0],
            NamedList::SceneCollections,
            Some(name),
        ) && actions[1] is RefreshLiveData,
        ObsEvent::SceneCollectionListChanged(items) => actions =~= seq![
            SessionAction::RefreshNamedList { list: NamedList::SceneCollections, current: None, fallback_items: items },
        ],
        ObsEvent::SceneListChanged => actions =~= seq![SessionAction::RefreshLiveData],
        ObsEvent::Ignored => actions.len() == 0,
    }
}

/// Decide what the session does about an OBS event: which events go to
/// the UI as they are, and which make it re-read state from OBS. A new
/// scene collection is a new set of scenes, so everything live is re-read.
pub fn session_actions(event: ObsEvent) -> (actions: Vec<SessionAction>)
    ensures
        actions_for(actions@, event),
{
    let mut actions: Vec<SessionAction> = Vec::new();
    match event {
        ObsEvent::StreamStatusUpdated(s) => actions.push(SessionAction::Publish(AppEvent::StreamStatusUpdated(s))),
        ObsEvent::RecordStatusUpdated(s) => actions.push(SessionAction::Publish(AppEvent::RecordStatusUpdated(s))),
        ObsEvent::CurrentProgramSceneChanged(scene) => {
            let again = scene.clone();
            actions.push(SessionAction::Publish(AppEvent::CurrentSceneChanged(scene)));
            actions.push(SessionAction::RefreshSceneAudio(again));
        },
        ObsEvent::InputMuteChanged { input, muted } => actions.push(
            SessionAction::Publish(AppEvent::InputMuteChanged { input, muted }),
        ),
        ObsEvent::InputVolumeChanged { input, volume_mul, volume_db } => actions.push(
            SessionAction::Publish(AppEvent::InputVolumeChanged { input, volume_mul, volume_db }),
        ),
        ObsEvent::InputLevelsUpdated(levels) => actions.push(SessionAction::PublishLevels(levels)),
        ObsEvent::InputsChanged | ObsEvent::SceneItemsChanged => actions.push(SessionAction::RefreshCurrentSceneAudio),
        ObsEvent::CurrentProfileChanged(name) => actions.push(
            SessionAction::RefreshNamedList { list: NamedList::Profiles, current: Some(name), fallback_items: Vec::new() },
        ),
        ObsEvent::ProfileListChanged(items) => actions.push(
            SessionAction::RefreshNamedList { list: NamedList::Profiles, current: None, fallback_items: items },
        ),
        ObsEvent::CurrentSceneCollectionChanged(name) => {
            actions.push(
                SessionAction::RefreshNamedList {
                    list: NamedList::SceneCollections,
                    current: Some(name),
                    fallback_items: Vec::new(),
                },
            );
            actions.push(SessionAction::RefreshLiveData);
        },
        ObsEvent::SceneCollectionListChanged(items) => actions.push(
            SessionAction::RefreshNamedList { list: NamedList::SceneCollections, current: None, fallback_items: items },
        ),
        ObsEvent::SceneListChanged => actions.push(SessionAction::RefreshLiveData),
        ObsEvent::Ignored => {},
    }
    proof {
        assert(actions_for(actions@, event));
    }
    actions
}

/// Whether some action re-reads everything live.
pub open spec fn rereads_live_data(actions: Seq<SessionAction>) -> bool {
    exists|i: int| 0 <= i < actions.len() && (#[trigger] actions[i]) is RefreshLiveData
}

/// Whether some action re-reads the program scene's audio.
pub open spec fn rereads_current_audio(actions: Seq<SessionAction>) -> bool {
    exists|i: int| 0 <= i < actions.len() && (#[trigger] actions[i]) is RefreshCurrentSceneAudio
}

/// Whether some action re-reads the audio of a named scene.
pub open spec fn rereads_scene_audio(actions: Seq<SessionAction>) -> bool {
    exists|i: int| 0 <= i < actions.len() && (#[trigger] actions[i]) is RefreshSceneAudio
}

/// Whether `a` re-reads `list`.
pub open spec fn rereads_list_action(a: SessionAction, list: NamedList) -> bool {
    a matches SessionAction::RefreshNamedList { list: l, .. } && l == list
}

/// Whether some action re-reads `list`.
pub open spec fn rereads_list(actions: Seq<SessionAction>, list: NamedList) -> bool {
    exists|i: int| 0 <= i < actions.len() && rereads_list_action(#[trigger] actions[i], list)
}

/// Every OBS event but `Ignored` makes the session act. An event that
/// changes OBS's set of scenes (the scene list changed, or another scene
/// collection is current) re-reads everything live; a change to the inputs
/// or to scene items re-reads the program scene's audio; a program-scene
/// switch re-reads that scene's audio; a profile change re-reads the
/// profile list and a scene-collection change the collection list.
pub proof fn lemma_every_event_is_acted_on(event: ObsEvent, actions: Seq<SessionAction>)
    requires
        actions_for(actions, event),
    ensures
        actions.len() == 0 <==> event is Ignored,
        event is SceneListChanged || event is CurrentSceneCollectionChanged ==> rereads_live_data(actions),
        event is InputsChanged || event is SceneItemsChanged ==> rereads_current_audio(actions),
        event is CurrentProgramSceneChanged ==> rereads_scene_audio(actions),
        event is CurrentProfileChanged || event is ProfileListChanged ==> rereads_list(actions, NamedList::Profiles),
        event is CurrentSceneCollectionChanged || event is SceneCollectionListChanged ==> rereads_list(
            actions,
            NamedList::SceneCollections,
        ),
{
    match event {
        ObsEvent::SceneListChanged => {
            assert(actions[0] is RefreshLiveData);
        },
        ObsEvent::CurrentSceneCollectionChanged(_) => {
            assert(actions[1] is RefreshLiveData);
            assert(rereads_list_action(actions[0], NamedList::SceneCollections));
        },
        ObsEvent::InputsChanged | ObsEvent::SceneItemsChanged => {
            assert(actions[0] is RefreshCurrentSceneAudio);
        },
        ObsEvent::CurrentProgramSceneChanged(_) => {
            assert(actions[1] is RefreshSceneAudio);
        },
        ObsEvent::CurrentProfileChanged(_) | ObsEvent::ProfileListChanged(_) => {
            assert(rereads_list_action(actions[0], NamedList::Profiles));
        },
        ObsEvent::SceneCollectionListChanged(_) => {
            assert(rereads_list_action(actions[0], NamedList::SceneCollections));
        },
        _ => {},
    }
}

} // verus!

