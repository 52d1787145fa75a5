//! Scene inventory state normalized from OBS.

use vstd::prelude::*;

verus! {

/// OBS scene identity and user-visible name.
#[derive(Debug, Clone)]
pub struct Scene {
    /// Stable OBS scene identifier.
    pub id: String,
    /// User-visible scene name. Currently the same value as `id`.
    pub name: String,
}

/// Whether some scene in `scenes` has the id `id`.
pub open spec fn has_scene(scenes: Seq<Scene>, id: Seq<char>) -> bool {
    exists|i: int| 0 <= i < scenes.len() && scenes[i].id@ == id
}

/// Full scene list plus the currently active scene.
#[derive(Debug, Default, Clone)]
pub struct SceneInventory {
    /// OBS scenes in switcher order.
    pub scenes: Vec<Scene>,
    /// Currently active program scene id, if OBS has reported one.
    pub current_id: Option<String>,
    /// Program scene that was active before the current one.
    pub previous_id: Option<String>,
}

/// Whether the inventory lists a scene with this id.
pub fn inventory_has_scene(scenes: &Vec<Scene>, id: &str) -> (r: bool)
    ensures
        r == has_scene(scenes@, id@),
{
    let key = id.to_owned();
    let mut i: usize = 0;
    while i < scenes.len()
        invariant
            i <= scenes@.len(),
            key@ == id@,
            forall|j: int| 0 <= j < i ==> scenes@[j].id@ != id@,
        decreases scenes@.len() - i,
    {
        if scenes[i].id == key {
            return true;
        }
        i = i + 1;
    }
    false
}

impl SceneInventory {
    /// Scene matching `current_id`, if it is present in the inventory: the
    /// first one in switcher order.
    pub fn current_scene(&self) -> (r: Option<&Scene>)
        ensures
            match r {
                Some(s) => self.current_id is Some && exists|i: int|
                    0 <= i < self.scenes@.len() && self.scenes@[i] == *s && s.id@
                        == self.current_id->0@ && forall|j: int|
                        0 <= j < i ==> self.scenes@[j].id@ != self.current_id->0@,
                None => self.current_id is None || !has_scene(self.scenes@, self.current_id->0@),
            },
    {
        match &self.current_id {
            None => None,
            Some(current) => {
                let mut i: usize = 0;
                while i < self.scenes.len()
                    invariant
                        i <= self.scenes@.len(),
                        self.current_id == Some(*current),
                        forall|j: int| 0 <= j < i ==> self.scenes@[j].id@ != current@,
                    decreases self.scenes@.len() - i,
                {
                    if self.scenes[i].id == *current {
                        return Some(&self.scenes[i]);
                    }
                    i = i + 1;
                }
                None
            },
        }
    }

    /// Make `scene_id` the current scene, remembering the one it replaces.
    /// Reporting the scene that is already current changes nothing.
    pub fn set_current_scene(&mut self, scene_id: String)
        ensures
            (old(self).current_id matches Some(c) && c@ == scene_id@) ==> *final(self)
                == *old(self),
            !(old(self).current_id matches Some(c) && c@ == scene_id@) ==> {
                &&& final(self).current_id == Some(scene_id)
                &&& final(self).previous_id == old(self).current_id
                &&& final(self).scenes == old(self).scenes
            },
    {
        let same = match &self.current_id {
            Some(c) => *c == scene_id,
            None => false,
        };
        if !same {
            let previous = self.current_id.take();
            self.previous_id = previous;
            self.current_id = Some(scene_id);
        }
    }
}

} // verus!
