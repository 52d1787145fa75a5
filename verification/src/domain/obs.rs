//! Lightweight OBS list state used by selector widgets.

use vstd::prelude::*;

verus! {

/// Named OBS resources plus the currently selected item.
#[derive(Debug, Default, Clone)]
pub struct ObsNamedList {
    /// Available resource names in OBS order.
    pub items: Vec<String>,
    /// Current resource name, if OBS reported one.
    pub current: Option<String>,
}

impl ObsNamedList {
    /// Position of the current item inside `items`, if both are known: the
    /// first position holding that name.
    pub fn current_index(&self) -> (r: Option<usize>)
        ensures
            match r {
                Some(i) => self.current is Some && i < self.items@.len() && self.items@[i as int]@
                    == self.current->0@ && forall|j: int|
                    0 <= j < i ==> self.items@[j]@ != self.current->0@,
                None => self.current is None || forall|j: int|
                    0 <= j < self.items@.len() ==> self.items@[j]@ != self.current->0@,
            },
    {
        match &self.current {
            None => None,
            Some(current) => {
                let mut i: usize = 0;
                while i < self.items.len()
                    invariant
                        i <= self.items@.len(),
                        self.current == Some(*current),
                        forall|j: int| 0 <= j < i ==> self.items@[j]@ != current@,
                    decreases self.items@.len() - i,
                {
                    if self.items[i] == *current {
                        return Some(i);
                    }
                    i = i + 1;
                }
                None
            },
        }
    }

    /// Whether the list contains any selectable items.
    pub fn has_items(&self) -> (b: bool)
        ensures
            b == (self.items@.len() > 0),
    {
        self.items.len() > 0
    }
}

} // verus!
