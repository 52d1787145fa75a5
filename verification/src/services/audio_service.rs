//! Audio input queries.

use vstd::prelude::*;
use crate::assoc::{contains_text, views};
use crate::domain::audio::{same_input, AudioInput};

verus! {

/// Inputs the mixer shows for a configured name list: all of them when the
/// list is empty, else those whose name is listed, in their order.
pub open spec fn configured_inputs(inputs: Seq<AudioInput>, configured: Seq<Seq<char>>) -> Seq<AudioInput> {
    if configured.len() == 0 {
        inputs
    } else {
        inputs.filter(|a: AudioInput| configured.contains(a.name@))
    }
}

/// Audio input queries.
pub struct AudioService;

impl AudioService {
    /// Keep the inputs named in `configured`; an empty list keeps them all.
    pub fn filter_configured(inputs: &Vec<AudioInput>, configured: &Vec<String>) -> (r: Vec<AudioInput>)
        ensures
            r@.len() == configured_inputs(inputs@, views(configured@)).len(),
            forall|i: int| 0 <= i < r@.len() ==> same_input(#[trigger] r@[i], configured_inputs(inputs@, views(configured@))[i]),
    {
        let ghost names = views(configured@);
        let keep_all = configured.len() == 0;
        let ghost pred = |a: AudioInput| names.contains(a.name@);
        let mut r: Vec<AudioInput> = Vec::new();
        let ghost kept: Seq<AudioInput> = Seq::empty();
        let mut i: usize = 0;
        while i < inputs.len()
            invariant
                i <= inputs@.len(),
                names == views(configured@),
                keep_all == (configured@.len() == 0),
                pred == (|a: AudioInput| names.contains(a.name@)),
                kept == if keep_all { inputs@.take(i as int) } else { inputs@.take(i as int).filter(pred) },
                r@.len() == kept.len(),
                forall|j: int| 0 <= j < r@.len() ==> same_input(#[trigger] r@[j], kept[j]),
            decreases inputs@.len() - i,
        {
            proof {
                reveal_with_fuel(Seq::filter, 1);
                assert(inputs@.take(i + 1).drop_last() =~= inputs@.take(i as int));
            }
            let take = keep_all || contains_text(configured, inputs[i].name.as_str());
            proof {
                let name = inputs@[i as int].name@;
                if !keep_all {
                    if take {
                        let j = choose|j: int| 0 <= j < configured@.len() && configured@[j]@ == name;
                        assert(names[j] == name);
                    } else {
                        assert forall|j: int| 0 <= j < names.len() implies names[j] != name by {
                            assert(names[j] == configured@[j]@);
                        }
                    }
                    assert(pred(inputs@[i as int]) == take);
                }
            }
            if take {
                r.push(inputs[i].clone_input());
                proof {
                    kept = kept.push(inputs@[i as int]);
                }
            }
            i = i + 1;
        }
        proof {
            assert(inputs@.take(inputs@.len() as int) =~= inputs@);
            assert(names.len() == configured@.len());
        }
        r
    }
}

} // verus!
