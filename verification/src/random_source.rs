//! Where the rolls come from: the thread-local generator, or a fixed script
//! that is replayed in a cycle so that a run can be repeated exactly.

use rand::Rng;
use vstd::prelude::*;

verus! {

/// A source of uniformly distributed rolls.
#[derive(Debug)]
pub enum RandomSource {
    /// The thread-local generator of the `rand` crate.
    Thread,
    /// Replays `values` from `cursor` on, starting over after the last one.
    /// Each roll is the current value reduced modulo the requested bound.
    Scripted { values: Vec<usize>, cursor: usize },
}

/// Calls `rand::thread_rng().gen_range(0..bound)`. The generator panics on
/// an empty range, hence the precondition; all that is claimed of the
/// result is that it lies in the half-open range.
#[verifier::external_body]
fn thread_roll_below(bound: usize) -> (roll: usize)
    requires
        bound > 0,
    ensures
        roll < bound,
{
    rand::thread_rng().gen_range(0..bound)
}

impl RandomSource {
    /// A script has at least one value and a cursor that points into it.
    pub open spec fn wf(&self) -> bool {
        match self {
            RandomSource::Thread => true,
            RandomSource::Scripted { values, cursor } => 0 < values.len() && *cursor
                < values.len(),
        }
    }

    pub open spec fn is_scripted(&self) -> bool {
        self is Scripted
    }

    /// The roll a scripted source gives next for `bound`.
    pub open spec fn peek(&self, bound: usize) -> usize
        recommends
            self.is_scripted(),
            self.wf(),
            bound > 0,
    {
        match self {
            RandomSource::Thread => 0,
            RandomSource::Scripted { values, cursor } => (values[*cursor as int] % bound) as usize,
        }
    }

    /// Whether `roll` can be what this source gives next for `bound`: any
    /// value below the bound for the thread generator, exactly the scripted
    /// value otherwise.
    pub open spec fn yields(&self, bound: usize, roll: usize) -> bool {
        roll < bound && (self.is_scripted() ==> roll == self.peek(bound))
    }

    /// The source after one roll was taken from it.
    pub open spec fn step(&self) -> RandomSource {
        match self {
            RandomSource::Thread => RandomSource::Thread,
            RandomSource::Scripted { values, cursor } => RandomSource::Scripted {
                values: *values,
                cursor: if *cursor + 1 == values.len() {
                    0
                } else {
                    (*cursor + 1) as usize
                },
            },
        }
    }

    /// A source that replays `values` from the first one on.
    pub fn scripted(values: Vec<usize>) -> (source: RandomSource)
        requires
            values.len() > 0,
        ensures
            source == (RandomSource::Scripted { values, cursor: 0 }),
            source.wf(),
    {
        RandomSource::Scripted { values, cursor: 0 }
    }

    /// Takes the next roll, a value below `bound`.
    pub fn next_below(&mut self, bound: usize) -> (roll: usize)
        requires
            old(self).wf(),
            bound > 0,
        ensures
            old(self).yields(bound, roll),
            *final(self) == old(self).step(),
            final(self).wf(),
    {
        match self {
            RandomSource::Thread => thread_roll_below(bound),
            RandomSource::Scripted { values, cursor } => {
                let roll: usize = values[*cursor] % bound;
                if *cursor + 1 == values.len() {
                    *cursor = 0;
                } else {
                    *cursor = *cursor + 1;
                }
                roll
            },
        }
    }
}

} // verus!
