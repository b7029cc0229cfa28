//! The tri-state result of a pull and the lazy-sequence capability.

use vstd::prelude::*;

verus! {

/// What one `pull next` call on a lazy sequence hands back: the next item,
/// a request to try again later, or the signal that no more items will come.
#[derive(Debug, Clone, Copy, PartialEq, Eq, Structural)]
pub enum Pull {
    /// The next item of the sequence.
    Item(i32),
    /// Nothing yet; the caller should pull again later.
    Retry,
    /// The sequence is exhausted and will stay so.
    Done,
}

/// A pull-based lazy sequence: values are produced one at a time, on demand.
///
/// The whole behaviour of a producer is a deterministic step function on its
/// state, given by `pull_spec`; the executable `pull_next` must follow it
/// exactly.
pub trait LazySequence: Sized {
    /// One step of the producer as a mathematical function: the signal it
    /// emits and the state it moves to.
    spec fn pull_spec(self) -> (Pull, Self);

    /// Pull the next signal out of the sequence, advancing its state.
    fn pull_next(&mut self) -> (r: Pull)
        ensures
            (r, *final(self)) == old(self).pull_spec(),
    ;
}

/// Pull a single signal from any lazy sequence.
pub fn pull_once<S: LazySequence>(s: &mut S) -> (r: Pull)
    ensures
        (r, *final(s)) == old(s).pull_spec(),
{
    s.pull_next()
}

} // verus!
