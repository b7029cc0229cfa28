//! The two producers: a single-item sequence and an endless sentinel source.

use vstd::prelude::*;

use crate::pull::LazySequence;
use crate::pull::Pull;

verus! {

/// The item that the single-item producer emits.
pub const SINGLE_ITEM: i32 = 1;

/// The sentinel that the endless producer emits on every pull.
pub const SENTINEL: i32 = 42;

/// The state of the single-item producer: it has either not emitted its item
/// yet, or it has and is exhausted for good.
#[derive(Debug, Clone, Copy, PartialEq, Eq, Structural)]
pub enum SingleState {
    /// The item has not been emitted yet.
    Fresh,
    /// The item was emitted; every further pull signals exhaustion.
    Spent,
}

/// A lazy sequence that emits the single item `1` and is then exhausted.
///
/// Its state machine has two states: `Fresh`, from which one pull emits the
/// item and moves to `Spent`, and `Spent`, a terminal state in which every
/// pull signals `Done`.
#[derive(Debug, Clone, Copy, PartialEq, Eq, Structural)]
pub struct SingleItemProducer {
    /// Where the producer stands in its two-state machine.
    pub state: SingleState,
}

impl SingleItemProducer {
    /// The producer has not emitted its item yet.
    pub open spec fn is_fresh(self) -> bool {
        self.state == SingleState::Fresh
    }

    /// The producer is exhausted.
    pub open spec fn is_spent(self) -> bool {
        self.state == SingleState::Spent
    }

    /// A producer that has not emitted its item yet.
    pub fn new() -> (p: SingleItemProducer)
        ensures
            p.is_fresh(),
    {
        SingleItemProducer { state: SingleState::Fresh }
    }
}

impl LazySequence for SingleItemProducer {
    open spec fn pull_spec(self) -> (Pull, SingleItemProducer) {
        match self.state {
            SingleState::Fresh => (
                Pull::Item(SINGLE_ITEM),
                SingleItemProducer { state: SingleState::Spent },
            ),
            SingleState::Spent => (
                Pull::Done,
                SingleItemProducer { state: SingleState::Spent },
            ),
        }
    }

    fn pull_next(&mut self) -> (r: Pull) {
        match self.state {
            SingleState::Fresh => {
                self.state = SingleState::Spent;
                Pull::Item(SINGLE_ITEM)
            },
            SingleState::Spent => Pull::Done,
        }
    }
}

/// A lazy sequence that emits the sentinel `42` on every pull and never
/// signals exhaustion. It has a single state that always self-transitions.
#[derive(Debug, Clone, Copy, PartialEq, Eq, Structural)]
pub struct EndlessProducer {}

impl EndlessProducer {
    /// An endless producer, ready to be pulled from.
    pub fn new() -> (p: EndlessProducer) {
        EndlessProducer {}
    }
}

impl LazySequence for EndlessProducer {
    open spec fn pull_spec(self) -> (Pull, EndlessProducer) {
        (Pull::Item(SENTINEL), self)
    }

    fn pull_next(&mut self) -> (r: Pull) {
        Pull::Item(SENTINEL)
    }
}

/// The signals that `n` successive pulls on a producer emit, starting from
/// the state `s`.
pub open spec fn trace<S: LazySequence>(s: S, n: nat) -> Seq<Pull>
    decreases n,
{
    if n == 0 {
        Seq::empty()
    } else {
        seq![s.pull_spec().0] + trace(s.pull_spec().1, (n - 1) as nat)
    }
}

/// Exhaustion of the single-item producer: from a fresh state, the first pull
/// emits the item `1`, the next pull signals exhaustion, and so does every
/// pull after that — the exhausted state is terminal.
pub proof fn lemma_single_item_exhaustion(p: SingleItemProducer, n: nat)
    requires
        p.is_fresh(),
    ensures
        trace(p, n).len() == n,
        n >= 1 ==> trace(p, n)[0] == Pull::Item(1i32),
        forall|i: int| 1 <= i < n ==> trace(p, n)[i] == Pull::Done,
{
    if n >= 1 {
        let spent = SingleItemProducer { state: SingleState::Spent };
        lemma_spent_stays_done(spent, (n - 1) as nat);
        assert(trace(p, n) == seq![Pull::Item(1i32)] + trace(spent, (n - 1) as nat));
    }
}

/// The exhausted state is terminal: every pull from it signals `Done`.
pub proof fn lemma_spent_stays_done(p: SingleItemProducer, n: nat)
    requires
        p.is_spent(),
    ensures
        trace(p, n).len() == n,
        forall|i: int| 0 <= i < n ==> trace(p, n)[i] == Pull::Done,
    decreases n,
{
    if n > 0 {
        lemma_spent_stays_done(p.pull_spec().1, (n - 1) as nat);
    }
}

/// Infinitude of the endless producer: however many pulls are made, every
/// one of them emits the sentinel `42`, and none signals exhaustion.
pub proof fn lemma_endless_always_sentinel(p: EndlessProducer, n: nat)
    ensures
        trace(p, n).len() == n,
        forall|i: int| 0 <= i < n ==> trace(p, n)[i] == Pull::Item(42i32),
    decreases n,
{
    if n > 0 {
        lemma_endless_always_sentinel(p.pull_spec().1, (n - 1) as nat);
    }
}

} // verus!
