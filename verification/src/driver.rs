//! The driving logic: drain the single-item producer, pull once from the
//! endless one, and collect every item that would be printed.

use vstd::prelude::*;

use crate::producers::EndlessProducer;
use crate::producers::SingleItemProducer;
use crate::pull::LazySequence;
use crate::pull::Pull;

verus! {

/// Drain the single-item producer: pull until it signals exhaustion and
/// collect the items in order. From a fresh producer that is exactly the
/// sequence `[1]`; from a spent one, nothing.
pub fn drain_single(p: &mut SingleItemProducer) -> (items: Vec<i32>)
    ensures
        final(p).is_spent(),
        old(p).is_fresh() ==> items@ == seq![1i32],
        old(p).is_spent() ==> items@ == Seq::<i32>::empty(),
{
    let mut items: Vec<i32> = Vec::new();
    let mut done = false;
    while !done
        invariant
            p.is_fresh() ==> (items@ == Seq::<i32>::empty() && !done),
            old(p).is_fresh() && p.is_spent() ==> items@ == seq![1i32],
            old(p).is_spent() ==> (p.is_spent() && items@ == Seq::<i32>::empty()),
            done ==> p.is_spent(),
        decreases
            (if p.is_fresh() { 2int } else { 1int }) + (if done { 0int } else { 1int }),
    {
        match p.pull_next() {
            Pull::Item(v) => items.push(v),
            Pull::Retry => (),
            Pull::Done => done = true,
        }
    }
    items
}

/// Everything the demonstration pulls out of the two producers, in order:
/// the single-item producer's whole sequence, then one sentinel from the
/// endless producer. Exactly `[1, 42]`.
pub fn demo_values() -> (vals: Vec<i32>)
    ensures
        vals@ == seq![1i32, 42i32],
{
    let mut single = SingleItemProducer::new();
    let mut vals = drain_single(&mut single);
    let mut endless = EndlessProducer::new();
    match endless.pull_next() {
        Pull::Item(v) => vals.push(v),
        Pull::Retry => (),
        Pull::Done => (),
    }
    assert(vals@ == seq![1i32, 42i32]);
    vals
}

} // verus!
