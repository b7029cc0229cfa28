use lazyseq::driver::demo_values;
use lazyseq::driver::drain_single;
use lazyseq::producers::SingleItemProducer;
use lazyseq::pull::LazySequence;
use lazyseq::pull::Pull;

#[test]
fn drain_fresh_yields_exactly_one() {
    let mut p = SingleItemProducer::new();
    let items = drain_single(&mut p);
    assert_eq!(items, vec![1]);
    // Drained to exhaustion: the next pull still signals Done.
    assert_eq!(p.pull_next(), Pull::Done);
}

#[test]
fn drain_spent_yields_nothing() {
    let mut p = SingleItemProducer::new();
    let _ = drain_single(&mut p);
    let again = drain_single(&mut p);
    assert_eq!(again, Vec::<i32>::new());
}

#[test]
fn demo_pulls_one_then_fortytwo() {
    // Everything the demonstration prints from the producers, in order:
    // the single item 1, then one sentinel 42.
    assert_eq!(demo_values(), vec![1, 42]);
}
