use lazyseq::producers::EndlessProducer;
use lazyseq::producers::SingleItemProducer;
use lazyseq::pull::LazySequence;
use lazyseq::pull::Pull;
use lazyseq::pull::pull_once;

#[test]
fn single_item_emits_one_then_exhausts() {
    let mut p = SingleItemProducer::new();
    assert_eq!(p.pull_next(), Pull::Item(1));
    assert_eq!(p.pull_next(), Pull::Done);
    // The exhausted state is terminal: pulling again still signals Done.
    assert_eq!(p.pull_next(), Pull::Done);
}

#[test]
fn single_item_never_retries() {
    let mut p = SingleItemProducer::new();
    for _ in 0..4 {
        assert_ne!(p.pull_next(), Pull::Retry);
    }
}

#[test]
fn endless_returns_sentinel_every_time() {
    let mut p = EndlessProducer::new();
    for _ in 0..100 {
        assert_eq!(p.pull_next(), Pull::Item(42));
    }
}

#[test]
fn pull_once_is_one_step() {
    let mut p = SingleItemProducer::new();
    assert_eq!(pull_once(&mut p), Pull::Item(1));
    assert_eq!(pull_once(&mut p), Pull::Done);

    let mut e = EndlessProducer::new();
    assert_eq!(pull_once(&mut e), Pull::Item(42));
}
