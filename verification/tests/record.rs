use lazyseq::record::NonRelocatableRecord;
use lazyseq::record::RelocatableWrapper;

#[test]
fn record_holds_payload() {
    let r = NonRelocatableRecord::new(1);
    assert_eq!(r.x, 1);
}

#[test]
fn wrapper_refers_to_record() {
    let r = NonRelocatableRecord::new(1);
    let w = RelocatableWrapper::new(&r);
    assert_eq!(w.payload(), 1);
}

#[test]
fn wrapper_is_freely_relocatable() {
    // The wrapper holds only a reference, so it can be moved by value while
    // the record stays put: the payload read through it is unchanged.
    let r = NonRelocatableRecord::new(7);
    let w = RelocatableWrapper::new(&r);
    let moved = w;
    assert_eq!(moved.payload(), 7);
    assert_eq!(r.x, 7);
}
