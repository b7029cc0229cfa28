//! The non-relocatable record and the relocatable wrapper that refers to it.

use vstd::prelude::*;

verus! {

/// Declares `core::marker::PhantomPinned`, the zero-size marker that strips
/// a containing type of the freely-relocatable capability. vstd gives it no
/// specification; nothing needs to be known about its value.
#[verifier::external_type_specification]
#[verifier::external_body]
pub struct ExPhantomPinned(core::marker::PhantomPinned);

/// Relies on `core::marker::PhantomPinned` being a unit value: hands out the
/// zero-size marker, of which nothing further can be said.
#[verifier::external_body]
fn pin_marker() -> (m: core::marker::PhantomPinned) {
    core::marker::PhantomPinned
}

/// A record that, once pinned, must never change memory address again: the
/// marker field withdraws the freely-relocatable capability from the whole
/// record, so a pinned reference to it can never be used to move it. The
/// address-stability guarantee itself is structural — the type system
/// refuses the operations that would relocate the record — and so lies
/// outside what the contracts here state.
#[derive(Debug)]
pub struct NonRelocatableRecord {
    /// The record's payload.
    pub x: i32,
    /// The zero-size sentinel that makes the record non-relocatable.
    pub pin_marker: core::marker::PhantomPinned,
}

impl NonRelocatableRecord {
    /// A record holding the given payload.
    pub fn new(x: i32) -> (r: NonRelocatableRecord)
        ensures
            r.x == x,
    {
        NonRelocatableRecord { x, pin_marker: pin_marker() }
    }
}

/// A freely relocatable value that refers to a non-relocatable record.
/// It holds only a reference, never the record's bytes, so moving the
/// wrapper never moves the record.
#[derive(Debug)]
pub struct RelocatableWrapper<'a> {
    /// The record referred to.
    pub y: &'a NonRelocatableRecord,
}

impl<'a> RelocatableWrapper<'a> {
    /// A wrapper around the given record.
    pub fn new(record: &'a NonRelocatableRecord) -> (w: RelocatableWrapper<'a>)
        ensures
            w.y == record,
    {
        RelocatableWrapper { y: record }
    }

    /// The payload of the record referred to.
    pub fn payload(&self) -> (r: i32)
        ensures
            r == self.y.x,
    {
        self.y.x
    }
}

} // verus!
