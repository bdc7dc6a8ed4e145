//! A value that may hold a reference to one of its own fields: once
//! initialised, `b` refers to `a`, and writes through it change `a`. The
//! reference is kept here as the fact that it has been set up, which is
//! what an address taken at `init` gives as long as the value stays where
//! it was, the promise that pinning makes. A value moved after `init` still
//! reaches its own `a` here; an address would still name the old place.
use vstd::prelude::*;

verus! {

/// A number and, once initialised, a handle to it.
#[derive(Debug)]
pub struct MaybeSelfRef {
    a: usize,
    b: bool,
}

/// `MaybeSelfRef` as a mathematical value: the number, and whether the
/// handle to it is set.
pub struct MaybeSelfRefView {
    pub a: usize,
    pub b_set: bool,
}

impl View for MaybeSelfRef {
    type V = MaybeSelfRefView;

    closed spec fn view(&self) -> MaybeSelfRefView {
        MaybeSelfRefView { a: self.a, b_set: self.b }
    }
}

impl Default for MaybeSelfRef {
    /// The number 0 and no handle.
    fn default() -> (s: MaybeSelfRef)
        ensures
            s@ == (MaybeSelfRefView { a: 0, b_set: false }),
    {
        MaybeSelfRef { a: 0, b: false }
    }
}

impl MaybeSelfRef {
    /// The value `MaybeSelfRef::default()` gives.
    pub fn new() -> (s: MaybeSelfRef)
        ensures
            s@ == (MaybeSelfRefView { a: 0, b_set: false }),
    {
        MaybeSelfRef { a: 0, b: false }
    }

    /// Sets the handle up to refer to `a`.
    pub fn init(&mut self)
        ensures
            final(self)@ == (MaybeSelfRefView { b_set: true, ..old(self)@ }),
    {
        self.b = true;
    }

    /// The number, read directly.
    pub fn a(&self) -> (a: usize)
        ensures
            a == self@.a,
    {
        self.a
    }

    /// The number through the handle: `None` before `init`; after it, a
    /// reference to `a`, so that writing through it changes `a`.
    pub fn b(&mut self) -> (r: Option<&mut usize>)
        ensures
            !old(self)@.b_set ==> r is None && final(self)@ == old(self)@,
            old(self)@.b_set ==> r is Some && *r->0 == old(self)@.a && final(self)@ == (MaybeSelfRefView {
                a: *final(r->0),
                ..old(self)@
            }),
    {
        if self.b {
            Some(&mut self.a)
        } else {
            None
        }
    }
}

} // verus!
