//! Bit-level representations of the handles.
use core::marker::PhantomData;
use vstd::prelude::*;

verus! {

/// Address of a per-type dispatch table, carried but never read.
#[derive(Clone, Copy, Debug, PartialEq, Eq, Structural)]
pub struct Vtable(pub usize);

/// The two-word layout of a reference to an interface: data address first,
/// dispatch-table address second.
#[derive(Clone, Copy, Debug, PartialEq, Eq, Structural)]
pub struct TraitObject {
    pub data: usize,
    pub vtable: usize,
}

impl TraitObject {
    pub fn construct(vtable: Vtable, data: usize) -> (r: TraitObject)
        ensures
            r.data == data,
            r.vtable == vtable.0,
    {
        TraitObject { data: data, vtable: vtable.0 }
    }

    pub fn data(self) -> (r: usize)
        ensures
            r == self.data,
    {
        self.data
    }

    pub fn vtable(self) -> (r: Vtable)
        ensures
            r.0 == self.vtable,
    {
        Vtable(self.vtable)
    }
}

/// The two-word layout of a reference to a run of `T`: data address and
/// element count.
#[derive(Debug)]
pub struct SliceRef<T> {
    pub data: usize,
    pub len: usize,
    pub marker: PhantomData<T>,
}

impl<T> Clone for SliceRef<T> {
    fn clone(&self) -> (r: Self)
        ensures
            r == *self,
    {
        SliceRef { data: self.data, len: self.len, marker: PhantomData }
    }
}

impl<T> Copy for SliceRef<T> {}

/// The two-word layout of a reference to UTF-8 text: data address and byte
/// length.
#[derive(Clone, Copy, Debug, PartialEq, Eq, Structural)]
pub struct StrRef {
    pub data: usize,
    pub len: usize,
}

/// The one-word layout of a reference to a value of fixed size.
#[derive(Debug)]
pub struct ThinRef<T> {
    pub data: usize,
    pub marker: PhantomData<T>,
}

impl<T> Clone for ThinRef<T> {
    fn clone(&self) -> (r: Self)
        ensures
            r == *self,
    {
        ThinRef { data: self.data, marker: PhantomData }
    }
}

impl<T> Copy for ThinRef<T> {}

} // verus!
