//! Referents placed at an address, and access to them through a handle.
//!
//! A handle is only a pair of words; what it reaches depends on what lies at
//! its address. These types pair a value with its address so that reading
//! through a handle can be stated and checked.
use core::marker::PhantomData;
use vstd::prelude::*;
use vstd::string::StringSliceAdditionalSpecFns;
use crate::repr::{SliceRef, StrRef, TraitObject, Vtable};

verus! {

/// A run of elements stored from address `addr` on.
pub struct Block<T> {
    pub addr: usize,
    pub elems: Vec<T>,
}

impl<T> Block<T> {
    /// Whether element `i` is reached through `p`: the handle starts at this
    /// block, lies inside it, and `i` is below its count.
    pub open spec fn reaches(&self, p: SliceRef<T>, i: int) -> bool {
        p.data == self.addr && p.len <= self.elems@.len() && 0 <= i < p.len
    }

    pub fn new(addr: usize, elems: Vec<T>) -> (r: Block<T>)
        ensures
            r.addr == addr,
            r.elems@ == elems@,
    {
        Block { addr, elems }
    }

    /// The handle of a reference to the whole block.
    pub fn as_ref(&self) -> (p: SliceRef<T>)
        ensures
            p.data == self.addr,
            p.len == self.elems@.len(),
    {
        SliceRef { data: self.addr, len: self.elems.len(), marker: PhantomData }
    }

    /// Element `i` of the referent that `p` denotes, if `p` reaches it here.
    pub fn read(&self, p: SliceRef<T>, i: usize) -> (r: Option<&T>)
        ensures
            r.is_some() == self.reaches(p, i as int),
            r.is_some() ==> *r.unwrap() == self.elems@[i as int],
    {
        if p.data == self.addr && p.len <= self.elems.len() && i < p.len {
            Some(&self.elems[i])
        } else {
            None
        }
    }
}

/// UTF-8 text stored from address `addr` on.
pub struct TextBlock<'a> {
    pub addr: usize,
    pub text: &'a str,
}

impl<'a> TextBlock<'a> {
    /// Whether `p` denotes exactly this text.
    pub open spec fn reaches(&self, p: StrRef) -> bool {
        p.data == self.addr && p.len as int == self.text.spec_bytes().len()
    }

    pub fn new(addr: usize, text: &'a str) -> (r: TextBlock<'a>)
        ensures
            r.addr == addr,
            r.text == text,
    {
        TextBlock { addr, text }
    }

    /// The handle of a reference to the whole text: its address and byte
    /// length.
    pub fn as_ref(&self) -> (p: StrRef)
        ensures
            p.data == self.addr,
            p.len as int == self.text.spec_bytes().len(),
    {
        StrRef { data: self.addr, len: self.text.as_bytes().len() }
    }

    /// The text that `p` denotes, if it is exactly this one.
    pub fn read(&self, p: StrRef) -> (r: Option<&'a str>)
        ensures
            r.is_some() == self.reaches(p),
            r.is_some() ==> r.unwrap() == self.text,
    {
        if p.data == self.addr && p.len == self.text.as_bytes().len() {
            Some(self.text)
        } else {
            None
        }
    }
}

/// A value of a concrete type stored at `addr`, whose type's dispatch table
/// for some interface is at `vtable`.
pub struct Object<V> {
    pub addr: usize,
    pub vtable: Vtable,
    pub value: V,
}

impl<V> Object<V> {
    /// Whether `p` denotes this value through its dispatch table.
    pub open spec fn reaches(&self, p: TraitObject) -> bool {
        p.data == self.addr && p.vtable == self.vtable.0
    }

    pub fn new(addr: usize, vtable: Vtable, value: V) -> (r: Object<V>)
        ensures
            r.addr == addr,
            r.vtable == vtable,
            r.value == value,
    {
        Object { addr, vtable, value }
    }

    /// The handle of an interface reference to this value.
    pub fn as_ref(&self) -> (p: TraitObject)
        ensures
            p.data == self.addr,
            p.vtable == self.vtable.0,
    {
        TraitObject::construct(self.vtable, self.addr)
    }

    /// The value that `p` dispatches to, if it denotes this one.
    pub fn resolve(&self, p: TraitObject) -> (r: Option<&V>)
        ensures
            r.is_some() == self.reaches(p),
            r.is_some() ==> *r.unwrap() == self.value,
    {
        if p.data == self.addr && p.vtable == self.vtable.0 {
            Some(&self.value)
        } else {
            None
        }
    }
}

} // verus!
