//! The split/join protocol for each kind of referent.
use core::marker::PhantomData;
use vstd::prelude::*;
use crate::repr::{SliceRef, StrRef, ThinRef, TraitObject, Vtable};

verus! {

/// A referent whose references can be split into metadata and an address,
/// and joined back, without reading through the address.
pub trait DynSized {
    type Meta: Copy;

    type Ptr: Copy;

    /// The metadata carried by a handle.
    spec fn ptr_meta(p: Self::Ptr) -> Self::Meta;

    /// The address carried by a handle.
    spec fn ptr_data(p: Self::Ptr) -> usize;

    /// A handle is determined by its two parts.
    proof fn lemma_ptr_determined(p: Self::Ptr, q: Self::Ptr)
        requires
            Self::ptr_meta(p) == Self::ptr_meta(q),
            Self::ptr_data(p) == Self::ptr_data(q),
        ensures
            p == q,
    ;

    /// Joins metadata and an address into a handle. The address is only
    /// stored: it may be null where only the metadata matters.
    fn assemble(meta: Self::Meta, data: usize) -> (p: Self::Ptr)
        ensures
            Self::ptr_meta(p) == meta,
            Self::ptr_data(p) == data,
    ;

    /// Splits a handle into its metadata and its address.
    fn disassemble(p: Self::Ptr) -> (r: (Self::Meta, usize))
        ensures
            r.0 == Self::ptr_meta(p),
            r.1 == Self::ptr_data(p),
    ;

    /// Joins metadata and the address of a writable referent.
    fn assemble_mut(meta: Self::Meta, data: usize) -> (p: Self::Ptr)
        ensures
            Self::ptr_meta(p) == meta,
            Self::ptr_data(p) == data,
    {
        Self::assemble(meta, data)
    }

    /// Splits a handle to a writable referent.
    fn disassemble_mut(p: Self::Ptr) -> (r: (Self::Meta, usize))
        ensures
            r.0 == Self::ptr_meta(p),
            r.1 == Self::ptr_data(p),
    {
        let (meta, data) = Self::disassemble(p);
        (meta, data)
    }

    /// The metadata part of a handle.
    fn meta(p: Self::Ptr) -> (r: Self::Meta)
        ensures
            r == Self::ptr_meta(p),
    {
        let (meta, _) = Self::disassemble(p);
        meta
    }

    /// The address part of a handle.
    fn data(p: Self::Ptr) -> (r: usize)
        ensures
            r == Self::ptr_data(p),
    {
        let (_, data) = Self::disassemble(p);
        data
    }

    /// The address part of a handle, for writing through it.
    fn data_mut(p: Self::Ptr) -> (r: usize)
        ensures
            r == Self::ptr_data(p),
    {
        let (_, data) = Self::disassemble_mut(p);
        data
    }
}

impl<T> DynSized for [T] {
    type Meta = usize;

    type Ptr = SliceRef<T>;

    open spec fn ptr_meta(p: SliceRef<T>) -> usize {
        p.len
    }

    open spec fn ptr_data(p: SliceRef<T>) -> usize {
        p.data
    }

    proof fn lemma_ptr_determined(p: SliceRef<T>, q: SliceRef<T>) {
    }

    fn assemble(len: usize, data: usize) -> (p: SliceRef<T>) {
        SliceRef { data: data, len: len, marker: PhantomData }
    }

    fn disassemble(p: SliceRef<T>) -> (r: (usize, usize)) {
        (p.len, p.data)
    }
}

impl DynSized for str {
    type Meta = usize;

    type Ptr = StrRef;

    open spec fn ptr_meta(p: StrRef) -> usize {
        p.len
    }

    open spec fn ptr_data(p: StrRef) -> usize {
        p.data
    }

    proof fn lemma_ptr_determined(p: StrRef, q: StrRef) {
    }

    fn assemble(len: usize, data: usize) -> (p: StrRef) {
        StrRef { data: data, len: len }
    }

    fn disassemble(p: StrRef) -> (r: (usize, usize)) {
        let (len, data) = <[u8] as DynSized>::disassemble(
            SliceRef { data: p.data, len: p.len, marker: PhantomData },
        );
        (len, data)
    }
}

/// The metadata of a fixed-size referent: it carries no information.
#[derive(Clone, Copy, Debug, Default, PartialEq, Eq, Structural)]
pub struct NoMeta;

/// A value of fixed size, wrapped so that it takes part in the protocol
/// with no metadata at all.
#[derive(Clone, Copy, Debug, Default, PartialEq, Eq, PartialOrd, Ord, Hash)]
pub struct WrapSized<T>(pub T);

impl<T> DynSized for WrapSized<T> {
    type Meta = NoMeta;

    type Ptr = ThinRef<WrapSized<T>>;

    open spec fn ptr_meta(p: ThinRef<WrapSized<T>>) -> NoMeta {
        NoMeta
    }

    open spec fn ptr_data(p: ThinRef<WrapSized<T>>) -> usize {
        p.data
    }

    proof fn lemma_ptr_determined(p: ThinRef<WrapSized<T>>, q: ThinRef<WrapSized<T>>) {
    }

    fn assemble(meta: NoMeta, data: usize) -> (p: ThinRef<WrapSized<T>>) {
        ThinRef { data: data, marker: PhantomData }
    }

    fn disassemble(p: ThinRef<WrapSized<T>>) -> (r: (NoMeta, usize)) {
        (NoMeta, p.data)
    }
}

/// The referent of a reference to the interface named by the marker type
/// `I`: one implementation of the protocol serves every interface.
#[derive(Debug)]
pub struct Interface<I: ?Sized>(pub PhantomData<I>);

impl<I: ?Sized> DynSized for Interface<I> {
    type Meta = Vtable;

    type Ptr = TraitObject;

    open spec fn ptr_meta(p: TraitObject) -> Vtable {
        Vtable(p.vtable)
    }

    open spec fn ptr_data(p: TraitObject) -> usize {
        p.data
    }

    proof fn lemma_ptr_determined(p: TraitObject, q: TraitObject) {
    }

    fn assemble(vtable: Vtable, data: usize) -> (p: TraitObject) {
        TraitObject::construct(vtable, data)
    }

    fn disassemble(p: TraitObject) -> (r: (Vtable, usize)) {
        (p.vtable(), p.data())
    }
}

/// A record whose last field is a referent of type `T`: a reference to it
/// carries the same metadata as a reference to that last field, and the
/// record's own address.
#[derive(Debug)]
pub struct Composite<H, T: ?Sized>(pub PhantomData<H>, pub PhantomData<T>);

impl<H, T: DynSized + ?Sized> DynSized for Composite<H, T> {
    type Meta = T::Meta;

    type Ptr = T::Ptr;

    open spec fn ptr_meta(p: T::Ptr) -> T::Meta {
        T::ptr_meta(p)
    }

    open spec fn ptr_data(p: T::Ptr) -> usize {
        T::ptr_data(p)
    }

    proof fn lemma_ptr_determined(p: T::Ptr, q: T::Ptr) {
        T::lemma_ptr_determined(p, q);
    }

    fn assemble(meta: T::Meta, data: usize) -> (p: T::Ptr) {
        T::assemble(meta, data)
    }

    fn disassemble(p: T::Ptr) -> (r: (T::Meta, usize)) {
        T::disassemble(p)
    }
}

/// Reflectors on handles: the metadata and the address they carry.
pub trait PtrExt: Sized {
    type Referent: DynSized<Ptr = Self> + ?Sized;

    fn meta(&self) -> (r: <Self::Referent as DynSized>::Meta)
        ensures
            r == Self::Referent::ptr_meta(*self),
    ;

    fn data(&self) -> (r: usize)
        ensures
            r == Self::Referent::ptr_data(*self),
    ;
}

/// The address of a handle, for writing through it.
pub trait PtrMutExt: PtrExt {
    fn data_mut(&self) -> (r: usize)
        ensures
            r == Self::Referent::ptr_data(*self),
    ;
}

impl<T> PtrExt for SliceRef<T> {
    type Referent = [T];

    fn meta(&self) -> (r: usize) {
        let (meta, _) = <[T] as DynSized>::disassemble(*self);
        meta
    }

    fn data(&self) -> (r: usize) {
        let (_, data) = <[T] as DynSized>::disassemble(*self);
        data
    }
}

impl<T> PtrMutExt for SliceRef<T> {
    fn data_mut(&self) -> (r: usize) {
        let (_, data) = <[T] as DynSized>::disassemble_mut(*self);
        data
    }
}

impl PtrExt for StrRef {
    type Referent = str;

    fn meta(&self) -> (r: usize) {
        let (meta, _) = <str as DynSized>::disassemble(*self);
        meta
    }

    fn data(&self) -> (r: usize) {
        let (_, data) = <str as DynSized>::disassemble(*self);
        data
    }
}

impl PtrMutExt for StrRef {
    fn data_mut(&self) -> (r: usize) {
        let (_, data) = <str as DynSized>::disassemble_mut(*self);
        data
    }
}

impl<T> PtrExt for ThinRef<WrapSized<T>> {
    type Referent = WrapSized<T>;

    fn meta(&self) -> (r: NoMeta) {
        let (meta, _) = <WrapSized<T> as DynSized>::disassemble(*self);
        meta
    }

    fn data(&self) -> (r: usize) {
        let (_, data) = <WrapSized<T> as DynSized>::disassemble(*self);
        data
    }
}

impl<T> PtrMutExt for ThinRef<WrapSized<T>> {
    fn data_mut(&self) -> (r: usize) {
        let (_, data) = <WrapSized<T> as DynSized>::disassemble_mut(*self);
        data
    }
}

} // verus!
