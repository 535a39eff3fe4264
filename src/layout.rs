//! Size and alignment of a referent from its metadata alone.
use vstd::layout::{align_of, size_of};
use vstd::prelude::*;
use crate::protocol::{DynSized, NoMeta, WrapSized};

verus! {

/// Referents whose split and join never read through the address, so that
/// their size and alignment follow from the metadata alone.
pub trait SafeDynSized: DynSized {
    /// The metadata describes a referent that fits in the address space.
    spec fn fits(meta: Self::Meta) -> bool;

    /// Size in bytes of the referent that the metadata describes.
    spec fn spec_size(meta: Self::Meta) -> nat;

    /// Alignment in bytes of the referent that the metadata describes.
    spec fn spec_align(meta: Self::Meta) -> nat;

    fn referent_size(meta: Self::Meta) -> (r: usize)
        requires
            Self::fits(meta),
        ensures
            r as nat == Self::spec_size(meta),
    ;

    fn referent_align(meta: Self::Meta) -> (r: usize)
        requires
            Self::fits(meta),
        ensures
            r as nat == Self::spec_align(meta),
    ;
}

impl<T> SafeDynSized for [T] {
    open spec fn fits(len: usize) -> bool {
        len * size_of::<T>() <= isize::MAX
    }

    open spec fn spec_size(len: usize) -> nat {
        len as nat * size_of::<T>()
    }

    open spec fn spec_align(len: usize) -> nat {
        align_of::<T>()
    }

    fn referent_size(len: usize) -> (r: usize) {
        vstd::layout::layout_for_type_is_valid::<T>();
        let elem = core::mem::size_of::<T>();
        len * elem
    }

    fn referent_align(len: usize) -> (r: usize) {
        core::mem::align_of::<T>()
    }
}

impl SafeDynSized for str {
    open spec fn fits(len: usize) -> bool {
        len <= isize::MAX
    }

    open spec fn spec_size(len: usize) -> nat {
        len as nat
    }

    open spec fn spec_align(len: usize) -> nat {
        1
    }

    fn referent_size(len: usize) -> (r: usize) {
        len
    }

    fn referent_align(len: usize) -> (r: usize) {
        1
    }
}

impl<T> SafeDynSized for WrapSized<T> {
    open spec fn fits(meta: NoMeta) -> bool {
        true
    }

    open spec fn spec_size(meta: NoMeta) -> nat {
        size_of::<WrapSized<T>>()
    }

    open spec fn spec_align(meta: NoMeta) -> nat {
        align_of::<WrapSized<T>>()
    }

    fn referent_size(meta: NoMeta) -> (r: usize) {
        vstd::layout::layout_for_type_is_valid::<WrapSized<T>>();
        core::mem::size_of::<WrapSized<T>>()
    }

    fn referent_align(meta: NoMeta) -> (r: usize) {
        vstd::layout::layout_for_type_is_valid::<WrapSized<T>>();
        core::mem::align_of::<WrapSized<T>>()
    }
}

/// The size in bytes of the referent that `meta` describes, read from the
/// metadata alone.
pub fn size_of_val<T: SafeDynSized + ?Sized>(meta: T::Meta) -> (r: usize)
    requires
        T::fits(meta),
    ensures
        r as nat == T::spec_size(meta),
{
    T::referent_size(meta)
}

/// The alignment in bytes of the referent that `meta` describes, read from
/// the metadata alone.
pub fn align_of_val<T: SafeDynSized + ?Sized>(meta: T::Meta) -> (r: usize)
    requires
        T::fits(meta),
    ensures
        r as nat == T::spec_align(meta),
{
    T::referent_align(meta)
}

} // verus!
