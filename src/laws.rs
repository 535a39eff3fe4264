//! Laws that tie the protocol to what a handle reaches.
use vstd::layout::{align_of, size_of};
use vstd::prelude::*;
use vstd::string::StringSliceAdditionalSpecFns;
use crate::layout::SafeDynSized;
use crate::memory::{Block, Object, TextBlock};
use crate::protocol::{DynSized, Interface, NoMeta, WrapSized};
use crate::repr::{SliceRef, StrRef, ThinRef, TraitObject};

verus! {

/// Joining `(meta, data)` into a handle `p` and splitting `p` gives back
/// `(meta, data)`; and a handle `q` joined from the parts of `p` is `p`
/// itself.
pub proof fn lemma_round_trip<T: DynSized + ?Sized>(
    meta: T::Meta,
    data: usize,
    p: T::Ptr,
    q: T::Ptr,
)
    requires
        T::ptr_meta(p) == meta,
        T::ptr_data(p) == data,
        T::ptr_meta(q) == T::ptr_meta(p),
        T::ptr_data(q) == T::ptr_data(p),
    ensures
        (T::ptr_meta(p), T::ptr_data(p)) == (meta, data),
        q == p,
{
    T::lemma_ptr_determined(q, p);
}

/// A handle joined from the count and address of a block has that count as
/// metadata and that address as data, and reading element `i` through it
/// gives the block's element `i`, for every `i` below the count.
pub proof fn lemma_array_handle<T>(b: Block<T>, p: SliceRef<T>)
    requires
        <[T] as DynSized>::ptr_meta(p) == b.elems@.len(),
        <[T] as DynSized>::ptr_data(p) == b.addr,
    ensures
        p.len == b.elems@.len(),
        p.data == b.addr,
        forall|i: int| 0 <= i < b.elems@.len() ==> #[trigger] b.reaches(p, i),
{
}

/// A handle to a text carries its exact byte length, and the handle joined
/// back from its parts reaches the same text.
pub proof fn lemma_text_handle(t: TextBlock, p: StrRef, q: StrRef)
    requires
        p.data == t.addr,
        p.len as int == t.text.spec_bytes().len(),
        <str as DynSized>::ptr_meta(q) == <str as DynSized>::ptr_meta(p),
        <str as DynSized>::ptr_data(q) == <str as DynSized>::ptr_data(p),
    ensures
        <str as DynSized>::ptr_meta(p) as int == t.text.spec_bytes().len(),
        t.reaches(q),
{
}

/// A wrapped fixed-size value has the one metadata value, whatever the
/// handle, and its size and alignment are those of its type.
pub proof fn lemma_wrapped_layout<T>(p: ThinRef<WrapSized<T>>, meta: NoMeta)
    ensures
        WrapSized::<T>::ptr_meta(p) == NoMeta,
        meta == NoMeta,
        WrapSized::<T>::fits(meta),
        WrapSized::<T>::spec_size(meta) == size_of::<WrapSized<T>>(),
        WrapSized::<T>::spec_align(meta) == align_of::<WrapSized<T>>(),
{
}

/// A handle joined from a value's dispatch table and address resolves to
/// that value, so an operation called through it acts on that value.
pub proof fn lemma_dispatch<I: ?Sized, V>(o: Object<V>, p: TraitObject)
    requires
        Interface::<I>::ptr_meta(p) == o.vtable,
        Interface::<I>::ptr_data(p) == o.addr,
    ensures
        o.reaches(p),
{
}

} // verus!
