//! The open-iterator list of a frame, backed by the outside crate
//! `thin_vec`.
//!
//! A frame records the iterators it has opened so that an abrupt completion
//! can close them in insertion order. The list is kept in a
//! `thin_vec::ThinVec`, a vector one pointer wide, as the wider engine keeps
//! it; each entry is the handle of the iterator's record in the externally
//! owned object table. The type is opaque to the verifier, so its contents
//! are named by `iter_list_elems` and every access goes through a small
//! trusted wrapper whose contract is stated over that name.

use thin_vec::ThinVec;
use vstd::prelude::*;

verus! {

#[verifier::external_type_specification]
#[verifier::external_body]
#[verifier::reject_recursive_types(T)]
pub struct ExThinVec<T>(ThinVec<T>);

/// The elements held by an open-iterator list, in insertion order.
pub uninterp spec fn iter_list_elems(v: ThinVec<u64>) -> Seq<u64>;

/// Relies on thin_vec::ThinVec::new: the new vector is empty.
#[verifier::external_body]
pub(crate) fn iter_list_new() -> (r: ThinVec<u64>)
    ensures
        iter_list_elems(r) == Seq::<u64>::empty(),
{
    ThinVec::new()
}

/// Relies on thin_vec::ThinVec::len: the number of elements held.
#[verifier::external_body]
pub(crate) fn iter_list_len(v: &ThinVec<u64>) -> (r: usize)
    ensures
        r == iter_list_elems(*v).len(),
{
    v.len()
}

/// Relies on thin_vec::ThinVec's indexing (through its deref to a slice):
/// the element at `index`, elements being in insertion order.
#[verifier::external_body]
pub(crate) fn iter_list_get(v: &ThinVec<u64>, index: usize) -> (r: u64)
    requires
        index < iter_list_elems(*v).len(),
    ensures
        r == iter_list_elems(*v)[index as int],
{
    v[index]
}

/// Relies on thin_vec::ThinVec::push: appends the element at the end.
#[verifier::external_body]
pub(crate) fn iter_list_push(v: &mut ThinVec<u64>, handle: u64)
    ensures
        iter_list_elems(*final(v)) == iter_list_elems(*old(v)).push(handle),
{
    v.push(handle);
}

} // verus!
