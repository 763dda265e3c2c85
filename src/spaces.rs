//! The ordered candidate spaces offered to a layouter, held in a `SmallVec`.

use vstd::prelude::*;
use smallvec::SmallVec;
use crate::geometry::LayoutSpace;

verus! {

/// A possibly stack-allocated vector of layout spaces. What it holds is
/// known to proofs only through `spaces_of`.
#[verifier::external_body]
pub struct LayoutSpaces {
    inner: SmallVec<[LayoutSpace; 2]>,
}

/// The spaces a `LayoutSpaces` holds, in order.
pub uninterp spec fn spaces_of(v: LayoutSpaces) -> Seq<LayoutSpace>;

/// Relies on `SmallVec::new`: the vector starts empty.
#[verifier::external_body]
pub(crate) fn new_spaces() -> (r: LayoutSpaces)
    ensures
        spaces_of(r) == Seq::<LayoutSpace>::empty(),
{
    LayoutSpaces { inner: SmallVec::new() }
}

/// Relies on `SmallVec::push`: the space is appended at the end.
#[verifier::external_body]
pub(crate) fn push_space(v: &mut LayoutSpaces, space: LayoutSpace)
    ensures
        spaces_of(*final(v)) == spaces_of(*old(v)).push(space),
{
    v.inner.push(space)
}

/// Relies on `SmallVec::len`: the number of spaces held.
#[verifier::external_body]
pub(crate) fn space_count(v: &LayoutSpaces) -> (r: usize)
    ensures
        r == spaces_of(*v).len(),
{
    v.inner.len()
}

/// Relies on indexing a `SmallVec` (through its slice): the space at `i`.
#[verifier::external_body]
pub(crate) fn space_at(v: &LayoutSpaces, i: usize) -> (r: LayoutSpace)
    requires
        i < spaces_of(*v).len(),
    ensures
        r == spaces_of(*v)[i as int],
{
    v.inner[i]
}

/// A `LayoutSpaces` holding the given spaces, in order.
pub fn spaces_from(list: &Vec<LayoutSpace>) -> (r: LayoutSpaces)
    ensures
        spaces_of(r) == list@,
{
    let mut r = new_spaces();
    let mut i: usize = 0;
    while i < list.len()
        invariant
            i <= list@.len(),
            spaces_of(r) == list@.take(i as int),
        decreases list@.len() - i,
    {
        push_space(&mut r, list[i]);
        proof {
            assert(list@.take(i + 1) =~= list@.take(i as int).push(list@[i as int]));
        }
        i = i + 1;
    }
    proof {
        assert(list@.take(i as int) =~= list@);
    }
    r
}

} // verus!
