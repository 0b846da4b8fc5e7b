//! What this crate takes on trust about the standard library.
//!
//! Nothing here is proved: the item says of one operation of std what holds of
//! it, and the proofs of the vector rest on that.

use vstd::prelude::*;

verus! {

/// `&mut slice[..n]`, the mutable borrow of the first `n` elements of a slice:
/// std's `IndexMut::index_mut` of a slice with a `RangeTo<usize>`.
///
/// The borrow starts out as those `n` elements, and since a slice cannot
/// change its length it still covers `n` slots when it ends. Whatever it
/// holds then is the head of `slice` from then on, and the elements from `n`
/// on are as they were, for nothing else can reach them in the meantime. The
/// indexing panics when `n` exceeds the slice, which `requires` rules out.
#[verifier::external_body]
pub(crate) fn prefix_mut<'b, E>(slice: &'b mut [E], n: usize) -> (head: &'b mut [E])
    requires
        n <= old(slice)@.len(),
    ensures
        head@ == old(slice)@.take(n as int),
        final(head)@.len() == n,
        final(slice)@ == final(head)@ + old(slice)@.skip(n as int),
    no_unwind
{
    &mut slice[..n]
}

} // verus!
