//! The vector itself.
//!
//! Every operation is described by what it does to the [`State`] of the
//! vector. The operations that take the vector by `&mut` also say that the
//! final value of [`SliceVec::backing`] is what it was before: what the lender
//! of the slice finds in it at the end is decided by the last state of the
//! vector alone, as [`SliceVec::lemma_released`] puts it.

use vstd::prelude::*;
use crate::state::State;
use crate::std_specs::prefix_mut;
use core::mem::swap;

verus! {

/// A vector that uses a slice for backing storage, passed in when it is made.
///
/// What is done to the vector can be seen in the backing slice after the
/// `SliceVec` is gone. Slots past the last element hold values of no meaning
/// to the vector.
///
/// A `SliceVec` dereferences to the slice of its elements, which is shorter
/// than the backing slice unless the vector is full.
#[derive(Debug)]
pub struct SliceVec<'a, T> {
    storage: &'a mut [T],
    len: usize,
}

impl<'a, T> View for SliceVec<'a, T> {
    type V = Seq<T>;

    /// The elements of the vector, first to last.
    open spec fn view(&self) -> Seq<T> {
        self.state().live()
    }
}

impl<'a, T> SliceVec<'a, T> {
    /// The borrow of the backing slice that the vector holds. Its value is
    /// the slice as it is now; its final value is the slice as the lender
    /// gets it back.
    pub closed spec fn backing(&self) -> &'a mut [T] {
        self.storage
    }

    /// The number of elements.
    pub closed spec fn spec_len(&self) -> nat {
        self.len as nat
    }

    /// The vector as mathematics: the backing slice as it is now, and the length.
    pub open spec fn state(&self) -> State<T> {
        State { region: self.backing()@, len: self.spec_len() }
    }

    /// Every `SliceVec` fits in its backing slice.
    #[verifier::type_invariant]
    pub open spec fn inv(&self) -> bool {
        self.state().wf()
    }

    /// Once a vector is no longer written to, the lender gets the backing
    /// slice back as the vector left it: elements, residue and all.
    pub proof fn lemma_released(self)
        ensures
            has_resolved(self) ==> final(self.backing())@ == self.state().region,
    {
    }

    /// Creates an empty vector over `storage`. What `storage` holds is neither
    /// read nor changed, and any slice will do, an empty one too.
    pub fn new(storage: &'a mut [T]) -> (s: Self)
        ensures
            s.state() == (State { region: old(storage)@, len: 0 }),
            final(s.backing())@ == final(storage)@,
    {
        SliceVec { storage, len: 0 }
    }

    /// The largest number of elements the vector can hold: the length of the
    /// backing slice.
    pub fn capacity(&self) -> (c: usize)
        ensures
            c == self.state().capacity(),
            self.state().len <= c,
    {
        proof {
            use_type_invariant(self);
        }
        self.storage.len()
    }

    /// The number of elements in the vector.
    pub fn len(&self) -> (l: usize)
        ensures
            l == self.state().len,
            l == self@.len(),
            l <= self.state().capacity(),
    {
        proof {
            use_type_invariant(self);
        }
        self.len
    }

    /// Whether the vector has no elements.
    pub fn is_empty(&self) -> (b: bool)
        ensures
            b == (self.state().len == 0),
            b == (self@.len() == 0),
    {
        proof {
            use_type_invariant(self);
        }
        self.len == 0
    }

    /// Tries to append `elem` to the end of the vector.
    ///
    /// While a slot is free, `elem` is written to the first free one, over
    /// whatever was left there, and the vector grows by one. A full vector is
    /// left as it is and `elem` comes back in `Err`.
    pub fn push(&mut self, elem: T) -> (r: Result<(), T>)
        ensures
            r == old(self).state().push_result(elem),
            final(self).state() == old(self).state().push(elem),
            r is Ok ==> final(self)@ == old(self)@.push(elem),
            r is Err ==> final(self)@ == old(self)@,
            final(self).state().wf(),
            final(final(self).backing())@ == final(old(self).backing())@,
    {
        proof {
            use_type_invariant(&*self);
        }
        if self.len < self.capacity() {
            self.storage[self.len] = elem;
            self.len += 1;
            Ok(())
        } else {
            Err(elem)
        }
    }

    /// Removes and returns the last element, leaving `elem` in its slot.
    ///
    /// On an empty vector nothing changes, `None` is returned and `elem` is
    /// dropped.
    pub fn pop_and_replace(&mut self, elem: T) -> (r: Option<T>)
        ensures
            r == old(self).state().last(),
            final(self).state() == old(self).state().pop_with(elem),
            old(self).state().len == 0 ==> r is None && final(self).state() == old(self).state(),
            old(self).state().len > 0 ==> final(self)@ == old(self)@.drop_last(),
            final(self).state().wf(),
            final(final(self).backing())@ == final(old(self).backing())@,
    {
        proof {
            use_type_invariant(&*self);
        }
        if self.len > 0 {
            self.len -= 1;
            let mut elem = elem;
            swap(&mut self.storage[self.len], &mut elem);
            Some(elem)
        } else {
            None
        }
    }

    /// Shortens the vector to at most `len` elements.
    ///
    /// The elements cut off are not dropped: they stay in the backing slice,
    /// where the lender finds them once the vector is gone.
    pub fn truncate(&mut self, len: usize)
        ensures
            final(self).state() == old(self).state().truncate(len as nat),
            final(self).state().region == old(self).state().region,
            len < old(self).state().len ==> final(self)@ == old(self)@.take(len as int),
            final(self).state().wf(),
            final(final(self).backing())@ == final(old(self).backing())@,
    {
        proof {
            use_type_invariant(&*self);
        }
        if len < self.len {
            self.len = len;
        }
    }

    /// The elements of the vector as a slice.
    pub fn as_slice(&self) -> (r: &[T])
        ensures
            r@ == self@,
            r@.len() == self.state().len,
    {
        proof {
            use_type_invariant(self);
        }
        &self.storage[0..self.len]
    }

    /// The elements of the vector as a mutable slice.
    ///
    /// What is written through it is written to the vector. The length of the
    /// vector and the slots past it stay as they are.
    pub fn as_mut_slice(&mut self) -> (r: &mut [T])
        ensures
            r@ == old(self)@,
            final(r)@.len() == r@.len(),
            final(self).state() == old(self).state().with_live(final(r)@),
            final(self)@ == final(r)@,
            final(self).state().wf(),
            final(final(self).backing())@ == final(old(self).backing())@,
    {
        proof {
            use_type_invariant(&*self);
        }
        prefix_mut(self.storage, self.len)
    }
}

impl<'a, T: Default> SliceVec<'a, T> {
    /// Removes and returns the last element, or returns `None` when the vector
    /// is empty.
    ///
    /// The slot of the removed element is filled with a default value, which
    /// is why the element type has to provide one.
    pub fn pop(&mut self) -> (r: Option<T>)
        ensures
            r == old(self).state().last(),
            old(self).state().len == 0 ==> final(self).state() == old(self).state(),
            old(self).state().len > 0 ==> exists|fill: T|
                #[trigger] call_ensures(T::default, (), fill)
                    && final(self).state() == old(self).state().pop_with(fill),
            old(self).state().len > 0 ==> final(self)@ == old(self)@.drop_last(),
            final(self).state().wf(),
            final(final(self).backing())@ == final(old(self).backing())@,
    {
        proof {
            use_type_invariant(&*self);
        }
        if self.len > 0 {
            self.len -= 1;
            let mut elem = T::default();
            swap(&mut self.storage[self.len], &mut elem);
            Some(elem)
        } else {
            None
        }
    }

    /// Removes and returns the element at `index`. The last element takes its
    /// place, so the order of the elements is not kept; in exchange the
    /// removal takes constant time.
    ///
    /// The slot of the last element is filled with a default value.
    pub fn swap_remove(&mut self, index: usize) -> (r: T)
        requires
            index < old(self).state().len,
        ensures
            r == old(self)@[index as int],
            exists|fill: T|
                #[trigger] call_ensures(T::default, (), fill)
                    && final(self).state() == old(self).state().swap_remove_with(index as int, fill),
            final(self)@ == old(self)@.update(index as int, old(self)@.last()).drop_last(),
            final(self).state().wf(),
            final(final(self).backing())@ == final(old(self).backing())@,
    {
        let len = self.len();
        swap_slots(self.as_mut_slice(), index, len - 1);
        let ghost swapped = self.state();
        let last = self.pop();
        proof {
            let fill = choose|fill: T|
                #[trigger] call_ensures(T::default, (), fill)
                    && self.state() == swapped.pop_with(fill);
            assert(self.state().region
                =~= old(self).state().swap_remove_with(index as int, fill).region);
        }
        last.expect("swap_remove failed pop")
    }
}

/// Exchanges the elements at `i` and `j` of `slice`.
fn swap_slots<T>(slice: &mut [T], i: usize, j: usize)
    requires
        i < old(slice)@.len(),
        j < old(slice)@.len(),
    ensures
        final(slice)@ == old(slice)@.update(i as int, old(slice)@[j as int]).update(
            j as int,
            old(slice)@[i as int],
        ),
{
    if i < j {
        let (head, tail) = slice.split_at_mut(j);
        swap(&mut head[i], &mut tail[0]);
    } else if j < i {
        let (head, tail) = slice.split_at_mut(i);
        swap(&mut head[j], &mut tail[0]);
    }
}

impl<'a, T> core::ops::Deref for SliceVec<'a, T> {
    type Target = [T];

    fn deref(&self) -> (r: &[T])
        ensures
            r@ == self@,
    {
        self.as_slice()
    }
}

impl<'a, T> core::ops::DerefMut for SliceVec<'a, T> {
    fn deref_mut(&mut self) -> (r: &mut [T])
        ensures
            r@ == old(self)@,
            final(r)@.len() == r@.len(),
            final(self).state() == old(self).state().with_live(final(r)@),
            final(final(self).backing())@ == final(old(self).backing())@,
    {
        self.as_mut_slice()
    }
}

impl<'a, T> core::convert::AsRef<[T]> for SliceVec<'a, T> {
    fn as_ref(&self) -> (r: &[T])
        ensures
            r@ == self@,
    {
        self.as_slice()
    }
}

impl<'a, T> core::convert::AsMut<[T]> for SliceVec<'a, T> {
    fn as_mut(&mut self) -> (r: &mut [T])
        ensures
            r@ == old(self)@,
            final(r)@.len() == r@.len(),
            final(self).state() == old(self).state().with_live(final(r)@),
            final(final(self).backing())@ == final(old(self).backing())@,
    {
        self.as_mut_slice()
    }
}

// In the two impls below the view of the result is written out in full: the
// trait leaves the type of the result open, and `@` needs to know it.
impl<'a, T> core::borrow::Borrow<[T]> for SliceVec<'a, T> {
    fn borrow(&self) -> (r: &[T])
        ensures
            <[T] as View>::view(r) == self@,
    {
        self.as_slice()
    }
}

impl<'a, T> core::borrow::BorrowMut<[T]> for SliceVec<'a, T> {
    fn borrow_mut(&mut self) -> (r: &mut [T])
        ensures
            <[T] as View>::view(r) == old(self)@,
            <[T] as View>::view(final(r)).len() == old(self)@.len(),
            final(self).state() == old(self).state().with_live(<[T] as View>::view(final(r))),
            final(final(self).backing())@ == final(old(self).backing())@,
    {
        self.as_mut_slice()
    }
}

} // verus!
