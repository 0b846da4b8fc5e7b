//! The mathematical picture of a [`SliceVec`](crate::SliceVec): the lent region
//! in full and the number of its leading slots that are live.

use vstd::prelude::*;

verus! {

/// What a vector over a lent region amounts to.
///
/// `region` is every slot of the lent slice, in order. The first `len` of them
/// are the elements of the vector; the others hold values left behind, which
/// are no part of the vector and yet are never cleared.
pub struct State<T> {
    pub region: Seq<T>,
    pub len: nat,
}

/// One operation on a vector, with the values it works on.
pub enum Op<T> {
    /// Appending an element.
    Push(T),
    /// Removing the last element; the value is what is left in its slot.
    Pop(T),
    /// Cutting the vector down to at most so many elements.
    Truncate(nat),
    /// Removing the element at an index by swapping; the value is what is
    /// left in the slot of the last element.
    SwapRemove(int, T),
    /// Writing these values over the elements through a mutable slice.
    Write(Seq<T>),
}

impl<T> State<T> {
    /// The length never exceeds the region.
    pub open spec fn wf(self) -> bool {
        self.len <= self.region.len()
    }

    /// How many elements the region has room for.
    pub open spec fn capacity(self) -> nat {
        self.region.len()
    }

    /// The elements of the vector: the live prefix of the region.
    pub open spec fn live(self) -> Seq<T> {
        self.region.take(self.len as int)
    }

    /// The slots past the live prefix, with whatever was left in them.
    pub open spec fn residue(self) -> Seq<T> {
        self.region.skip(self.len as int)
    }

    /// No slot is free.
    pub open spec fn is_full(self) -> bool {
        self.len >= self.region.len()
    }

    /// The last live element, if there is one.
    pub open spec fn last(self) -> Option<T> {
        if self.len == 0 {
            None
        } else {
            Some(self.region[self.len - 1])
        }
    }

    /// Appending `elem`: it takes the first free slot. A full vector stays as it is.
    pub open spec fn push(self, elem: T) -> Self {
        if self.is_full() {
            self
        } else {
            State { region: self.region.update(self.len as int, elem), len: self.len + 1 }
        }
    }

    /// What a push of `elem` answers: `Ok` when the element went in, and the
    /// element itself, handed back in `Err`, when the vector was full.
    pub open spec fn push_result(self, elem: T) -> Result<(), T> {
        if self.is_full() {
            Err(elem)
        } else {
            Ok(())
        }
    }

    /// Appending every element of `elems`, first to last.
    pub open spec fn push_all(self, elems: Seq<T>) -> Self
        decreases elems.len(),
    {
        if elems.len() == 0 {
            self
        } else {
            self.push_all(elems.drop_last()).push(elems.last())
        }
    }

    /// Dropping the last live element and leaving `fill` in its slot. An empty
    /// vector stays as it is.
    pub open spec fn pop_with(self, fill: T) -> Self {
        if self.len == 0 {
            self
        } else {
            State { region: self.region.update(self.len - 1, fill), len: (self.len - 1) as nat }
        }
    }

    /// Cutting the vector down to at most `n` elements. The region is not touched.
    pub open spec fn truncate(self, n: nat) -> Self {
        State { region: self.region, len: if n < self.len { n } else { self.len } }
    }

    /// Exchanging the slots `i` and `j`.
    pub open spec fn swap(self, i: int, j: int) -> Self {
        State { region: self.region.update(i, self.region[j]).update(j, self.region[i]), len: self.len }
    }

    /// Removing the element at `index`: the last live element moves into its
    /// slot, and `fill` is left where the last one was.
    pub open spec fn swap_remove_with(self, index: int, fill: T) -> Self {
        State {
            region: self.region.update(index, self.region[self.len - 1]).update(self.len - 1, fill),
            len: (self.len - 1) as nat,
        }
    }

    /// The same vector with its live elements replaced by `live`, slot for slot.
    pub open spec fn with_live(self, live: Seq<T>) -> Self {
        State { region: live + self.residue(), len: self.len }
    }

    /// Whether `op` may be asked of this vector: a removal by swapping needs an
    /// index of an element, and a write covers the elements exactly.
    pub open spec fn allows(self, op: Op<T>) -> bool {
        match op {
            Op::SwapRemove(index, _) => 0 <= index < self.len,
            Op::Write(live) => live.len() == self.len,
            _ => true,
        }
    }

    /// The vector after `op`. An operation that is not allowed is not carried out.
    pub open spec fn apply(self, op: Op<T>) -> Self {
        if !self.allows(op) {
            self
        } else {
            match op {
                Op::Push(elem) => self.push(elem),
                Op::Pop(fill) => self.pop_with(fill),
                Op::Truncate(n) => self.truncate(n),
                Op::SwapRemove(index, fill) => self.swap_remove_with(index, fill),
                Op::Write(live) => self.with_live(live),
            }
        }
    }

    /// The vector after every operation of `ops`, first to last.
    pub open spec fn apply_all(self, ops: Seq<Op<T>>) -> Self
        decreases ops.len(),
    {
        if ops.len() == 0 {
            self
        } else {
            self.apply_all(ops.drop_last()).apply(ops.last())
        }
    }
}

impl<T> State<T> {
    /// A vector has exactly `len` elements, never more than its capacity, and
    /// its elements and the residue together make up the region.
    pub proof fn lemma_live_len(self)
        requires
            self.wf(),
        ensures
            self.live().len() == self.len,
            self.len <= self.capacity(),
            self.live() + self.residue() == self.region,
    {
        assert(self.live() + self.residue() =~= self.region);
    }

    /// Whatever is done to a vector, in whatever order, its length stays
    /// within its capacity, its capacity stays what it was, and it has as many
    /// elements as its length says.
    pub proof fn lemma_apply_all(self, ops: Seq<Op<T>>)
        requires
            self.wf(),
        ensures
            self.apply_all(ops).wf(),
            self.apply_all(ops).len <= self.apply_all(ops).capacity(),
            self.apply_all(ops).capacity() == self.capacity(),
            self.apply_all(ops).live().len() == self.apply_all(ops).len,
        decreases ops.len(),
    {
        if ops.len() > 0 {
            self.lemma_apply_all(ops.drop_last());
        }
    }

    /// Pushing keeps the vector within its region. Onto a vector with a free
    /// slot it appends the element and uses up the first slot of the residue;
    /// a full vector it leaves alone.
    pub proof fn lemma_push(self, elem: T)
        requires
            self.wf(),
        ensures
            self.push(elem).wf(),
            self.push(elem).capacity() == self.capacity(),
            self.is_full() ==> self.push(elem) == self,
            !self.is_full() ==> self.push(elem).len == self.len + 1,
            !self.is_full() ==> self.push(elem).live() == self.live().push(elem),
            !self.is_full() ==> self.push(elem).residue() == self.residue().drop_first(),
    {
        if !self.is_full() {
            assert(self.push(elem).live() =~= self.live().push(elem));
            assert(self.push(elem).residue() =~= self.residue().drop_first());
        }
    }

    /// Popping keeps the vector within its region. From a vector with elements
    /// it takes the last one away and puts `fill` at the head of the residue;
    /// an empty vector it leaves alone, whatever `fill` is.
    pub proof fn lemma_pop_with(self, fill: T)
        requires
            self.wf(),
        ensures
            self.pop_with(fill).wf(),
            self.pop_with(fill).capacity() == self.capacity(),
            self.len == 0 ==> self.last() is None && self.pop_with(fill) == self,
            self.len > 0 ==> self.last() == Some(self.live().last()),
            self.len > 0 ==> self.pop_with(fill).live() == self.live().drop_last(),
            self.len > 0 ==> self.pop_with(fill).residue() == seq![fill] + self.residue(),
    {
        if self.len > 0 {
            assert(self.pop_with(fill).live() =~= self.live().drop_last());
            assert(self.pop_with(fill).residue() =~= seq![fill] + self.residue());
        }
    }

    /// Pushing onto a vector with a free slot, such as an empty one of capacity
    /// one or more, and popping at once gives the pushed element back and
    /// leaves the length and the elements as they were.
    pub proof fn lemma_push_then_pop(self, elem: T, fill: T)
        requires
            self.wf(),
            !self.is_full(),
        ensures
            self.push_result(elem) is Ok,
            self.push(elem).last() == Some(elem),
            self.push(elem).pop_with(fill).len == self.len,
            self.push(elem).pop_with(fill).live() == self.live(),
    {
        assert(self.push(elem).pop_with(fill).live() =~= self.live());
    }

    /// While the elements fit, pushing them one after another appends them all.
    pub proof fn lemma_push_all(self, elems: Seq<T>)
        requires
            self.wf(),
            self.len + elems.len() <= self.capacity(),
        ensures
            self.push_all(elems).wf(),
            self.push_all(elems).capacity() == self.capacity(),
            self.push_all(elems).len == self.len + elems.len(),
            self.push_all(elems).live() == self.live() + elems,
        decreases elems.len(),
    {
        if elems.len() == 0 {
            assert(self.live() + elems =~= self.live());
        } else {
            let before = self.push_all(elems.drop_last());
            self.lemma_push_all(elems.drop_last());
            before.lemma_push(elems.last());
            assert(self.live() + elems =~= (self.live() + elems.drop_last()).push(elems.last()));
        }
    }

    /// Pushing one element more than there are free slots, as an empty vector
    /// is pushed its capacity and one: every push but the last succeeds, the
    /// last is answered with the element it was given and changes nothing, so
    /// the vector ends up full, holding all the elements but the last.
    pub proof fn lemma_push_past_capacity(self, elems: Seq<T>)
        requires
            self.wf(),
            self.len + elems.len() == self.capacity() + 1,
        ensures
            forall|k: int|
                0 <= k < elems.len() - 1 ==> (#[trigger] self.push_all(elems.take(k))).push_result(
                    elems[k],
                ) is Ok,
            self.push_all(elems.drop_last()).push_result(elems.last()) == Err::<(), T>(
                elems.last(),
            ),
            self.push_all(elems) == self.push_all(elems.drop_last()),
            self.push_all(elems).live() == self.live() + elems.drop_last(),
            self.push_all(elems).is_full(),
    {
        assert forall|k: int| 0 <= k < elems.len() - 1 implies (#[trigger] self.push_all(
            elems.take(k),
        )).push_result(elems[k]) is Ok by {
            self.lemma_push_all(elems.take(k));
        }
        self.lemma_push_all(elems.drop_last());
    }

    /// Truncating never touches the region. Below the length it sets the
    /// length, keeps the elements before the cut, and the elements cut off
    /// become the head of the residue; at or above the length it does nothing.
    pub proof fn lemma_truncate(self, n: nat)
        requires
            self.wf(),
        ensures
            self.truncate(n).wf(),
            self.truncate(n).region == self.region,
            n >= self.len ==> self.truncate(n) == self,
            n < self.len ==> self.truncate(n).len == n,
            n < self.len ==> self.truncate(n).live() == self.live().take(n as int),
            n < self.len ==> self.truncate(n).residue() == self.live().skip(n as int)
                + self.residue(),
    {
        if n < self.len {
            assert(self.truncate(n).live() =~= self.live().take(n as int));
            assert(self.truncate(n).residue() =~= self.live().skip(n as int) + self.residue());
        }
    }

    /// Removing by swapping is a swap with the last element followed by a pop.
    /// It returns the element that was at `index` and puts the last element in
    /// its place, so the order of the elements is not kept.
    pub proof fn lemma_swap_remove_with(self, index: int, fill: T)
        requires
            self.wf(),
            0 <= index < self.len,
        ensures
            self.swap_remove_with(index, fill) == self.swap(index, self.len - 1).pop_with(fill),
            self.swap(index, self.len - 1).last() == Some(self.live()[index]),
            self.swap_remove_with(index, fill).wf(),
            self.swap_remove_with(index, fill).capacity() == self.capacity(),
            self.swap_remove_with(index, fill).len == self.len - 1,
            self.swap_remove_with(index, fill).live() == self.live().update(
                index,
                self.live().last(),
            ).drop_last(),
    {
        assert(self.swap_remove_with(index, fill).region =~= self.swap(
            index,
            self.len - 1,
        ).pop_with(fill).region);
        assert(self.swap_remove_with(index, fill).live() =~= self.live().update(
            index,
            self.live().last(),
        ).drop_last());
    }

    /// Writing new values over the elements, slot for slot, changes the
    /// elements and nothing else.
    pub proof fn lemma_with_live(self, live: Seq<T>)
        requires
            self.wf(),
            live.len() == self.len,
        ensures
            self.with_live(live).wf(),
            self.with_live(live).capacity() == self.capacity(),
            self.with_live(live).live() == live,
            self.with_live(live).residue() == self.residue(),
            self.with_live(self.live()) == self,
    {
        assert(self.with_live(live).live() =~= live);
        assert(self.with_live(live).residue() =~= self.residue());
        assert(self.with_live(self.live()).region =~= self.region);
    }
}

} // verus!
