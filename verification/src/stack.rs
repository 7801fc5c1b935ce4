//! A bounded vector, `StackVec`, backed entirely by storage handed over at
//! construction. The capacity is exactly the length of that storage and never
//! changes: `push` fails instead of growing. Shrinking operations (`pop`,
//! `truncate`) only move the logical length; they leave the now-unused slots
//! of the backing buffer untouched, and callers must not rely on popped slots
//! being cleared.

use vstd::prelude::*;

verus! {

/// A contiguous vector type backed by a fixed-size buffer.
///
/// `StackVec` offers `push`, `pop` and friends like `Vec`, but it never
/// allocates: it stores its elements in the buffer it was constructed with,
/// so its capacity is bounded and `push` is fallible.
pub struct StackVec<T> {
    storage: Vec<T>,
    head: usize,
}

impl<T> View for StackVec<T> {
    type V = Seq<T>;

    /// The logical contents: the first `head` slots of the backing buffer.
    closed spec fn view(&self) -> Seq<T> {
        self.storage@.take(self.head as int)
    }
}

impl<T> StackVec<T> {
    /// Well-formedness: the logical length never exceeds the capacity.
    pub closed spec fn wf(&self) -> bool {
        self.head <= self.storage.len()
    }

    /// Total number of slots, fixed for the container's life.
    pub closed spec fn spec_capacity(&self) -> nat {
        self.storage@.len()
    }

    /// The whole backing buffer, stale slots included.
    pub closed spec fn buf(&self) -> Seq<T> {
        self.storage@
    }

    /// The capacity invariant: in every well-formed state the length is
    /// bounded by the capacity, and the logical contents are exactly a
    /// prefix of the backing buffer. Every constructor establishes `wf()`
    /// and every method preserves it, so this holds after any sequence of
    /// operations.
    pub proof fn lemma_view_is_buf_prefix(&self)
        requires
            self.wf(),
        ensures
            self@.len() <= self.spec_capacity(),
            self.buf().len() == self.spec_capacity(),
            self@ == self.buf().take(self@.len() as int),
    {
    }

    /// Constructs a new, empty `StackVec` using `storage` as the backing
    /// store. The result holds up to `storage.len()` values.
    pub fn new(storage: Vec<T>) -> (r: StackVec<T>)
        ensures
            r.wf(),
            r@ == Seq::<T>::empty(),
            r.spec_capacity() == storage@.len(),
            r.buf() == storage@,
    {
        let r = StackVec { storage, head: 0 };
        proof {
            assert(r@ =~= Seq::<T>::empty());
        }
        r
    }

    /// Constructs a `StackVec` whose first `len` slots of `storage` count as
    /// already pushed. The capacity is `storage.len()`; a preset length above
    /// it is a contract violation and is ruled out statically.
    pub fn with_len(storage: Vec<T>, len: usize) -> (r: StackVec<T>)
        requires
            len <= storage@.len(),
        ensures
            r.wf(),
            r@ == storage@.take(len as int),
            r.spec_capacity() == storage@.len(),
            r.buf() == storage@,
    {
        StackVec { storage, head: len }
    }

    /// Returns the number of elements this vector can hold.
    pub fn capacity(&self) -> (r: usize)
        ensures
            r == self.spec_capacity(),
    {
        self.storage.len()
    }

    /// Returns the number of elements in the vector.
    pub fn len(&self) -> (r: usize)
        requires
            self.wf(),
        ensures
            r == self@.len(),
    {
        self.head
    }

    /// Returns true if the vector contains no elements.
    pub fn is_empty(&self) -> (r: bool)
        requires
            self.wf(),
        ensures
            r <==> self@.len() == 0,
    {
        self.head == 0
    }

    /// Returns true if the vector is at capacity: exactly when the length
    /// equals the capacity.
    pub fn is_full(&self) -> (r: bool)
        requires
            self.wf(),
        ensures
            r <==> self@.len() == self.spec_capacity(),
    {
        self.head == self.storage.len()
    }

    /// Appends `value` to the back of this vector if the vector is not full.
    ///
    /// On a full vector this returns `Err` and changes nothing, buffer
    /// included; otherwise it writes `value` into the next free slot,
    /// lengthens the vector by one, and returns `Ok`.
    pub fn push(&mut self, value: T) -> (r: Result<(), ()>)
        requires
            old(self).wf(),
        ensures
            final(self).wf(),
            final(self).spec_capacity() == old(self).spec_capacity(),
            old(self)@.len() == old(self).spec_capacity() ==> {
                &&& r is Err
                &&& final(self)@ == old(self)@
                &&& final(self).buf() == old(self).buf()
            },
            old(self)@.len() < old(self).spec_capacity() ==> {
                &&& r is Ok
                &&& final(self)@ == old(self)@.push(value)
                &&& final(self).buf() == old(self).buf().update(
                    old(self)@.len() as int,
                    value,
                )
            },
    {
        if self.is_full() {
            Err(())
        } else {
            let ghost pre = *self;
            self.storage[self.head] = value;
            self.head = self.head + 1;
            proof {
                assert(self@ =~= pre@.push(value));
            }
            Ok(())
        }
    }

    /// Shortens the vector, keeping the first `len` elements unchanged. If
    /// `len` is not below the current length this has no effect. The capacity
    /// and the backing buffer are never affected.
    pub fn truncate(&mut self, len: usize)
        requires
            old(self).wf(),
        ensures
            final(self).wf(),
            final(self).spec_capacity() == old(self).spec_capacity(),
            final(self).buf() == old(self).buf(),
            len <= old(self)@.len() ==> final(self)@ == old(self)@.take(len as int),
            len > old(self)@.len() ==> final(self)@ == old(self)@,
    {
        let ghost pre = *self;
        if len < self.head {
            self.head = len;
        }
        proof {
            if len <= pre@.len() {
                assert(self@ =~= pre@.take(len as int));
            } else {
                assert(self@ =~= pre@);
            }
        }
    }

    /// Reads the element at index `i`. Indices at or beyond the logical
    /// length are a contract violation and are ruled out statically.
    pub fn get(&self, i: usize) -> (r: &T)
        requires
            self.wf(),
            i < self@.len(),
        ensures
            *r == self@[i as int],
    {
        &self.storage[i]
    }

    /// Overwrites the element at index `i` without changing the length.
    /// Indices at or beyond the logical length are a contract violation and
    /// are ruled out statically.
    pub fn set(&mut self, i: usize, value: T)
        requires
            old(self).wf(),
            i < old(self)@.len(),
        ensures
            final(self).wf(),
            final(self).spec_capacity() == old(self).spec_capacity(),
            final(self)@ == old(self)@.update(i as int, value),
            final(self).buf() == old(self).buf().update(i as int, value),
    {
        let ghost pre = *self;
        self.storage[i] = value;
        proof {
            assert(self@ =~= pre@.update(i as int, value));
        }
    }

    /// Extracts a read-only view of exactly the first `len()` slots, never
    /// the full capacity.
    pub fn as_slice(&self) -> (r: &[T])
        requires
            self.wf(),
        ensures
            r@ == self@,
    {
        vstd::slice::slice_subrange(self.storage.as_slice(), 0, self.head)
    }

    /// Extracts an exclusive-write view of exactly the first `len()` slots,
    /// never the full capacity. While the view lives, the vector cannot be
    /// touched; afterwards its contents are whatever was written through the
    /// view, its length and capacity unchanged.
    pub fn as_mut_slice(&mut self) -> (r: &mut [T])
        requires
            old(self).wf(),
        ensures
            r@ == old(self)@,
            final(r)@.len() == old(self)@.len(),
            final(self).wf(),
            final(self)@ == final(r)@,
            final(self).spec_capacity() == old(self).spec_capacity(),
            final(self).buf() == final(r)@ + old(self).buf().skip(old(self)@.len() as int),
    {
        let head = self.head;
        prefix_mut(&mut self.storage, head)
    }

    /// Extracts the buffer holding exactly the first `len()` elements,
    /// consuming `self`.
    ///
    /// The result's length is the logical length of this vector, not the
    /// length of the original backing storage.
    pub fn into_slice(self) -> (r: Vec<T>)
        requires
            self.wf(),
        ensures
            r@ == self@,
    {
        let ghost pre = self;
        let StackVec { mut storage, head } = self;
        storage.truncate(head);
        proof {
            assert(storage@ =~= pre@);
        }
        storage
    }

    /// Consumes the vector and yields an iterator over its logical elements,
    /// in index order.
    pub fn into_iter(self) -> (r: StackIterator<T>)
        requires
            self.wf(),
        ensures
            r.wf(),
            r.elems() == self@,
            r.pos() == 0,
    {
        StackIterator { vec: self, next: 0 }
    }
}

impl<T: Copy> StackVec<T> {
    /// If this vector is not empty, removes the last element by copying it
    /// out and returns it; otherwise returns `None`. The absence of an
    /// element is a normal outcome, not an error.
    ///
    /// The vacated buffer slot is left untouched: only the logical length
    /// records which slots are valid.
    pub fn pop(&mut self) -> (r: Option<T>)
        requires
            old(self).wf(),
        ensures
            final(self).wf(),
            final(self).spec_capacity() == old(self).spec_capacity(),
            final(self).buf() == old(self).buf(),
            old(self)@.len() == 0 ==> r is None && final(self)@ == old(self)@,
            old(self)@.len() > 0 ==> {
                &&& r == Some(old(self)@.last())
                &&& final(self)@ == old(self)@.drop_last()
            },
    {
        if self.is_empty() {
            return None;
        }
        let ghost pre = *self;
        let last = self.storage[self.head - 1];
        self.head = self.head - 1;
        proof {
            assert(self@ =~= pre@.drop_last());
        }
        Some(last)
    }
}

/// Relies on std's range indexing of a vector: `&mut v[..k]` is an exclusive
/// borrow of exactly the first `k` elements; writes through it land in those
/// elements, it cannot change its own length, and the elements from `k` on
/// stay as they were.
#[verifier::external_body]
fn prefix_mut<T>(v: &mut Vec<T>, k: usize) -> (r: &mut [T])
    requires
        k <= old(v)@.len(),
    ensures
        r@ == old(v)@.take(k as int),
        final(r)@.len() == k,
        final(v)@ == final(r)@ + old(v)@.skip(k as int),
        final(v)@.take(k as int) == final(r)@,
{
    &mut v[..k]
}

/// A consuming, forward-only iterator over a `StackVec`'s logical elements.
/// It owns the vector it was made from; once exhausted it keeps yielding
/// `None` and cannot be restarted.
pub struct StackIterator<T> {
    vec: StackVec<T>,
    next: usize,
}

impl<T> StackIterator<T> {
    /// Well-formedness: the cursor stays within `[0, elems().len()]`.
    pub closed spec fn wf(&self) -> bool {
        self.vec.wf() && self.next <= self.vec@.len()
    }

    /// The full sequence of elements this iterator walks over.
    pub closed spec fn elems(&self) -> Seq<T> {
        self.vec@
    }

    /// The cursor: how many elements have been yielded so far.
    pub closed spec fn pos(&self) -> nat {
        self.next as nat
    }
}

impl<T: Copy> StackIterator<T> {
    /// Yields the next logical element, or `None` once all `elems()` have
    /// been yielded. Iteration is bounded by the logical length, never by
    /// the raw capacity, so stale slots are never exposed.
    pub fn next(&mut self) -> (r: Option<T>)
        requires
            old(self).wf(),
        ensures
            final(self).wf(),
            final(self).elems() == old(self).elems(),
            old(self).pos() < old(self).elems().len() ==> {
                &&& r == Some(old(self).elems()[old(self).pos() as int])
                &&& final(self).pos() == old(self).pos() + 1
            },
            old(self).pos() == old(self).elems().len() ==> {
                &&& r is None
                &&& final(self).pos() == old(self).pos()
            },
    {
        if self.next >= self.vec.len() {
            return None;
        }
        let item = *self.vec.get(self.next);
        self.next = self.next + 1;
        Some(item)
    }
}

/// The view after pushing each element of `vs` in order onto a vector whose
/// view is `w`: one step per element, exactly as `push`'s contract describes
/// a successful call.
pub open spec fn pushed_all<T>(w: Seq<T>, vs: Seq<T>) -> Seq<T>
    decreases vs.len(),
{
    if vs.len() == 0 {
        w
    } else {
        pushed_all(w.push(vs[0]), vs.drop_first())
    }
}

/// The values returned by `k` successive pops from a vector whose view is
/// `w`: one step per pop, exactly as `pop`'s contract describes a call on a
/// non-empty vector.
pub open spec fn popped_values<T>(w: Seq<T>, k: nat) -> Seq<T>
    recommends
        k <= w.len(),
    decreases k,
{
    if k == 0 {
        Seq::empty()
    } else {
        seq![w.last()] + popped_values(w.drop_last(), (k - 1) as nat)
    }
}

/// The view left behind by `k` successive pops from a vector whose view is
/// `w`.
pub open spec fn popped_rest<T>(w: Seq<T>, k: nat) -> Seq<T>
    recommends
        k <= w.len(),
    decreases k,
{
    if k == 0 {
        w
    } else {
        popped_rest(w.drop_last(), (k - 1) as nat)
    }
}

/// The last-in-first-out law: starting from any contents `w`, pushing the
/// values `vs` in order and then popping `vs.len()` times yields exactly the
/// values of `vs` in reverse order, and leaves the contents `w` behind (so a
/// vector filled from empty is empty again afterwards, and by `pop`'s
/// contract a further pop then returns `None`).
pub proof fn lemma_push_pop_lifo<T>(w: Seq<T>, vs: Seq<T>)
    ensures
        pushed_all(w, vs) == w + vs,
        popped_values(w + vs, vs.len()) == vs.reverse(),
        popped_rest(w + vs, vs.len()) == w,
    decreases vs.len(),
{
    if vs.len() == 0 {
        assert(w + vs =~= w);
        assert(vs.reverse() =~= Seq::<T>::empty());
    } else {
        let first = vs[0];
        let rest = vs.drop_first();
        lemma_push_pop_lifo(w.push(first), rest);
        assert(w.push(first) + rest =~= w + vs);

        let shorter = vs.drop_last();
        lemma_push_pop_lifo(w, shorter);
        assert((w + vs).last() == vs.last());
        assert((w + vs).drop_last() =~= w + shorter);
        assert(popped_values(w + vs, vs.len()) == seq![vs.last()] + shorter.reverse());
        assert(seq![vs.last()] + shorter.reverse() =~= vs.reverse());
    }
}

} // verus!
