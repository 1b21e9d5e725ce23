//! An owned buffer allocated from the table's general-purpose pool.
//!
//! A [`PoolVec`] owns one contiguous pool region of `cap` elements, of which
//! the first `len` are the buffer's logical contents. It is a fixed-capacity
//! buffer, not a dynamic array: it never grows past `cap` and never
//! reallocates. The backing region is filled slot by slot with [`write`] and
//! the logical length is adjusted afterwards with [`set_len`]; the view of
//! the buffer is exactly its first `len` written slots.
//!
//! The region is returned to the pool by [`release`], which consumes the
//! buffer, so each buffer hands its base to the free-pool entry point at most
//! once, and ownership makes a second hand-over impossible.
//!
//! [`write`]: PoolVec::write
//! [`set_len`]: PoolVec::set_len
//! [`release`]: PoolVec::release

use vstd::prelude::*;

use crate::status::Status;
use crate::table::BootServices;
use crate::table::find_region;

verus! {

/// The logical contents of a buffer: the first `len` slots of its backing
/// store.
pub open spec fn logical_view<T>(store: Seq<T>, len: int) -> Seq<T> {
    store.subrange(0, len)
}

/// An owned, fixed-capacity buffer backed by one pool region.
///
/// `base` stands for the address the pool assigned to the region; external
/// code never sees it except through the release call that returns it.
pub struct PoolVec<T> {
    base: usize,
    cap: usize,
    store: Vec<T>,
    len: usize,
}

impl<T> View for PoolVec<T> {
    type V = Seq<T>;

    /// The buffer reads as exactly its first `len` written elements.
    closed spec fn view(&self) -> Seq<T> {
        logical_view(self.store@, self.len as int)
    }
}

impl<T> PoolVec<T> {
    /// The pool address of the backing region.
    pub closed spec fn spec_base(&self) -> usize {
        self.base
    }

    /// Capacity of the region, in elements.
    pub closed spec fn spec_cap(&self) -> nat {
        self.cap as nat
    }

    /// Every element written into the backing region so far, in slot order;
    /// the logical view is its prefix of length `len`.
    pub closed spec fn written(&self) -> Seq<T> {
        self.store@
    }

    /// Buffer invariant: the logical length never exceeds the written prefix,
    /// the written prefix never exceeds the capacity, and the region is
    /// non-null.
    pub closed spec fn wf(&self) -> bool {
        &&& self.len <= self.store@.len()
        &&& self.store@.len() <= self.cap
        &&& self.base != 0
    }

    /// Adopt an already-allocated region of `cap` elements whose first
    /// `elems.len()` slots hold `elems`. The caller vouches that the region
    /// is non-null and really holds those elements; they become both the
    /// written prefix and the logical contents.
    pub fn from_ptr(base: usize, cap: usize, elems: Vec<T>) -> (v: PoolVec<T>)
        requires
            base != 0,
            elems@.len() <= cap,
        ensures
            v.wf(),
            v.spec_base() == base,
            v.spec_cap() == cap,
            v.written() == elems@,
            v@ == elems@,
    {
        let ghost contents = elems@;
        let len = elems.len();
        let v = PoolVec { base, cap, store: elems, len };
        proof {
            assert(v@ =~= contents);
        }
        v
    }

    /// Logical length of the buffer.
    pub fn len(&self) -> (n: usize)
        requires
            self.wf(),
        ensures
            n == self@.len(),
    {
        self.len
    }

    /// Capacity of the buffer, in elements.
    pub fn capacity(&self) -> (c: usize)
        ensures
            c == self.spec_cap(),
    {
        self.cap
    }

    /// Write `value` into backing slot `i`, which must lie within capacity
    /// and at or before the end of the written prefix. The logical contents
    /// change only where the slot lies below the logical length; the length
    /// itself never moves.
    pub fn write(&mut self, i: usize, value: T)
        requires
            old(self).wf(),
            i < old(self).spec_cap(),
            i <= old(self).written().len(),
        ensures
            final(self).wf(),
            final(self).spec_base() == old(self).spec_base(),
            final(self).spec_cap() == old(self).spec_cap(),
            final(self).written() == if i < old(self).written().len() {
                old(self).written().update(i as int, value)
            } else {
                old(self).written().push(value)
            },
            final(self)@ == if i < old(self)@.len() {
                old(self)@.update(i as int, value)
            } else {
                old(self)@
            },
            final(self)@.len() == old(self)@.len(),
    {
        if i < self.store.len() {
            self.store[i] = value;
            proof {
                if i < self.len {
                    assert(self@ =~= logical_view(old(self).store@, self.len as int).update(
                        i as int,
                        value,
                    ));
                } else {
                    assert(self@ =~= logical_view(old(self).store@, self.len as int));
                }
            }
        } else {
            self.store.push(value);
            proof {
                assert(self@ =~= logical_view(old(self).store@, self.len as int));
            }
        }
    }

    /// Adjust the logical length to `len` without touching the backing
    /// slots. `len` may never exceed the capacity, and the caller vouches
    /// that `len` slots have really been written; the buffer then reads as
    /// exactly the first `len` written elements — never a truncation of the
    /// request, never a wrap.
    pub fn set_len(&mut self, len: usize)
        requires
            old(self).wf(),
            len <= old(self).spec_cap(),
            len <= old(self).written().len(),
        ensures
            final(self).wf(),
            final(self).spec_base() == old(self).spec_base(),
            final(self).spec_cap() == old(self).spec_cap(),
            final(self).written() == old(self).written(),
            final(self)@ == logical_view(old(self).written(), len as int),
            final(self)@.len() == len,
    {
        self.len = len;
    }

    /// Read the element at logical index `i`.
    pub fn get(&self, i: usize) -> (r: &T)
        requires
            self.wf(),
            i < self@.len(),
        ensures
            *r == self@[i as int],
    {
        &self.store[i]
    }

    /// The logical contents as one contiguous slice of `len` elements.
    pub fn as_slice(&self) -> (s: &[T])
        requires
            self.wf(),
        ensures
            s@ == self@,
    {
        vstd::slice::slice_subrange(self.store.as_slice(), 0, self.len)
    }

    /// Return the backing region to the pool through the table's free-pool
    /// entry point. The buffer is consumed: the elements of its backing
    /// store are destroyed first, in slot order, then its base is handed to
    /// the pool exactly once. The call succeeds exactly when the region is
    /// outstanding in the pool, and on success retires it.
    pub fn release(self, bs: &mut BootServices) -> (r: Status)
        requires
            old(bs).wf(),
            self.wf(),
        ensures
            final(bs).wf(),
            final(bs).free_log() == old(bs).free_log().push(self.spec_base()),
            final(bs).remaining() == old(bs).remaining(),
            r.is_success() == old(bs).is_live(self.spec_base()),
            r.is_success() ==> final(bs).live_regions() == old(bs).live_regions().remove(
                find_region(old(bs).live_regions(), self.spec_base()),
            ),
            !r.is_success() ==> final(bs).live_regions() == old(bs).live_regions(),
    {
        let PoolVec { base, cap: _, mut store, len: _ } = self;
        // destroy the live elements, front to back, before the region goes
        store.clear();
        bs.FreePool(base)
    }
}

/// Round trip: a buffer whose first `k` backing slots were written with
/// exactly the elements of `xs` reads back exactly `xs` once its logical
/// length is set to `k`, element for element and unchanged.
///
/// [`PoolVec::write`] pins the written prefix, [`PoolVec::set_len`] makes the
/// view the `logical_view` of that prefix, and [`PoolVec::get`] and
/// [`PoolVec::as_slice`] read the view; this law closes the loop between
/// them.
pub proof fn lemma_write_set_len_roundtrip<T>(store: Seq<T>, k: int, xs: Seq<T>)
    requires
        0 <= k <= store.len(),
        store.subrange(0, k) == xs,
    ensures
        logical_view(store, k) == xs,
        logical_view(store, k).len() == k,
        forall|i: int| 0 <= i < k ==> logical_view(store, k)[i] == xs[i],
{
}

} // verus!
