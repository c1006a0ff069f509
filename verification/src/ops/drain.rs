//! Draining a range `[start, end)` of a container.
//!
//! The protocol has three stages.  Construction validates the range and
//! immediately truncates the container's logical length to `start`, taking
//! the range and the untouched tail out of it: the half-consumed range can
//! never be observed as logically live.  Iteration (`next`) yields the
//! range's elements in order as owned erased values.  Finalization
//! (`finish`) destroys the not-yet-yielded elements, hands the untouched
//! tail back to the container, and so restores a consistent length.
//!
//! The drain value is linear: abandoning it without calling `finish` leaves
//! the container truncated at `start` and leaks the elements the drain still
//! held — the same hazard as abandoning any owned handle.

use vstd::prelude::*;

use crate::any_value::AnyValue;
use crate::any_value::ErasedValue;
use crate::any_vec::elem_views;
use crate::any_vec::AnyVec;
use crate::traits::Trait;

verus! {

/// An in-progress drain of a range of a container.
pub struct Drain {
    pending: Vec<Vec<u8>>,
    tail: Vec<Vec<u8>>,
    start: usize,
    end: usize,
    cursor: usize,
    original_len: usize,
    typeid: u64,
    size: usize,
}

impl Drain {
    /// The not-yet-yielded elements, in order.
    pub closed spec fn remaining(&self) -> Seq<Seq<u8>> {
        elem_views(self.pending@)
    }

    /// The untouched tail `[end, original_len)` held for the container.
    pub closed spec fn tail_view(&self) -> Seq<Seq<u8>> {
        elem_views(self.tail@)
    }

    pub closed spec fn start_spec(&self) -> usize {
        self.start
    }

    pub closed spec fn end_spec(&self) -> usize {
        self.end
    }

    pub closed spec fn cursor_spec(&self) -> usize {
        self.cursor
    }

    pub closed spec fn original_len_spec(&self) -> usize {
        self.original_len
    }

    pub closed spec fn typeid_spec(&self) -> u64 {
        self.typeid
    }

    pub closed spec fn size_spec(&self) -> usize {
        self.size
    }

    pub closed spec fn wf(&self) -> bool {
        &&& self.start <= self.cursor <= self.end <= self.original_len
        &&& self.remaining().len() == self.end - self.cursor
        &&& self.tail_view().len() == self.original_len - self.end
        &&& forall|i: int|
            0 <= i < self.remaining().len() ==> (#[trigger] self.remaining()[i]).len() == self.size
        &&& forall|i: int|
            0 <= i < self.tail_view().len() ==> (#[trigger] self.tail_view()[i]).len() == self.size
    }

    /// Starts draining `v[start..end]`: validates the range, truncates the
    /// container's logical length to `start`, and takes the range and the
    /// untouched tail out of the container.
    ///
    /// An invalid range is a caller fault and is excluded by the
    /// precondition.
    pub fn new<Traits: Trait>(v: &mut AnyVec<Traits>, start: usize, end: usize) -> (r: Self)
        requires
            old(v).wf(),
            start <= end <= old(v)@.len(),
        ensures
            final(v).wf(),
            final(v)@ == old(v)@.subrange(0, start as int),
            final(v).spec_desc() == old(v).spec_desc(),
            final(v).spec_capacity() == old(v).spec_capacity(),
            r.wf(),
            r.remaining() == old(v)@.subrange(start as int, end as int),
            r.tail_view() == old(v)@.subrange(end as int, old(v)@.len() as int),
            r.start_spec() == start,
            r.end_spec() == end,
            r.cursor_spec() == start,
            r.original_len_spec() == old(v)@.len(),
            r.typeid_spec() == old(v).spec_typeid(),
            r.size_spec() == old(v).spec_size(),
    {
        let original_len = v.len();
        let typeid = v.element_typeid();
        let size = v.element_layout().size;
        let mut detached = v.take_from(start);
        let ghost det0 = detached@;
        proof {
            assert(elem_views(det0).len() == det0.len());
            assert(det0.len() == old(v)@.len() - start);
        }
        let tail = detached.split_off(end - start);
        proof {
            crate::any_vec::lemma_views_subrange(det0, 0, end - start);
            crate::any_vec::lemma_views_subrange(det0, end - start, det0.len() as int);
            assert(elem_views(detached@) =~= old(v)@.subrange(start as int, end as int));
            assert(elem_views(tail@) =~= old(v)@.subrange(end as int, old(v)@.len() as int));
        }
        Drain { pending: detached, tail, start, end, cursor: start, original_len, typeid, size }
    }

    /// Yields the next not-yet-consumed element of the range as an owned
    /// erased value, or nothing once the range is exhausted.
    pub fn next(&mut self) -> (r: Option<ErasedValue>)
        requires
            old(self).wf(),
        ensures
            final(self).wf(),
            old(self).remaining().len() == 0 ==> r is None && *final(self) == *old(self),
            old(self).remaining().len() > 0 ==> {
                &&& r matches Some(e)
                &&& AnyValue::typeid_spec(&e) == old(self).typeid_spec()
                &&& AnyValue::bytes_spec(&e) == old(self).remaining()[0]
                &&& final(self).remaining() == old(self).remaining().drop_first()
                &&& final(self).cursor_spec() == old(self).cursor_spec() + 1
                &&& final(self).tail_view() == old(self).tail_view()
                &&& final(self).start_spec() == old(self).start_spec()
                &&& final(self).end_spec() == old(self).end_spec()
                &&& final(self).original_len_spec() == old(self).original_len_spec()
                &&& final(self).typeid_spec() == old(self).typeid_spec()
                &&& final(self).size_spec() == old(self).size_spec()
            },
    {
        if self.pending.len() == 0 {
            None
        } else {
            proof {
                crate::any_vec::lemma_views_remove(self.pending@, 0);
            }
            let b = self.pending.remove(0);
            self.cursor = self.cursor + 1;
            proof {
                assert(self.remaining() =~= old(self).remaining().drop_first());
                assert forall|i: int| 0 <= i < self.remaining().len() implies (#[trigger] self.remaining()[i]).len()
                    == self.size by {
                    assert(self.remaining()[i] == old(self).remaining()[i + 1]);
                }
            }
            Some(ErasedValue::new(self.typeid, b))
        }
    }

    /// Number of elements the drain has not yet yielded.
    pub fn len(&self) -> (r: usize)
        ensures
            r == self.remaining().len(),
    {
        self.pending.len()
    }

    /// Finalizes the drain: destroys the not-yet-yielded elements and hands
    /// the untouched tail back to the container, which restores a consistent
    /// length.  Consumes the drain, so finalization happens exactly once.
    pub fn finish<Traits: Trait>(self, v: &mut AnyVec<Traits>)
        requires
            old(v).wf(),
            self.wf(),
            self.size_spec() == old(v).spec_size(),
            old(v)@.len() + self.tail_view().len() <= old(v).spec_capacity(),
        ensures
            final(v).wf(),
            final(v)@ == old(v)@ + self.tail_view(),
            final(v).spec_desc() == old(v).spec_desc(),
            final(v).spec_capacity() == old(v).spec_capacity(),
    {
        let ghost me = self;
        let Drain {
            pending: _pending,
            tail,
            start: _,
            end: _,
            cursor: _,
            original_len: _,
            typeid: _,
            size: _,
        } = self;
        proof {
            assert(elem_views(tail@) == me.tail_view());
            assert forall|i: int| 0 <= i < tail@.len() implies (#[trigger] tail@[i])@.len()
                == v.spec_size() by {
                assert(me.tail_view()[i] == tail@[i]@);
            }
        }
        v.append_elems(tail);
    }
}

} // verus!
