//! Splicing a range `[start, end)` of a container: the range is drained and
//! a replacement sequence takes its place.
//!
//! The protocol mirrors draining.  Construction validates the range,
//! truncates the container's logical length to `start`, and takes the range,
//! the untouched tail and the replacement values into the splice.  Iteration
//! (`next`) yields the replaced range's elements in order.  Finalization
//! (`finish`) grows the container if the replaced contents need more slots,
//! destroys the not-yet-yielded elements, delivers the replacement values
//! into place, moves the untouched tail after them, and restores a
//! consistent length.
//!
//! The splice value is linear: abandoning it without calling `finish` leaves
//! the container truncated at `start` and leaks what the splice still held.

use vstd::prelude::*;

use crate::any_value::AnyValue;
use crate::any_value::ErasedValue;
use crate::any_vec::elem_views;
use crate::any_vec::AnyVec;
use crate::traits::Trait;

verus! {

/// The payloads a sequence of producers would deliver, in order.
pub open spec fn producer_views<V: AnyValue>(s: Seq<V>) -> Seq<Seq<u8>> {
    Seq::new(s.len(), |i: int| s[i].bytes_spec())
}

/// An in-progress splice of a range of a container.
pub struct Splice<V: AnyValue> {
    pending: Vec<Vec<u8>>,
    tail: Vec<Vec<u8>>,
    replace_with: Vec<V>,
    start: usize,
    end: usize,
    cursor: usize,
    original_len: usize,
    typeid: u64,
    size: usize,
}

impl<V: AnyValue> Splice<V> {
    /// The not-yet-yielded elements of the replaced range, in order.
    pub closed spec fn remaining(&self) -> Seq<Seq<u8>> {
        elem_views(self.pending@)
    }

    /// The untouched tail `[end, original_len)` held for the container.
    pub closed spec fn tail_view(&self) -> Seq<Seq<u8>> {
        elem_views(self.tail@)
    }

    /// The payloads the replacement producers will deliver, in order.
    pub closed spec fn replacement_views(&self) -> Seq<Seq<u8>> {
        producer_views(self.replace_with@)
    }

    pub closed spec fn start_spec(&self) -> usize {
        self.start
    }

    pub closed spec fn end_spec(&self) -> usize {
        self.end
    }

    pub closed spec fn cursor_spec(&self) -> usize {
        self.cursor
    }

    pub closed spec fn original_len_spec(&self) -> usize {
        self.original_len
    }

    pub closed spec fn typeid_spec(&self) -> u64 {
        self.typeid
    }

    pub closed spec fn size_spec(&self) -> usize {
        self.size
    }

    pub closed spec fn wf(&self) -> bool {
        &&& self.start <= self.cursor <= self.end <= self.original_len
        &&& self.remaining().len() == self.end - self.cursor
        &&& self.tail_view().len() == self.original_len - self.end
        &&& forall|i: int|
            0 <= i < self.remaining().len() ==> (#[trigger] self.remaining()[i]).len() == self.size
        &&& forall|i: int|
            0 <= i < self.tail_view().len() ==> (#[trigger] self.tail_view()[i]).len() == self.size
        &&& forall|i: int|
            0 <= i < self.replacement_views().len() ==> (#[trigger] self.replacement_views()[i]).len()
                == self.size
    }

    /// Starts splicing `v[start..end]` with a replacement sequence:
    /// validates the range, truncates the container's logical length to
    /// `start`, and takes the range, the untouched tail and the replacement
    /// values into the splice.
    ///
    /// An invalid range or a replacement of the wrong type is a caller fault
    /// and is excluded by the precondition.
    pub fn new<Traits: Trait>(
        v: &mut AnyVec<Traits>,
        start: usize,
        end: usize,
        replace_with: Vec<V>,
    ) -> (r: Self)
        requires
            old(v).wf(),
            start <= end <= old(v)@.len(),
            forall|i: int|
                0 <= i < replace_with@.len() ==> (#[trigger] replace_with@[i]).typeid_spec() == old(
                    v,
                ).spec_typeid(),
            forall|i: int|
                0 <= i < replace_with@.len() ==> (#[trigger] replace_with@[i]).bytes_spec().len()
                    == old(v).spec_size(),
        ensures
            final(v).wf(),
            final(v)@ == old(v)@.subrange(0, start as int),
            final(v).spec_desc() == old(v).spec_desc(),
            final(v).spec_capacity() == old(v).spec_capacity(),
            r.wf(),
            r.remaining() == old(v)@.subrange(start as int, end as int),
            r.tail_view() == old(v)@.subrange(end as int, old(v)@.len() as int),
            r.replacement_views() == producer_views(replace_with@),
            r.start_spec() == start,
            r.end_spec() == end,
            r.cursor_spec() == start,
            r.original_len_spec() == old(v)@.len(),
            r.typeid_spec() == old(v).spec_typeid(),
            r.size_spec() == old(v).spec_size(),
    {
        let original_len = v.len();
        let typeid = v.element_typeid();
        let size = v.element_layout().size;
        let mut detached = v.take_from(start);
        let ghost det0 = detached@;
        proof {
            assert(elem_views(det0).len() == det0.len());
            assert(det0.len() == old(v)@.len() - start);
        }
        let tail = detached.split_off(end - start);
        proof {
            crate::any_vec::lemma_views_subrange(det0, 0, end - start);
            crate::any_vec::lemma_views_subrange(det0, end - start, det0.len() as int);
            assert(elem_views(detached@) =~= old(v)@.subrange(start as int, end as int));
            assert(elem_views(tail@) =~= old(v)@.subrange(end as int, old(v)@.len() as int));
        }
        Splice {
            pending: detached,
            tail,
            replace_with,
            start,
            end,
            cursor: start,
            original_len,
            typeid,
            size,
        }
    }

    /// Yields the next not-yet-consumed element of the replaced range as an
    /// owned erased value, or nothing once the range is exhausted.
    pub fn next(&mut self) -> (r: Option<ErasedValue>)
        requires
            old(self).wf(),
        ensures
            final(self).wf(),
            old(self).remaining().len() == 0 ==> r is None && *final(self) == *old(self),
            old(self).remaining().len() > 0 ==> {
                &&& r matches Some(e)
                &&& AnyValue::typeid_spec(&e) == old(self).typeid_spec()
                &&& AnyValue::bytes_spec(&e) == old(self).remaining()[0]
                &&& final(self).remaining() == old(self).remaining().drop_first()
                &&& final(self).cursor_spec() == old(self).cursor_spec() + 1
                &&& final(self).tail_view() == old(self).tail_view()
                &&& final(self).replacement_views() == old(self).replacement_views()
                &&& final(self).start_spec() == old(self).start_spec()
                &&& final(self).end_spec() == old(self).end_spec()
                &&& final(self).original_len_spec() == old(self).original_len_spec()
                &&& final(self).typeid_spec() == old(self).typeid_spec()
                &&& final(self).size_spec() == old(self).size_spec()
            },
    {
        if self.pending.len() == 0 {
            None
        } else {
            proof {
                crate::any_vec::lemma_views_remove(self.pending@, 0);
            }
            let b = self.pending.remove(0);
            self.cursor = self.cursor + 1;
            proof {
                assert(self.remaining() =~= old(self).remaining().drop_first());
                assert(self.replacement_views() == old(self).replacement_views());
                assert forall|i: int| 0 <= i < self.remaining().len() implies (#[trigger] self.remaining()[i]).len()
                    == self.size by {
                    assert(self.remaining()[i] == old(self).remaining()[i + 1]);
                }
            }
            Some(ErasedValue::new(self.typeid, b))
        }
    }

    /// Number of elements the splice has not yet yielded.
    pub fn len(&self) -> (r: usize)
        ensures
            r == self.remaining().len(),
    {
        self.pending.len()
    }

    /// Finalizes the splice: grows the container if the replaced contents
    /// need more slots, destroys the not-yet-yielded elements, delivers the
    /// replacement values into place, moves the untouched tail after them,
    /// and restores a consistent length.  Consumes the splice, so
    /// finalization happens exactly once.
    pub fn finish<Traits: Trait>(self, v: &mut AnyVec<Traits>)
        requires
            old(v).wf(),
            self.wf(),
            self.size_spec() == old(v).spec_size(),
            old(v)@.len() + self.replacement_views().len() + self.tail_view().len()
                <= usize::MAX,
        ensures
            final(v).wf(),
            final(v)@ == old(v)@ + self.replacement_views() + self.tail_view(),
            final(v).spec_desc() == old(v).spec_desc(),
            old(v)@.len() + self.replacement_views().len() + self.tail_view().len() <= old(
                v,
            ).spec_capacity() ==> final(v).spec_capacity() == old(v).spec_capacity(),
    {
        let ghost me = self;
        let Splice {
            pending: _pending,
            tail,
            replace_with,
            start: _,
            end: _,
            cursor: _,
            original_len: _,
            typeid: _,
            size: _,
        } = self;
        let ghost full = producer_views(replace_with@);
        let ghost tail_v = elem_views(tail@);
        proof {
            assert(full == me.replacement_views());
            assert(tail_v == me.tail_view());
        }
        let need = v.len() + replace_with.len() + tail.len();
        v.reserve_for(need);
        proof {
            assert(v@ =~= old(v)@ + full.subrange(0, 0));
            assert(producer_views(replace_with@) =~= full.subrange(0, full.len() as int));
            assert forall|i: int| 0 <= i < replace_with@.len() implies (#[trigger] replace_with@[i]).bytes_spec().len() == v.spec_size() by {
                assert(me.replacement_views()[i] == replace_with@[i].bytes_spec());
            }
        }
        let mut rest = replace_with;
        while rest.len() > 0
            invariant
                v.wf(),
                v.spec_size() == old(v).spec_size(),
                v.spec_desc() == old(v).spec_desc(),
                need <= v.spec_capacity(),
                old(v)@.len() + full.len() + tail_v.len() <= old(v).spec_capacity()
                    ==> v.spec_capacity() == old(v).spec_capacity(),
                rest@.len() <= full.len(),
                producer_views(rest@) == full.subrange(
                    full.len() - rest@.len(),
                    full.len() as int,
                ),
                v@ == old(v)@ + full.subrange(0, full.len() - rest@.len()),
                need == old(v)@.len() + full.len() + tail_v.len(),
                forall|i: int|
                    0 <= i < rest@.len() ==> (#[trigger] rest@[i]).bytes_spec().len()
                        == v.spec_size(),
            decreases rest@.len(),
        {
            let ghost k = full.len() - rest@.len();
            let ghost prev = rest@;
            let val = rest.remove(0);
            proof {
                assert(val.bytes_spec() == producer_views(prev)[0]);
                assert(producer_views(rest@) =~= producer_views(prev).drop_first());
                assert(producer_views(rest@) =~= full.subrange(k + 1, full.len() as int));
            }
            let b = val.consume_bytes();
            v.push_bytes(b);
            proof {
                assert(v@ =~= old(v)@ + full.subrange(0, k + 1));
            }
        }
        proof {
            assert(full.subrange(0, full.len() as int) =~= full);
            assert(v@ =~= old(v)@ + full);
            assert forall|i: int| 0 <= i < tail@.len() implies (#[trigger] tail@[i])@.len()
                == v.spec_size() by {
                assert(me.tail_view()[i] == tail@[i]@);
            }
        }
        v.append_elems(tail);
        proof {
            assert(v@ =~= old(v)@ + full + tail_v);
        }
    }
}

} // verus!
