//! The raw storage engine: a type-erased vec-like container.
//!
//! All elements of a container have the same element type, described by an
//! [`ElementDesc`]: a numeric type identity, a byte layout, and the
//! capability flags of the type.  Elements are stored by value as byte blocks
//! of the layout's size.  The container owns its buffer, tracks a logical
//! length and a slot capacity, and grows by at least doubling when the length
//! would exceed the capacity.

use core::marker::PhantomData;
use vstd::prelude::*;

use crate::any_value::AnyValue;
use crate::any_value::ErasedValue;
use crate::ops::drain::Drain;
use crate::ops::splice::producer_views;
use crate::ops::splice::Splice;
use crate::traits::Cloneable;
use crate::traits::Trait;

verus! {

/// The byte layout of an element type: size and alignment.
#[derive(Clone, Copy, PartialEq, Eq, Structural)]
pub struct ElementLayout {
    pub size: usize,
    pub align: usize,
}

/// Description of an element type: its runtime identity, its layout, and the
/// capability flags the type satisfies.
#[derive(Clone, Copy, PartialEq, Eq, Structural)]
pub struct ElementDesc {
    pub typeid: u64,
    pub layout: ElementLayout,
    pub cloneable: bool,
    pub send: bool,
    pub sync: bool,
}

/// The capability check made at construction: an element type may be stored
/// in a container with capability request `Traits` only when it satisfies
/// every requested capability.
pub trait CheckTraits<Traits: Trait> {
    spec fn check_traits(&self) -> bool;
}

impl<Traits: Trait> CheckTraits<Traits> for ElementDesc {
    open spec fn check_traits(&self) -> bool {
        &&& (Traits::needs_cloneable() ==> self.cloneable)
        &&& (Traits::needs_send() ==> self.send)
        &&& (Traits::needs_sync() ==> self.sync)
    }
}

/// The contents of a buffer of byte blocks, element by element.
pub open spec fn elem_views(s: Seq<Vec<u8>>) -> Seq<Seq<u8>> {
    Seq::new(s.len(), |i: int| s[i]@)
}

pub proof fn lemma_views_push(s: Seq<Vec<u8>>, v: Vec<u8>)
    ensures
        elem_views(s.push(v)) == elem_views(s).push(v@),
{
    assert(elem_views(s.push(v)) =~= elem_views(s).push(v@));
}

pub proof fn lemma_views_insert(s: Seq<Vec<u8>>, i: int, v: Vec<u8>)
    requires
        0 <= i <= s.len(),
    ensures
        elem_views(s.insert(i, v)) == elem_views(s).insert(i, v@),
{
    assert(elem_views(s.insert(i, v)) =~= elem_views(s).insert(i, v@));
}

pub proof fn lemma_views_remove(s: Seq<Vec<u8>>, i: int)
    requires
        0 <= i < s.len(),
    ensures
        elem_views(s.remove(i)) == elem_views(s).remove(i),
{
    assert(elem_views(s.remove(i)) =~= elem_views(s).remove(i));
}

pub proof fn lemma_views_update(s: Seq<Vec<u8>>, i: int, v: Vec<u8>)
    requires
        0 <= i < s.len(),
    ensures
        elem_views(s.update(i, v)) == elem_views(s).update(i, v@),
{
    assert(elem_views(s.update(i, v)) =~= elem_views(s).update(i, v@));
}

pub proof fn lemma_views_subrange(s: Seq<Vec<u8>>, a: int, b: int)
    requires
        0 <= a <= b <= s.len(),
    ensures
        elem_views(s.subrange(a, b)) == elem_views(s).subrange(a, b),
{
    assert(elem_views(s.subrange(a, b)) =~= elem_views(s).subrange(a, b));
}

pub proof fn lemma_views_add(s: Seq<Vec<u8>>, t: Seq<Vec<u8>>)
    ensures
        elem_views(s + t) == elem_views(s) + elem_views(t),
{
    assert(elem_views(s + t) =~= elem_views(s) + elem_views(t));
}

/// The capacity after one growth step: at least doubled, and at least one
/// slot after the first growth.
pub open spec fn grown_capacity(cap: int) -> int {
    if cap == 0 {
        1
    } else if 2 * cap <= usize::MAX {
        2 * cap
    } else {
        usize::MAX as int
    }
}

/// Type erased vec-like container.  All elements have the same type.
///
/// The capability request `Traits` selects which cross-cutting interfaces the
/// instantiation exposes; construction checks the request against the element
/// description.
pub struct AnyVec<Traits: Trait> {
    buf: Vec<Vec<u8>>,
    cap: usize,
    desc: ElementDesc,
    marker: PhantomData<Traits>,
}

impl<Traits: Trait> View for AnyVec<Traits> {
    type V = Seq<Seq<u8>>;

    closed spec fn view(&self) -> Seq<Seq<u8>> {
        elem_views(self.buf@)
    }
}

impl<Traits: Trait> AnyVec<Traits> {
    /// The slot capacity of the buffer.
    pub closed spec fn spec_capacity(&self) -> usize {
        self.cap
    }

    /// The element description the container was built over.
    pub closed spec fn spec_desc(&self) -> ElementDesc {
        self.desc
    }

    /// The element type identity.
    pub open spec fn spec_typeid(&self) -> u64 {
        self.spec_desc().typeid
    }

    /// The element byte size.
    pub open spec fn spec_size(&self) -> usize {
        self.spec_desc().layout.size
    }

    /// Structural consistency: the length never exceeds the capacity, every
    /// live slot holds a block of the element size, and the element type
    /// satisfies every capability the instantiation requested.
    pub open spec fn wf(&self) -> bool {
        &&& self@.len() <= self.spec_capacity()
        &&& forall|i: int| 0 <= i < self@.len() ==> (#[trigger] self@[i]).len() == self.spec_size()
        &&& <ElementDesc as CheckTraits<Traits>>::check_traits(&self.spec_desc())
    }

    /// An empty container over the described element type, with no reserved
    /// slots.  The element type must satisfy every requested capability.
    pub fn new(desc: ElementDesc) -> (r: Self)
        requires
            <ElementDesc as CheckTraits<Traits>>::check_traits(&desc),
        ensures
            r.wf(),
            r@ == Seq::<Seq<u8>>::empty(),
            r.spec_capacity() == 0,
            r.spec_desc() == desc,
    {
        Self::with_capacity(desc, 0)
    }

    /// An empty container with `capacity` slots reserved.  The element type
    /// must satisfy every requested capability.
    pub fn with_capacity(desc: ElementDesc, capacity: usize) -> (r: Self)
        requires
            <ElementDesc as CheckTraits<Traits>>::check_traits(&desc),
        ensures
            r.wf(),
            r@ == Seq::<Seq<u8>>::empty(),
            r.spec_capacity() == capacity,
            r.spec_desc() == desc,
    {
        let r = AnyVec { buf: Vec::with_capacity(capacity), cap: capacity, desc, marker: PhantomData };
        proof {
            assert(r@ =~= Seq::<Seq<u8>>::empty());
        }
        r
    }

    /// Number of live elements.
    pub fn len(&self) -> (r: usize)
        ensures
            r == self@.len(),
    {
        self.buf.len()
    }

    /// Number of reserved slots.
    pub fn capacity(&self) -> (r: usize)
        ensures
            r == self.spec_capacity(),
    {
        self.cap
    }

    /// The element type identity.
    pub fn element_typeid(&self) -> (r: u64)
        ensures
            r == self.spec_typeid(),
    {
        self.desc.typeid
    }

    /// The element byte layout.
    pub fn element_layout(&self) -> (r: ElementLayout)
        ensures
            r == self.spec_desc().layout,
    {
        self.desc.layout
    }

    /// Reallocates to the next capacity step and moves every live element
    /// into the new buffer.
    fn grow(&mut self)
        requires
            old(self).wf(),
            old(self).spec_capacity() < usize::MAX,
        ensures
            final(self).wf(),
            final(self)@ == old(self)@,
            final(self).spec_desc() == old(self).spec_desc(),
            final(self).spec_capacity() == grown_capacity(old(self).spec_capacity() as int),
            old(self).spec_capacity() < final(self).spec_capacity(),
    {
        let new_cap: usize = if self.cap == 0 {
            1
        } else if self.cap <= usize::MAX / 2 {
            self.cap * 2
        } else {
            usize::MAX
        };
        let mut new_buf: Vec<Vec<u8>> = Vec::with_capacity(new_cap);
        new_buf.append(&mut self.buf);
        self.buf = new_buf;
        self.cap = new_cap;
        proof {
            assert(self@ =~= old(self)@);
        }
    }

    /// Grows until at least `need` slots are reserved; the contents are
    /// untouched, and a sufficient capacity is kept as it is.
    pub(crate) fn reserve_for(&mut self, need: usize)
        requires
            old(self).wf(),
        ensures
            final(self).wf(),
            final(self)@ == old(self)@,
            final(self).spec_desc() == old(self).spec_desc(),
            need <= final(self).spec_capacity(),
            need <= old(self).spec_capacity() ==> final(self).spec_capacity() == old(
                self,
            ).spec_capacity(),
    {
        while self.cap < need
            invariant
                self.wf(),
                self@ == old(self)@,
                self.spec_desc() == old(self).spec_desc(),
                need <= old(self).spec_capacity() ==> self.spec_capacity() == old(
                    self,
                ).spec_capacity(),
            decreases usize::MAX - self.cap,
        {
            self.grow();
        }
    }

    /// Appends one delivered payload, growing if the buffer is full.
    pub(crate) fn push_bytes(&mut self, b: Vec<u8>)
        requires
            old(self).wf(),
            b@.len() == old(self).spec_size(),
            old(self)@.len() < usize::MAX,
        ensures
            final(self).wf(),
            final(self)@ == old(self)@.push(b@),
            final(self).spec_desc() == old(self).spec_desc(),
            old(self)@.len() < old(self).spec_capacity() ==> final(self).spec_capacity() == old(
                self,
            ).spec_capacity(),
            old(self)@.len() == old(self).spec_capacity() ==> final(self).spec_capacity()
                == grown_capacity(old(self).spec_capacity() as int),
    {
        if self.buf.len() == self.cap {
            self.grow();
        }
        proof {
            lemma_views_push(self.buf@, b);
        }
        self.buf.push(b);
    }

    /// Appends a value delivered by a producer of the container's element
    /// type, growing if the buffer is full.
    ///
    /// A type mismatch is a caller fault and is excluded by the precondition.
    pub fn push<V: AnyValue>(&mut self, value: V)
        requires
            old(self).wf(),
            value.typeid_spec() == old(self).spec_typeid(),
            value.bytes_spec().len() == old(self).spec_size(),
            old(self)@.len() < usize::MAX,
        ensures
            final(self).wf(),
            final(self)@ == old(self)@.push(value.bytes_spec()),
            final(self).spec_desc() == old(self).spec_desc(),
            old(self)@.len() < old(self).spec_capacity() ==> final(self).spec_capacity() == old(
                self,
            ).spec_capacity(),
            old(self)@.len() == old(self).spec_capacity() ==> final(self).spec_capacity()
                == grown_capacity(old(self).spec_capacity() as int),
    {
        let b = value.consume_bytes();
        self.push_bytes(b);
    }

    /// Inserts a delivered value at `index`, shifting the elements at and
    /// after it one slot to the right.
    ///
    /// An out-of-bounds index or a type mismatch is a caller fault and is
    /// excluded by the precondition.
    pub fn insert<V: AnyValue>(&mut self, index: usize, value: V)
        requires
            old(self).wf(),
            index <= old(self)@.len(),
            value.typeid_spec() == old(self).spec_typeid(),
            value.bytes_spec().len() == old(self).spec_size(),
            old(self)@.len() < usize::MAX,
        ensures
            final(self).wf(),
            final(self)@ == old(self)@.insert(index as int, value.bytes_spec()),
            final(self).spec_desc() == old(self).spec_desc(),
            old(self)@.len() < old(self).spec_capacity() ==> final(self).spec_capacity() == old(
                self,
            ).spec_capacity(),
            old(self)@.len() == old(self).spec_capacity() ==> final(self).spec_capacity()
                == grown_capacity(old(self).spec_capacity() as int),
    {
        if self.buf.len() == self.cap {
            self.grow();
        }
        let b = value.consume_bytes();
        proof {
            lemma_views_insert(self.buf@, index as int, b);
        }
        self.buf.insert(index, b);
    }

    /// Removes the element at `index` and hands it out as an owned erased
    /// value; the tail shifts one slot to the left, so the order of the
    /// survivors is preserved.
    ///
    /// An out-of-bounds index is a caller fault and is excluded by the
    /// precondition.
    pub fn remove(&mut self, index: usize) -> (r: ErasedValue)
        requires
            old(self).wf(),
            index < old(self)@.len(),
        ensures
            final(self).wf(),
            final(self)@ == old(self)@.remove(index as int),
            final(self).spec_desc() == old(self).spec_desc(),
            final(self).spec_capacity() == old(self).spec_capacity(),
            AnyValue::typeid_spec(&r) == old(self).spec_typeid(),
            AnyValue::bytes_spec(&r) == old(self)@[index as int],
    {
        proof {
            lemma_views_remove(self.buf@, index as int);
        }
        let b = self.buf.remove(index);
        proof {
            assert forall|j: int| 0 <= j < self@.len() implies (#[trigger] self@[j]).len()
                == self.spec_size() by {
                if j < index {
                    assert(self@[j] == old(self)@[j]);
                } else {
                    assert(self@[j] == old(self)@[j + 1]);
                }
            }
        }
        ErasedValue::new(self.desc.typeid, b)
    }

    /// Removes the element at `index` by moving the last element into its
    /// place, and hands it out as an owned erased value; constant time, but
    /// the order of the survivors is not preserved.
    ///
    /// An out-of-bounds index is a caller fault and is excluded by the
    /// precondition.
    pub fn swap_remove(&mut self, index: usize) -> (r: ErasedValue)
        requires
            old(self).wf(),
            index < old(self)@.len(),
        ensures
            final(self).wf(),
            final(self)@ == old(self)@.update(index as int, old(self)@.last()).drop_last(),
            final(self).spec_desc() == old(self).spec_desc(),
            final(self).spec_capacity() == old(self).spec_capacity(),
            AnyValue::typeid_spec(&r) == old(self).spec_typeid(),
            AnyValue::bytes_spec(&r) == old(self)@[index as int],
    {
        proof {
            lemma_views_update(self.buf@, index as int, self.buf@.last());
            lemma_views_subrange(
                self.buf@.update(index as int, self.buf@.last()),
                0,
                self.buf@.len() - 1,
            );
        }
        let b = self.buf.swap_remove(index);
        proof {
            assert forall|j: int| 0 <= j < self@.len() implies (#[trigger] self@[j]).len()
                == self.spec_size() by {
                if j == index {
                    assert(self@[j] == old(self)@[old(self)@.len() - 1]);
                } else {
                    assert(self@[j] == old(self)@[j]);
                }
            }
        }
        ErasedValue::new(self.desc.typeid, b)
    }

    /// Destroys all live elements; the length becomes zero, the capacity is
    /// kept.
    pub fn clear(&mut self)
        requires
            old(self).wf(),
        ensures
            final(self).wf(),
            final(self)@ == Seq::<Seq<u8>>::empty(),
            final(self).spec_desc() == old(self).spec_desc(),
            final(self).spec_capacity() == old(self).spec_capacity(),
    {
        self.buf.clear();
        proof {
            assert(self@ =~= Seq::<Seq<u8>>::empty());
        }
    }

    /// Borrows the element at `index`.
    pub fn get(&self, index: usize) -> (r: &Vec<u8>)
        requires
            index < self@.len(),
        ensures
            r@ == self@[index as int],
    {
        &self.buf[index]
    }

    /// Mutably borrows the element at `index`.  The container stays
    /// structurally consistent as long as the borrower keeps the element's
    /// size unchanged.
    pub fn get_mut(&mut self, index: usize) -> (r: &mut Vec<u8>)
        requires
            old(self).wf(),
            index < old(self)@.len(),
        ensures
            r@ == old(self)@[index as int],
            final(self)@ == old(self)@.update(index as int, final(r)@),
            final(self).spec_desc() == old(self).spec_desc(),
            final(self).spec_capacity() == old(self).spec_capacity(),
    {
        proof {
            lemma_views_update(self.buf@, index as int, self.buf@[index as int]);
        }
        &mut self.buf[index]
    }

    /// The typed read view: the whole buffer, granted only when the expected
    /// type identity matches the element type.
    pub fn downcast_ref(&self, typeid: u64) -> (r: Option<&Vec<Vec<u8>>>)
        ensures
            (r is Some) == (typeid == self.spec_typeid()),
            r matches Some(b) ==> elem_views(b@) == self@,
    {
        if typeid == self.desc.typeid {
            Some(&self.buf)
        } else {
            None
        }
    }

    /// The typed write view: takes the contents out into an [`AnyVecMut`]
    /// guard, granted only when the expected type identity matches.  The
    /// guard's changes take effect when it is committed back; abandoning the
    /// guard abandons the contents with it.
    pub fn downcast_mut(&mut self, typeid: u64) -> (r: Option<AnyVecMut<Traits>>)
        requires
            old(self).wf(),
        ensures
            (r is Some) == (typeid == old(self).spec_typeid()),
            r is None ==> *final(self) == *old(self),
            r matches Some(g) ==> {
                &&& g.wf()
                &&& g@ == old(self)@
                &&& g.spec_desc() == old(self).spec_desc()
                &&& g.spec_capacity() == old(self).spec_capacity()
                &&& final(self).wf()
                &&& final(self)@ == Seq::<Seq<u8>>::empty()
                &&& final(self).spec_desc() == old(self).spec_desc()
                &&& final(self).spec_capacity() == 0
            },
    {
        if typeid != self.desc.typeid {
            return None;
        }
        let mut taken: Vec<Vec<u8>> = Vec::new();
        core::mem::swap(&mut taken, &mut self.buf);
        let cap = self.cap;
        self.cap = 0;
        let g = AnyVecMut {
            inner: AnyVec { buf: taken, cap, desc: self.desc, marker: PhantomData },
        };
        proof {
            assert(self@ =~= Seq::<Seq<u8>>::empty());
        }
        Some(g)
    }

    /// Duplicates the container: a fresh buffer of the same capacity, with
    /// every live element cloned into it.  Exposed only when the capability
    /// request includes duplication.
    pub fn duplicate(&self) -> (r: Self) where Traits: Cloneable
        ensures
            r@ == self@,
            r.spec_desc() == self.spec_desc(),
            r.spec_capacity() == self.spec_capacity(),
            self.wf() ==> r.wf(),
    {
        let mut new_buf: Vec<Vec<u8>> = Vec::with_capacity(self.cap);
        let mut i: usize = 0;
        while i < self.buf.len()
            invariant
                i <= self.buf@.len(),
                elem_views(new_buf@) == self@.subrange(0, i as int),
            decreases self.buf@.len() - i,
        {
            let copied = crate::any_value::copy_bytes(&self.buf[i], self.buf[i].len());
            proof {
                assert(copied@ =~= self.buf@[i as int]@);
                lemma_views_push(new_buf@, copied);
            }
            new_buf.push(copied);
            proof {
                assert(elem_views(new_buf@) =~= self@.subrange(0, i + 1));
            }
            i = i + 1;
        }
        let r = AnyVec { buf: new_buf, cap: self.cap, desc: self.desc, marker: PhantomData };
        proof {
            assert(r@ =~= self@);
        }
        r
    }

    /// Starts draining the range `[start, end)`: the logical length is
    /// truncated to `start` at once, and the returned drain yields the
    /// range's elements and restores a consistent length when finished.
    ///
    /// An invalid range is a caller fault and is excluded by the
    /// precondition.
    pub fn drain(&mut self, start: usize, end: usize) -> (r: Drain)
        requires
            old(self).wf(),
            start <= end <= old(self)@.len(),
        ensures
            final(self).wf(),
            final(self)@ == old(self)@.subrange(0, start as int),
            final(self).spec_desc() == old(self).spec_desc(),
            final(self).spec_capacity() == old(self).spec_capacity(),
            r.wf(),
            r.remaining() == old(self)@.subrange(start as int, end as int),
            r.tail_view() == old(self)@.subrange(end as int, old(self)@.len() as int),
            r.start_spec() == start,
            r.end_spec() == end,
            r.cursor_spec() == start,
            r.original_len_spec() == old(self)@.len(),
            r.typeid_spec() == old(self).spec_typeid(),
            r.size_spec() == old(self).spec_size(),
    {
        Drain::new(self, start, end)
    }

    /// Starts splicing the range `[start, end)` with a replacement sequence:
    /// the logical length is truncated to `start` at once, and the returned
    /// splice yields the replaced elements and writes the replacement when
    /// finished.
    ///
    /// An invalid range or a replacement of the wrong type is a caller fault
    /// and is excluded by the precondition.
    pub fn splice<V: AnyValue>(&mut self, start: usize, end: usize, replace_with: Vec<V>) -> (r:
        Splice<V>)
        requires
            old(self).wf(),
            start <= end <= old(self)@.len(),
            forall|i: int|
                0 <= i < replace_with@.len() ==> (#[trigger] replace_with@[i]).typeid_spec() == old(
                    self,
                ).spec_typeid(),
            forall|i: int|
                0 <= i < replace_with@.len() ==> (#[trigger] replace_with@[i]).bytes_spec().len()
                    == old(self).spec_size(),
        ensures
            final(self).wf(),
            final(self)@ == old(self)@.subrange(0, start as int),
            final(self).spec_desc() == old(self).spec_desc(),
            final(self).spec_capacity() == old(self).spec_capacity(),
            r.wf(),
            r.remaining() == old(self)@.subrange(start as int, end as int),
            r.tail_view() == old(self)@.subrange(end as int, old(self)@.len() as int),
            r.replacement_views() == producer_views(replace_with@),
            r.start_spec() == start,
            r.end_spec() == end,
            r.cursor_spec() == start,
            r.original_len_spec() == old(self)@.len(),
            r.typeid_spec() == old(self).spec_typeid(),
            r.size_spec() == old(self).spec_size(),
    {
        Splice::new(self, start, end, replace_with)
    }

    /// Splits off the elements from `start` on, leaving the logical length
    /// truncated to `start`.
    pub(crate) fn take_from(&mut self, start: usize) -> (r: Vec<Vec<u8>>)
        requires
            old(self).wf(),
            start <= old(self)@.len(),
        ensures
            final(self).wf(),
            final(self)@ == old(self)@.subrange(0, start as int),
            final(self).spec_desc() == old(self).spec_desc(),
            final(self).spec_capacity() == old(self).spec_capacity(),
            elem_views(r@) == old(self)@.subrange(start as int, old(self)@.len() as int),
    {
        proof {
            lemma_views_subrange(self.buf@, 0, start as int);
            lemma_views_subrange(self.buf@, start as int, self.buf@.len() as int);
        }
        self.buf.split_off(start)
    }

    /// Appends already delivered payloads; the capacity must suffice.
    pub(crate) fn append_elems(&mut self, elems: Vec<Vec<u8>>)
        requires
            old(self).wf(),
            forall|i: int|
                0 <= i < elems@.len() ==> (#[trigger] elems@[i])@.len() == old(self).spec_size(),
            old(self)@.len() + elems@.len() <= old(self).spec_capacity(),
        ensures
            final(self).wf(),
            final(self)@ == old(self)@ + elem_views(elems@),
            final(self).spec_desc() == old(self).spec_desc(),
            final(self).spec_capacity() == old(self).spec_capacity(),
    {
        proof {
            lemma_views_add(self.buf@, elems@);
        }
        let mut elems = elems;
        self.buf.append(&mut elems);
    }
}

impl<Traits: Cloneable> Clone for AnyVec<Traits> {
    /// Duplication through the standard clone interface, exposed only when
    /// the capability request includes duplication.
    fn clone(&self) -> (r: Self)
        ensures
            r@ == self@,
            r.spec_desc() == self.spec_desc(),
            r.spec_capacity() == self.spec_capacity(),
            self.wf() ==> r.wf(),
    {
        self.duplicate()
    }
}

/// An exclusive typed view into a container's contents, produced by
/// [`AnyVec::downcast_mut`].  It owns the contents while it lives; committing
/// it hands them back.
pub struct AnyVecMut<Traits: Trait> {
    inner: AnyVec<Traits>,
}

impl<Traits: Trait> View for AnyVecMut<Traits> {
    type V = Seq<Seq<u8>>;

    closed spec fn view(&self) -> Seq<Seq<u8>> {
        self.inner@
    }
}

impl<Traits: Trait> AnyVecMut<Traits> {
    pub closed spec fn spec_capacity(&self) -> usize {
        self.inner.spec_capacity()
    }

    pub closed spec fn spec_desc(&self) -> ElementDesc {
        self.inner.spec_desc()
    }

    pub open spec fn spec_size(&self) -> usize {
        self.spec_desc().layout.size
    }

    pub closed spec fn wf(&self) -> bool {
        self.inner.wf()
    }

    /// Number of live elements.
    pub fn len(&self) -> (r: usize)
        ensures
            r == self@.len(),
    {
        self.inner.len()
    }

    /// Borrows the element at `index`.
    pub fn get(&self, index: usize) -> (r: &Vec<u8>)
        requires
            index < self@.len(),
        ensures
            r@ == self@[index as int],
    {
        self.inner.get(index)
    }

    /// Appends one typed payload; the type was checked when the view was
    /// granted, so the payload only has to have the element size.
    pub fn push(&mut self, b: Vec<u8>)
        requires
            old(self).wf(),
            b@.len() == old(self).spec_size(),
            old(self)@.len() < usize::MAX,
        ensures
            final(self).wf(),
            final(self)@ == old(self)@.push(b@),
            final(self).spec_desc() == old(self).spec_desc(),
            old(self)@.len() < old(self).spec_capacity() ==> final(self).spec_capacity() == old(
                self,
            ).spec_capacity(),
            old(self)@.len() == old(self).spec_capacity() ==> final(self).spec_capacity()
                == grown_capacity(old(self).spec_capacity() as int),
    {
        self.inner.push_bytes(b);
    }

    /// Commits the contents back into a container, replacing what it holds.
    pub fn commit(self, dst: &mut AnyVec<Traits>)
        ensures
            final(dst)@ == self@,
            final(dst).spec_desc() == self.spec_desc(),
            final(dst).spec_capacity() == self.spec_capacity(),
            self.wf() ==> final(dst).wf(),
    {
        *dst = self.inner;
    }
}

} // verus!
