//! The container's laws: properties relating its operations, stated over the
//! same views the operations' contracts use, and proved once for all inputs.

use vstd::prelude::*;

use crate::any_vec::AnyVec;
use crate::traits::Cloneable;
use crate::traits::Trait;

verus! {

/// Contents with the range `[start, end)` excised: the survivors of a drain,
/// in their original order.
pub open spec fn excised(s: Seq<Seq<u8>>, start: int, end: int) -> Seq<Seq<u8>> {
    s.subrange(0, start) + s.subrange(end, s.len() as int)
}

/// Law: the container invariant.  In every structurally consistent state the
/// length is at most the capacity, and every live slot holds a block of the
/// element type's size.  Every mutating operation requires and re-ensures
/// `wf`, so this holds after any sequence of operations.
pub proof fn lemma_invariant<Traits: Trait>(v: &AnyVec<Traits>)
    requires
        v.wf(),
    ensures
        v@.len() <= v.spec_capacity(),
        forall|i: int| 0 <= i < v@.len() ==> (#[trigger] v@[i]).len() == v.spec_size(),
{
}

/// Law: a pushed value is immediately retrievable and removable.  Pushing
/// `b` puts it at the index that was the length; removing at that index
/// yields `b` again and restores the previous contents.
pub proof fn lemma_push_then_remove(s: Seq<Seq<u8>>, b: Seq<u8>)
    ensures
        s.push(b)[s.len() as int] == b,
        s.push(b).remove(s.len() as int) == s,
{
    assert(s.push(b).remove(s.len() as int) =~= s);
}

/// Law: the same holds for an insertion at any index.
pub proof fn lemma_insert_then_remove(s: Seq<Seq<u8>>, i: int, b: Seq<u8>)
    requires
        0 <= i <= s.len(),
    ensures
        s.insert(i, b)[i] == b,
        s.insert(i, b).remove(i) == s,
{
    assert(s.insert(i, b).remove(i) =~= s);
}

/// Law: removal preserves the relative order of the survivors — the result
/// is exactly the original contents with the removed index excised.
pub proof fn lemma_remove_preserves_order(s: Seq<Seq<u8>>, i: int)
    requires
        0 <= i < s.len(),
    ensures
        s.remove(i) == excised(s, i, i + 1),
{
    assert(s.remove(i) =~= excised(s, i, i + 1));
}

/// Law: swap removal keeps the survivors as a multiset — the result holds
/// exactly the original elements minus one occurrence of the removed one,
/// though not necessarily in order.
pub proof fn lemma_swap_remove_survivors(s: Seq<Seq<u8>>, i: int)
    requires
        0 <= i < s.len(),
    ensures
        s.update(i, s.last()).drop_last().to_multiset() == s.to_multiset().remove(s[i]),
{
    broadcast use vstd::seq_lib::group_to_multiset_ensures;
    broadcast use vstd::seq_lib::to_multiset_update;
    broadcast use vstd::multiset::group_multiset_axioms;
    broadcast use vstd::multiset::group_multiset_properties;

    let t = s.update(i, s.last());
    let r = t.drop_last();
    if i == s.len() - 1 {
        assert(t =~= s);
        assert(r =~= s.remove(i));
        assert(s.remove(i).to_multiset() =~= s.to_multiset().remove(s[i]));
    } else {
        assert(r =~= t.remove(t.len() - 1));
        assert(t[t.len() - 1] == s.last());
        assert(t.to_multiset() == s.to_multiset().insert(s.last()).remove(s[i]));
        assert(r.to_multiset() =~= s.to_multiset().remove(s[i]));
    }
}

/// Law: draining `[start, end)` leaves `len - (end - start)` survivors: the
/// original contents with the range excised, order preserved; draining the
/// whole range leaves the container empty.
pub proof fn lemma_drain_shape(s: Seq<Seq<u8>>, start: int, end: int)
    requires
        0 <= start <= end <= s.len(),
    ensures
        excised(s, start, end).len() == s.len() - (end - start),
        start == 0 && end == s.len() ==> excised(s, start, end) == Seq::<Seq<u8>>::empty(),
{
    if start == 0 && end == s.len() {
        assert(excised(s, start, end) =~= Seq::<Seq<u8>>::empty());
    }
}

/// Law: splicing `[start, end)` with a replacement of length `R` yields
/// `len - (end - start) + R` elements: the prefix, the replacement, and the
/// suffix, in that order.
pub proof fn lemma_splice_shape(s: Seq<Seq<u8>>, start: int, end: int, r: Seq<Seq<u8>>)
    ensures
        0 <= start <= end <= s.len() ==> (s.subrange(0, start) + r + s.subrange(
            end,
            s.len() as int,
        )).len() == s.len() - (end - start) + r.len(),
{
}

/// Law: a push leaves every previously pushed value in place and unchanged,
/// whether or not the push grew the buffer.
pub proof fn lemma_push_preserves_existing(s: Seq<Seq<u8>>, b: Seq<u8>, i: int)
    requires
        0 <= i < s.len(),
    ensures
        s.push(b)[i] == s[i],
{
}

/// Law: a container whose capability request includes duplication can only
/// be structurally consistent over an element type declared cloneable —
/// construction over any other element description is rejected.
pub proof fn lemma_duplicate_requires_cloneable<Traits: Cloneable>(v: &AnyVec<Traits>)
    requires
        v.wf(),
    ensures
        v.spec_desc().cloneable,
{
    Traits::cloneable_marked();
}

/// Law: mutating one slot through a borrowed element keeps the container
/// structurally consistent exactly as long as the element's size is kept.
pub proof fn lemma_wf_after_element_update<Traits: Trait>(
    pre: AnyVec<Traits>,
    post: AnyVec<Traits>,
    i: int,
    b: Seq<u8>,
)
    requires
        pre.wf(),
        0 <= i < pre@.len(),
        post@ == pre@.update(i, b),
        b.len() == pre.spec_size(),
        post.spec_desc() == pre.spec_desc(),
        post.spec_capacity() == pre.spec_capacity(),
    ensures
        post.wf(),
{
    assert forall|j: int| 0 <= j < post@.len() implies (#[trigger] post@[j]).len()
        == post.spec_size() by {
        if j != i {
            assert(post@[j] == pre@[j]);
        }
    }
}

} // verus!
