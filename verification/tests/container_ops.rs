use any_vec::any_value::AnyValue;
use any_vec::any_value::AnyValue2;
use any_vec::any_value::AnyValue2Cloneable;
use any_vec::any_value::ErasedValue;
use any_vec::any_value::TypedValue;
use any_vec::any_value::Unknown;
use any_vec::any_value::UNKNOWN_TYPEID;
use any_vec::traits::Caps;
use any_vec::AnyVec;
use any_vec::ElementDesc;
use any_vec::ElementLayout;

const WORD_ID: u64 = 11;

fn word_desc() -> ElementDesc {
    ElementDesc {
        typeid: WORD_ID,
        layout: ElementLayout { size: 8, align: 8 },
        cloneable: false,
        send: false,
        sync: false,
    }
}

fn word(b: u8) -> ErasedValue {
    ErasedValue::new(WORD_ID, vec![b, 0, 0, 0, 0, 0, 0, 0])
}

fn word_bytes(b: u8) -> Vec<u8> {
    vec![b, 0, 0, 0, 0, 0, 0, 0]
}

type Plain = Caps<false, false, false>;

#[test]
fn grow_keeps_values_and_doubles() {
    // Capacity-2 container of 8-byte elements; three pushes cause exactly
    // one growth event, the capacity at least doubles, and every value
    // stays intact in push order.
    let mut v: AnyVec<Plain> = AnyVec::with_capacity(word_desc(), 2);
    assert_eq!(v.capacity(), 2);
    v.push(word(1));
    assert_eq!(v.capacity(), 2);
    v.push(word(2));
    assert_eq!(v.capacity(), 2);
    v.push(word(3));
    assert_eq!(v.capacity(), 4);
    assert!(v.capacity() >= 3);
    assert_eq!(v.len(), 3);
    assert_eq!(v.get(0), &word_bytes(1));
    assert_eq!(v.get(1), &word_bytes(2));
    assert_eq!(v.get(2), &word_bytes(3));
    assert!(v.len() <= v.capacity());
}

#[test]
fn first_growth_reserves_one_slot() {
    let mut v: AnyVec<Plain> = AnyVec::new(word_desc());
    assert_eq!(v.capacity(), 0);
    v.push(word(1));
    assert_eq!(v.capacity(), 1);
    v.push(word(2));
    assert_eq!(v.capacity(), 2);
    assert!(v.len() <= v.capacity());
}

#[test]
fn push_then_remove_returns_pushed_value() {
    let mut v: AnyVec<Plain> = AnyVec::new(word_desc());
    v.push(word(1));
    v.push(word(2));
    let at = v.len();
    v.push(word(9));
    let got = v.remove(at);
    // The removed handle carries the pushed payload and the element type.
    assert_eq!(AnyValue::value_typeid(&got), WORD_ID);
    assert_eq!(AnyValue::consume_bytes(got), word_bytes(9));
    assert_eq!(v.len(), 2);
    assert_eq!(v.get(0), &word_bytes(1));
    assert_eq!(v.get(1), &word_bytes(2));
}

#[test]
fn insert_shifts_right() {
    let mut v: AnyVec<Plain> = AnyVec::new(word_desc());
    v.push(word(1));
    v.push(word(3));
    v.insert(1, word(2));
    assert_eq!(v.len(), 3);
    assert_eq!(v.get(0), &word_bytes(1));
    assert_eq!(v.get(1), &word_bytes(2));
    assert_eq!(v.get(2), &word_bytes(3));
}

#[test]
fn remove_preserves_order_of_survivors() {
    let mut v: AnyVec<Plain> = AnyVec::new(word_desc());
    for b in [1, 2, 3, 4] {
        v.push(word(b));
    }
    let removed = v.remove(1);
    assert_eq!(AnyValue::consume_bytes(removed), word_bytes(2));
    assert_eq!(v.len(), 3);
    assert_eq!(v.get(0), &word_bytes(1));
    assert_eq!(v.get(1), &word_bytes(3));
    assert_eq!(v.get(2), &word_bytes(4));
}

#[test]
fn swap_remove_keeps_survivors_as_a_set() {
    let mut v: AnyVec<Plain> = AnyVec::new(word_desc());
    for b in [1, 2, 3, 4] {
        v.push(word(b));
    }
    let removed = v.swap_remove(1);
    assert_eq!(AnyValue::consume_bytes(removed), word_bytes(2));
    assert_eq!(v.len(), 3);
    // The last element moved into the hole: order changed, contents did not.
    assert_eq!(v.get(0), &word_bytes(1));
    assert_eq!(v.get(1), &word_bytes(4));
    assert_eq!(v.get(2), &word_bytes(3));
    let mut survivors = vec![v.get(0)[0], v.get(1)[0], v.get(2)[0]];
    survivors.sort();
    assert_eq!(survivors, vec![1, 3, 4]);
}

#[test]
fn clear_keeps_capacity() {
    let mut v: AnyVec<Plain> = AnyVec::with_capacity(word_desc(), 4);
    v.push(word(1));
    v.push(word(2));
    v.clear();
    assert_eq!(v.len(), 0);
    assert_eq!(v.capacity(), 4);
}

#[test]
fn introspection_getters() {
    let v: AnyVec<Plain> = AnyVec::new(word_desc());
    assert_eq!(v.element_typeid(), WORD_ID);
    assert_eq!(v.element_layout().size, 8);
    assert_eq!(v.element_layout().align, 8);
    assert_eq!(v.len(), 0);
    assert_eq!(v.capacity(), 0);
}

#[test]
fn downcast_ref_checks_type() {
    let mut v: AnyVec<Plain> = AnyVec::new(word_desc());
    v.push(word(5));
    assert!(v.downcast_ref(WORD_ID + 1).is_none());
    let slots = v.downcast_ref(WORD_ID).unwrap();
    assert_eq!(slots.len(), 1);
    assert_eq!(&slots[0], &word_bytes(5));
}

#[test]
fn downcast_mut_checks_type_and_commits() {
    let mut v: AnyVec<Plain> = AnyVec::new(word_desc());
    assert!(v.downcast_mut(WORD_ID + 1).is_none());
    let mut guard = v.downcast_mut(WORD_ID).unwrap();
    guard.push(word_bytes(1));
    guard.push(word_bytes(2));
    assert_eq!(guard.len(), 2);
    assert_eq!(guard.get(0), &word_bytes(1));
    guard.commit(&mut v);
    assert_eq!(v.len(), 2);
    assert_eq!(v.get(1), &word_bytes(2));
}

#[test]
fn unknown_marker() {
    assert!(Unknown::is(UNKNOWN_TYPEID));
    assert!(!Unknown::is(WORD_ID));
}

#[test]
fn erased_value_interface() {
    let e = ErasedValue::new(WORD_ID, word_bytes(3));
    assert_eq!(AnyValue::value_typeid(&e), WORD_ID);
    assert_eq!(AnyValue::static_type(&e), UNKNOWN_TYPEID);
    assert_eq!(AnyValue::value_size(&e), 8);
    let mut out: Vec<u8> = Vec::new();
    AnyValue::consume_bytes_into(e, &mut out);
    assert_eq!(out, word_bytes(3));

    let e = ErasedValue::new(WORD_ID, word_bytes(4));
    assert_eq!(AnyValue2::downcast(e, WORD_ID + 1), None);
    let e = ErasedValue::new(WORD_ID, word_bytes(4));
    assert_eq!(AnyValue2::downcast(e, WORD_ID), Some(word_bytes(4)));
}

#[test]
fn typed_value_interface() {
    let t: TypedValue<WORD_ID, 8> = TypedValue::new(word_bytes(6));
    assert_eq!(AnyValue::value_typeid(&t), WORD_ID);
    assert_eq!(AnyValue::static_type(&t), WORD_ID);
    assert_eq!(AnyValue2::size(&t), 8);
    assert_eq!(AnyValue2::bytes(&t), word_bytes(6));
    assert_eq!(AnyValue2::downcast(t, WORD_ID), Some(word_bytes(6)));

    // A statically typed producer feeds the container like an erased one.
    let mut v: AnyVec<Plain> = AnyVec::new(word_desc());
    let t: TypedValue<WORD_ID, 8> = TypedValue::new(word_bytes(7));
    v.push(t);
    assert_eq!(v.get(0), &word_bytes(7));
}

#[test]
fn cloneable_producer_duplicates() {
    let e = ErasedValue::new(WORD_ID, word_bytes(9));
    let mut out: Vec<u8> = Vec::new();
    e.clone_into(&mut out);
    assert_eq!(out, word_bytes(9));
    // The producer is still usable afterwards.
    assert_eq!(AnyValue2::bytes(&e), word_bytes(9));
}
