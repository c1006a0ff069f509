use any_vec::any_value::AnyValue;
use any_vec::any_value::ErasedValue;
use any_vec::ops::drain::Drain;
use any_vec::ops::splice::Splice;
use any_vec::traits::Caps;
use any_vec::AnyVec;
use any_vec::ElementDesc;
use any_vec::ElementLayout;

const TEXT_ID: u64 = 7;

fn text_desc() -> ElementDesc {
    ElementDesc {
        typeid: TEXT_ID,
        layout: ElementLayout { size: 1, align: 1 },
        cloneable: false,
        send: false,
        sync: false,
    }
}

type Plain = Caps<false, false, false>;

fn text_vec(values: &[u8]) -> AnyVec<Plain> {
    let mut v: AnyVec<Plain> = AnyVec::new(text_desc());
    for b in values {
        v.push(ErasedValue::new(TEXT_ID, vec![*b]));
    }
    v
}

#[test]
fn drain_full_range_empties() {
    let mut v = text_vec(b"abc");
    let mut d = v.drain(0, 3);
    assert_eq!(d.len(), 3);
    let mut yielded: Vec<u8> = Vec::new();
    while let Some(e) = d.next() {
        yielded.push(AnyValue::consume_bytes(e)[0]);
    }
    assert_eq!(yielded, b"abc".to_vec());
    d.finish(&mut v);
    assert_eq!(v.len(), 0);
}

#[test]
fn drain_middle_range_excises_in_order() {
    let mut v = text_vec(b"abcd");
    let original_len = v.len();
    let mut d = v.drain(1, 3);
    // Consume only part of the range: finalization destroys the rest.
    let first = d.next().unwrap();
    assert_eq!(AnyValue::value_typeid(&first), TEXT_ID);
    assert_eq!(AnyValue::consume_bytes(first), b"b".to_vec());
    d.finish(&mut v);
    assert_eq!(v.len(), original_len - 2);
    assert_eq!(v.get(0), &b"a".to_vec());
    assert_eq!(v.get(1), &b"d".to_vec());
}

#[test]
fn drain_empty_range_is_a_no_op() {
    let mut v = text_vec(b"ab");
    let mut d = v.drain(1, 1);
    assert_eq!(d.len(), 0);
    assert!(d.next().is_none());
    d.finish(&mut v);
    assert_eq!(v.len(), 2);
    assert_eq!(v.get(0), &b"a".to_vec());
    assert_eq!(v.get(1), &b"b".to_vec());
}

#[test]
fn drain_truncates_up_front() {
    // Construction immediately truncates the logical length to the range
    // start, so a drain abandoned without finalization can never expose the
    // half-consumed range; the held elements are lost with the drain.
    let mut v = text_vec(b"abcd");
    let d = Drain::new(&mut v, 1, 3);
    assert_eq!(v.len(), 1);
    drop(d);
    assert_eq!(v.len(), 1);
    assert_eq!(v.get(0), &b"a".to_vec());
}

#[test]
fn splice_replaces_range() {
    // Splice [1, 2) of ["a", "b", "c"] with ["x", "y"]:
    // the result is ["a", "x", "y", "c"].
    let mut v = text_vec(b"abc");
    let replacement = vec![
        ErasedValue::new(TEXT_ID, b"x".to_vec()),
        ErasedValue::new(TEXT_ID, b"y".to_vec()),
    ];
    let mut s = v.splice(1, 2, replacement);
    let replaced = s.next().unwrap();
    assert_eq!(AnyValue::consume_bytes(replaced), b"b".to_vec());
    assert!(s.next().is_none());
    s.finish(&mut v);
    assert_eq!(v.len(), 3 - 1 + 2);
    assert_eq!(v.get(0), &b"a".to_vec());
    assert_eq!(v.get(1), &b"x".to_vec());
    assert_eq!(v.get(2), &b"y".to_vec());
    assert_eq!(v.get(3), &b"c".to_vec());
}

#[test]
fn splice_empty_range_is_pure_insertion() {
    let mut v = text_vec(b"ad");
    let replacement = vec![
        ErasedValue::new(TEXT_ID, b"b".to_vec()),
        ErasedValue::new(TEXT_ID, b"c".to_vec()),
    ];
    let mut s = Splice::new(&mut v, 1, 1, replacement);
    assert_eq!(s.len(), 0);
    assert!(s.next().is_none());
    s.finish(&mut v);
    assert_eq!(v.len(), 4);
    assert_eq!(v.get(0), &b"a".to_vec());
    assert_eq!(v.get(1), &b"b".to_vec());
    assert_eq!(v.get(2), &b"c".to_vec());
    assert_eq!(v.get(3), &b"d".to_vec());
}

#[test]
fn splice_with_empty_replacement_drains() {
    let mut v = text_vec(b"abc");
    let replacement: Vec<ErasedValue> = Vec::new();
    let s = v.splice(0, 2, replacement);
    s.finish(&mut v);
    assert_eq!(v.len(), 1);
    assert_eq!(v.get(0), &b"c".to_vec());
}

#[test]
fn splice_grows_when_replacement_is_larger() {
    let mut v = text_vec(b"ab");
    let cap_before = v.capacity();
    let replacement: Vec<ErasedValue> =
        b"vwxyz".iter().map(|b| ErasedValue::new(TEXT_ID, vec![*b])).collect();
    let s = v.splice(1, 2, replacement);
    s.finish(&mut v);
    assert_eq!(v.len(), 2 - 1 + 5);
    assert!(v.capacity() >= v.len());
    assert!(v.capacity() >= cap_before);
    let contents: Vec<u8> = (0..v.len()).map(|i| v.get(i)[0]).collect();
    assert_eq!(contents, b"avwxyz".to_vec());
}
