use any_vec::any_value::AnyValue;
use any_vec::any_value::ErasedValue;
use any_vec::traits::Caps;
use any_vec::AnyVec;
use any_vec::ElementDesc;
use any_vec::ElementLayout;

const TEXT_ID: u64 = 7;

fn text_desc() -> ElementDesc {
    ElementDesc {
        typeid: TEXT_ID,
        layout: ElementLayout { size: 1, align: 1 },
        cloneable: true,
        send: true,
        sync: true,
    }
}

#[test]
fn any_vec_get_test() {
    let mut any_vec: AnyVec<Caps<true, false, false>> = AnyVec::new(text_desc());
    assert_eq!(any_vec.element_typeid(), TEXT_ID);
    {
        let mut vec = any_vec.downcast_mut(TEXT_ID).unwrap();
        vec.push(b"0".to_vec());
        vec.push(b"1".to_vec());
        vec.push(b"2".to_vec());
        vec.commit(&mut any_vec);
    }

    let e1_ref = any_vec.get(1);
    assert_eq!(e1_ref, &b"1".to_vec());
    let e1 = ErasedValue::new(TEXT_ID, e1_ref.clone());
    assert_eq!(AnyValue::value_typeid(&e1), TEXT_ID);

    {
        let e2 = ErasedValue::new(TEXT_ID, e1_ref.clone());
        let e3 = ErasedValue::new(TEXT_ID, e1_ref.clone());

        assert_eq!(AnyValue::downcast(e1, TEXT_ID), b"1".to_vec());
        assert_eq!(AnyValue::downcast(e2, TEXT_ID), b"1".to_vec());
        assert_eq!(AnyValue::downcast(e3, TEXT_ID), b"1".to_vec());
    }
}

#[test]
fn duplicate_independent_copies() {
    let mut any_vec: AnyVec<Caps<true, false, false>> = AnyVec::new(text_desc());
    any_vec.push(ErasedValue::new(TEXT_ID, b"0".to_vec()));
    any_vec.push(ErasedValue::new(TEXT_ID, b"1".to_vec()));
    any_vec.push(ErasedValue::new(TEXT_ID, b"2".to_vec()));

    let mut copy_a = any_vec.duplicate();
    let copy_b = any_vec.clone();

    assert_eq!(copy_a.get(1), &b"1".to_vec());
    assert_eq!(copy_b.get(1), &b"1".to_vec());

    // Mutating one copy affects neither the other copy nor the original.
    let slot = copy_a.get_mut(1);
    slot[0] = b'9';
    assert_eq!(copy_a.get(1), &b"9".to_vec());
    assert_eq!(copy_b.get(1), &b"1".to_vec());
    assert_eq!(any_vec.get(1), &b"1".to_vec());
}
