//! Value erasure: producers that deliver a payload's bytes across the
//! container boundary.
//!
//! A producer exposes a numeric type identity and a byte payload.  The payload
//! is delivered to a destination exactly once (`consume_into`), or duplicated
//! without consuming the producer (`clone_into`).  A producer whose payload
//! type is statically known reports it through `static_typeid` and delivers
//! with a fixed-size move; an erased producer reports [`UNKNOWN_TYPEID`] there
//! and copies a runtime-reported number of bytes.

use vstd::prelude::*;

verus! {

/// The type identity reserved for "type not statically known".
pub const UNKNOWN_TYPEID: u64 = 0;

/// Marker for an unknown payload type.
pub struct Unknown;

impl Unknown {
    /// Whether a type identity is the reserved "unknown" identity.
    pub fn is(typeid: u64) -> (r: bool)
        ensures
            r == (typeid == UNKNOWN_TYPEID),
    {
        typeid == UNKNOWN_TYPEID
    }
}

/// Copies the first `n` bytes of `src` into a fresh buffer.
pub fn copy_bytes(src: &Vec<u8>, n: usize) -> (r: Vec<u8>)
    requires
        n <= src@.len(),
    ensures
        r@ == src@.subrange(0, n as int),
{
    let mut out: Vec<u8> = Vec::new();
    let mut i: usize = 0;
    while i < n
        invariant
            i <= n <= src@.len(),
            out@ == src@.subrange(0, i as int),
        decreases n - i,
    {
        out.push(src[i]);
        proof {
            assert(out@ =~= src@.subrange(0, i + 1));
        }
        i = i + 1;
    }
    out
}

/// A value producer: delivers its payload's bytes to a destination exactly
/// once.  The payload's type is tracked by a numeric identity; `static_typeid`
/// is that identity when it is fixed by the producer's type, and
/// [`UNKNOWN_TYPEID`] for an erased producer.
pub trait AnyValue2: Sized {
    /// The payload type identity fixed by the producer's type, or
    /// [`UNKNOWN_TYPEID`] when only the runtime identity is known.
    spec fn static_typeid(&self) -> u64;

    /// The payload's type identity.
    spec fn typeid_spec(&self) -> u64;

    /// The payload, as the bytes it would deliver.
    spec fn bytes_spec(&self) -> Seq<u8>;

    /// The statically fixed type identity, as a runtime value.
    fn static_type(&self) -> (r: u64)
        ensures
            r == self.static_typeid(),
    ;

    fn value_typeid(&self) -> (r: u64)
        ensures
            r == self.typeid_spec(),
    ;

    /// Payload size in bytes.
    fn size(&self) -> (r: usize)
        ensures
            r == self.bytes_spec().len(),
    ;

    /// A copy of the payload bytes, without consuming the producer.
    fn bytes(&self) -> (r: Vec<u8>)
        ensures
            r@ == self.bytes_spec(),
    ;

    /// Consumes the producer into a freshly delivered payload if the expected
    /// type identity matches, and reports "no match" otherwise.
    fn downcast(self, expected: u64) -> (r: Option<Vec<u8>>)
        ensures
            expected == self.typeid_spec() ==> (r matches Some(b) && b@ == self.bytes_spec()),
            expected != self.typeid_spec() ==> r is None,
    ;

    /// Delivers the payload into `out`, consuming the producer.
    fn consume_into(self, out: &mut Vec<u8>)
        ensures
            final(out)@ == self.bytes_spec(),
    ;
}

/// A producer that can additionally duplicate its payload without consuming
/// itself.
pub trait AnyValue2Cloneable: AnyValue2 {
    /// Duplicates the payload into `out`; the producer remains usable.
    fn clone_into(&self, out: &mut Vec<u8>)
        ensures
            final(out)@ == self.bytes_spec(),
    ;
}

/// The move-once producer interface the container consumes values through.
///
/// The shape parallels [`AnyValue2`]; it is the interface the container's
/// mutation operations are written against.
pub trait AnyValue: Sized {
    /// The payload type identity fixed by the producer's type, or
    /// [`UNKNOWN_TYPEID`] when only the runtime identity is known.
    spec fn static_typeid(&self) -> u64;

    /// The payload's type identity.
    spec fn typeid_spec(&self) -> u64;

    /// The payload, as the bytes it would deliver.
    spec fn bytes_spec(&self) -> Seq<u8>;

    /// The statically fixed type identity, as a runtime value.
    fn static_type(&self) -> (r: u64)
        ensures
            r == self.static_typeid(),
    ;

    fn value_typeid(&self) -> (r: u64)
        ensures
            r == self.typeid_spec(),
    ;

    /// Payload size in bytes.
    fn value_size(&self) -> (r: usize)
        ensures
            r == self.bytes_spec().len(),
    ;

    /// Consumes the producer, handing its payload out as bytes.
    fn consume_bytes(self) -> (r: Vec<u8>)
        ensures
            r@ == self.bytes_spec(),
    ;

    /// Consumes the producer into a freshly delivered payload.
    ///
    /// The expected type identity must match; a mismatch is a caller fault and
    /// is excluded by the precondition.
    fn downcast(self, expected: u64) -> (r: Vec<u8>)
        requires
            expected == self.typeid_spec(),
        ensures
            r@ == self.bytes_spec(),
    ;

    /// Delivers the payload into `out`, consuming the producer.
    fn consume_bytes_into(self, out: &mut Vec<u8>)
        ensures
            final(out)@ == self.bytes_spec(),
    ;
}

/// An erased value: type identity and payload size known only at runtime.
/// Delivery copies the runtime-reported number of bytes.
pub struct ErasedValue {
    typeid: u64,
    data: Vec<u8>,
}

impl ErasedValue {
    pub fn new(typeid: u64, data: Vec<u8>) -> (r: Self)
        ensures
            AnyValue::typeid_spec(&r) == typeid,
            AnyValue2::typeid_spec(&r) == typeid,
            AnyValue::bytes_spec(&r) == data@,
            AnyValue2::bytes_spec(&r) == data@,
    {
        ErasedValue { typeid, data }
    }
}

impl AnyValue for ErasedValue {
    open spec fn static_typeid(&self) -> u64 {
        UNKNOWN_TYPEID
    }

    closed spec fn typeid_spec(&self) -> u64 {
        self.typeid
    }

    closed spec fn bytes_spec(&self) -> Seq<u8> {
        self.data@
    }

    fn static_type(&self) -> u64 {
        UNKNOWN_TYPEID
    }

    fn value_typeid(&self) -> u64 {
        self.typeid
    }

    fn value_size(&self) -> usize {
        self.data.len()
    }

    fn consume_bytes(self) -> Vec<u8> {
        self.data
    }

    fn downcast(self, expected: u64) -> (r: Vec<u8>) {
        let mut tmp: Vec<u8> = Vec::new();
        self.consume_bytes_into(&mut tmp);
        tmp
    }

    fn consume_bytes_into(self, out: &mut Vec<u8>) {
        // Erased path: copy exactly the runtime-reported number of bytes.
        let size = self.data.len();
        let copied = copy_bytes(&self.data, size);
        proof {
            assert(copied@ =~= self.data@);
        }
        *out = copied;
    }
}

impl AnyValue2 for ErasedValue {
    open spec fn static_typeid(&self) -> u64 {
        UNKNOWN_TYPEID
    }

    closed spec fn typeid_spec(&self) -> u64 {
        self.typeid
    }

    closed spec fn bytes_spec(&self) -> Seq<u8> {
        self.data@
    }

    fn static_type(&self) -> u64 {
        UNKNOWN_TYPEID
    }

    fn value_typeid(&self) -> u64 {
        self.typeid
    }

    fn size(&self) -> usize {
        self.data.len()
    }

    fn bytes(&self) -> (r: Vec<u8>) {
        copy_bytes(&self.data, self.data.len())
    }

    fn downcast(self, expected: u64) -> (r: Option<Vec<u8>>) {
        if self.typeid != expected {
            return None;
        }
        let mut tmp: Vec<u8> = Vec::new();
        self.consume_into(&mut tmp);
        Some(tmp)
    }

    fn consume_into(self, out: &mut Vec<u8>) {
        // Erased path: copy exactly the runtime-reported number of bytes.
        let size = self.data.len();
        let copied = copy_bytes(&self.data, size);
        proof {
            assert(copied@ =~= self.data@);
        }
        *out = copied;
    }
}

impl AnyValue2Cloneable for ErasedValue {
    fn clone_into(&self, out: &mut Vec<u8>) {
        let copied = copy_bytes(&self.data, self.data.len());
        proof {
            assert(copied@ =~= AnyValue2::bytes_spec(self));
        }
        *out = copied;
    }
}

/// A statically typed value: the type identity and payload size are fixed by
/// the instantiation, so delivery is a fixed-size move of the whole payload.
pub struct TypedValue<const TYPE_ID: u64, const SIZE: usize> {
    data: Vec<u8>,
}

impl<const TYPE_ID: u64, const SIZE: usize> TypedValue<TYPE_ID, SIZE> {
    #[verifier::type_invariant]
    spec fn fixed_size(self) -> bool {
        self.data@.len() == SIZE
    }

    pub fn new(data: Vec<u8>) -> (r: Self)
        requires
            data@.len() == SIZE,
        ensures
            AnyValue::bytes_spec(&r) == data@,
            AnyValue2::bytes_spec(&r) == data@,
    {
        TypedValue { data }
    }
}

impl<const TYPE_ID: u64, const SIZE: usize> AnyValue for TypedValue<TYPE_ID, SIZE> {
    open spec fn static_typeid(&self) -> u64 {
        TYPE_ID
    }

    open spec fn typeid_spec(&self) -> u64 {
        TYPE_ID
    }

    closed spec fn bytes_spec(&self) -> Seq<u8> {
        self.data@
    }

    fn static_type(&self) -> u64 {
        TYPE_ID
    }

    fn value_typeid(&self) -> u64 {
        TYPE_ID
    }

    fn value_size(&self) -> usize {
        proof {
            use_type_invariant(self);
        }
        SIZE
    }

    fn consume_bytes(self) -> Vec<u8> {
        self.data
    }

    fn downcast(self, expected: u64) -> (r: Vec<u8>) {
        // Statically known type: the payload moves whole, no sized copy.
        self.data
    }

    fn consume_bytes_into(self, out: &mut Vec<u8>) {
        *out = self.data;
    }
}

impl<const TYPE_ID: u64, const SIZE: usize> AnyValue2 for TypedValue<TYPE_ID, SIZE> {
    open spec fn static_typeid(&self) -> u64 {
        TYPE_ID
    }

    open spec fn typeid_spec(&self) -> u64 {
        TYPE_ID
    }

    closed spec fn bytes_spec(&self) -> Seq<u8> {
        self.data@
    }

    fn static_type(&self) -> u64 {
        TYPE_ID
    }

    fn value_typeid(&self) -> u64 {
        TYPE_ID
    }

    fn size(&self) -> usize {
        proof {
            use_type_invariant(self);
        }
        SIZE
    }

    fn bytes(&self) -> (r: Vec<u8>) {
        copy_bytes(&self.data, self.data.len())
    }

    fn downcast(self, expected: u64) -> (r: Option<Vec<u8>>) {
        if TYPE_ID != expected {
            return None;
        }
        // Statically known type: the payload moves whole, no sized copy.
        Some(self.data)
    }

    fn consume_into(self, out: &mut Vec<u8>) {
        *out = self.data;
    }
}

impl<const TYPE_ID: u64, const SIZE: usize> AnyValue2Cloneable for TypedValue<TYPE_ID, SIZE> {
    fn clone_into(&self, out: &mut Vec<u8>) {
        let copied = copy_bytes(&self.data, self.data.len());
        proof {
            assert(copied@ =~= AnyValue2::bytes_spec(self));
        }
        *out = copied;
    }
}

} // verus!
