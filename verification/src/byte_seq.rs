//! Typed access to the raw bytes that back an array.
//!
//! A scalar is stored as the bytes of its two's-complement (or IEEE-754) bit
//! pattern, least significant byte first. The machine-word kinds take eight
//! bytes.

use crate::instruction::{PointerKind, Scalar};
use crate::value::{Array, ArrayModel, Datum, Value};
use vstd::bytes::{
    spec_u16_from_le_bytes, spec_u16_to_le_bytes, spec_u32_from_le_bytes, spec_u32_to_le_bytes,
    spec_u64_from_le_bytes, spec_u64_to_le_bytes, u16_from_le_bytes, u16_to_le_bytes,
    u32_from_le_bytes, u32_to_le_bytes, u64_from_le_bytes, u64_to_le_bytes,
};
use vstd::prelude::*;
use vstd::slice::slice_subrange;

verus! {

/// The primitive kind of a value, if it has one.
pub open spec fn scalar_of(d: Datum) -> Option<Scalar> {
    match d {
        Datum::Bool(_) => Some(Scalar::Bool),
        Datum::I8(_) => Some(Scalar::I8),
        Datum::I16(_) => Some(Scalar::I16),
        Datum::I32(_) => Some(Scalar::I32),
        Datum::I64(_) => Some(Scalar::I64),
        Datum::Int(_) => Some(Scalar::Int),
        Datum::U8(_) => Some(Scalar::U8),
        Datum::U16(_) => Some(Scalar::U16),
        Datum::U32(_) => Some(Scalar::U32),
        Datum::U64(_) => Some(Scalar::U64),
        Datum::Uint(_) => Some(Scalar::Uint),
        Datum::F32(_) => Some(Scalar::F32),
        Datum::F64(_) => Some(Scalar::F64),
        _ => None,
    }
}

/// The kind of the pointer that addresses a given value: typed for a
/// scalar, raw for everything else.
pub open spec fn kind_of(d: Datum) -> PointerKind {
    match scalar_of(d) {
        Some(s) => PointerKind::Typed(s),
        None => PointerKind::Raw,
    }
}

/// Finds the primitive kind of a value.
pub fn scalar_kind(v: &Value) -> (r: Option<Scalar>)
    ensures
        r == scalar_of(v@),
{
    match v {
        Value::Bool(_) => Some(Scalar::Bool),
        Value::I8(_) => Some(Scalar::I8),
        Value::I16(_) => Some(Scalar::I16),
        Value::I32(_) => Some(Scalar::I32),
        Value::I64(_) => Some(Scalar::I64),
        Value::Int(_) => Some(Scalar::Int),
        Value::U8(_) => Some(Scalar::U8),
        Value::U16(_) => Some(Scalar::U16),
        Value::U32(_) => Some(Scalar::U32),
        Value::U64(_) => Some(Scalar::U64),
        Value::Uint(_) => Some(Scalar::Uint),
        Value::F32(_) => Some(Scalar::F32),
        Value::F64(_) => Some(Scalar::F64),
        _ => None,
    }
}

/// Finds the kind of the pointer that addresses a given value.
pub fn pointer_kind(v: &Value) -> (r: PointerKind)
    ensures
        r == kind_of(v@),
{
    match scalar_kind(v) {
        Some(s) => PointerKind::Typed(s),
        None => PointerKind::Raw,
    }
}

/// How many bytes a scalar of the given kind takes.
pub open spec fn width(s: Scalar) -> nat {
    match s {
        Scalar::Bool | Scalar::I8 | Scalar::U8 => 1,
        Scalar::I16 | Scalar::U16 => 2,
        Scalar::I32 | Scalar::U32 | Scalar::F32 => 4,
        Scalar::I64 | Scalar::U64 | Scalar::F64 | Scalar::Int | Scalar::Uint => 8,
    }
}

/// Computes how many bytes a scalar of the given kind takes.
pub fn width_of(s: Scalar) -> (n: usize)
    ensures
        n == width(s),
        1 <= n <= 8,
{
    match s {
        Scalar::Bool | Scalar::I8 | Scalar::U8 => 1,
        Scalar::I16 | Scalar::U16 => 2,
        Scalar::I32 | Scalar::U32 | Scalar::F32 => 4,
        Scalar::I64 | Scalar::U64 | Scalar::F64 | Scalar::Int | Scalar::Uint => 8,
    }
}

/// The bytes that store a scalar; nothing else can be stored.
pub open spec fn encode(d: Datum) -> Option<Seq<u8>> {
    match d {
        Datum::Bool(v) => Some(seq![if v { 1u8 } else { 0u8 }]),
        Datum::I8(v) => Some(seq![v as u8]),
        Datum::U8(v) => Some(seq![v]),
        Datum::I16(v) => Some(spec_u16_to_le_bytes(v as u16)),
        Datum::U16(v) => Some(spec_u16_to_le_bytes(v)),
        Datum::I32(v) => Some(spec_u32_to_le_bytes(v as u32)),
        Datum::U32(v) => Some(spec_u32_to_le_bytes(v)),
        Datum::F32(v) => Some(spec_u32_to_le_bytes(v)),
        Datum::I64(v) => Some(spec_u64_to_le_bytes(v as u64)),
        Datum::U64(v) => Some(spec_u64_to_le_bytes(v)),
        Datum::F64(v) => Some(spec_u64_to_le_bytes(v)),
        Datum::Int(v) => Some(spec_u64_to_le_bytes(v as i64 as u64)),
        Datum::Uint(v) => Some(spec_u64_to_le_bytes(v as u64)),
        _ => None,
    }
}

/// The scalar of the given kind that a run of `width(kind)` bytes stores.
pub open spec fn decode(s: Scalar, bytes: Seq<u8>) -> Datum {
    match s {
        Scalar::Bool => Datum::Bool(bytes[0] != 0),
        Scalar::I8 => Datum::I8(bytes[0] as i8),
        Scalar::U8 => Datum::U8(bytes[0]),
        Scalar::I16 => Datum::I16(spec_u16_from_le_bytes(bytes) as i16),
        Scalar::U16 => Datum::U16(spec_u16_from_le_bytes(bytes)),
        Scalar::I32 => Datum::I32(spec_u32_from_le_bytes(bytes) as i32),
        Scalar::U32 => Datum::U32(spec_u32_from_le_bytes(bytes)),
        Scalar::F32 => Datum::F32(spec_u32_from_le_bytes(bytes)),
        Scalar::I64 => Datum::I64(spec_u64_from_le_bytes(bytes) as i64),
        Scalar::U64 => Datum::U64(spec_u64_from_le_bytes(bytes)),
        Scalar::F64 => Datum::F64(spec_u64_from_le_bytes(bytes)),
        Scalar::Int => Datum::Int(spec_u64_from_le_bytes(bytes) as i64 as isize),
        Scalar::Uint => Datum::Uint(spec_u64_from_le_bytes(bytes) as usize),
    }
}

/// Lays a scalar out as bytes.
pub fn encode_value(v: &Value) -> (r: Option<Vec<u8>>)
    ensures
        match r {
            Some(bytes) => encode(v@) == Some(bytes@),
            None => encode(v@) is None,
        },
        r matches Some(bytes) ==> scalar_of(v@) matches Some(s) && bytes@.len() == width(s),
{
    match v {
        Value::Bool(v) => {
            let byte: u8 = if *v { 1 } else { 0 };
            Some(vec![byte])
        },
        Value::I8(v) => Some(vec![#[verifier::truncate] (*v as u8)]),
        Value::U8(v) => Some(vec![*v]),
        Value::I16(v) => Some(u16_to_le_bytes(#[verifier::truncate] (*v as u16))),
        Value::U16(v) => Some(u16_to_le_bytes(*v)),
        Value::I32(v) => Some(u32_to_le_bytes(#[verifier::truncate] (*v as u32))),
        Value::U32(v) => Some(u32_to_le_bytes(*v)),
        Value::F32(v) => Some(u32_to_le_bytes(*v)),
        Value::I64(v) => Some(u64_to_le_bytes(#[verifier::truncate] (*v as u64))),
        Value::U64(v) => Some(u64_to_le_bytes(*v)),
        Value::F64(v) => Some(u64_to_le_bytes(*v)),
        Value::Int(v) => Some(u64_to_le_bytes(#[verifier::truncate] (*v as i64 as u64))),
        Value::Uint(v) => Some(u64_to_le_bytes(*v as u64)),
        _ => None,
    }
}

/// Reads a scalar of the given kind from exactly as many bytes as it takes.
pub fn decode_value(s: Scalar, bytes: &[u8]) -> (r: Value)
    requires
        bytes@.len() == width(s),
    ensures
        r@ == decode(s, bytes@),
{
    match s {
        Scalar::Bool => Value::Bool(bytes[0] != 0),
        Scalar::I8 => Value::I8(#[verifier::truncate] (bytes[0] as i8)),
        Scalar::U8 => Value::U8(bytes[0]),
        Scalar::I16 => Value::I16(#[verifier::truncate] (u16_from_le_bytes(bytes) as i16)),
        Scalar::U16 => Value::U16(u16_from_le_bytes(bytes)),
        Scalar::I32 => Value::I32(#[verifier::truncate] (u32_from_le_bytes(bytes) as i32)),
        Scalar::U32 => Value::U32(u32_from_le_bytes(bytes)),
        Scalar::F32 => Value::F32(u32_from_le_bytes(bytes)),
        Scalar::I64 => Value::I64(#[verifier::truncate] (u64_from_le_bytes(bytes) as i64)),
        Scalar::U64 => Value::U64(u64_from_le_bytes(bytes)),
        Scalar::F64 => Value::F64(u64_from_le_bytes(bytes)),
        Scalar::Int => Value::Int(#[verifier::truncate] (u64_from_le_bytes(bytes) as i64 as isize)),
        Scalar::Uint => Value::Uint(#[verifier::truncate] (u64_from_le_bytes(bytes) as usize)),
    }
}

/// What is stored can be read again: decoding the bytes of a scalar, as its
/// own kind, gives the scalar.
pub proof fn lemma_encode_decode(d: Datum)
    requires
        scalar_of(d) is Some,
    ensures
        encode(d) is Some,
        encode(d)->0.len() == width(scalar_of(d)->0),
        decode(scalar_of(d)->0, encode(d)->0) == d,
{
    vstd::bytes::lemma_auto_spec_u16_to_from_le_bytes();
    vstd::bytes::lemma_auto_spec_u32_to_from_le_bytes();
    vstd::bytes::lemma_auto_spec_u64_to_from_le_bytes();
    match d {
        Datum::I8(v) => {
            assert((v as u8) as i8 == v) by (bit_vector);
        },
        Datum::I16(v) => {
            assert((v as u16) as i16 == v) by (bit_vector);
            assert(spec_u16_to_le_bytes(v as u16).len() == 2);
        },
        Datum::U16(v) => {
            assert(spec_u16_to_le_bytes(v).len() == 2);
        },
        Datum::I32(v) => {
            assert((v as u32) as i32 == v) by (bit_vector);
            assert(spec_u32_to_le_bytes(v as u32).len() == 4);
        },
        Datum::U32(v) => {
            assert(spec_u32_to_le_bytes(v).len() == 4);
        },
        Datum::F32(v) => {
            assert(spec_u32_to_le_bytes(v).len() == 4);
        },
        Datum::I64(v) => {
            assert((v as u64) as i64 == v) by (bit_vector);
            assert(spec_u64_to_le_bytes(v as u64).len() == 8);
        },
        Datum::U64(v) => {
            assert(spec_u64_to_le_bytes(v).len() == 8);
        },
        Datum::F64(v) => {
            assert(spec_u64_to_le_bytes(v).len() == 8);
        },
        Datum::Int(v) => {
            let w = v as i64;
            assert((w as u64) as i64 == w) by (bit_vector);
            assert(spec_u64_to_le_bytes(w as u64).len() == 8);
        },
        Datum::Uint(v) => {
            assert(spec_u64_to_le_bytes(v as u64).len() == 8);
        },
        _ => {},
    }
}

/// A buffer with a run of its bytes replaced.
pub open spec fn patched(bytes: Seq<u8>, offset: int, run: Seq<u8>) -> Seq<u8> {
    bytes.subrange(0, offset) + run + bytes.subrange(offset + run.len(), bytes.len() as int)
}

/// The scalar stored at a byte offset of an array, if the array reaches
/// that far.
pub open spec fn array_read(a: ArrayModel, offset: int) -> Option<Datum> {
    if 0 <= offset && offset + width(a.ty) <= a.bytes.len() {
        Some(decode(a.ty, a.bytes.subrange(offset, offset + width(a.ty))))
    } else {
        None
    }
}

/// The array with a scalar of its own element kind stored at a byte offset.
pub open spec fn array_write(a: ArrayModel, offset: int, d: Datum) -> Option<ArrayModel> {
    if scalar_of(d) == Some(a.ty) && 0 <= offset && offset + width(a.ty) <= a.bytes.len() {
        Some(ArrayModel { bytes: patched(a.bytes, offset, encode(d)->0), ty: a.ty })
    } else {
        None
    }
}

/// Element `i` of an array.
pub open spec fn array_get(a: ArrayModel, i: int) -> Option<Datum> {
    array_read(a, i * width(a.ty))
}

/// The array with element `i` replaced.
pub open spec fn array_set(a: ArrayModel, i: int, d: Datum) -> Option<ArrayModel> {
    if 0 <= i {
        array_write(a, i * width(a.ty), d)
    } else {
        None
    }
}

/// An array of `count` elements of the given kind, every byte zero.
pub open spec fn array_zeroed(ty: Scalar, count: nat) -> ArrayModel {
    ArrayModel { bytes: Seq::new(count * width(ty), |i: int| 0u8), ty }
}

impl Array {
    /// Allocates the bytes for `count` elements, all zero. `None` when that
    /// many bytes cannot be addressed.
    pub fn zeroed(ty: Scalar, count: usize) -> (r: Option<Array>)
        ensures
            match r {
                Some(a) => count * width(ty) <= usize::MAX && a@ == array_zeroed(ty, count as nat),
                None => count * width(ty) > usize::MAX,
            },
    {
        let w = width_of(ty);
        match count.checked_mul(w) {
            Some(len) => {
                let mut bytes: Vec<u8> = Vec::new();
                let mut i: usize = 0;
                while i < len
                    invariant
                        i <= len,
                        bytes@.len() == i,
                        forall|k: int| 0 <= k < i ==> bytes@[k] == 0u8,
                    decreases len - i,
                {
                    bytes.push(0u8);
                    i += 1;
                }
                proof {
                    assert(bytes@ =~= array_zeroed(ty, count as nat).bytes);
                }
                Some(Array { bytes, ty })
            },
            None => None,
        }
    }

    /// Reads the scalar stored at a byte offset.
    pub fn read(&self, offset: usize) -> (r: Option<Value>)
        ensures
            match r {
                Some(v) => array_read(self@, offset as int) == Some(v@),
                None => array_read(self@, offset as int) is None,
            },
    {
        let w = width_of(self.ty);
        if offset <= self.bytes.len() && w <= self.bytes.len() - offset {
            let run = slice_subrange(self.bytes.as_slice(), offset, offset + w);
            Some(decode_value(self.ty, run))
        } else {
            None
        }
    }

    /// Stores a scalar of the array's element kind at a byte offset. Returns
    /// whether it did; when it did not, the array is unchanged.
    pub fn write(&mut self, offset: usize, v: &Value) -> (done: bool)
        ensures
            match array_write(old(self)@, offset as int, v@) {
                Some(a) => done && final(self)@ == a,
                None => !done && final(self)@ == old(self)@,
            },
    {
        let w = width_of(self.ty);
        match scalar_kind(v) {
            Some(s) => {
                if same_scalar(s, self.ty) && offset <= self.bytes.len() && w <= self.bytes.len()
                    - offset {
                    match encode_value(v) {
                        Some(run) => {
                            let ghost before = self.bytes@;
                            let total = self.bytes.len();
                            let mut i: usize = 0;
                            while i < w
                                invariant
                                    i <= w,
                                    total == before.len(),
                                    w == run@.len(),
                                    offset + w <= before.len(),
                                    self.ty == old(self).ty,
                                    self.bytes@.len() == before.len(),
                                    forall|k: int|
                                        0 <= k < before.len() ==> self.bytes@[k] == (if offset <= k
                                            < offset + i {
                                            run@[k - offset]
                                        } else {
                                            before[k]
                                        }),
                                decreases w - i,
                            {
                                self.bytes.set(offset + i, run[i]);
                                i += 1;
                            }
                            proof {
                                assert(self.bytes@ =~= patched(before, offset as int, run@));
                            }
                            true
                        },
                        None => false,
                    }
                } else {
                    false
                }
            },
            None => false,
        }
    }

    /// Tells whether a store of `v` at a byte offset would succeed.
    pub fn accepts(&self, offset: usize, v: &Value) -> (r: bool)
        ensures
            r == array_write(self@, offset as int, v@) is Some,
    {
        let w = width_of(self.ty);
        match scalar_kind(v) {
            Some(s) => same_scalar(s, self.ty) && offset <= self.bytes.len() && w
                <= self.bytes.len() - offset,
            None => false,
        }
    }

    /// Tells whether element `i` can be replaced by `v`.
    pub fn accepts_at(&self, i: usize, v: &Value) -> (r: bool)
        ensures
            r == array_set(self@, i as int, v@) is Some,
    {
        let w = width_of(self.ty);
        match i.checked_mul(w) {
            Some(offset) => self.accepts(offset, v),
            None => {
                let total = self.bytes.len();
                false
            },
        }
    }

    /// Reads element `i`.
    pub fn get(&self, i: usize) -> (r: Option<Value>)
        ensures
            match r {
                Some(v) => array_get(self@, i as int) == Some(v@),
                None => array_get(self@, i as int) is None,
            },
    {
        let w = width_of(self.ty);
        match i.checked_mul(w) {
            Some(offset) => self.read(offset),
            None => {
                let total = self.bytes.len();
                None
            },
        }
    }

    /// Replaces element `i`. Returns whether it did; when it did not, the
    /// array is unchanged.
    pub fn set(&mut self, i: usize, v: &Value) -> (done: bool)
        ensures
            match array_set(old(self)@, i as int, v@) {
                Some(a) => done && final(self)@ == a,
                None => !done && final(self)@ == old(self)@,
            },
    {
        let w = width_of(self.ty);
        match i.checked_mul(w) {
            Some(offset) => self.write(offset, v),
            None => {
                let total = self.bytes.len();
                false
            },
        }
    }
}

/// Tells whether two kinds are the same.
pub fn same_scalar(a: Scalar, b: Scalar) -> (r: bool)
    ensures
        r == (a == b),
{
    a == b
}

} // verus!
