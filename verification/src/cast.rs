//! Explicit conversions between integer widths, and between pointer kinds.
//!
//! An integer converts to another integer kind as the machine does it:
//! narrowing keeps the low bits, widening extends by the sign of the
//! source. Conversions that involve a floating-point number are not
//! computed here: they are handed to the host.

use crate::arith::{is_float, is_float_value, outcome};
use crate::error::InterpErr;
use crate::instruction::CastInstruction;
use crate::value::{Datum, Pointer, PointerModel, Value};
use vstd::prelude::*;

verus! {

/// The number an integer value stands for.
pub open spec fn integer_of(d: Datum) -> Option<int> {
    match d {
        Datum::I8(v) => Some(v as int),
        Datum::I16(v) => Some(v as int),
        Datum::I32(v) => Some(v as int),
        Datum::I64(v) => Some(v as int),
        Datum::Int(v) => Some(v as int),
        Datum::U8(v) => Some(v as int),
        Datum::U16(v) => Some(v as int),
        Datum::U32(v) => Some(v as int),
        Datum::U64(v) => Some(v as int),
        Datum::Uint(v) => Some(v as int),
        _ => None,
    }
}

/// Finds the number an integer value stands for.
fn integer_value(v: &Value) -> (r: Option<i128>)
    ensures
        match r {
            Some(n) => integer_of(v@) == Some(n as int),
            None => integer_of(v@) is None,
        },
{
    match v {
        Value::I8(v) => Some(*v as i128),
        Value::I16(v) => Some(*v as i128),
        Value::I32(v) => Some(*v as i128),
        Value::I64(v) => Some(*v as i128),
        Value::Int(v) => Some(*v as i128),
        Value::U8(v) => Some(*v as i128),
        Value::U16(v) => Some(*v as i128),
        Value::U32(v) => Some(*v as i128),
        Value::U64(v) => Some(*v as i128),
        Value::Uint(v) => Some(*v as i128),
        _ => None,
    }
}

/// Whether the target of a cast is a floating-point kind.
pub open spec fn to_float(target: CastInstruction) -> bool {
    target is F32 || target is F64
}

/// Whether a cast is left to the host: one from a floating-point number to
/// a numeric kind, or from an integer to a floating-point kind.
pub open spec fn cast_needs_host(d: Datum, target: CastInstruction) -> bool {
    (is_float(d) && !(target is Ptr)) || (integer_of(d) is Some && to_float(target))
}

/// The result of a cast that the machine computes itself: an integer to an
/// integer kind, or a pointer to a pointer kind. Anything else is an
/// [`InterpErr::InvalidCast`].
pub open spec fn cast(d: Datum, target: CastInstruction) -> Result<Datum, InterpErr> {
    match d {
        Datum::Pointer(p) => match target {
            CastInstruction::Ptr(kind) => Ok(
                Datum::Pointer(PointerModel { kind, space: p.space, path: p.path }),
            ),
            _ => Err(InterpErr::InvalidCast),
        },
        _ => match integer_of(d) {
            Some(n) => match target {
                CastInstruction::I8 => Ok(Datum::I8(n as i8)),
                CastInstruction::I16 => Ok(Datum::I16(n as i16)),
                CastInstruction::I32 => Ok(Datum::I32(n as i32)),
                CastInstruction::I64 => Ok(Datum::I64(n as i64)),
                CastInstruction::Int => Ok(Datum::Int(n as isize)),
                CastInstruction::U8 => Ok(Datum::U8(n as u8)),
                CastInstruction::U16 => Ok(Datum::U16(n as u16)),
                CastInstruction::U32 => Ok(Datum::U32(n as u32)),
                CastInstruction::U64 => Ok(Datum::U64(n as u64)),
                CastInstruction::Uint => Ok(Datum::Uint(n as usize)),
                _ => Err(InterpErr::InvalidCast),
            },
            None => Err(InterpErr::InvalidCast),
        },
    }
}

/// Tells whether a cast is left to the host.
pub fn needs_host(v: &Value, target: CastInstruction) -> (r: bool)
    ensures
        r == cast_needs_host(v@, target),
{
    let float_target = match target {
        CastInstruction::F32 => true,
        CastInstruction::F64 => true,
        _ => false,
    };
    let pointer_target = match target {
        CastInstruction::Ptr(_) => true,
        _ => false,
    };
    if is_float_value(v) {
        !pointer_target
    } else {
        match integer_value(v) {
            Some(_) => float_target,
            None => false,
        }
    }
}

/// Computes a cast between integer kinds or between pointer kinds.
pub fn cast_op(v: &Value, target: CastInstruction) -> (r: Result<Value, InterpErr>)
    ensures
        outcome(r) == cast(v@, target),
{
    match v {
        Value::Pointer(p) => match target {
            CastInstruction::Ptr(kind) => {
                let moved = p.clone();
                Ok(Value::Pointer(Pointer { kind, space: moved.space, path: moved.path }))
            },
            _ => Err(InterpErr::InvalidCast),
        },
        _ => match integer_value(v) {
            Some(n) => match target {
                CastInstruction::I8 => Ok(Value::I8(#[verifier::truncate] (n as i8))),
                CastInstruction::I16 => Ok(Value::I16(#[verifier::truncate] (n as i16))),
                CastInstruction::I32 => Ok(Value::I32(#[verifier::truncate] (n as i32))),
                CastInstruction::I64 => Ok(Value::I64(#[verifier::truncate] (n as i64))),
                CastInstruction::Int => Ok(Value::Int(#[verifier::truncate] (n as isize))),
                CastInstruction::U8 => Ok(Value::U8(#[verifier::truncate] (n as u8))),
                CastInstruction::U16 => Ok(Value::U16(#[verifier::truncate] (n as u16))),
                CastInstruction::U32 => Ok(Value::U32(#[verifier::truncate] (n as u32))),
                CastInstruction::U64 => Ok(Value::U64(#[verifier::truncate] (n as u64))),
                CastInstruction::Uint => Ok(Value::Uint(#[verifier::truncate] (n as usize))),
                _ => Err(InterpErr::InvalidCast),
            },
            None => Err(InterpErr::InvalidCast),
        },
    }
}

} // verus!
