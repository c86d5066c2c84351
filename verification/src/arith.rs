//! Arithmetic, comparison and logic on tagged values.
//!
//! Integer arithmetic wraps at the width of its operands, as the machine's
//! own instructions do; division truncates toward zero and faults on a zero
//! divisor and on the one quotient that does not fit. Floating-point numbers
//! are carried as bit patterns and never computed on here: an operation on
//! them is handed to the host.

use crate::error::InterpErr;
use crate::value::{Datum, Value, truthy};
use vstd::prelude::*;

verus! {

/// The five arithmetic instructions.
#[derive(Clone, Copy, Debug, PartialEq, Eq, Structural)]
pub enum BinaryOp {
    Add,
    Sub,
    Mul,
    Div,
    Rem,
}

/// The six comparison instructions.
#[derive(Clone, Copy, Debug, PartialEq, Eq, Structural)]
pub enum CompareOp {
    Eq,
    Neq,
    Lt,
    LtEq,
    Gt,
    GtEq,
}

/// The two logical instructions.
#[derive(Clone, Copy, Debug, PartialEq, Eq, Structural)]
pub enum LogicOp {
    And,
    Or,
}

/// What a computation on values gives, in the model.
pub open spec fn outcome(r: Result<Value, InterpErr>) -> Result<Datum, InterpErr> {
    match r {
        Ok(v) => Ok(v@),
        Err(e) => Err(e),
    }
}

/// Division that rounds toward zero, for a divisor other than zero.
pub open spec fn truncating_div(a: int, b: int) -> int {
    let q = (if a < 0 { -a } else { a }) / (if b < 0 { -b } else { b });
    if (a < 0) != (b < 0) {
        -q
    } else {
        q
    }
}

/// The remainder that goes with [`truncating_div`]: it has the sign of the
/// dividend.
pub open spec fn truncating_rem(a: int, b: int) -> int {
    let r = (if a < 0 { -a } else { a }) % (if b < 0 { -b } else { b });
    if a < 0 {
        -r
    } else {
        r
    }
}

/// What division and remainder of a natural number by a positive one give.
proof fn lemma_truncating(x: int, d: int)
    by (nonlinear_arith)
    requires
        x >= 0,
        d > 0,
    ensures
        0 <= x / d <= x,
        0 <= x % d < d,
        x == 0 ==> x / d == 0 && x % d == 0,
        d == 1 ==> x / d == x,
        d >= 2 && x > 0 ==> x / d < x,
{
}

/// Arithmetic on `i8`.
pub open spec fn arith_i8(op: BinaryOp, a: i8, b: i8) -> Result<i8, InterpErr> {
    match op {
        BinaryOp::Add => Ok(a.wrapping_add(b)),
        BinaryOp::Sub => Ok(a.wrapping_sub(b)),
        BinaryOp::Mul => Ok(a.wrapping_mul(b)),
        BinaryOp::Div => if b == 0 {
            Err(InterpErr::DivisionByZero)
        } else if a == i8::MIN && b == -1 {
            Err(InterpErr::Overflow)
        } else {
            Ok(truncating_div(a as int, b as int) as i8)
        },
        BinaryOp::Rem => if b == 0 {
            Err(InterpErr::DivisionByZero)
        } else if a == i8::MIN && b == -1 {
            Err(InterpErr::Overflow)
        } else {
            Ok(truncating_rem(a as int, b as int) as i8)
        },
    }
}

/// Computes arithmetic on `i8`.
fn do_arith_i8(op: BinaryOp, a: i8, b: i8) -> (r: Result<i8, InterpErr>)
    ensures
        r == arith_i8(op, a, b),
{
    proof {
        if b != 0 {
            lemma_truncating(if a < 0 { -a } else { a as int }, if b < 0 { -b } else { b as int });
        }
    }
    match op {
        BinaryOp::Add => Ok(a.wrapping_add(b)),
        BinaryOp::Sub => Ok(a.wrapping_sub(b)),
        BinaryOp::Mul => Ok(a.wrapping_mul(b)),
        BinaryOp::Div => match a.checked_div(b) {
            Some(q) => Ok(q),
            None => if b == 0 {
                Err(InterpErr::DivisionByZero)
            } else {
                Err(InterpErr::Overflow)
            },
        },
        BinaryOp::Rem => match a.checked_rem(b) {
            Some(q) => Ok(q),
            None => if b == 0 {
                Err(InterpErr::DivisionByZero)
            } else {
                Err(InterpErr::Overflow)
            },
        },
    }
}

/// Arithmetic on `i16`.
pub open spec fn arith_i16(op: BinaryOp, a: i16, b: i16) -> Result<i16, InterpErr> {
    match op {
        BinaryOp::Add => Ok(a.wrapping_add(b)),
        BinaryOp::Sub => Ok(a.wrapping_sub(b)),
        BinaryOp::Mul => Ok(a.wrapping_mul(b)),
        BinaryOp::Div => if b == 0 {
            Err(InterpErr::DivisionByZero)
        } else if a == i16::MIN && b == -1 {
            Err(InterpErr::Overflow)
        } else {
            Ok(truncating_div(a as int, b as int) as i16)
        },
        BinaryOp::Rem => if b == 0 {
            Err(InterpErr::DivisionByZero)
        } else if a == i16::MIN && b == -1 {
            Err(InterpErr::Overflow)
        } else {
            Ok(truncating_rem(a as int, b as int) as i16)
        },
    }
}

/// Computes arithmetic on `i16`.
fn do_arith_i16(op: BinaryOp, a: i16, b: i16) -> (r: Result<i16, InterpErr>)
    ensures
        r == arith_i16(op, a, b),
{
    proof {
        if b != 0 {
            lemma_truncating(if a < 0 { -a } else { a as int }, if b < 0 { -b } else { b as int });
        }
    }
    match op {
        BinaryOp::Add => Ok(a.wrapping_add(b)),
        BinaryOp::Sub => Ok(a.wrapping_sub(b)),
        BinaryOp::Mul => Ok(a.wrapping_mul(b)),
        BinaryOp::Div => match a.checked_div(b) {
            Some(q) => Ok(q),
            None => if b == 0 {
                Err(InterpErr::DivisionByZero)
            } else {
                Err(InterpErr::Overflow)
            },
        },
        BinaryOp::Rem => match a.checked_rem(b) {
            Some(q) => Ok(q),
            None => if b == 0 {
                Err(InterpErr::DivisionByZero)
            } else {
                Err(InterpErr::Overflow)
            },
        },
    }
}

/// Arithmetic on `i32`.
pub open spec fn arith_i32(op: BinaryOp, a: i32, b: i32) -> Result<i32, InterpErr> {
    match op {
        BinaryOp::Add => Ok(a.wrapping_add(b)),
        BinaryOp::Sub => Ok(a.wrapping_sub(b)),
        BinaryOp::Mul => Ok(a.wrapping_mul(b)),
        BinaryOp::Div => if b == 0 {
            Err(InterpErr::DivisionByZero)
        } else if a == i32::MIN && b == -1 {
            Err(InterpErr::Overflow)
        } else {
            Ok(truncating_div(a as int, b as int) as i32)
        },
        BinaryOp::Rem => if b == 0 {
            Err(InterpErr::DivisionByZero)
        } else if a == i32::MIN && b == -1 {
            Err(InterpErr::Overflow)
        } else {
            Ok(truncating_rem(a as int, b as int) as i32)
        },
    }
}

/// Computes arithmetic on `i32`.
fn do_arith_i32(op: BinaryOp, a: i32, b: i32) -> (r: Result<i32, InterpErr>)
    ensures
        r == arith_i32(op, a, b),
{
    proof {
        if b != 0 {
            lemma_truncating(if a < 0 { -a } else { a as int }, if b < 0 { -b } else { b as int });
        }
    }
    match op {
        BinaryOp::Add => Ok(a.wrapping_add(b)),
        BinaryOp::Sub => Ok(a.wrapping_sub(b)),
        BinaryOp::Mul => Ok(a.wrapping_mul(b)),
        BinaryOp::Div => match a.checked_div(b) {
            Some(q) => Ok(q),
            None => if b == 0 {
                Err(InterpErr::DivisionByZero)
            } else {
                Err(InterpErr::Overflow)
            },
        },
        BinaryOp::Rem => match a.checked_rem(b) {
            Some(q) => Ok(q),
            None => if b == 0 {
                Err(InterpErr::DivisionByZero)
            } else {
                Err(InterpErr::Overflow)
            },
        },
    }
}

/// Arithmetic on `i64`.
pub open spec fn arith_i64(op: BinaryOp, a: i64, b: i64) -> Result<i64, InterpErr> {
    match op {
        BinaryOp::Add => Ok(a.wrapping_add(b)),
        BinaryOp::Sub => Ok(a.wrapping_sub(b)),
        BinaryOp::Mul => Ok(a.wrapping_mul(b)),
        BinaryOp::Div => if b == 0 {
            Err(InterpErr::DivisionByZero)
        } else if a == i64::MIN && b == -1 {
            Err(InterpErr::Overflow)
        } else {
            Ok(truncating_div(a as int, b as int) as i64)
        },
        BinaryOp::Rem => if b == 0 {
            Err(InterpErr::DivisionByZero)
        } else if a == i64::MIN && b == -1 {
            Err(InterpErr::Overflow)
        } else {
            Ok(truncating_rem(a as int, b as int) as i64)
        },
    }
}

/// Computes arithmetic on `i64`.
fn do_arith_i64(op: BinaryOp, a: i64, b: i64) -> (r: Result<i64, InterpErr>)
    ensures
        r == arith_i64(op, a, b),
{
    proof {
        if b != 0 {
            lemma_truncating(if a < 0 { -a } else { a as int }, if b < 0 { -b } else { b as int });
        }
    }
    match op {
        BinaryOp::Add => Ok(a.wrapping_add(b)),
        BinaryOp::Sub => Ok(a.wrapping_sub(b)),
        BinaryOp::Mul => Ok(a.wrapping_mul(b)),
        BinaryOp::Div => match a.checked_div(b) {
            Some(q) => Ok(q),
            None => if b == 0 {
                Err(InterpErr::DivisionByZero)
            } else {
                Err(InterpErr::Overflow)
            },
        },
        BinaryOp::Rem => match a.checked_rem(b) {
            Some(q) => Ok(q),
            None => if b == 0 {
                Err(InterpErr::DivisionByZero)
            } else {
                Err(InterpErr::Overflow)
            },
        },
    }
}

/// Arithmetic on `isize`.
pub open spec fn arith_isize(op: BinaryOp, a: isize, b: isize) -> Result<isize, InterpErr> {
    match op {
        BinaryOp::Add => Ok(a.wrapping_add(b)),
        BinaryOp::Sub => Ok(a.wrapping_sub(b)),
        BinaryOp::Mul => Ok(a.wrapping_mul(b)),
        BinaryOp::Div => if b == 0 {
            Err(InterpErr::DivisionByZero)
        } else if a == isize::MIN && b == -1 {
            Err(InterpErr::Overflow)
        } else {
            Ok(truncating_div(a as int, b as int) as isize)
        },
        BinaryOp::Rem => if b == 0 {
            Err(InterpErr::DivisionByZero)
        } else if a == isize::MIN && b == -1 {
            Err(InterpErr::Overflow)
        } else {
            Ok(truncating_rem(a as int, b as int) as isize)
        },
    }
}

/// Computes arithmetic on `isize`.
fn do_arith_isize(op: BinaryOp, a: isize, b: isize) -> (r: Result<isize, InterpErr>)
    ensures
        r == arith_isize(op, a, b),
{
    proof {
        if b != 0 {
            lemma_truncating(if a < 0 { -a } else { a as int }, if b < 0 { -b } else { b as int });
        }
    }
    match op {
        BinaryOp::Add => Ok(a.wrapping_add(b)),
        BinaryOp::Sub => Ok(a.wrapping_sub(b)),
        BinaryOp::Mul => Ok(a.wrapping_mul(b)),
        BinaryOp::Div => match a.checked_div(b) {
            Some(q) => Ok(q),
            None => if b == 0 {
                Err(InterpErr::DivisionByZero)
            } else {
                Err(InterpErr::Overflow)
            },
        },
        BinaryOp::Rem => match a.checked_rem(b) {
            Some(q) => Ok(q),
            None => if b == 0 {
                Err(InterpErr::DivisionByZero)
            } else {
                Err(InterpErr::Overflow)
            },
        },
    }
}

/// Arithmetic on `u8`.
pub open spec fn arith_u8(op: BinaryOp, a: u8, b: u8) -> Result<u8, InterpErr> {
    match op {
        BinaryOp::Add => Ok(a.wrapping_add(b)),
        BinaryOp::Sub => Ok(a.wrapping_sub(b)),
        BinaryOp::Mul => Ok(a.wrapping_mul(b)),
        BinaryOp::Div => if b == 0 {
            Err(InterpErr::DivisionByZero)
        } else {
            Ok(a / b)
        },
        BinaryOp::Rem => if b == 0 {
            Err(InterpErr::DivisionByZero)
        } else {
            Ok(a % b)
        },
    }
}

/// Computes arithmetic on `u8`.
fn do_arith_u8(op: BinaryOp, a: u8, b: u8) -> (r: Result<u8, InterpErr>)
    ensures
        r == arith_u8(op, a, b),
{
    match op {
        BinaryOp::Add => Ok(a.wrapping_add(b)),
        BinaryOp::Sub => Ok(a.wrapping_sub(b)),
        BinaryOp::Mul => Ok(a.wrapping_mul(b)),
        BinaryOp::Div => if b == 0 {
            Err(InterpErr::DivisionByZero)
        } else {
            Ok(a / b)
        },
        BinaryOp::Rem => if b == 0 {
            Err(InterpErr::DivisionByZero)
        } else {
            Ok(a % b)
        },
    }
}

/// Arithmetic on `u16`.
pub open spec fn arith_u16(op: BinaryOp, a: u16, b: u16) -> Result<u16, InterpErr> {
    match op {
        BinaryOp::Add => Ok(a.wrapping_add(b)),
        BinaryOp::Sub => Ok(a.wrapping_sub(b)),
        BinaryOp::Mul => Ok(a.wrapping_mul(b)),
        BinaryOp::Div => if b == 0 {
            Err(InterpErr::DivisionByZero)
        } else {
            Ok(a / b)
        },
        BinaryOp::Rem => if b == 0 {
            Err(InterpErr::DivisionByZero)
        } else {
            Ok(a % b)
        },
    }
}

/// Computes arithmetic on `u16`.
fn do_arith_u16(op: BinaryOp, a: u16, b: u16) -> (r: Result<u16, InterpErr>)
    ensures
        r == arith_u16(op, a, b),
{
    match op {
        BinaryOp::Add => Ok(a.wrapping_add(b)),
        BinaryOp::Sub => Ok(a.wrapping_sub(b)),
        BinaryOp::Mul => Ok(a.wrapping_mul(b)),
        BinaryOp::Div => if b == 0 {
            Err(InterpErr::DivisionByZero)
        } else {
            Ok(a / b)
        },
        BinaryOp::Rem => if b == 0 {
            Err(InterpErr::DivisionByZero)
        } else {
            Ok(a % b)
        },
    }
}

/// Arithmetic on `u32`.
pub open spec fn arith_u32(op: BinaryOp, a: u32, b: u32) -> Result<u32, InterpErr> {
    match op {
        BinaryOp::Add => Ok(a.wrapping_add(b)),
        BinaryOp::Sub => Ok(a.wrapping_sub(b)),
        BinaryOp::Mul => Ok(a.wrapping_mul(b)),
        BinaryOp::Div => if b == 0 {
            Err(InterpErr::DivisionByZero)
        } else {
            Ok(a / b)
        },
        BinaryOp::Rem => if b == 0 {
            Err(InterpErr::DivisionByZero)
        } else {
            Ok(a % b)
        },
    }
}

/// Computes arithmetic on `u32`.
fn do_arith_u32(op: BinaryOp, a: u32, b: u32) -> (r: Result<u32, InterpErr>)
    ensures
        r == arith_u32(op, a, b),
{
    match op {
        BinaryOp::Add => Ok(a.wrapping_add(b)),
        BinaryOp::Sub => Ok(a.wrapping_sub(b)),
        BinaryOp::Mul => Ok(a.wrapping_mul(b)),
        BinaryOp::Div => if b == 0 {
            Err(InterpErr::DivisionByZero)
        } else {
            Ok(a / b)
        },
        BinaryOp::Rem => if b == 0 {
            Err(InterpErr::DivisionByZero)
        } else {
            Ok(a % b)
        },
    }
}

/// Arithmetic on `u64`.
pub open spec fn arith_u64(op: BinaryOp, a: u64, b: u64) -> Result<u64, InterpErr> {
    match op {
        BinaryOp::Add => Ok(a.wrapping_add(b)),
        BinaryOp::Sub => Ok(a.wrapping_sub(b)),
        BinaryOp::Mul => Ok(a.wrapping_mul(b)),
        BinaryOp::Div => if b == 0 {
            Err(InterpErr::DivisionByZero)
        } else {
            Ok(a / b)
        },
        BinaryOp::Rem => if b == 0 {
            Err(InterpErr::DivisionByZero)
        } else {
            Ok(a % b)
        },
    }
}

/// Computes arithmetic on `u64`.
fn do_arith_u64(op: BinaryOp, a: u64, b: u64) -> (r: Result<u64, InterpErr>)
    ensures
        r == arith_u64(op, a, b),
{
    match op {
        BinaryOp::Add => Ok(a.wrapping_add(b)),
        BinaryOp::Sub => Ok(a.wrapping_sub(b)),
        BinaryOp::Mul => Ok(a.wrapping_mul(b)),
        BinaryOp::Div => if b == 0 {
            Err(InterpErr::DivisionByZero)
        } else {
            Ok(a / b)
        },
        BinaryOp::Rem => if b == 0 {
            Err(InterpErr::DivisionByZero)
        } else {
            Ok(a % b)
        },
    }
}

/// Arithmetic on `usize`.
pub open spec fn arith_usize(op: BinaryOp, a: usize, b: usize) -> Result<usize, InterpErr> {
    match op {
        BinaryOp::Add => Ok(a.wrapping_add(b)),
        BinaryOp::Sub => Ok(a.wrapping_sub(b)),
        BinaryOp::Mul => Ok(a.wrapping_mul(b)),
        BinaryOp::Div => if b == 0 {
            Err(InterpErr::DivisionByZero)
        } else {
            Ok(a / b)
        },
        BinaryOp::Rem => if b == 0 {
            Err(InterpErr::DivisionByZero)
        } else {
            Ok(a % b)
        },
    }
}

/// Computes arithmetic on `usize`.
fn do_arith_usize(op: BinaryOp, a: usize, b: usize) -> (r: Result<usize, InterpErr>)
    ensures
        r == arith_usize(op, a, b),
{
    match op {
        BinaryOp::Add => Ok(a.wrapping_add(b)),
        BinaryOp::Sub => Ok(a.wrapping_sub(b)),
        BinaryOp::Mul => Ok(a.wrapping_mul(b)),
        BinaryOp::Div => if b == 0 {
            Err(InterpErr::DivisionByZero)
        } else {
            Ok(a / b)
        },
        BinaryOp::Rem => if b == 0 {
            Err(InterpErr::DivisionByZero)
        } else {
            Ok(a % b)
        },
    }
}

/// The result of an arithmetic instruction on two integers of one kind.
/// Operands of different kinds, and operands that are no integers, are an
/// [`InterpErr::InvalidOperand`].
pub open spec fn arith(op: BinaryOp, a: Datum, b: Datum) -> Result<Datum, InterpErr> {
    match (a, b) {
        (Datum::I8(x), Datum::I8(y)) => match arith_i8(op, x, y) {
            Ok(v) => Ok(Datum::I8(v)),
            Err(e) => Err(e),
        },
        (Datum::I16(x), Datum::I16(y)) => match arith_i16(op, x, y) {
            Ok(v) => Ok(Datum::I16(v)),
            Err(e) => Err(e),
        },
        (Datum::I32(x), Datum::I32(y)) => match arith_i32(op, x, y) {
            Ok(v) => Ok(Datum::I32(v)),
            Err(e) => Err(e),
        },
        (Datum::I64(x), Datum::I64(y)) => match arith_i64(op, x, y) {
            Ok(v) => Ok(Datum::I64(v)),
            Err(e) => Err(e),
        },
        (Datum::Int(x), Datum::Int(y)) => match arith_isize(op, x, y) {
            Ok(v) => Ok(Datum::Int(v)),
            Err(e) => Err(e),
        },
        (Datum::U8(x), Datum::U8(y)) => match arith_u8(op, x, y) {
            Ok(v) => Ok(Datum::U8(v)),
            Err(e) => Err(e),
        },
        (Datum::U16(x), Datum::U16(y)) => match arith_u16(op, x, y) {
            Ok(v) => Ok(Datum::U16(v)),
            Err(e) => Err(e),
        },
        (Datum::U32(x), Datum::U32(y)) => match arith_u32(op, x, y) {
            Ok(v) => Ok(Datum::U32(v)),
            Err(e) => Err(e),
        },
        (Datum::U64(x), Datum::U64(y)) => match arith_u64(op, x, y) {
            Ok(v) => Ok(Datum::U64(v)),
            Err(e) => Err(e),
        },
        (Datum::Uint(x), Datum::Uint(y)) => match arith_usize(op, x, y) {
            Ok(v) => Ok(Datum::Uint(v)),
            Err(e) => Err(e),
        },
        _ => Err(InterpErr::InvalidOperand),
    }
}

/// Computes an arithmetic instruction on two integers of one kind.
pub fn binary_op(op: BinaryOp, a: &Value, b: &Value) -> (r: Result<Value, InterpErr>)
    ensures
        outcome(r) == arith(op, a@, b@),
{
    match (a, b) {
        (Value::I8(x), Value::I8(y)) => match do_arith_i8(op, *x, *y) {
            Ok(v) => Ok(Value::I8(v)),
            Err(e) => Err(e),
        },
        (Value::I16(x), Value::I16(y)) => match do_arith_i16(op, *x, *y) {
            Ok(v) => Ok(Value::I16(v)),
            Err(e) => Err(e),
        },
        (Value::I32(x), Value::I32(y)) => match do_arith_i32(op, *x, *y) {
            Ok(v) => Ok(Value::I32(v)),
            Err(e) => Err(e),
        },
        (Value::I64(x), Value::I64(y)) => match do_arith_i64(op, *x, *y) {
            Ok(v) => Ok(Value::I64(v)),
            Err(e) => Err(e),
        },
        (Value::Int(x), Value::Int(y)) => match do_arith_isize(op, *x, *y) {
            Ok(v) => Ok(Value::Int(v)),
            Err(e) => Err(e),
        },
        (Value::U8(x), Value::U8(y)) => match do_arith_u8(op, *x, *y) {
            Ok(v) => Ok(Value::U8(v)),
            Err(e) => Err(e),
        },
        (Value::U16(x), Value::U16(y)) => match do_arith_u16(op, *x, *y) {
            Ok(v) => Ok(Value::U16(v)),
            Err(e) => Err(e),
        },
        (Value::U32(x), Value::U32(y)) => match do_arith_u32(op, *x, *y) {
            Ok(v) => Ok(Value::U32(v)),
            Err(e) => Err(e),
        },
        (Value::U64(x), Value::U64(y)) => match do_arith_u64(op, *x, *y) {
            Ok(v) => Ok(Value::U64(v)),
            Err(e) => Err(e),
        },
        (Value::Uint(x), Value::Uint(y)) => match do_arith_usize(op, *x, *y) {
            Ok(v) => Ok(Value::Uint(v)),
            Err(e) => Err(e),
        },
        _ => Err(InterpErr::InvalidOperand),
    }
}

/// Whether a relation holds between two numbers.
pub open spec fn holds(op: CompareOp, a: int, b: int) -> bool {
    match op {
        CompareOp::Eq => a == b,
        CompareOp::Neq => a != b,
        CompareOp::Lt => a < b,
        CompareOp::LtEq => a <= b,
        CompareOp::Gt => a > b,
        CompareOp::GtEq => a >= b,
    }
}

/// Tells whether a relation holds between two numbers.
fn check_relation(op: CompareOp, a: i128, b: i128) -> (r: bool)
    ensures
        r == holds(op, a as int, b as int),
{
    match op {
        CompareOp::Eq => a == b,
        CompareOp::Neq => a != b,
        CompareOp::Lt => a < b,
        CompareOp::LtEq => a <= b,
        CompareOp::Gt => a > b,
        CompareOp::GtEq => a >= b,
    }
}

/// The number an integer or a boolean stands for; `false` is below `true`.
pub open spec fn ordinal(d: Datum) -> Option<int> {
    match d {
        Datum::Bool(v) => Some(if v { 1int } else { 0int }),
        Datum::I8(v) => Some(v as int),
        Datum::I16(v) => Some(v as int),
        Datum::I32(v) => Some(v as int),
        Datum::I64(v) => Some(v as int),
        Datum::Int(v) => Some(v as int),
        Datum::U8(v) => Some(v as int),
        Datum::U16(v) => Some(v as int),
        Datum::U32(v) => Some(v as int),
        Datum::U64(v) => Some(v as int),
        Datum::Uint(v) => Some(v as int),
        _ => None,
    }
}

/// Whether two values carry the same tag.
pub open spec fn same_tag(a: Datum, b: Datum) -> bool {
    match (a, b) {
        (Datum::Unit, Datum::Unit) => true,
        (Datum::Bool(_), Datum::Bool(_)) => true,
        (Datum::I8(_), Datum::I8(_)) => true,
        (Datum::I16(_), Datum::I16(_)) => true,
        (Datum::I32(_), Datum::I32(_)) => true,
        (Datum::I64(_), Datum::I64(_)) => true,
        (Datum::Int(_), Datum::Int(_)) => true,
        (Datum::U8(_), Datum::U8(_)) => true,
        (Datum::U16(_), Datum::U16(_)) => true,
        (Datum::U32(_), Datum::U32(_)) => true,
        (Datum::U64(_), Datum::U64(_)) => true,
        (Datum::Uint(_), Datum::Uint(_)) => true,
        (Datum::F32(_), Datum::F32(_)) => true,
        (Datum::F64(_), Datum::F64(_)) => true,
        (Datum::Type(_), Datum::Type(_)) => true,
        (Datum::Pointer(_), Datum::Pointer(_)) => true,
        (Datum::Array(_), Datum::Array(_)) => true,
        (Datum::Aggregate(_), Datum::Aggregate(_)) => true,
        (Datum::Function(_), Datum::Function(_)) => true,
        (Datum::ForeignFunction(_), Datum::ForeignFunction(_)) => true,
        _ => false,
    }
}

/// The result of a comparison instruction on two booleans or two integers
/// of one kind.
pub open spec fn compare(op: CompareOp, a: Datum, b: Datum) -> Result<Datum, InterpErr> {
    if same_tag(a, b) && ordinal(a) is Some {
        Ok(Datum::Bool(holds(op, ordinal(a)->0, ordinal(b)->0)))
    } else {
        Err(InterpErr::InvalidOperand)
    }
}

/// Finds the number an integer or a boolean stands for.
fn ordinal_value(v: &Value) -> (r: Option<i128>)
    ensures
        match r {
            Some(n) => ordinal(v@) == Some(n as int),
            None => ordinal(v@) is None,
        },
{
    match v {
        Value::Bool(v) => Some(if *v { 1 } else { 0 }),
        Value::I8(v) => Some(*v as i128),
        Value::I16(v) => Some(*v as i128),
        Value::I32(v) => Some(*v as i128),
        Value::I64(v) => Some(*v as i128),
        Value::Int(v) => Some(*v as i128),
        Value::U8(v) => Some(*v as i128),
        Value::U16(v) => Some(*v as i128),
        Value::U32(v) => Some(*v as i128),
        Value::U64(v) => Some(*v as i128),
        Value::Uint(v) => Some(*v as i128),
        _ => None,
    }
}

/// Tells whether two values carry the same tag.
pub fn tags_match(a: &Value, b: &Value) -> (r: bool)
    ensures
        r == same_tag(a@, b@),
{
    match (a, b) {
        (Value::Unit, Value::Unit) => true,
        (Value::Bool(_), Value::Bool(_)) => true,
        (Value::I8(_), Value::I8(_)) => true,
        (Value::I16(_), Value::I16(_)) => true,
        (Value::I32(_), Value::I32(_)) => true,
        (Value::I64(_), Value::I64(_)) => true,
        (Value::Int(_), Value::Int(_)) => true,
        (Value::U8(_), Value::U8(_)) => true,
        (Value::U16(_), Value::U16(_)) => true,
        (Value::U32(_), Value::U32(_)) => true,
        (Value::U64(_), Value::U64(_)) => true,
        (Value::Uint(_), Value::Uint(_)) => true,
        (Value::F32(_), Value::F32(_)) => true,
        (Value::F64(_), Value::F64(_)) => true,
        (Value::Type(_), Value::Type(_)) => true,
        (Value::Pointer(_), Value::Pointer(_)) => true,
        (Value::Array(_), Value::Array(_)) => true,
        (Value::Aggregate(_), Value::Aggregate(_)) => true,
        (Value::Function(_), Value::Function(_)) => true,
        (Value::ForeignFunction(_), Value::ForeignFunction(_)) => true,
        _ => false,
    }
}

/// Computes a comparison instruction on two booleans or two integers of one
/// kind.
pub fn compare_op(op: CompareOp, a: &Value, b: &Value) -> (r: Result<Value, InterpErr>)
    ensures
        outcome(r) == compare(op, a@, b@),
{
    if !tags_match(a, b) {
        return Err(InterpErr::InvalidOperand);
    }
    match (ordinal_value(a), ordinal_value(b)) {
        (Some(x), Some(y)) => Ok(Value::Bool(check_relation(op, x, y))),
        _ => Err(InterpErr::InvalidOperand),
    }
}

/// The result of a logical instruction: both operands pass through the
/// truthiness projection first.
pub open spec fn logic(op: LogicOp, a: Datum, b: Datum) -> Datum {
    match op {
        LogicOp::And => Datum::Bool(truthy(a) && truthy(b)),
        LogicOp::Or => Datum::Bool(truthy(a) || truthy(b)),
    }
}

/// Computes a logical instruction.
pub fn logic_op(op: LogicOp, a: &Value, b: &Value) -> (r: Value)
    ensures
        r@ == logic(op, a@, b@),
{
    match op {
        LogicOp::And => Value::Bool(a.is_truthy() && b.is_truthy()),
        LogicOp::Or => Value::Bool(a.is_truthy() || b.is_truthy()),
    }
}

/// The negation of a signed integer, wrapping at its width.
pub open spec fn negate(a: Datum) -> Result<Datum, InterpErr> {
    match a {
        Datum::I8(v) => Ok(Datum::I8(0i8.wrapping_sub(v))),
        Datum::I16(v) => Ok(Datum::I16(0i16.wrapping_sub(v))),
        Datum::I32(v) => Ok(Datum::I32(0i32.wrapping_sub(v))),
        Datum::I64(v) => Ok(Datum::I64(0i64.wrapping_sub(v))),
        Datum::Int(v) => Ok(Datum::Int(0isize.wrapping_sub(v))),
        _ => Err(InterpErr::InvalidOperand),
    }
}

/// Negates a signed integer.
pub fn negate_op(a: &Value) -> (r: Result<Value, InterpErr>)
    ensures
        outcome(r) == negate(a@),
{
    match a {
        Value::I8(v) => Ok(Value::I8(0i8.wrapping_sub(*v))),
        Value::I16(v) => Ok(Value::I16(0i16.wrapping_sub(*v))),
        Value::I32(v) => Ok(Value::I32(0i32.wrapping_sub(*v))),
        Value::I64(v) => Ok(Value::I64(0i64.wrapping_sub(*v))),
        Value::Int(v) => Ok(Value::Int(0isize.wrapping_sub(*v))),
        _ => Err(InterpErr::InvalidOperand),
    }
}

/// The complement: bit by bit for an integer, logical for a boolean.
pub open spec fn complement(a: Datum) -> Result<Datum, InterpErr> {
    match a {
        Datum::Bool(v) => Ok(Datum::Bool(!v)),
        Datum::I8(v) => Ok(Datum::I8(!v)),
        Datum::I16(v) => Ok(Datum::I16(!v)),
        Datum::I32(v) => Ok(Datum::I32(!v)),
        Datum::I64(v) => Ok(Datum::I64(!v)),
        Datum::Int(v) => Ok(Datum::Int(!v)),
        Datum::U8(v) => Ok(Datum::U8(!v)),
        Datum::U16(v) => Ok(Datum::U16(!v)),
        Datum::U32(v) => Ok(Datum::U32(!v)),
        Datum::U64(v) => Ok(Datum::U64(!v)),
        Datum::Uint(v) => Ok(Datum::Uint(!v)),
        _ => Err(InterpErr::InvalidOperand),
    }
}

/// Complements an integer or a boolean.
pub fn complement_op(a: &Value) -> (r: Result<Value, InterpErr>)
    ensures
        outcome(r) == complement(a@),
{
    match a {
        Value::Bool(v) => Ok(Value::Bool(!*v)),
        Value::I8(v) => {
            let v: i8 = *v;
            assert(!v == -1 - v) by (bit_vector);
            Ok(Value::I8(!v))
        },
        Value::I16(v) => {
            let v: i16 = *v;
            assert(!v == -1 - v) by (bit_vector);
            Ok(Value::I16(!v))
        },
        Value::I32(v) => {
            let v: i32 = *v;
            assert(!v == -1 - v) by (bit_vector);
            Ok(Value::I32(!v))
        },
        Value::I64(v) => {
            let v: i64 = *v;
            assert(!v == -1 - v) by (bit_vector);
            Ok(Value::I64(!v))
        },
        Value::Int(v) => {
            let v: isize = *v;
            assert(!v == -1 - v) by (bit_vector);
            Ok(Value::Int(!v))
        },
        Value::U8(v) => Ok(Value::U8(!*v)),
        Value::U16(v) => Ok(Value::U16(!*v)),
        Value::U32(v) => Ok(Value::U32(!*v)),
        Value::U64(v) => Ok(Value::U64(!*v)),
        Value::Uint(v) => Ok(Value::Uint(!*v)),
        _ => Err(InterpErr::InvalidOperand),
    }
}

/// Whether a value is a floating-point number.
pub open spec fn is_float(a: Datum) -> bool {
    a is F32 || a is F64
}

/// Whether two values are floating-point numbers of one width.
pub open spec fn float_pair(a: Datum, b: Datum) -> bool {
    (a is F32 && b is F32) || (a is F64 && b is F64)
}

/// Tells whether a value is a floating-point number.
pub fn is_float_value(a: &Value) -> (r: bool)
    ensures
        r == is_float(a@),
{
    match a {
        Value::F32(_) => true,
        Value::F64(_) => true,
        _ => false,
    }
}

/// Tells whether two values are floating-point numbers of one width.
pub fn is_float_pair(a: &Value, b: &Value) -> (r: bool)
    ensures
        r == float_pair(a@, b@),
{
    match (a, b) {
        (Value::F32(_), Value::F32(_)) => true,
        (Value::F64(_), Value::F64(_)) => true,
        _ => false,
    }
}

} // verus!
