use chili_interp::arith::{
    binary_op, compare_op, complement_op, is_float_pair, is_float_value, logic_op, negate_op,
    tags_match, BinaryOp, CompareOp, LogicOp,
};
use chili_interp::cast::{cast_op, needs_host};
use chili_interp::error::InterpErr;
use chili_interp::instruction::{CastInstruction, PointerKind, Scalar};
use chili_interp::value::{Pointer, Space, Value};

#[test]
fn i32_five_minus_three_is_two() {
    assert!(matches!(binary_op(BinaryOp::Sub, &Value::I32(5), &Value::I32(3)), Ok(Value::I32(2))));
}

#[test]
fn result_keeps_the_tag_of_the_operands() {
    assert!(matches!(binary_op(BinaryOp::Add, &Value::I8(5), &Value::I8(3)), Ok(Value::I8(8))));
    assert!(matches!(binary_op(BinaryOp::Add, &Value::I16(5), &Value::I16(3)), Ok(Value::I16(8))));
    assert!(matches!(binary_op(BinaryOp::Add, &Value::I64(5), &Value::I64(3)), Ok(Value::I64(8))));
    assert!(matches!(binary_op(BinaryOp::Add, &Value::Int(5), &Value::Int(3)), Ok(Value::Int(8))));
    assert!(matches!(binary_op(BinaryOp::Mul, &Value::U8(5), &Value::U8(3)), Ok(Value::U8(15))));
    assert!(matches!(binary_op(BinaryOp::Mul, &Value::U16(5), &Value::U16(3)), Ok(Value::U16(15))));
    assert!(matches!(binary_op(BinaryOp::Mul, &Value::U32(5), &Value::U32(3)), Ok(Value::U32(15))));
    assert!(matches!(binary_op(BinaryOp::Sub, &Value::U64(5), &Value::U64(3)), Ok(Value::U64(2))));
    assert!(matches!(binary_op(BinaryOp::Sub, &Value::Uint(5), &Value::Uint(3)), Ok(Value::Uint(2))));
}

#[test]
fn arithmetic_wraps_at_the_width_of_the_operands() {
    assert!(matches!(binary_op(BinaryOp::Add, &Value::I8(127), &Value::I8(1)), Ok(Value::I8(-128))));
    assert!(matches!(binary_op(BinaryOp::Sub, &Value::U8(0), &Value::U8(1)), Ok(Value::U8(255))));
    assert!(matches!(binary_op(BinaryOp::Mul, &Value::U8(16), &Value::U8(17)), Ok(Value::U8(16))));
    assert!(matches!(
        binary_op(BinaryOp::Mul, &Value::I32(i32::MAX), &Value::I32(2)),
        Ok(Value::I32(-2))
    ));
    assert!(matches!(
        binary_op(BinaryOp::Add, &Value::U64(u64::MAX), &Value::U64(2)),
        Ok(Value::U64(1))
    ));
    assert!(matches!(
        binary_op(BinaryOp::Sub, &Value::Int(isize::MIN), &Value::Int(1)),
        Ok(Value::Int(isize::MAX))
    ));
    assert!(matches!(
        binary_op(BinaryOp::Add, &Value::Uint(usize::MAX), &Value::Uint(1)),
        Ok(Value::Uint(0))
    ));
}

#[test]
fn division_truncates_toward_zero() {
    assert!(matches!(binary_op(BinaryOp::Div, &Value::Int(7), &Value::Int(2)), Ok(Value::Int(3))));
    assert!(matches!(binary_op(BinaryOp::Div, &Value::Int(-7), &Value::Int(2)), Ok(Value::Int(-3))));
    assert!(matches!(binary_op(BinaryOp::Div, &Value::Int(7), &Value::Int(-2)), Ok(Value::Int(-3))));
    assert!(matches!(binary_op(BinaryOp::Div, &Value::Int(-7), &Value::Int(-2)), Ok(Value::Int(3))));
    assert!(matches!(binary_op(BinaryOp::Div, &Value::I8(-128), &Value::I8(1)), Ok(Value::I8(-128))));
    assert!(matches!(binary_op(BinaryOp::Div, &Value::U8(200), &Value::U8(7)), Ok(Value::U8(28))));
    assert!(matches!(binary_op(BinaryOp::Div, &Value::I16(0), &Value::I16(-5)), Ok(Value::I16(0))));
}

#[test]
fn remainder_has_the_sign_of_the_dividend() {
    assert!(matches!(binary_op(BinaryOp::Rem, &Value::Int(7), &Value::Int(2)), Ok(Value::Int(1))));
    assert!(matches!(binary_op(BinaryOp::Rem, &Value::Int(-7), &Value::Int(2)), Ok(Value::Int(-1))));
    assert!(matches!(binary_op(BinaryOp::Rem, &Value::Int(7), &Value::Int(-2)), Ok(Value::Int(1))));
    assert!(matches!(binary_op(BinaryOp::Rem, &Value::Int(-7), &Value::Int(-2)), Ok(Value::Int(-1))));
    assert!(matches!(binary_op(BinaryOp::Rem, &Value::U32(10), &Value::U32(4)), Ok(Value::U32(2))));
}

#[test]
fn division_by_zero_and_overflow_are_told_apart() {
    assert!(matches!(
        binary_op(BinaryOp::Div, &Value::I32(1), &Value::I32(0)),
        Err(InterpErr::DivisionByZero)
    ));
    assert!(matches!(
        binary_op(BinaryOp::Rem, &Value::I32(i32::MIN), &Value::I32(0)),
        Err(InterpErr::DivisionByZero)
    ));
    assert!(matches!(
        binary_op(BinaryOp::Div, &Value::I32(i32::MIN), &Value::I32(-1)),
        Err(InterpErr::Overflow)
    ));
    assert!(matches!(
        binary_op(BinaryOp::Rem, &Value::Int(isize::MIN), &Value::Int(-1)),
        Err(InterpErr::Overflow)
    ));
    assert!(matches!(
        binary_op(BinaryOp::Div, &Value::Uint(1), &Value::Uint(0)),
        Err(InterpErr::DivisionByZero)
    ));
}

#[test]
fn arithmetic_on_other_values_is_an_invalid_operand() {
    assert!(matches!(
        binary_op(BinaryOp::Add, &Value::Bool(true), &Value::Bool(true)),
        Err(InterpErr::InvalidOperand)
    ));
    assert!(matches!(
        binary_op(BinaryOp::Add, &Value::Int(1), &Value::Uint(1)),
        Err(InterpErr::InvalidOperand)
    ));
    assert!(matches!(
        binary_op(BinaryOp::Add, &Value::Unit, &Value::Unit),
        Err(InterpErr::InvalidOperand)
    ));
}

#[test]
fn comparisons_of_integers() {
    let a = Value::I16(-3);
    let b = Value::I16(4);
    assert!(matches!(compare_op(CompareOp::Lt, &a, &b), Ok(Value::Bool(true))));
    assert!(matches!(compare_op(CompareOp::LtEq, &a, &b), Ok(Value::Bool(true))));
    assert!(matches!(compare_op(CompareOp::Gt, &a, &b), Ok(Value::Bool(false))));
    assert!(matches!(compare_op(CompareOp::GtEq, &a, &b), Ok(Value::Bool(false))));
    assert!(matches!(compare_op(CompareOp::Eq, &a, &b), Ok(Value::Bool(false))));
    assert!(matches!(compare_op(CompareOp::Neq, &a, &b), Ok(Value::Bool(true))));
    assert!(matches!(compare_op(CompareOp::Eq, &b, &b), Ok(Value::Bool(true))));
    assert!(matches!(compare_op(CompareOp::LtEq, &b, &b), Ok(Value::Bool(true))));
    assert!(matches!(compare_op(CompareOp::GtEq, &b, &b), Ok(Value::Bool(true))));
    assert!(matches!(
        compare_op(CompareOp::Lt, &Value::U64(u64::MAX - 1), &Value::U64(u64::MAX)),
        Ok(Value::Bool(true))
    ));
    assert!(matches!(
        compare_op(CompareOp::Gt, &Value::Uint(usize::MAX), &Value::Uint(0)),
        Ok(Value::Bool(true))
    ));
    assert!(matches!(
        compare_op(CompareOp::Lt, &Value::I64(i64::MIN), &Value::I64(i64::MAX)),
        Ok(Value::Bool(true))
    ));
}

#[test]
fn comparisons_of_booleans_order_false_below_true() {
    let t = Value::Bool(true);
    let f = Value::Bool(false);
    assert!(matches!(compare_op(CompareOp::Lt, &f, &t), Ok(Value::Bool(true))));
    assert!(matches!(compare_op(CompareOp::Gt, &f, &t), Ok(Value::Bool(false))));
    assert!(matches!(compare_op(CompareOp::Eq, &t, &t), Ok(Value::Bool(true))));
    assert!(matches!(compare_op(CompareOp::Neq, &t, &f), Ok(Value::Bool(true))));
}

#[test]
fn comparison_of_different_tags_is_an_invalid_operand() {
    assert!(matches!(
        compare_op(CompareOp::Eq, &Value::I32(1), &Value::I64(1)),
        Err(InterpErr::InvalidOperand)
    ));
    assert!(matches!(
        compare_op(CompareOp::Eq, &Value::Unit, &Value::Unit),
        Err(InterpErr::InvalidOperand)
    ));
}

#[test]
fn logic_goes_through_truthiness() {
    let t = Value::Bool(true);
    let f = Value::Bool(false);
    assert!(matches!(logic_op(LogicOp::And, &t, &t), Value::Bool(true)));
    assert!(matches!(logic_op(LogicOp::And, &t, &f), Value::Bool(false)));
    assert!(matches!(logic_op(LogicOp::Or, &f, &t), Value::Bool(true)));
    assert!(matches!(logic_op(LogicOp::Or, &f, &f), Value::Bool(false)));
    // Everything but `Bool(true)` is falsy.
    assert!(matches!(logic_op(LogicOp::Or, &Value::Int(1), &Value::Unit), Value::Bool(false)));
    assert!(matches!(logic_op(LogicOp::And, &Value::Int(1), &t), Value::Bool(false)));
}

#[test]
fn truthiness_is_bool_true_and_nothing_else() {
    assert!(Value::Bool(true).is_truthy());
    assert!(!Value::Bool(false).is_truthy());
    assert!(!Value::Int(1).is_truthy());
    assert!(!Value::Unit.is_truthy());
    assert!(!Value::Aggregate(vec![Value::Bool(true)]).is_truthy());
    assert!(matches!(Value::unit(), Value::Unit));
}

#[test]
fn negation_of_signed_integers() {
    assert!(matches!(negate_op(&Value::Int(5)), Ok(Value::Int(-5))));
    assert!(matches!(negate_op(&Value::I8(-128)), Ok(Value::I8(-128))));
    assert!(matches!(negate_op(&Value::I16(7)), Ok(Value::I16(-7))));
    assert!(matches!(negate_op(&Value::I32(0)), Ok(Value::I32(0))));
    assert!(matches!(negate_op(&Value::I64(-9)), Ok(Value::I64(9))));
    assert!(matches!(negate_op(&Value::U8(1)), Err(InterpErr::InvalidOperand)));
    assert!(matches!(negate_op(&Value::Bool(true)), Err(InterpErr::InvalidOperand)));
}

#[test]
fn complement_of_integers_and_booleans() {
    assert!(matches!(complement_op(&Value::Bool(true)), Ok(Value::Bool(false))));
    assert!(matches!(complement_op(&Value::U8(0b1010_0101)), Ok(Value::U8(0b0101_1010))));
    assert!(matches!(complement_op(&Value::I8(0)), Ok(Value::I8(-1))));
    assert!(matches!(complement_op(&Value::I32(5)), Ok(Value::I32(-6))));
    assert!(matches!(complement_op(&Value::U64(0)), Ok(Value::U64(u64::MAX))));
    assert!(matches!(complement_op(&Value::Uint(usize::MAX)), Ok(Value::Uint(0))));
    assert!(matches!(complement_op(&Value::Int(-1)), Ok(Value::Int(0))));
    assert!(matches!(complement_op(&Value::Unit), Err(InterpErr::InvalidOperand)));
}

#[test]
fn floats_are_recognised_by_tag() {
    let a = Value::F32(1.5f32.to_bits());
    let b = Value::F64(1.5f64.to_bits());
    assert!(is_float_value(&a));
    assert!(is_float_value(&b));
    assert!(!is_float_value(&Value::Int(1)));
    assert!(is_float_pair(&a, &a));
    assert!(is_float_pair(&b, &b));
    assert!(!is_float_pair(&a, &b));
    assert!(!is_float_pair(&a, &Value::U32(1)));
}

#[test]
fn narrowing_casts_keep_the_low_bits() {
    assert!(matches!(cast_op(&Value::I32(300), CastInstruction::U8), Ok(Value::U8(44))));
    assert!(matches!(cast_op(&Value::I32(-1), CastInstruction::U8), Ok(Value::U8(255))));
    assert!(matches!(cast_op(&Value::U16(0xff80), CastInstruction::I8), Ok(Value::I8(-128))));
    assert!(matches!(
        cast_op(&Value::U64(0x1_0000_0001), CastInstruction::U32),
        Ok(Value::U32(1))
    ));
    assert!(matches!(cast_op(&Value::I64(-2), CastInstruction::I16), Ok(Value::I16(-2))));
}

#[test]
fn widening_casts_extend_by_the_sign_of_the_source() {
    assert!(matches!(cast_op(&Value::I8(-1), CastInstruction::I64), Ok(Value::I64(-1))));
    assert!(matches!(cast_op(&Value::I8(-1), CastInstruction::U32), Ok(Value::U32(u32::MAX))));
    assert!(matches!(cast_op(&Value::U8(255), CastInstruction::I32), Ok(Value::I32(255))));
    assert!(matches!(cast_op(&Value::U32(7), CastInstruction::Uint), Ok(Value::Uint(7))));
    assert!(matches!(cast_op(&Value::Int(-5), CastInstruction::I64), Ok(Value::I64(-5))));
    assert!(matches!(cast_op(&Value::Int(-1), CastInstruction::Uint), Ok(Value::Uint(usize::MAX))));
    assert!(matches!(cast_op(&Value::U64(u64::MAX), CastInstruction::I64), Ok(Value::I64(-1))));
    assert!(matches!(cast_op(&Value::U16(9), CastInstruction::U16), Ok(Value::U16(9))));
    assert!(matches!(cast_op(&Value::I16(9), CastInstruction::Int), Ok(Value::Int(9))));
}

#[test]
fn pointer_casts_change_the_kind_only() {
    let p = Value::Pointer(Pointer {
        kind: PointerKind::Typed(Scalar::U8),
        space: Space::Global,
        path: vec![1, 2],
    });
    match cast_op(&p, CastInstruction::Ptr(PointerKind::Typed(Scalar::I32))) {
        Ok(Value::Pointer(q)) => {
            assert_eq!(q.kind, PointerKind::Typed(Scalar::I32));
            assert_eq!(q.space, Space::Global);
            assert_eq!(q.path, vec![1, 2]);
        }
        other => panic!("unexpected {:?}", other),
    }
    assert!(matches!(cast_op(&p, CastInstruction::I32), Err(InterpErr::InvalidCast)));
}

#[test]
fn casts_that_involve_floats_are_the_hosts() {
    assert!(needs_host(&Value::F32(0), CastInstruction::I32));
    assert!(needs_host(&Value::F64(0), CastInstruction::F32));
    assert!(needs_host(&Value::Int(1), CastInstruction::F64));
    assert!(needs_host(&Value::U8(1), CastInstruction::F32));
    assert!(!needs_host(&Value::Int(1), CastInstruction::I8));
    assert!(!needs_host(&Value::Bool(true), CastInstruction::F64));
    assert!(!needs_host(&Value::F64(0), CastInstruction::Ptr(PointerKind::Raw)));
    assert!(matches!(
        cast_op(&Value::F64(0), CastInstruction::Ptr(PointerKind::Raw)),
        Err(InterpErr::InvalidCast)
    ));
}

#[test]
fn tags_match_by_variant_only() {
    assert!(tags_match(&Value::Int(1), &Value::Int(2)));
    assert!(tags_match(&Value::Unit, &Value::Unit));
    assert!(tags_match(&Value::F32(1), &Value::F32(9)));
    assert!(tags_match(&Value::Aggregate(vec![]), &Value::Aggregate(vec![Value::Unit])));
    assert!(!tags_match(&Value::Int(1), &Value::Uint(1)));
    assert!(!tags_match(&Value::I8(1), &Value::U8(1)));
    assert!(!tags_match(&Value::F32(1), &Value::F64(1)));
    assert!(!tags_match(&Value::Bool(true), &Value::Unit));
}
