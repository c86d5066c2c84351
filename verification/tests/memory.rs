use chili_interp::byte_seq::{
    decode_value, encode_value, pointer_kind, same_scalar, scalar_kind, width_of,
};
use chili_interp::instruction::{copy_of, PointerKind, Scalar};
use chili_interp::memory::{can_store, load_from, store_into};
use chili_interp::pointer::{increment_op, same_kind, shift, slice_of};
use chili_interp::stack::Stack;
use chili_interp::value::{clone_values, Array, Pointer, Space, Value};

#[test]
fn stack_push_pop_peek() {
    let mut s: Stack<u32, 4> = Stack::new();
    assert!(s.is_empty());
    assert_eq!(s.room(), 4);
    s.push(1);
    s.push(2);
    s.push(3);
    assert_eq!(s.len(), 3);
    assert_eq!(s.room(), 1);
    assert_eq!(*s.peek(0), 3);
    assert_eq!(*s.peek(2), 1);
    assert_eq!(*s.last(), 3);
    assert_eq!(*s.get(1), 2);
    assert_eq!(s.pop(), 3);
    assert_eq!(s.len(), 2);
    assert!(!s.is_empty());
}

#[test]
fn stack_set_truncate_take() {
    let mut s: Stack<u32, 8> = Stack::new();
    for i in 0..6 {
        s.push(i);
    }
    s.set(2, 20);
    assert_eq!(*s.get(2), 20);
    assert_eq!(s.take(1), 4);
    assert_eq!(s.len(), 5);
    assert_eq!(*s.last(), 5);
    assert_eq!(*s.get(3), 3);
    s.truncate(2);
    assert_eq!(s.len(), 2);
    assert_eq!(*s.last(), 1);
    s.truncate(2);
    assert_eq!(s.len(), 2);
}

#[test]
fn stack_split_off_and_replace() {
    let mut s: Stack<u32, 8> = Stack::new();
    for i in 0..5 {
        s.push(i);
    }
    assert_eq!(s.replace(1, 11), 1);
    assert_eq!(*s.get(1), 11);
    assert_eq!(s.len(), 5);
    let upper = s.split_off(3);
    assert_eq!(upper, vec![3, 4]);
    assert_eq!(s.len(), 3);
    assert_eq!(*s.last(), 2);
}

#[test]
fn widths_of_the_scalar_kinds() {
    assert_eq!(width_of(Scalar::Bool), 1);
    assert_eq!(width_of(Scalar::I8), 1);
    assert_eq!(width_of(Scalar::U8), 1);
    assert_eq!(width_of(Scalar::I16), 2);
    assert_eq!(width_of(Scalar::U16), 2);
    assert_eq!(width_of(Scalar::I32), 4);
    assert_eq!(width_of(Scalar::U32), 4);
    assert_eq!(width_of(Scalar::F32), 4);
    assert_eq!(width_of(Scalar::I64), 8);
    assert_eq!(width_of(Scalar::U64), 8);
    assert_eq!(width_of(Scalar::F64), 8);
    assert_eq!(width_of(Scalar::Int), 8);
    assert_eq!(width_of(Scalar::Uint), 8);
}

#[test]
fn scalars_are_laid_out_least_significant_byte_first() {
    assert_eq!(encode_value(&Value::U16(0x1234)), Some(vec![0x34, 0x12]));
    assert_eq!(encode_value(&Value::I16(-2)), Some(vec![0xfe, 0xff]));
    assert_eq!(encode_value(&Value::U32(0x0102_0304)), Some(vec![4, 3, 2, 1]));
    assert_eq!(encode_value(&Value::I32(-1)), Some(vec![0xff; 4]));
    assert_eq!(encode_value(&Value::U64(1)), Some(vec![1, 0, 0, 0, 0, 0, 0, 0]));
    assert_eq!(encode_value(&Value::I64(-1)), Some(vec![0xff; 8]));
    assert_eq!(encode_value(&Value::Int(-2)), Some(vec![0xfe, 0xff, 0xff, 0xff, 0xff, 0xff, 0xff, 0xff]));
    assert_eq!(encode_value(&Value::Uint(258)), Some(vec![2, 1, 0, 0, 0, 0, 0, 0]));
    assert_eq!(encode_value(&Value::Bool(true)), Some(vec![1]));
    assert_eq!(encode_value(&Value::Bool(false)), Some(vec![0]));
    assert_eq!(encode_value(&Value::I8(-1)), Some(vec![0xff]));
    assert_eq!(encode_value(&Value::U8(7)), Some(vec![7]));
    assert_eq!(encode_value(&Value::F32(1.0f32.to_bits())), Some(1.0f32.to_le_bytes().to_vec()));
    assert_eq!(encode_value(&Value::F64((-2.5f64).to_bits())), Some((-2.5f64).to_le_bytes().to_vec()));
    assert_eq!(encode_value(&Value::Unit), None);
    assert_eq!(encode_value(&Value::Aggregate(vec![])), None);
}

#[test]
fn decoding_gives_back_what_was_encoded() {
    let samples = vec![
        Value::Bool(true),
        Value::I8(-7),
        Value::I16(-300),
        Value::I32(i32::MIN),
        Value::I64(i64::MIN + 1),
        Value::Int(-123456),
        Value::U8(200),
        Value::U16(65535),
        Value::U32(0xdead_beef),
        Value::U64(u64::MAX),
        Value::Uint(987654321),
        Value::F32(3.25f32.to_bits()),
        Value::F64(f64::NEG_INFINITY.to_bits()),
    ];
    for v in samples {
        let kind = scalar_kind(&v).unwrap();
        let bytes = encode_value(&v).unwrap();
        assert_eq!(bytes.len(), width_of(kind));
        let back = decode_value(kind, &bytes);
        assert_eq!(format!("{:?}", back), format!("{:?}", v));
    }
}

#[test]
fn kinds_of_values() {
    assert_eq!(scalar_kind(&Value::I8(1)), Some(Scalar::I8));
    assert_eq!(scalar_kind(&Value::F64(0)), Some(Scalar::F64));
    assert_eq!(scalar_kind(&Value::Unit), None);
    assert_eq!(scalar_kind(&Value::Type(Scalar::U8)), None);
    assert_eq!(pointer_kind(&Value::Uint(1)), PointerKind::Typed(Scalar::Uint));
    assert_eq!(pointer_kind(&Value::Aggregate(vec![])), PointerKind::Raw);
    assert!(same_scalar(Scalar::I8, Scalar::I8));
    assert!(!same_scalar(Scalar::I8, Scalar::U8));
    assert!(same_kind(PointerKind::Raw, PointerKind::Raw));
    assert!(!same_kind(PointerKind::Raw, PointerKind::Typed(Scalar::Bool)));
    assert!(!same_kind(PointerKind::Typed(Scalar::I8), PointerKind::Typed(Scalar::Bool)));
}

#[test]
fn array_elements_are_read_and_written_in_place() {
    let mut a = Array::zeroed(Scalar::I32, 3).unwrap();
    assert_eq!(a.bytes, vec![0u8; 12]);
    assert!(matches!(a.get(0), Some(Value::I32(0))));
    assert!(a.set(1, &Value::I32(-2)));
    assert!(a.set(2, &Value::I32(0x0102_0304)));
    assert_eq!(a.bytes, vec![0, 0, 0, 0, 0xfe, 0xff, 0xff, 0xff, 4, 3, 2, 1]);
    assert!(matches!(a.get(1), Some(Value::I32(-2))));
    assert!(matches!(a.get(2), Some(Value::I32(0x0102_0304))));
    assert!(a.get(3).is_none());
    // Out of bounds, or of another kind: refused, and nothing changes.
    assert!(!a.set(3, &Value::I32(1)));
    assert!(!a.set(0, &Value::U32(1)));
    assert!(!a.set(0, &Value::Unit));
    assert!(!a.set(usize::MAX, &Value::I32(1)));
    assert_eq!(a.bytes, vec![0, 0, 0, 0, 0xfe, 0xff, 0xff, 0xff, 4, 3, 2, 1]);
}

#[test]
fn array_bytes_are_addressed_by_offset() {
    let mut a = Array::zeroed(Scalar::U16, 4).unwrap();
    assert!(a.write(3, &Value::U16(0xabcd)));
    assert_eq!(a.bytes, vec![0, 0, 0, 0xcd, 0xab, 0, 0, 0]);
    assert!(matches!(a.read(3), Some(Value::U16(0xabcd))));
    assert!(matches!(a.read(4), Some(Value::U16(0x00ab))));
    assert!(matches!(a.read(6), Some(Value::U16(0))));
    assert!(a.read(7).is_none());
    assert!(!a.write(7, &Value::U16(1)));
    assert!(a.write(6, &Value::U16(1)));
    assert!(Array::zeroed(Scalar::U8, 0).unwrap().bytes.is_empty());
}

#[test]
fn paths_lead_through_aggregates_and_arrays() {
    let mut a = Array::zeroed(Scalar::U8, 3).unwrap();
    assert!(a.set(2, &Value::U8(9)));
    let v = Value::Aggregate(vec![
        Value::Int(1),
        Value::Aggregate(vec![Value::Bool(true), Value::Array(a)]),
    ]);
    assert!(matches!(load_from(&v, &vec![0], 0), Some(Value::Int(1))));
    assert!(matches!(load_from(&v, &vec![1, 0], 0), Some(Value::Bool(true))));
    assert!(matches!(load_from(&v, &vec![1, 1, 2], 0), Some(Value::U8(9))));
    assert!(matches!(load_from(&v, &vec![7, 1, 0], 1), Some(Value::Bool(true))));
    assert!(matches!(load_from(&v, &vec![], 0), Some(Value::Aggregate(_))));
    assert!(load_from(&v, &vec![2], 0).is_none());
    assert!(load_from(&v, &vec![0, 0], 0).is_none());
    assert!(load_from(&v, &vec![1, 1, 3], 0).is_none());
    assert!(load_from(&v, &vec![1, 1, 2, 0], 0).is_none());
}

#[test]
fn a_store_replaces_one_element_and_nothing_else() {
    let v = Value::Aggregate(vec![
        Value::Int(1),
        Value::Aggregate(vec![Value::Bool(true), Value::Array(Array::zeroed(Scalar::U8, 2).unwrap())]),
    ]);
    assert!(can_store(&v, &vec![1, 0], 0, &Value::Int(5)));
    assert!(can_store(&v, &vec![1, 1, 1], 0, &Value::U8(5)));
    assert!(!can_store(&v, &vec![1, 1, 1], 0, &Value::I8(5)));
    assert!(!can_store(&v, &vec![1, 1, 2], 0, &Value::U8(5)));
    assert!(!can_store(&v, &vec![1, 1, 1, 0], 0, &Value::U8(5)));
    assert!(!can_store(&v, &vec![2], 0, &Value::U8(5)));
    assert!(!can_store(&v, &vec![0, 0], 0, &Value::U8(5)));
    assert!(can_store(&v, &vec![], 0, &Value::Unit));
    let v = store_into(v, &vec![1, 1, 1], 0, Value::U8(5));
    let v = store_into(v, &vec![0], 0, Value::Bool(false));
    assert!(matches!(load_from(&v, &vec![1, 1, 1], 0), Some(Value::U8(5))));
    assert!(matches!(load_from(&v, &vec![1, 1, 0], 0), Some(Value::U8(0))));
    assert!(matches!(load_from(&v, &vec![0], 0), Some(Value::Bool(false))));
    assert!(matches!(load_from(&v, &vec![1, 0], 0), Some(Value::Bool(true))));
    assert!(matches!(store_into(v, &vec![], 0, Value::Unit), Value::Unit));
}

#[test]
fn increment_wraps() {
    assert!(matches!(increment_op(&Value::Int(41)), Some(Value::Int(42))));
    assert!(matches!(increment_op(&Value::U8(255)), Some(Value::U8(0))));
    assert!(matches!(increment_op(&Value::I8(127)), Some(Value::I8(-128))));
    assert!(matches!(increment_op(&Value::I16(-1)), Some(Value::I16(0))));
    assert!(matches!(increment_op(&Value::I32(1)), Some(Value::I32(2))));
    assert!(matches!(increment_op(&Value::I64(1)), Some(Value::I64(2))));
    assert!(matches!(increment_op(&Value::U16(1)), Some(Value::U16(2))));
    assert!(matches!(increment_op(&Value::U32(1)), Some(Value::U32(2))));
    assert!(matches!(increment_op(&Value::U64(u64::MAX)), Some(Value::U64(0))));
    assert!(matches!(increment_op(&Value::Uint(1)), Some(Value::Uint(2))));
    assert!(increment_op(&Value::Bool(false)).is_none());
    assert!(increment_op(&Value::F32(0)).is_none());
}

#[test]
fn shifting_a_pointer_moves_its_last_index() {
    let p = Pointer { kind: PointerKind::Typed(Scalar::U8), space: Space::Stack, path: vec![3, 1] };
    let q = shift(&p, 4).unwrap();
    assert_eq!(q.path, vec![3, 5]);
    assert_eq!(q.kind, PointerKind::Typed(Scalar::U8));
    assert_eq!(q.space, Space::Stack);
    assert_eq!(shift(&p, 0).unwrap().path, vec![3, 1]);
    assert!(shift(&p, usize::MAX).is_none());
    let empty = Pointer { kind: PointerKind::Raw, space: Space::Stack, path: vec![] };
    assert!(shift(&empty, 1).is_none());
}

#[test]
fn a_slice_is_a_pointer_and_a_length() {
    let p = Pointer { kind: PointerKind::Typed(Scalar::U8), space: Space::Global, path: vec![0, 0] };
    let s = Value::Aggregate(vec![Value::Pointer(p.clone()), Value::Uint(5)]);
    let (q, len) = slice_of(&s).unwrap();
    assert_eq!(q.path, vec![0, 0]);
    assert_eq!(len, 5);
    assert!(slice_of(&Value::Aggregate(vec![Value::Uint(5), Value::Pointer(p.clone())])).is_none());
    assert!(slice_of(&Value::Aggregate(vec![Value::Pointer(p)])).is_none());
    assert!(slice_of(&Value::Unit).is_none());
}

#[test]
fn clones_are_deep() {
    let v = Value::Aggregate(vec![Value::Int(1), Value::Aggregate(vec![Value::U8(2)])]);
    let w = v.clone();
    assert_eq!(format!("{:?}", v), format!("{:?}", w));
    let items = vec![Value::Int(1), Value::Bool(true)];
    assert_eq!(format!("{:?}", clone_values(&items)), format!("{:?}", items));
    assert_eq!(copy_of(&vec![1u8, 2, 3]), vec![1u8, 2, 3]);
}

#[test]
fn exchange_swaps_one_item() {
    let mut items = vec![Value::Int(1), Value::Int(2), Value::Int(3)];
    let before = chili_interp::memory::exchange(&mut items, 1, Value::Bool(true));
    assert!(matches!(before, Value::Int(2)));
    assert!(matches!(items[0], Value::Int(1)));
    assert!(matches!(items[1], Value::Bool(true)));
    assert!(matches!(items[2], Value::Int(3)));
    assert_eq!(items.len(), 3);
}

#[test]
fn array_tells_what_it_accepts() {
    let a = Array::zeroed(Scalar::U16, 2).unwrap();
    assert!(a.accepts(0, &Value::U16(1)));
    assert!(a.accepts(2, &Value::U16(1)));
    assert!(!a.accepts(3, &Value::U16(1)));
    assert!(!a.accepts(0, &Value::I16(1)));
    assert!(!a.accepts(0, &Value::Unit));
    assert!(a.accepts_at(1, &Value::U16(1)));
    assert!(!a.accepts_at(2, &Value::U16(1)));
    assert!(!a.accepts_at(usize::MAX, &Value::U16(1)));
    assert_eq!(a.bytes, vec![0u8; 4]);
}

#[test]
fn byte_runs_are_cut_out_of_arrays() {
    let mut a = Array::zeroed(Scalar::U8, 4).unwrap();
    for i in 0..4 {
        assert!(a.set(i, &Value::U8(i as u8 + 1)));
    }
    assert_eq!(chili_interp::pointer::byte_run_of(&a, 1, 2), Some(vec![2, 3]));
    assert_eq!(chili_interp::pointer::byte_run_of(&a, 0, 4), Some(vec![1, 2, 3, 4]));
    assert_eq!(chili_interp::pointer::byte_run_of(&a, 4, 0), Some(vec![]));
    assert_eq!(chili_interp::pointer::byte_run_of(&a, 3, 2), None);
    assert_eq!(chili_interp::pointer::byte_run_of(&a, 5, 0), None);
    assert_eq!(chili_interp::pointer::byte_run_of(&a, 1, usize::MAX), None);
}
