//! The tagged values the machine computes with, and their mathematical models.

use crate::instruction::{CodeModel, CompiledCode, PointerKind, Scalar, copy_of};
use ustr::Ustr;
use vstd::prelude::*;

verus! {

/// The shape of a value, as far as a signature needs to describe it.
#[derive(Clone, Copy, Debug, PartialEq, Eq, Structural)]
pub enum TyKind {
    Unit,
    Scalar(Scalar),
    Pointer,
    Array,
    Aggregate,
    Function,
    ForeignFunction,
    Type,
}

/// Where the root of an address lies.
#[derive(Clone, Copy, Debug, PartialEq, Eq, Structural)]
pub enum Space {
    Stack,
    Global,
}

/// A logical address: a slot of the operand stack or of the globals table,
/// followed by the element indices that lead from the value in that slot to
/// the value addressed. `path[0]` is the slot.
#[derive(Debug)]
pub struct Pointer {
    pub kind: PointerKind,
    pub space: Space,
    pub path: Vec<usize>,
}

/// The mathematical model of a [`Pointer`].
pub struct PointerModel {
    pub kind: PointerKind,
    pub space: Space,
    pub path: Seq<usize>,
}

/// A fixed-size array: raw bytes and the kind of the elements stored in them.
#[derive(Debug)]
pub struct Array {
    pub bytes: Vec<u8>,
    pub ty: Scalar,
}

/// The mathematical model of an [`Array`].
pub struct ArrayModel {
    pub bytes: Seq<u8>,
    pub ty: Scalar,
}

/// A bytecode function.
#[derive(Debug)]
pub struct Func {
    pub name: Ustr,
    pub arg_types: Vec<TyKind>,
    pub return_type: TyKind,
    pub code: CompiledCode,
}

/// The mathematical model of a [`Func`].
pub struct FuncModel {
    pub name: Ustr,
    pub arg_types: Seq<TyKind>,
    pub return_type: TyKind,
    pub code: CodeModel,
}

/// The descriptor of a native function that lives outside the machine.
#[derive(Debug)]
pub struct ForeignFunc {
    pub lib: Ustr,
    pub name: Ustr,
    pub param_tys: Vec<TyKind>,
    pub return_ty: TyKind,
    pub variadic: bool,
}

/// The mathematical model of a [`ForeignFunc`].
pub struct ForeignModel {
    pub lib: Ustr,
    pub name: Ustr,
    pub param_tys: Seq<TyKind>,
    pub return_ty: TyKind,
    pub variadic: bool,
}

/// Every datum the machine manipulates. The two floating-point variants hold
/// the IEEE-754 bit pattern of the number.
#[derive(Debug)]
pub enum Value {
    Unit,
    Bool(bool),
    I8(i8),
    I16(i16),
    I32(i32),
    I64(i64),
    Int(isize),
    U8(u8),
    U16(u16),
    U32(u32),
    U64(u64),
    Uint(usize),
    F32(u32),
    F64(u64),
    Type(Scalar),
    Pointer(Pointer),
    Array(Array),
    Aggregate(Vec<Value>),
    Function(Func),
    ForeignFunction(ForeignFunc),
}

/// The mathematical model of a [`Value`].
pub enum Datum {
    Unit,
    Bool(bool),
    I8(i8),
    I16(i16),
    I32(i32),
    I64(i64),
    Int(isize),
    U8(u8),
    U16(u16),
    U32(u32),
    U64(u64),
    Uint(usize),
    F32(u32),
    F64(u64),
    Type(Scalar),
    Pointer(PointerModel),
    Array(ArrayModel),
    Aggregate(Seq<Datum>),
    Function(FuncModel),
    ForeignFunction(ForeignModel),
}

impl View for Pointer {
    type V = PointerModel;

    open spec fn view(&self) -> PointerModel {
        PointerModel { kind: self.kind, space: self.space, path: self.path@ }
    }
}

impl View for Array {
    type V = ArrayModel;

    open spec fn view(&self) -> ArrayModel {
        ArrayModel { bytes: self.bytes@, ty: self.ty }
    }
}

impl View for Func {
    type V = FuncModel;

    open spec fn view(&self) -> FuncModel {
        FuncModel {
            name: self.name,
            arg_types: self.arg_types@,
            return_type: self.return_type,
            code: self.code@,
        }
    }
}

impl View for ForeignFunc {
    type V = ForeignModel;

    open spec fn view(&self) -> ForeignModel {
        ForeignModel {
            lib: self.lib,
            name: self.name,
            param_tys: self.param_tys@,
            return_ty: self.return_ty,
            variadic: self.variadic,
        }
    }
}

impl Value {
    /// The model of this value, built by recursion on its structure.
    pub open spec fn model(self) -> Datum
        decreases self,
    {
        match self {
            Value::Unit => Datum::Unit,
            Value::Bool(v) => Datum::Bool(v),
            Value::I8(v) => Datum::I8(v),
            Value::I16(v) => Datum::I16(v),
            Value::I32(v) => Datum::I32(v),
            Value::I64(v) => Datum::I64(v),
            Value::Int(v) => Datum::Int(v),
            Value::U8(v) => Datum::U8(v),
            Value::U16(v) => Datum::U16(v),
            Value::U32(v) => Datum::U32(v),
            Value::U64(v) => Datum::U64(v),
            Value::Uint(v) => Datum::Uint(v),
            Value::F32(v) => Datum::F32(v),
            Value::F64(v) => Datum::F64(v),
            Value::Type(t) => Datum::Type(t),
            Value::Pointer(p) => Datum::Pointer(p@),
            Value::Array(a) => Datum::Array(a@),
            Value::Aggregate(items) => Datum::Aggregate(
                Seq::new(
                    items@.len(),
                    |i: int|
                        if 0 <= i < items@.len() {
                            items@[i].model()
                        } else {
                            Datum::Unit
                        },
                ),
            ),
            Value::Function(f) => Datum::Function(f@),
            Value::ForeignFunction(f) => Datum::ForeignFunction(f@),
        }
    }
}

impl View for Value {
    type V = Datum;

    #[verifier::inline]
    open spec fn view(&self) -> Datum {
        self.model()
    }
}

/// The models of a sequence of values, item by item.
pub open spec fn models(items: Seq<Value>) -> Seq<Datum> {
    Seq::new(items.len(), |i: int| items[i]@)
}

/// An aggregate's model holds the models of its elements.
pub proof fn lemma_aggregate_model(items: Vec<Value>)
    ensures
        Value::Aggregate(items)@ == Datum::Aggregate(models(items@)),
{
    assert(Value::Aggregate(items)@->Aggregate_0 =~= models(items@));
}

pub broadcast proof fn lemma_models_len(items: Seq<Value>)
    ensures
        #[trigger] models(items).len() == items.len(),
{
}

pub broadcast proof fn lemma_models_index(items: Seq<Value>, i: int)
    requires
        0 <= i < items.len(),
    ensures
        #[trigger] models(items)[i] == items[i]@,
{
}

pub broadcast proof fn lemma_models_push(items: Seq<Value>, v: Value)
    ensures
        #[trigger] models(items.push(v)) == models(items).push(v@),
{
}

pub broadcast proof fn lemma_models_drop_last(items: Seq<Value>)
    requires
        items.len() > 0,
    ensures
        #[trigger] models(items.drop_last()) == models(items).drop_last(),
{
}

pub broadcast proof fn lemma_models_update(items: Seq<Value>, i: int, v: Value)
    requires
        0 <= i < items.len(),
    ensures
        #[trigger] models(items.update(i, v)) == models(items).update(i, v@),
{
}

pub broadcast proof fn lemma_models_subrange(items: Seq<Value>, from: int, to: int)
    requires
        0 <= from <= to <= items.len(),
    ensures
        #[trigger] models(items.subrange(from, to)) == models(items).subrange(from, to),
{
}

pub broadcast proof fn lemma_models_remove(items: Seq<Value>, i: int)
    requires
        0 <= i < items.len(),
    ensures
        #[trigger] models(items.remove(i)) == models(items).remove(i),
{
}

pub broadcast group group_models {
    lemma_models_len,
    lemma_models_index,
    lemma_models_push,
    lemma_models_drop_last,
    lemma_models_update,
    lemma_models_subrange,
    lemma_models_remove,
}

impl Clone for Pointer {
    fn clone(&self) -> (r: Pointer)
        ensures
            r@ == self@,
    {
        Pointer { kind: self.kind, space: self.space, path: copy_of(&self.path) }
    }
}

impl Clone for Array {
    fn clone(&self) -> (r: Array)
        ensures
            r@ == self@,
    {
        Array { bytes: copy_of(&self.bytes), ty: self.ty }
    }
}

impl Clone for Func {
    fn clone(&self) -> (r: Func)
        ensures
            r@ == self@,
    {
        Func {
            name: self.name,
            arg_types: copy_of(&self.arg_types),
            return_type: self.return_type,
            code: self.code.clone(),
        }
    }
}

impl Clone for ForeignFunc {
    fn clone(&self) -> (r: ForeignFunc)
        ensures
            r@ == self@,
    {
        ForeignFunc {
            lib: self.lib,
            name: self.name,
            param_tys: copy_of(&self.param_tys),
            return_ty: self.return_ty,
            variadic: self.variadic,
        }
    }
}

/// A copy of a sequence of values, equal to it in the model.
pub fn clone_values(items: &Vec<Value>) -> (out: Vec<Value>)
    ensures
        models(out@) == models(items@),
    decreases items,
{
    let mut out: Vec<Value> = Vec::new();
    let mut i: usize = 0;
    while i < items.len()
        invariant
            i <= items.len(),
            out.len() == i,
            forall|k: int| 0 <= k < i ==> out@[k]@ == #[trigger] items@[k]@,
        decreases items.len() - i,
    {
        let item = &items[i];
        out.push(item.clone());
        i += 1;
    }
    out
}

impl Clone for Value {
    fn clone(&self) -> (r: Value)
        ensures
            r@ == self@,
        decreases self,
    {
        match self {
            Value::Unit => Value::Unit,
            Value::Bool(v) => Value::Bool(*v),
            Value::I8(v) => Value::I8(*v),
            Value::I16(v) => Value::I16(*v),
            Value::I32(v) => Value::I32(*v),
            Value::I64(v) => Value::I64(*v),
            Value::Int(v) => Value::Int(*v),
            Value::U8(v) => Value::U8(*v),
            Value::U16(v) => Value::U16(*v),
            Value::U32(v) => Value::U32(*v),
            Value::U64(v) => Value::U64(*v),
            Value::Uint(v) => Value::Uint(*v),
            Value::F32(v) => Value::F32(*v),
            Value::F64(v) => Value::F64(*v),
            Value::Type(t) => Value::Type(*t),
            Value::Pointer(p) => Value::Pointer(p.clone()),
            Value::Array(a) => Value::Array(a.clone()),
            Value::Aggregate(items) => {
                let out = clone_values(items);
                proof {
                    lemma_aggregate_model(out);
                    lemma_aggregate_model(*items);
                }
                Value::Aggregate(out)
            },
            Value::Function(f) => Value::Function(f.clone()),
            Value::ForeignFunction(f) => Value::ForeignFunction(f.clone()),
        }
    }
}

impl Value {
    /// The unit value.
    pub fn unit() -> (v: Value)
        ensures
            v@ == Datum::Unit,
    {
        Value::Unit
    }

    /// The truthiness projection used by the logical and branching
    /// instructions: `Bool(true)` and nothing else.
    pub fn is_truthy(&self) -> (b: bool)
        ensures
            b == truthy(self@),
    {
        match self {
            Value::Bool(v) => *v,
            _ => false,
        }
    }
}

/// `Bool(true)` is truthy; every other value is not.
pub open spec fn truthy(d: Datum) -> bool {
    d == Datum::Bool(true)
}

} // verus!
