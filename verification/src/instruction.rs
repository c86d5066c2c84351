//! The instruction set and the compiled form of a function body.

use vstd::prelude::*;

verus! {

/// The primitive kinds a value can have: booleans, the integer width matrix
/// and the two floating-point widths.
#[derive(Clone, Copy, Debug, PartialEq, Eq, Structural)]
pub enum Scalar {
    Bool,
    I8,
    I16,
    I32,
    I64,
    Int,
    U8,
    U16,
    U32,
    U64,
    Uint,
    F32,
    F64,
}

/// What a pointer claims about its target: one of the primitive kinds, or
/// nothing at all (`Raw`), as for the address of an aggregate or an array.
#[derive(Clone, Copy, Debug, PartialEq, Eq, Structural)]
pub enum PointerKind {
    Typed(Scalar),
    Raw,
}

/// The target of a `Cast` instruction.
#[derive(Clone, Copy, Debug, PartialEq, Eq, Structural)]
pub enum CastInstruction {
    I8,
    I16,
    I32,
    I64,
    Int,
    U8,
    U16,
    U32,
    U64,
    Uint,
    F32,
    F64,
    Ptr(PointerKind),
}

/// One atomic operation of the machine, with at most one immediate operand.
#[derive(Clone, Copy, Debug, PartialEq, Eq, Structural)]
pub enum Instruction {
    Noop,
    Pop,
    PushConst(u32),
    Add,
    Sub,
    Mul,
    Div,
    Rem,
    Neg,
    Not,
    Deref,
    Eq,
    Neq,
    Lt,
    LtEq,
    Gt,
    GtEq,
    And,
    Or,
    Jmp(i32),
    Jmpt(i32),
    Jmpf(i32),
    Return,
    Call(u32),
    GetGlobal(u32),
    GetGlobalPtr(u32),
    SetGlobal(u32),
    Peek(i32),
    PeekPtr(i32),
    SetLocal(i32),
    Index,
    IndexPtr,
    Offset,
    ConstIndex(u32),
    ConstIndexPtr(u32),
    Assign,
    Cast(CastInstruction),
    AggregateAlloc,
    AggregatePush,
    ArrayAlloc(u32),
    ArrayPut(u32),
    ArrayFill(u32),
    Copy(u32),
    Roll(u32),
    Increment,
    Panic,
    Halt,
}

/// The mathematical content of a [`CompiledCode`].
pub struct CodeModel {
    pub instructions: Seq<Instruction>,
    pub locals: u16,
}

/// An ordered instruction sequence together with the number of stack slots
/// a frame running it reserves beyond its arguments.
#[derive(Debug)]
pub struct CompiledCode {
    pub instructions: Vec<Instruction>,
    pub locals: u16,
}

impl View for CompiledCode {
    type V = CodeModel;

    open spec fn view(&self) -> CodeModel {
        CodeModel { instructions: self.instructions@, locals: self.locals }
    }
}

impl CompiledCode {
    /// Empty code that reserves no locals.
    pub fn new() -> (code: CompiledCode)
        ensures
            code@ == (CodeModel { instructions: Seq::empty(), locals: 0 }),
    {
        CompiledCode { instructions: Vec::new(), locals: 0 }
    }

    /// Appends one instruction and returns its position.
    pub fn push(&mut self, inst: Instruction) -> (at: usize)
        ensures
            at == old(self)@.instructions.len(),
            final(self)@ == (CodeModel {
                instructions: old(self)@.instructions.push(inst),
                locals: old(self)@.locals,
            }),
    {
        let at = self.instructions.len();
        self.instructions.push(inst);
        at
    }

    /// How many instructions the code has.
    pub fn len(&self) -> (n: usize)
        ensures
            n == self@.instructions.len(),
    {
        self.instructions.len()
    }
}

impl Clone for CompiledCode {
    fn clone(&self) -> (code: CompiledCode)
        ensures
            code@ == self@,
    {
        CompiledCode { instructions: copy_of(&self.instructions), locals: self.locals }
    }
}

/// A copy of a vector of plain items.
pub fn copy_of<T: Copy>(items: &Vec<T>) -> (out: Vec<T>)
    ensures
        out@ == items@,
{
    let mut out: Vec<T> = Vec::new();
    let mut i: usize = 0;
    while i < items.len()
        invariant
            i <= items.len(),
            out@ == items@.take(i as int),
        decreases items.len() - i,
    {
        out.push(items[i]);
        i += 1;
    }
    out
}

} // verus!
