//! The ways in which a run can fail.

use vstd::prelude::*;

verus! {

/// A fault that ends a run. The machine never unwinds: a fault is reported
/// by the step that met it, and that step leaves the machine as it found it.
#[derive(Clone, Copy, Debug, PartialEq, Eq, Structural)]
pub enum InterpErr {
    /// An instruction needed more operands than the stack holds.
    StackUnderflow,
    /// The operand stack is full.
    StackOverflow,
    /// The frame stack is full.
    FrameOverflow,
    /// There is no active frame to fetch an instruction for.
    NoFrame,
    /// The base slot of the active frame does not hold a function.
    InvalidFrame,
    /// The instruction pointer lies outside the active function's code.
    InvalidInstructionPointer,
    /// A jump would move the instruction pointer below zero or beyond
    /// what the machine can address.
    InvalidJump,
    /// The operands' tags do not fit the instruction.
    InvalidOperand,
    /// An integer was divided by zero.
    DivisionByZero,
    /// A quotient that does not fit the width of its operands, or an array
    /// of more bytes than can be addressed.
    Overflow,
    /// The callee is neither a function nor a foreign function.
    Uncallable,
    /// No constant is stored at the address.
    UndefinedConstant,
    /// No global is stored in the slot.
    UndefinedGlobal,
    /// A frame-relative or top-relative slot lies outside the stack.
    InvalidSlot,
    /// A pointer does not lead to a value, or leads to one of another kind
    /// than the pointer claims.
    InvalidPointer,
    /// An element index lies outside the aggregate or array.
    IndexOutOfBounds,
    /// The value cannot be converted to the cast's target.
    InvalidCast,
    /// The machine waits for the host's result and takes no step until it
    /// has it.
    AwaitingHost,
    /// A result was handed to a machine that had asked for none.
    NotAwaitingHost,
}

} // verus!
