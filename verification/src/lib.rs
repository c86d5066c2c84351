//! A bytecode virtual machine for compile-time evaluation.
//!
//! The machine executes the lowered form of constant expressions and static
//! blocks: tagged values on a bounded operand stack, call frames on a
//! bounded frame stack, and a fetch-decode-execute cycle over a fixed
//! instruction set. It never recurses on the host's stack and never panics.
//!
//! What the machine does is defined twice. [`machine`] is the mathematical
//! model: the state of a machine and, for each instruction, the state that
//! follows. [`vm`], [`execute`] and [`pointer`] are the executable machine,
//! every step of which is proved to do what the model says. [`laws`] holds
//! what follows from the model for every program, and [`programs`] what
//! short programs compute for every input.
//!
//! Three things end a step otherwise than by going on:
//!
//! - a *fault*: the instruction cannot be executed, and the machine is left
//!   exactly as it was (see [`error::InterpErr`]);
//! - a *request to the host*: floating-point arithmetic and native calls are
//!   not the machine's to compute. It pops the operands, hands them out, and
//!   waits until the result is handed back to [`vm::VM::resume`];
//! - the *end of the run*: a value, or the message of a `Panic`.
//!
//! Pointers are logical addresses: a slot of the operand stack or of the
//! globals table, followed by element indices. They are resolved, with
//! bounds checks, each time they are used.

pub mod arith;
pub mod byte_seq;
pub mod cast;
pub mod error;
pub mod execute;
pub mod instruction;
pub mod interp;
pub mod laws;
pub mod machine;
pub mod memory;
pub mod pointer;
pub mod programs;
pub mod stack;
mod step_lemmas;
pub mod symbol;
pub mod value;
pub mod vm;
