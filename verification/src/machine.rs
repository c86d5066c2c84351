//! The mathematical model of the machine: its state, and what one
//! instruction does to it.
//!
//! Nothing here is executable. The executable machine is held to these
//! functions step by step.

use crate::arith::{
    BinaryOp, CompareOp, LogicOp, arith, compare, complement, float_pair, is_float, logic, negate,
};
use crate::byte_seq::{array_set, array_write, array_zeroed, kind_of, scalar_of, width};
use crate::cast::{cast, cast_needs_host};
use crate::error::InterpErr;
use crate::interp::BuildOptions;
use crate::instruction::{CastInstruction, Instruction};
use crate::memory::{load_cell, store_cell};
use crate::value::{ArrayModel, Datum, ForeignModel, FuncModel, PointerModel, Space, truthy};
use vstd::prelude::*;

verus! {

/// How many calls can be in flight at once.
pub const FRAMES_MAX: usize = 64;

/// How many values the operand stack holds at most.
pub const STACK_MAX: usize = FRAMES_MAX * 255 + 1;

/// The activation record of one call in flight. The function being run is
/// the value in the frame's base slot.
#[derive(Clone, Copy, Debug, PartialEq, Eq, Structural)]
pub struct StackFrame {
    pub stack_slot: usize,
    pub ip: usize,
}

/// The part of the session's state that the machine borrows with the tables
/// and never changes.
pub struct Session {
    pub functions: Map<usize, usize>,
    pub bindings_to_globals: Map<usize, usize>,
    pub build_options: BuildOptions,
}

/// The state of the machine.
pub struct Machine {
    pub stack: Seq<Datum>,
    pub frames: Seq<StackFrame>,
    pub globals: Seq<Datum>,
    pub constants: Seq<Datum>,
    /// Whether the machine has asked the host for a result and not yet
    /// been given it.
    pub waiting: bool,
    /// What the machine leaves alone.
    pub session: Session,
}

/// Work that only the host can do.
pub enum HostOpModel {
    /// Call a native function.
    Foreign(ForeignModel),
    /// Arithmetic on two floating-point numbers of one width.
    Arith(BinaryOp),
    /// A comparison of two floating-point numbers of one width.
    Compare(CompareOp),
    /// The negation of a floating-point number.
    Negate,
    /// A conversion from or to a floating-point number.
    Cast(CastInstruction),
}

/// A request to the host: the work, and its operands in the order in which
/// they were pushed.
pub struct RequestModel {
    pub op: HostOpModel,
    pub args: Seq<Datum>,
}

/// How a step ended.
pub enum Outcome {
    /// The instruction is done; the run goes on.
    Continue,
    /// The run is over, with this result.
    Finished(Datum),
    /// The operands are popped and the machine waits for the host's result.
    Host(RequestModel),
    /// The program asked to abort, with this message.
    Panicked(Seq<u8>),
    /// The step could not be taken.
    Fault(InterpErr),
}

impl Machine {
    /// The active frame.
    pub open spec fn frame(self) -> StackFrame {
        self.frames.last()
    }

    /// The machine with another operand stack.
    pub open spec fn with_stack(self, stack: Seq<Datum>) -> Machine {
        Machine {
            stack,
            frames: self.frames,
            globals: self.globals,
            constants: self.constants,
            waiting: self.waiting,
            session: self.session,
        }
    }

    /// The machine with another globals table.
    pub open spec fn with_globals(self, globals: Seq<Datum>) -> Machine {
        Machine {
            stack: self.stack,
            frames: self.frames,
            globals,
            constants: self.constants,
            waiting: self.waiting,
            session: self.session,
        }
    }

    /// The machine with the active frame's instruction pointer moved.
    pub open spec fn with_ip(self, ip: usize) -> Machine {
        Machine {
            stack: self.stack,
            frames: self.frames.update(
                self.frames.len() - 1,
                StackFrame { stack_slot: self.frame().stack_slot, ip },
            ),
            globals: self.globals,
            constants: self.constants,
            waiting: self.waiting,
            session: self.session,
        }
    }

    /// The machine with the waiting flag set as given.
    pub open spec fn with_waiting(self, waiting: bool) -> Machine {
        Machine {
            stack: self.stack,
            frames: self.frames,
            globals: self.globals,
            constants: self.constants,
            waiting,
            session: self.session,
        }
    }

    /// The machine with the active frame at its next instruction.
    pub open spec fn advance(self) -> Machine {
        self.with_ip((self.frame().ip + 1) as usize)
    }

    /// The stack without its top `n` values.
    pub open spec fn below(self, n: int) -> Seq<Datum> {
        self.stack.subrange(0, self.stack.len() - n)
    }

    /// The value `n` places below the top.
    pub open spec fn peek(self, n: int) -> Datum {
        self.stack[self.stack.len() - 1 - n]
    }

    /// The cells that a pointer into the given space addresses.
    pub open spec fn cells(self, space: Space) -> Seq<Datum> {
        match space {
            Space::Stack => self.stack,
            Space::Global => self.globals,
        }
    }

    /// The machine with the cells of a space replaced.
    pub open spec fn with_cells(self, space: Space, cells: Seq<Datum>) -> Machine {
        match space {
            Space::Stack => self.with_stack(cells),
            Space::Global => self.with_globals(cells),
        }
    }

    /// The function that the active frame runs.
    pub open spec fn function(self) -> Option<FuncModel> {
        if self.frames.len() > 0 && self.frame().stack_slot < self.stack.len() {
            match self.stack[self.frame().stack_slot as int] {
                Datum::Function(f) => Some(f),
                _ => None,
            }
        } else {
            None
        }
    }

    /// The absolute index of a slot given relative to the active frame.
    pub open spec fn slot(self, relative: i32) -> int {
        self.frame().stack_slot + relative
    }
}

/// The step could not be taken: the machine stays as it is.
pub open spec fn fault(m: Machine, e: InterpErr) -> (Machine, Outcome) {
    (m, Outcome::Fault(e))
}

/// The instruction is done with the given stack; go to the next one.
pub open spec fn proceed(m: Machine, stack: Seq<Datum>) -> (Machine, Outcome) {
    (m.with_stack(stack).advance(), Outcome::Continue)
}

/// Push one more value, if there is room.
pub open spec fn grow(m: Machine, d: Datum) -> (Machine, Outcome) {
    if m.stack.len() >= STACK_MAX {
        fault(m, InterpErr::StackOverflow)
    } else {
        proceed(m, m.stack.push(d))
    }
}

/// Hand work to the host: the operands leave the stack, and the machine
/// waits, its instruction pointer where it is, until the host's result
/// comes back.
pub open spec fn ask(m: Machine, op: HostOpModel, n: int) -> (Machine, Outcome) {
    (
        m.with_stack(m.below(n)).with_waiting(true),
        Outcome::Host(
            RequestModel { op, args: m.stack.subrange(m.stack.len() - n, m.stack.len() as int) },
        ),
    )
}

/// The instruction that the machine is about to execute.
pub open spec fn fetch(m: Machine) -> Result<Instruction, InterpErr> {
    if m.frames.len() == 0 {
        Err(InterpErr::NoFrame)
    } else {
        match m.function() {
            Some(f) => if m.frame().ip < f.code.instructions.len() {
                Ok(f.code.instructions[m.frame().ip as int])
            } else {
                Err(InterpErr::InvalidInstructionPointer)
            },
            None => Err(InterpErr::InvalidFrame),
        }
    }
}

/// `Pop`: discard the top.
pub open spec fn pop_step(m: Machine) -> (Machine, Outcome) {
    if m.stack.len() < 1 {
        fault(m, InterpErr::StackUnderflow)
    } else {
        proceed(m, m.below(1))
    }
}

/// `PushConst`: push a copy of a constant.
pub open spec fn push_const_step(m: Machine, addr: u32) -> (Machine, Outcome) {
    if addr >= m.constants.len() {
        fault(m, InterpErr::UndefinedConstant)
    } else {
        grow(m, m.constants[addr as int])
    }
}

/// `Add`, `Sub`, `Mul`, `Div`, `Rem`: replace the two operands by the result, or
/// ask the host where they are floating-point numbers.
pub open spec fn binary_step(m: Machine, op: BinaryOp) -> (Machine, Outcome) {
    if m.stack.len() < 2 {
        fault(m, InterpErr::StackUnderflow)
    } else if float_pair(m.peek(1), m.peek(0)) {
        ask(m, HostOpModel::Arith(op), 2)
    } else {
        match arith(op, m.peek(1), m.peek(0)) {
            Ok(d) => proceed(m, m.below(2).push(d)),
            Err(e) => fault(m, e),
        }
    }
}

/// `Eq`, `Neq`, `Lt`, `LtEq`, `Gt`, `GtEq`: replace the two operands by the
/// boolean, or ask the host where they are floating-point numbers.
pub open spec fn compare_step(m: Machine, op: CompareOp) -> (Machine, Outcome) {
    if m.stack.len() < 2 {
        fault(m, InterpErr::StackUnderflow)
    } else if float_pair(m.peek(1), m.peek(0)) {
        ask(m, HostOpModel::Compare(op), 2)
    } else {
        match compare(op, m.peek(1), m.peek(0)) {
            Ok(d) => proceed(m, m.below(2).push(d)),
            Err(e) => fault(m, e),
        }
    }
}

/// `And`, `Or`: replace the two operands by the boolean.
pub open spec fn logic_step(m: Machine, op: LogicOp) -> (Machine, Outcome) {
    if m.stack.len() < 2 {
        fault(m, InterpErr::StackUnderflow)
    } else {
        proceed(m, m.below(2).push(logic(op, m.peek(1), m.peek(0))))
    }
}

/// `Neg`: negate a signed integer, or ask the host for a floating-point number.
pub open spec fn neg_step(m: Machine) -> (Machine, Outcome) {
    if m.stack.len() < 1 {
        fault(m, InterpErr::StackUnderflow)
    } else if is_float(m.peek(0)) {
        ask(m, HostOpModel::Negate, 1)
    } else {
        match negate(m.peek(0)) {
            Ok(d) => proceed(m, m.below(1).push(d)),
            Err(e) => fault(m, e),
        }
    }
}

/// `Not`: complement an integer or a boolean.
pub open spec fn not_step(m: Machine) -> (Machine, Outcome) {
    if m.stack.len() < 1 {
        fault(m, InterpErr::StackUnderflow)
    } else {
        match complement(m.peek(0)) {
            Ok(d) => proceed(m, m.below(1).push(d)),
            Err(e) => fault(m, e),
        }
    }
}

/// What a typed read through a pointer gives: the value at the address, if
/// there is one and it is of the kind that the pointer claims.
pub open spec fn deref(cells: Seq<Datum>, p: PointerModel) -> Option<Datum> {
    match load_cell(cells, p.path) {
        Some(d) => if kind_of(d) == p.kind {
            Some(d)
        } else {
            None
        },
        None => None,
    }
}

/// `Deref`: replace the pointer on top by what it leads to.
pub open spec fn deref_step(m: Machine) -> (Machine, Outcome) {
    if m.stack.len() < 1 {
        fault(m, InterpErr::StackUnderflow)
    } else {
        match m.peek(0) {
            Datum::Pointer(p) => match deref(m.cells(p.space), p) {
                Some(d) => proceed(m, m.below(1).push(d)),
                None => fault(m, InterpErr::InvalidPointer),
            },
            _ => fault(m, InterpErr::InvalidOperand),
        }
    }
}

/// Where a relative jump leads, if that is a place the machine can name.
pub open spec fn jump_target(ip: usize, offset: i32) -> Option<usize> {
    if 0 <= ip + offset <= usize::MAX {
        Some((ip + offset) as usize)
    } else {
        None
    }
}

/// Move the instruction pointer by `offset`, with the given stack.
pub open spec fn jump(m: Machine, stack: Seq<Datum>, offset: i32) -> (Machine, Outcome) {
    match jump_target(m.frame().ip, offset) {
        Some(ip) => (m.with_stack(stack).with_ip(ip), Outcome::Continue),
        None => fault(m, InterpErr::InvalidJump),
    }
}

/// `Jmp`: jump.
pub open spec fn jmp_step(m: Machine, offset: i32) -> (Machine, Outcome) {
    jump(m, m.stack, offset)
}

/// Pop the condition; jump if its truthiness is `when`, else go on.
pub open spec fn branch_step(m: Machine, offset: i32, when: bool) -> (Machine, Outcome) {
    if m.stack.len() < 1 {
        fault(m, InterpErr::StackUnderflow)
    } else if truthy(m.peek(0)) == when {
        jump(m, m.below(1), offset)
    } else {
        proceed(m, m.below(1))
    }
}

/// `Return`: leave the active frame with the value on top. From the
/// outermost frame that ends the run; from any other, the stack is cut back
/// to below the arguments, the value is pushed, and the caller moves on.
pub open spec fn return_step(m: Machine) -> (Machine, Outcome) {
    if m.stack.len() < 1 {
        fault(m, InterpErr::StackUnderflow)
    } else if m.frames.len() == 1 {
        (
            Machine {
                stack: m.below(1),
                frames: m.frames.drop_last(),
                globals: m.globals,
                constants: m.constants,
                waiting: m.waiting,
                session: m.session,
            },
            Outcome::Finished(m.peek(0)),
        )
    } else {
        match m.function() {
            Some(f) => {
                let argc = f.arg_types.len();
                let base = m.frame().stack_slot;
                if m.stack.len() < base + 2 || base < argc {
                    fault(m, InterpErr::StackUnderflow)
                } else {
                    let caller = Machine {
                        stack: m.stack.subrange(0, base - argc).push(m.peek(0)),
                        frames: m.frames.drop_last(),
                        globals: m.globals,
                        constants: m.constants,
                        waiting: m.waiting,
                        session: m.session,
                    };
                    if caller.frame().ip >= usize::MAX {
                        fault(m, InterpErr::InvalidInstructionPointer)
                    } else {
                        (caller.advance(), Outcome::Continue)
                    }
                }
            },
            None => fault(m, InterpErr::InvalidFrame),
        }
    }
}

/// `Halt`: end the run with the value on top, and pop the function below it.
pub open spec fn halt_step(m: Machine) -> (Machine, Outcome) {
    if m.stack.len() < 2 {
        fault(m, InterpErr::StackUnderflow)
    } else {
        (m.with_stack(m.below(2)), Outcome::Finished(m.peek(0)))
    }
}

/// `n` unit values.
pub open spec fn units(n: nat) -> Seq<Datum> {
    Seq::new(n, |i: int| Datum::Unit)
}

/// Enter the function on top of the stack: a new frame whose base slot is
/// the callee's, and one unit placeholder for each of its locals.
pub open spec fn enter(m: Machine) -> (Machine, Outcome) {
    match m.stack.last() {
        Datum::Function(f) => if m.frames.len() >= FRAMES_MAX {
            fault(m, InterpErr::FrameOverflow)
        } else if m.stack.len() + f.code.locals > STACK_MAX {
            fault(m, InterpErr::StackOverflow)
        } else {
            (
                Machine {
                    stack: m.stack + units(f.code.locals as nat),
                    frames: m.frames.push(
                        StackFrame { stack_slot: (m.stack.len() - 1) as usize, ip: 0 },
                    ),
                    globals: m.globals,
                    constants: m.constants,
                    waiting: m.waiting,
                    session: m.session,
                },
                Outcome::Continue,
            )
        },
        _ => fault(m, InterpErr::Uncallable),
    }
}

/// `Call`: enter a function, or hand a foreign function, popped together with
/// its arguments, to the host. The arguments reach the host in the order in
/// which they were pushed.
pub open spec fn call_step(m: Machine, argc: u32) -> (Machine, Outcome) {
    if m.stack.len() < 1 {
        fault(m, InterpErr::StackUnderflow)
    } else {
        match m.peek(0) {
            Datum::Function(_) => enter(m),
            Datum::ForeignFunction(f) => if m.stack.len() < 1 + argc {
                fault(m, InterpErr::StackUnderflow)
            } else {
                (
                    m.with_stack(m.below(1 + argc)).with_waiting(true),
                    Outcome::Host(
                        RequestModel {
                            op: HostOpModel::Foreign(f),
                            args: m.stack.subrange(
                                m.stack.len() - 1 - argc,
                                m.stack.len() - 1,
                            ),
                        },
                    ),
                )
            },
            _ => fault(m, InterpErr::Uncallable),
        }
    }
}

/// `GetGlobal`: push a copy of a global.
pub open spec fn get_global_step(m: Machine, slot: u32) -> (Machine, Outcome) {
    if slot >= m.globals.len() {
        fault(m, InterpErr::UndefinedGlobal)
    } else {
        grow(m, m.globals[slot as int])
    }
}

/// The pointer to a cell of a space: it claims the kind of what the cell
/// holds.
pub open spec fn pointer_to(cells: Seq<Datum>, space: Space, index: int) -> Datum {
    Datum::Pointer(
        PointerModel { kind: kind_of(cells[index]), space, path: seq![index as usize] },
    )
}

/// `GetGlobalPtr`: push the address of a global.
pub open spec fn get_global_ptr_step(m: Machine, slot: u32) -> (Machine, Outcome) {
    if slot >= m.globals.len() {
        fault(m, InterpErr::UndefinedGlobal)
    } else {
        grow(m, pointer_to(m.globals, Space::Global, slot as int))
    }
}

/// `SetGlobal`: pop a value into a global.
pub open spec fn set_global_step(m: Machine, slot: u32) -> (Machine, Outcome) {
    if m.stack.len() < 1 {
        fault(m, InterpErr::StackUnderflow)
    } else if slot >= m.globals.len() {
        fault(m, InterpErr::UndefinedGlobal)
    } else {
        proceed(m.with_globals(m.globals.update(slot as int, m.peek(0))), m.below(1))
    }
}

/// `Peek`: push a copy of a frame-relative slot.
pub open spec fn peek_step(m: Machine, slot: i32) -> (Machine, Outcome) {
    if !(0 <= m.slot(slot) < m.stack.len()) {
        fault(m, InterpErr::InvalidSlot)
    } else {
        grow(m, m.stack[m.slot(slot)])
    }
}

/// `PeekPtr`: push the address of a frame-relative slot.
pub open spec fn peek_ptr_step(m: Machine, slot: i32) -> (Machine, Outcome) {
    if !(0 <= m.slot(slot) < m.stack.len()) {
        fault(m, InterpErr::InvalidSlot)
    } else {
        grow(m, pointer_to(m.stack, Space::Stack, m.slot(slot)))
    }
}

/// `SetLocal`: pop a value into a frame-relative slot.
pub open spec fn set_local_step(m: Machine, slot: i32) -> (Machine, Outcome) {
    if m.stack.len() < 1 {
        fault(m, InterpErr::StackUnderflow)
    } else if !(0 <= m.slot(slot) < m.stack.len() - 1) {
        fault(m, InterpErr::InvalidSlot)
    } else {
        proceed(m, m.below(1).update(m.slot(slot), m.peek(0)))
    }
}

/// Element `i` of a container: of an aggregate or an array, or of what a
/// pointer leads to.
pub open spec fn indexed(m: Machine, container: Datum, i: usize) -> Result<Datum, InterpErr> {
    match container {
        Datum::Pointer(p) => match load_cell(m.cells(p.space), p.path.push(i)) {
            Some(e) => Ok(e),
            None => Err(InterpErr::InvalidPointer),
        },
        Datum::Aggregate(_) | Datum::Array(_) => match crate::memory::element(container, i as int) {
            Some(e) => Ok(e),
            None => Err(InterpErr::IndexOutOfBounds),
        },
        _ => Err(InterpErr::InvalidOperand),
    }
}

/// The address of element `i` of what a pointer leads to.
pub open spec fn indexed_ptr(m: Machine, container: Datum, i: usize) -> Result<Datum, InterpErr> {
    match container {
        Datum::Pointer(p) => match load_cell(m.cells(p.space), p.path.push(i)) {
            Some(e) => Ok(
                Datum::Pointer(
                    PointerModel { kind: kind_of(e), space: p.space, path: p.path.push(i) },
                ),
            ),
            None => Err(InterpErr::InvalidPointer),
        },
        _ => Err(InterpErr::InvalidOperand),
    }
}

/// An index operand: an unsigned machine word.
pub open spec fn index_operand(d: Datum) -> Option<usize> {
    match d {
        Datum::Uint(i) => Some(i),
        _ => None,
    }
}

/// `Index` and `IndexPtr`: the index is on top, the container below it.
pub open spec fn index_step(m: Machine, address: bool) -> (Machine, Outcome) {
    if m.stack.len() < 2 {
        fault(m, InterpErr::StackUnderflow)
    } else {
        match index_operand(m.peek(0)) {
            Some(i) => match (if address {
                indexed_ptr(m, m.peek(1), i)
            } else {
                indexed(m, m.peek(1), i)
            }) {
                Ok(d) => proceed(m, m.below(2).push(d)),
                Err(e) => fault(m, e),
            },
            None => fault(m, InterpErr::InvalidOperand),
        }
    }
}

/// `ConstIndex` and `ConstIndexPtr`: the index is in the instruction.
pub open spec fn const_index_step(m: Machine, i: u32, address: bool) -> (Machine, Outcome) {
    if m.stack.len() < 1 {
        fault(m, InterpErr::StackUnderflow)
    } else {
        match (if address {
            indexed_ptr(m, m.peek(0), i as usize)
        } else {
            indexed(m, m.peek(0), i as usize)
        }) {
            Ok(d) => proceed(m, m.below(1).push(d)),
            Err(e) => fault(m, e),
        }
    }
}

/// The pointer moved on by `i` elements: the last index of its path grows
/// by `i`.
pub open spec fn shifted(p: PointerModel, i: usize) -> Option<PointerModel> {
    if p.path.len() > 0 && p.path.last() + i <= usize::MAX {
        Some(
            PointerModel {
                kind: p.kind,
                space: p.space,
                path: p.path.drop_last().push((p.path.last() + i) as usize),
            },
        )
    } else {
        None
    }
}

/// `Offset`: the index is on top, the pointer to move below it.
pub open spec fn offset_step(m: Machine) -> (Machine, Outcome) {
    if m.stack.len() < 2 {
        fault(m, InterpErr::StackUnderflow)
    } else {
        match (m.peek(1), index_operand(m.peek(0))) {
            (Datum::Pointer(p), Some(i)) => match shifted(p, i) {
                Some(q) => proceed(m, m.below(2).push(Datum::Pointer(q))),
                None => fault(m, InterpErr::InvalidPointer),
            },
            _ => fault(m, InterpErr::InvalidOperand),
        }
    }
}

/// Write `d` through `p`, on a machine whose stack is already `rest`.
pub open spec fn write_through(m: Machine, rest: Seq<Datum>, p: PointerModel, d: Datum) -> (
    Machine,
    Outcome,
) {
    if kind_of(d) != p.kind {
        fault(m, InterpErr::InvalidOperand)
    } else {
        match store_cell(m.with_stack(rest).cells(p.space), p.path, d) {
            Some(cells) => (
                m.with_stack(rest).with_cells(p.space, cells).advance(),
                Outcome::Continue,
            ),
            None => fault(m, InterpErr::InvalidPointer),
        }
    }
}

/// `Assign`: the pointer is on top, the value to store below it.
pub open spec fn assign_step(m: Machine) -> (Machine, Outcome) {
    if m.stack.len() < 2 {
        fault(m, InterpErr::StackUnderflow)
    } else {
        match m.peek(0) {
            Datum::Pointer(p) => write_through(m, m.below(2), p, m.peek(1)),
            _ => fault(m, InterpErr::InvalidOperand),
        }
    }
}

/// `Cast`: convert the value on top, or ask the host where a floating-point
/// number is involved.
pub open spec fn cast_step(m: Machine, target: CastInstruction) -> (Machine, Outcome) {
    if m.stack.len() < 1 {
        fault(m, InterpErr::StackUnderflow)
    } else if cast_needs_host(m.peek(0), target) {
        ask(m, HostOpModel::Cast(target), 1)
    } else {
        match cast(m.peek(0), target) {
            Ok(d) => proceed(m, m.below(1).push(d)),
            Err(e) => fault(m, e),
        }
    }
}

/// `AggregateAlloc`: push an empty aggregate.
pub open spec fn aggregate_alloc_step(m: Machine) -> (Machine, Outcome) {
    grow(m, Datum::Aggregate(Seq::empty()))
}

/// `AggregatePush`: append the value on top to the aggregate below it.
pub open spec fn aggregate_push_step(m: Machine) -> (Machine, Outcome) {
    if m.stack.len() < 2 {
        fault(m, InterpErr::StackUnderflow)
    } else {
        match m.peek(1) {
            Datum::Aggregate(items) => proceed(
                m,
                m.below(2).push(Datum::Aggregate(items.push(m.peek(0)))),
            ),
            _ => fault(m, InterpErr::InvalidOperand),
        }
    }
}

/// `ArrayAlloc`: replace the element kind on top by a zeroed array of `size`
/// elements of that kind.
pub open spec fn array_alloc_step(m: Machine, size: u32) -> (Machine, Outcome) {
    if m.stack.len() < 1 {
        fault(m, InterpErr::StackUnderflow)
    } else {
        match m.peek(0) {
            Datum::Type(ty) => if size * width(ty) > usize::MAX {
                fault(m, InterpErr::Overflow)
            } else {
                proceed(m, m.below(1).push(Datum::Array(array_zeroed(ty, size as nat))))
            },
            _ => fault(m, InterpErr::InvalidOperand),
        }
    }
}

/// `ArrayPut`: store the scalar on top into the array below it, at a byte
/// offset.
pub open spec fn array_put_step(m: Machine, pos: u32) -> (Machine, Outcome) {
    if m.stack.len() < 2 {
        fault(m, InterpErr::StackUnderflow)
    } else {
        match m.peek(1) {
            Datum::Array(a) => if scalar_of(m.peek(0)) != Some(a.ty) {
                fault(m, InterpErr::InvalidOperand)
            } else {
                match array_write(a, pos as int, m.peek(0)) {
                    Some(changed) => proceed(m, m.below(2).push(Datum::Array(changed))),
                    None => fault(m, InterpErr::IndexOutOfBounds),
                }
            },
            _ => fault(m, InterpErr::InvalidOperand),
        }
    }
}

/// The array with its first `n` elements set to `d`.
pub open spec fn array_filled(a: ArrayModel, d: Datum, n: nat) -> Option<ArrayModel>
    decreases n,
{
    if n == 0 {
        Some(a)
    } else {
        match array_filled(a, d, (n - 1) as nat) {
            Some(b) => array_set(b, n - 1, d),
            None => None,
        }
    }
}

/// `ArrayFill`: set the first `size` elements of the array below the top to
/// the scalar on top.
pub open spec fn array_fill_step(m: Machine, size: u32) -> (Machine, Outcome) {
    if m.stack.len() < 2 {
        fault(m, InterpErr::StackUnderflow)
    } else {
        match m.peek(1) {
            Datum::Array(a) => if scalar_of(m.peek(0)) != Some(a.ty) {
                fault(m, InterpErr::InvalidOperand)
            } else {
                match array_filled(a, m.peek(0), size as nat) {
                    Some(changed) => proceed(m, m.below(2).push(Datum::Array(changed))),
                    None => fault(m, InterpErr::IndexOutOfBounds),
                }
            },
            _ => fault(m, InterpErr::InvalidOperand),
        }
    }
}

/// `Copy`: push a copy of the value `offset` places below the top.
pub open spec fn copy_step(m: Machine, offset: u32) -> (Machine, Outcome) {
    if offset >= m.stack.len() {
        fault(m, InterpErr::InvalidSlot)
    } else {
        grow(m, m.peek(offset as int))
    }
}

/// `Roll`: move the value `offset` places below the top to the top.
pub open spec fn roll_step(m: Machine, offset: u32) -> (Machine, Outcome) {
    if offset >= m.stack.len() {
        fault(m, InterpErr::InvalidSlot)
    } else {
        proceed(m, m.stack.remove(m.stack.len() - 1 - offset).push(m.peek(offset as int)))
    }
}

/// An integer one higher, wrapping at its width.
pub open spec fn incremented(d: Datum) -> Option<Datum> {
    match d {
        Datum::I8(v) => Some(Datum::I8(v.wrapping_add(1))),
        Datum::I16(v) => Some(Datum::I16(v.wrapping_add(1))),
        Datum::I32(v) => Some(Datum::I32(v.wrapping_add(1))),
        Datum::I64(v) => Some(Datum::I64(v.wrapping_add(1))),
        Datum::Int(v) => Some(Datum::Int(v.wrapping_add(1))),
        Datum::U8(v) => Some(Datum::U8(v.wrapping_add(1))),
        Datum::U16(v) => Some(Datum::U16(v.wrapping_add(1))),
        Datum::U32(v) => Some(Datum::U32(v.wrapping_add(1))),
        Datum::U64(v) => Some(Datum::U64(v.wrapping_add(1))),
        Datum::Uint(v) => Some(Datum::Uint(v.wrapping_add(1))),
        _ => None,
    }
}

/// `Increment`: the integer that the pointer on top leads to grows by one.
pub open spec fn increment_step(m: Machine) -> (Machine, Outcome) {
    if m.stack.len() < 1 {
        fault(m, InterpErr::StackUnderflow)
    } else {
        match m.peek(0) {
            Datum::Pointer(p) => match deref(m.with_stack(m.below(1)).cells(p.space), p) {
                Some(d) => match incremented(d) {
                    Some(up) => write_through(m, m.below(1), p, up),
                    None => fault(m, InterpErr::InvalidOperand),
                },
                None => fault(m, InterpErr::InvalidPointer),
            },
            _ => fault(m, InterpErr::InvalidOperand),
        }
    }
}

/// The first `len` bytes of an array from a byte offset on, if it has them.
pub open spec fn byte_run(a: ArrayModel, start: int, len: usize) -> Option<Seq<u8>> {
    if start + len <= a.bytes.len() {
        Some(a.bytes.subrange(start, start + len))
    } else {
        None
    }
}

/// The `len` bytes that a pointer addresses: those at the start of the
/// array it leads to, or those that start at the array element it leads to.
pub open spec fn bytes_at(cells: Seq<Datum>, p: PointerModel, len: usize) -> Option<Seq<u8>> {
    match load_cell(cells, p.path) {
        Some(Datum::Array(a)) => byte_run(a, 0, len),
        _ => if p.path.len() < 2 {
            None
        } else {
            match load_cell(cells, p.path.drop_last()) {
                Some(Datum::Array(a)) => byte_run(a, p.path.last() * width(a.ty), len),
                _ => None,
            }
        },
    }
}

/// The two parts of a slice: where its bytes start, and how many they are.
pub open spec fn slice_parts(d: Datum) -> Option<(PointerModel, usize)> {
    match d {
        Datum::Aggregate(items) => if items.len() == 2 {
            match (items[0], items[1]) {
                (Datum::Pointer(p), Datum::Uint(len)) => Some((p, len)),
                _ => None,
            }
        } else {
            None
        },
        _ => None,
    }
}

/// `Panic`: the slice on top names the bytes of the message.
pub open spec fn panic_step(m: Machine) -> (Machine, Outcome) {
    if m.stack.len() < 1 {
        fault(m, InterpErr::StackUnderflow)
    } else {
        match slice_parts(m.peek(0)) {
            Some((p, len)) => match bytes_at(m.with_stack(m.below(1)).cells(p.space), p, len) {
                Some(message) => (m.with_stack(m.below(1)), Outcome::Panicked(message)),
                None => fault(m, InterpErr::InvalidPointer),
            },
            None => fault(m, InterpErr::InvalidOperand),
        }
    }
}

/// What one instruction does to the machine.
pub open spec fn execute(m: Machine, inst: Instruction) -> (Machine, Outcome) {
    match inst {
        Instruction::Noop => proceed(m, m.stack),
        Instruction::Pop => pop_step(m),
        Instruction::PushConst(addr) => push_const_step(m, addr),
        Instruction::Add => binary_step(m, BinaryOp::Add),
        Instruction::Sub => binary_step(m, BinaryOp::Sub),
        Instruction::Mul => binary_step(m, BinaryOp::Mul),
        Instruction::Div => binary_step(m, BinaryOp::Div),
        Instruction::Rem => binary_step(m, BinaryOp::Rem),
        Instruction::Neg => neg_step(m),
        Instruction::Not => not_step(m),
        Instruction::Deref => deref_step(m),
        Instruction::Eq => compare_step(m, CompareOp::Eq),
        Instruction::Neq => compare_step(m, CompareOp::Neq),
        Instruction::Lt => compare_step(m, CompareOp::Lt),
        Instruction::LtEq => compare_step(m, CompareOp::LtEq),
        Instruction::Gt => compare_step(m, CompareOp::Gt),
        Instruction::GtEq => compare_step(m, CompareOp::GtEq),
        Instruction::And => logic_step(m, LogicOp::And),
        Instruction::Or => logic_step(m, LogicOp::Or),
        Instruction::Jmp(offset) => jmp_step(m, offset),
        Instruction::Jmpt(offset) => branch_step(m, offset, true),
        Instruction::Jmpf(offset) => branch_step(m, offset, false),
        Instruction::Return => return_step(m),
        Instruction::Call(argc) => call_step(m, argc),
        Instruction::GetGlobal(slot) => get_global_step(m, slot),
        Instruction::GetGlobalPtr(slot) => get_global_ptr_step(m, slot),
        Instruction::SetGlobal(slot) => set_global_step(m, slot),
        Instruction::Peek(slot) => peek_step(m, slot),
        Instruction::PeekPtr(slot) => peek_ptr_step(m, slot),
        Instruction::SetLocal(slot) => set_local_step(m, slot),
        Instruction::Index => index_step(m, false),
        Instruction::IndexPtr => index_step(m, true),
        Instruction::Offset => offset_step(m),
        Instruction::ConstIndex(i) => const_index_step(m, i, false),
        Instruction::ConstIndexPtr(i) => const_index_step(m, i, true),
        Instruction::Assign => assign_step(m),
        Instruction::Cast(target) => cast_step(m, target),
        Instruction::AggregateAlloc => aggregate_alloc_step(m),
        Instruction::AggregatePush => aggregate_push_step(m),
        Instruction::ArrayAlloc(size) => array_alloc_step(m, size),
        Instruction::ArrayPut(pos) => array_put_step(m, pos),
        Instruction::ArrayFill(size) => array_fill_step(m, size),
        Instruction::Copy(offset) => copy_step(m, offset),
        Instruction::Roll(offset) => roll_step(m, offset),
        Instruction::Increment => increment_step(m),
        Instruction::Panic => panic_step(m),
        Instruction::Halt => halt_step(m),
    }
}

/// By how much an instruction that is done changes the number of values on
/// the stack. `Call` and `Return` have no fixed effect, and a run does not
/// go on after `Panic` or `Halt`.
pub open spec fn stack_effect(inst: Instruction) -> Option<int> {
    match inst {
        Instruction::Noop => Some(0),
        Instruction::Pop => Some(-1),
        Instruction::PushConst(_) => Some(1),
        Instruction::Add
        | Instruction::Sub
        | Instruction::Mul
        | Instruction::Div
        | Instruction::Rem => Some(-1),
        Instruction::Neg | Instruction::Not | Instruction::Deref => Some(0),
        Instruction::Eq
        | Instruction::Neq
        | Instruction::Lt
        | Instruction::LtEq
        | Instruction::Gt
        | Instruction::GtEq => Some(-1),
        Instruction::And | Instruction::Or => Some(-1),
        Instruction::Jmp(_) => Some(0),
        Instruction::Jmpt(_) | Instruction::Jmpf(_) => Some(-1),
        Instruction::Return | Instruction::Call(_) => None,
        Instruction::GetGlobal(_) | Instruction::GetGlobalPtr(_) => Some(1),
        Instruction::SetGlobal(_) => Some(-1),
        Instruction::Peek(_) | Instruction::PeekPtr(_) => Some(1),
        Instruction::SetLocal(_) => Some(-1),
        Instruction::Index | Instruction::IndexPtr | Instruction::Offset => Some(-1),
        Instruction::ConstIndex(_) | Instruction::ConstIndexPtr(_) => Some(0),
        Instruction::Assign => Some(-2),
        Instruction::Cast(_) => Some(0),
        Instruction::AggregateAlloc => Some(1),
        Instruction::AggregatePush => Some(-1),
        Instruction::ArrayAlloc(_) => Some(0),
        Instruction::ArrayPut(_) | Instruction::ArrayFill(_) => Some(-1),
        Instruction::Copy(_) => Some(1),
        Instruction::Roll(_) => Some(0),
        Instruction::Increment => Some(-1),
        Instruction::Panic | Instruction::Halt => None,
    }
}

/// One turn of the fetch-decode-execute cycle. A machine that waits for
/// the host takes no step.
#[verifier::opaque]
pub open spec fn step(m: Machine) -> (Machine, Outcome) {
    if m.waiting {
        fault(m, InterpErr::AwaitingHost)
    } else {
        match fetch(m) {
            Ok(inst) => execute(m, inst),
            Err(e) => fault(m, e),
        }
    }
}

/// The host's result arrives: it is pushed, the instruction that asked for
/// it is done, and the machine waits no longer.
pub open spec fn resume(m: Machine, d: Datum) -> (Machine, Outcome) {
    if !m.waiting {
        fault(m, InterpErr::NotAwaitingHost)
    } else if m.frames.len() == 0 {
        fault(m, InterpErr::NoFrame)
    } else if m.frame().ip >= usize::MAX {
        fault(m, InterpErr::InvalidInstructionPointer)
    } else if m.stack.len() >= STACK_MAX {
        fault(m, InterpErr::StackOverflow)
    } else {
        proceed(m.with_waiting(false), m.stack.push(d))
    }
}

/// Start a run of `f`: push it, enter it, and run. A function that cannot
/// be entered leaves the machine as it was.
pub open spec fn start(m: Machine, f: FuncModel, fuel: nat) -> (Machine, Outcome) {
    if m.stack.len() >= STACK_MAX {
        fault(m, InterpErr::StackOverflow)
    } else {
        let (entered, outcome) = enter(m.with_stack(m.stack.push(Datum::Function(f))));
        if outcome is Continue {
            run(entered, fuel)
        } else {
            (m, outcome)
        }
    }
}

/// Up to `fuel` turns of the cycle: the run stops at the first step that
/// does not end in [`Outcome::Continue`], and ends in `Continue` itself
/// only when the fuel is spent.
pub open spec fn run(m: Machine, fuel: nat) -> (Machine, Outcome)
    decreases fuel,
{
    if fuel == 0 {
        (m, Outcome::Continue)
    } else {
        let (next, outcome) = step(m);
        if outcome is Continue {
            run(next, (fuel - 1) as nat)
        } else {
            (next, outcome)
        }
    }
}

/// A machine is well formed when neither of its stacks is over capacity.
pub open spec fn well_formed(m: Machine) -> bool {
    m.stack.len() <= STACK_MAX && m.frames.len() <= FRAMES_MAX
}

/// A well-formed machine with an active frame whose instruction pointer
/// can still move on.
pub open spec fn ready(m: Machine) -> bool {
    well_formed(m) && m.frames.len() > 0 && m.frame().ip < usize::MAX
}

} // verus!
