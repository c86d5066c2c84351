//! The executable machine.

use crate::arith::{BinaryOp, CompareOp, LogicOp};
use crate::error::InterpErr;
use crate::instruction::{CastInstruction, CompiledCode, Instruction};
use crate::interp::Interp;
use crate::machine::{
    FRAMES_MAX, HostOpModel, Machine, Outcome, RequestModel, STACK_MAX, StackFrame, ask, call_step,
    enter, execute, fetch, ready, resume, return_step, run, start, step, units, well_formed,
};
use crate::stack::Stack;
use crate::value::{Datum, ForeignFunc, Func, Value, group_models, models};
use vstd::prelude::*;

verus! {

broadcast use group_models;

/// Work that only the host can do.
#[derive(Debug)]
pub enum HostOp {
    Foreign(ForeignFunc),
    Arith(BinaryOp),
    Compare(CompareOp),
    Negate,
    Cast(CastInstruction),
}

impl View for HostOp {
    type V = HostOpModel;

    open spec fn view(&self) -> HostOpModel {
        match self {
            HostOp::Foreign(f) => HostOpModel::Foreign(f@),
            HostOp::Arith(op) => HostOpModel::Arith(*op),
            HostOp::Compare(op) => HostOpModel::Compare(*op),
            HostOp::Negate => HostOpModel::Negate,
            HostOp::Cast(target) => HostOpModel::Cast(*target),
        }
    }
}

/// A request to the host: the work, and its operands in the order in which
/// they were pushed.
#[derive(Debug)]
pub struct Request {
    pub op: HostOp,
    pub args: Vec<Value>,
}

impl View for Request {
    type V = RequestModel;

    open spec fn view(&self) -> RequestModel {
        RequestModel { op: self.op@, args: models(self.args@) }
    }
}

/// How a step ended.
#[derive(Debug)]
pub enum Step {
    /// The instruction is done; the run goes on.
    Continue,
    /// The run is over, with this result.
    Finished(Value),
    /// The operands are popped and the machine waits for the host's result:
    /// hand it to [`VM::resume`].
    Host(Request),
    /// The program asked to abort, with this message.
    Panicked(Vec<u8>),
    /// The step could not be taken; the machine is as it was.
    Fault(InterpErr),
}

impl View for Step {
    type V = Outcome;

    open spec fn view(&self) -> Outcome {
        match self {
            Step::Continue => Outcome::Continue,
            Step::Finished(v) => Outcome::Finished(v@),
            Step::Host(r) => Outcome::Host(r@),
            Step::Panicked(bytes) => Outcome::Panicked(bytes@),
            Step::Fault(e) => Outcome::Fault(*e),
        }
    }
}

/// What a slot of the operand stack is to the active frame.
#[derive(Clone, Copy, Debug, PartialEq, Eq, Structural)]
pub enum SlotRole {
    /// The frame's base slot, which holds the function being run.
    Base,
    /// A slot of the frame's own: an argument above the first, or a local.
    Local,
    /// Any other slot.
    Other,
}

/// The role of the slot at `index` for a frame whose base slot is `base`
/// and whose function has `args` arguments and `locals` locals.
pub open spec fn slot_role(index: int, base: int, args: int, locals: int) -> SlotRole {
    if index == base {
        SlotRole::Base
    } else if base - args < index <= base + locals {
        SlotRole::Local
    } else {
        SlotRole::Other
    }
}

impl StackFrame {
    /// The frame of a call that has not yet executed an instruction.
    pub fn new(slot: usize) -> (frame: StackFrame)
        ensures
            frame == (StackFrame { stack_slot: slot, ip: 0 }),
    {
        StackFrame { stack_slot: slot, ip: 0 }
    }
}

/// What the machine keeps of the session state it borrows, whatever it
/// does: the number of globals, and all but the two tables. So a state that
/// was well formed before a run is well formed after it.
pub open spec fn kept(before: Interp, after: Interp) -> bool {
    &&& after.globals@.len() == before.globals@.len()
    &&& after.session() == before.session()
}

/// The machine: an operand stack and a frame stack of its own, and the
/// session's constants and globals, borrowed for the length of a run.
pub struct VM<'vm> {
    pub interp: &'vm mut Interp,
    pub stack: Stack<Value, STACK_MAX>,
    pub frames: Stack<StackFrame, FRAMES_MAX>,
    pub waiting: bool,
}

impl<'vm> View for VM<'vm> {
    type V = Machine;

    open spec fn view(&self) -> Machine {
        Machine {
            stack: models(self.stack@),
            frames: self.frames@,
            globals: models(self.interp.globals@),
            constants: models(self.interp.constants@),
            waiting: self.waiting,
            session: self.interp.session(),
        }
    }
}

impl<'vm> VM<'vm> {
    /// A machine with empty stacks over the session's tables.
    pub fn new(interp: &'vm mut Interp) -> (vm: VM<'vm>)
        ensures
            vm@ == (Machine {
                stack: Seq::empty(),
                frames: Seq::empty(),
                globals: models(old(interp).globals@),
                constants: models(old(interp).constants@),
                waiting: false,
                session: old(interp).session(),
            }),
            *vm.interp == *old(interp),
            *final(interp) == *final(vm.interp),
    {
        let vm = VM { interp, stack: Stack::new(), frames: Stack::new(), waiting: false };
        proof {
            assert(vm@.stack =~= Seq::<Datum>::empty());
        }
        vm
    }

    /// The active frame.
    pub fn frame(&self) -> (frame: &StackFrame)
        requires
            self@.frames.len() > 0,
        ensures
            *frame == self@.frame(),
    {
        self.frames.last()
    }

    /// The function that the active frame runs: the value in its base slot,
    /// if that is a function.
    pub fn func(&self) -> (func: Option<&Func>)
        ensures
            match func {
                Some(f) => self@.function() == Some(f@),
                None => self@.function() is None,
            },
    {
        if self.frames.len() == 0 {
            return None;
        }
        let slot = self.frames.last().stack_slot;
        if slot >= self.stack.len() {
            return None;
        }
        match self.stack.get(slot) {
            Value::Function(f) => Some(f),
            _ => None,
        }
    }

    /// What the slot at `index` is to the active frame. Without a frame, or
    /// without a function in its base slot, every slot is `Other`.
    pub fn role_of(&self, index: usize) -> (role: SlotRole)
        ensures
            role == match self@.function() {
                Some(f) => slot_role(
                    index as int,
                    self@.frame().stack_slot as int,
                    f.arg_types.len() as int,
                    f.code.locals as int,
                ),
                None => SlotRole::Other,
            },
    {
        match self.func() {
            Some(f) => {
                let base = self.frames.last().stack_slot;
                let args = f.arg_types.len();
                let locals = f.code.locals as usize;
                if index == base {
                    SlotRole::Base
                } else if index < base {
                    if base - index < args {
                        SlotRole::Local
                    } else {
                        SlotRole::Other
                    }
                } else if index - base <= locals {
                    SlotRole::Local
                } else {
                    SlotRole::Other
                }
            },
            None => SlotRole::Other,
        }
    }

    /// The code of the function that the active frame runs.
    pub fn code(&self) -> (code: Option<&CompiledCode>)
        ensures
            match code {
                Some(c) => self@.function() is Some && self@.function()->0.code == c@,
                None => self@.function() is None,
            },
    {
        match self.func() {
            Some(f) => Some(&f.code),
            None => None,
        }
    }

    /// The constant at an address of the pool.
    pub fn get_const(&self, addr: u32) -> (constant: Option<&Value>)
        ensures
            match constant {
                Some(v) => addr < self@.constants.len() && v@ == self@.constants[addr as int],
                None => addr >= self@.constants.len(),
            },
    {
        if (addr as usize) < self.interp.constants.len() {
            Some(&self.interp.constants[addr as usize])
        } else {
            None
        }
    }

    /// Moves the active frame to its next instruction.
    pub fn next(&mut self)
        requires
            old(self)@.frames.len() > 0,
            old(self)@.frame().ip < usize::MAX,
        ensures
            *final(final(self).interp) == *final(old(self).interp),
            kept(*old(self).interp, *final(self).interp),
            final(self)@ == old(self)@.advance(),
    {
        let at = self.frames.len() - 1;
        let frame = *self.frames.get(at);
        self.frames.set(at, StackFrame { stack_slot: frame.stack_slot, ip: frame.ip + 1 });
    }

    /// The value `n` places below the top of the stack.
    pub fn top(&self, n: usize) -> (v: &Value)
        requires
            n < self@.stack.len(),
        ensures
            v@ == self@.peek(n as int),
    {
        self.stack.peek(n)
    }

    /// Drops the top `n` values.
    pub fn drop_top(&mut self, n: usize)
        requires
            n <= old(self)@.stack.len(),
        ensures
            *final(final(self).interp) == *final(old(self).interp),
            kept(*old(self).interp, *final(self).interp),
            final(self)@ == old(self)@.with_stack(old(self)@.below(n as int)),
    {
        let keep = self.stack.len() - n;
        self.stack.truncate(keep);
    }

    /// Pushes a value.
    pub fn put(&mut self, v: Value)
        requires
            old(self)@.stack.len() < STACK_MAX,
        ensures
            *final(final(self).interp) == *final(old(self).interp),
            kept(*old(self).interp, *final(self).interp),
            final(self)@ == old(self)@.with_stack(old(self)@.stack.push(v@)),
    {
        self.stack.push(v);
    }

    /// Replaces the top `n` values by one and moves on.
    pub(crate) fn settle(&mut self, n: usize, v: Value) -> (r: Step)
        requires
            1 <= n <= old(self)@.stack.len(),
            well_formed(old(self)@),
            old(self)@.frames.len() > 0,
            old(self)@.frame().ip < usize::MAX,
        ensures
            *final(final(self).interp) == *final(old(self).interp),
            kept(*old(self).interp, *final(self).interp),
            (final(self)@, r@) == crate::machine::proceed(
                old(self)@,
                old(self)@.below(n as int).push(v@),
            ),
            well_formed(final(self)@),
    {
        self.drop_top(n);
        self.put(v);
        self.next();
        Step::Continue
    }

    /// Pushes one more value, if there is room, and moves on.
    pub(crate) fn grow(&mut self, v: Value) -> (r: Step)
        requires
            well_formed(old(self)@),
            old(self)@.frames.len() > 0,
            old(self)@.frame().ip < usize::MAX,
        ensures
            *final(final(self).interp) == *final(old(self).interp),
            kept(*old(self).interp, *final(self).interp),
            (final(self)@, r@) == crate::machine::grow(old(self)@, v@),
            well_formed(final(self)@),
    {
        if self.stack.len() >= STACK_MAX {
            Step::Fault(InterpErr::StackOverflow)
        } else {
            self.put(v);
            self.next();
            Step::Continue
        }
    }

    /// Hands the top `n` values to the host.
    pub(crate) fn ask(&mut self, op: HostOp, n: usize) -> (r: Step)
        requires
            n <= old(self)@.stack.len(),
            well_formed(old(self)@),
        ensures
            *final(final(self).interp) == *final(old(self).interp),
            kept(*old(self).interp, *final(self).interp),
            (final(self)@, r@) == ask(old(self)@, op@, n as int),
            well_formed(final(self)@),
    {
        let at = self.stack.len() - n;
        let args = self.stack.split_off(at);
        self.waiting = true;
        Step::Host(Request { op, args })
    }

    /// Enters the function on top of the stack: pushes its frame, whose base
    /// slot is the function's own, and a unit placeholder for each local.
    pub fn push_frame(&mut self) -> (r: Step)
        requires
            well_formed(old(self)@),
            old(self)@.stack.len() > 0,
        ensures
            old(self).interp.wf() ==> final(self).interp.wf(),
            *final(final(self).interp) == *final(old(self).interp),
            kept(*old(self).interp, *final(self).interp),
            (final(self)@, r@) == enter(old(self)@),
            well_formed(final(self)@),
    {
        let locals = match self.stack.last() {
            Value::Function(f) => f.code.locals as usize,
            _ => {
                return Step::Fault(InterpErr::Uncallable);
            },
        };
        if self.frames.len() >= FRAMES_MAX {
            return Step::Fault(InterpErr::FrameOverflow);
        }
        let base = self.stack.len() - 1;
        if locals > STACK_MAX - self.stack.len() {
            return Step::Fault(InterpErr::StackOverflow);
        }
        let mut i: usize = 0;
        while i < locals
            invariant
                i <= locals,
                base + 1 + locals <= STACK_MAX,
                self.stack@.len() == base + 1 + i,
                self@.stack =~= old(self)@.stack + units(i as nat),
                self@.frames == old(self)@.frames,
                self@.globals == old(self)@.globals,
                self@.constants == old(self)@.constants,
                self@.waiting == old(self)@.waiting,
                self@.session == old(self)@.session,
                *final(self.interp) == *final(old(self).interp),
                kept(*old(self).interp, *self.interp),
                old(self)@.stack.len() == base + 1,
            decreases locals - i,
        {
            self.stack.push(Value::Unit);
            i += 1;
        }
        self.frames.push(StackFrame::new(base));
        Step::Continue
    }

    /// Executes `Call`.
    pub(crate) fn op_call(&mut self, argc: u32) -> (r: Step)
        requires
            ready(old(self)@),
        ensures
            *final(final(self).interp) == *final(old(self).interp),
            kept(*old(self).interp, *final(self).interp),
            (final(self)@, r@) == call_step(old(self)@, argc),
            well_formed(final(self)@),
    {
        if self.stack.len() < 1 {
            return Step::Fault(InterpErr::StackUnderflow);
        }
        match self.top(0) {
            Value::Function(_) => self.push_frame(),
            Value::ForeignFunction(_) => {
                if self.stack.len() - 1 < argc as usize {
                    return Step::Fault(InterpErr::StackUnderflow);
                }
                let callee = self.stack.pop();
                let at = self.stack.len() - argc as usize;
                let args = self.stack.split_off(at);
                self.waiting = true;
                proof {
                    assert(self@.stack =~= old(self)@.below(1 + argc));
                    assert(args@ =~= old(self).stack@.subrange(
                        old(self).stack@.len() - 1 - argc,
                        old(self).stack@.len() - 1,
                    ));
                }
                match callee {
                    Value::ForeignFunction(f) => Step::Host(
                        Request { op: HostOp::Foreign(f), args },
                    ),
                    _ => Step::Fault(InterpErr::Uncallable),
                }
            },
            _ => Step::Fault(InterpErr::Uncallable),
        }
    }

    /// Executes `Return`.
    pub(crate) fn op_return(&mut self) -> (r: Step)
        requires
            ready(old(self)@),
        ensures
            *final(final(self).interp) == *final(old(self).interp),
            kept(*old(self).interp, *final(self).interp),
            (final(self)@, r@) == return_step(old(self)@),
            well_formed(final(self)@),
    {
        if self.stack.len() < 1 {
            return Step::Fault(InterpErr::StackUnderflow);
        }
        if self.frames.len() == 1 {
            self.frames.pop();
            let result = self.stack.pop();
            return Step::Finished(result);
        }
        let base = self.frames.last().stack_slot;
        let argc = match self.func() {
            Some(f) => f.arg_types.len(),
            None => {
                return Step::Fault(InterpErr::InvalidFrame);
            },
        };
        if self.stack.len() - 1 <= base || base < argc {
            return Step::Fault(InterpErr::StackUnderflow);
        }
        let caller = *self.frames.get(self.frames.len() - 2);
        if caller.ip >= usize::MAX {
            return Step::Fault(InterpErr::InvalidInstructionPointer);
        }
        self.frames.pop();
        let result = self.stack.pop();
        self.stack.truncate(base - argc);
        self.stack.push(result);
        proof {
            assert(self@.stack =~= old(self)@.stack.subrange(0, base - argc).push(
                old(self)@.peek(0),
            ));
        }
        self.next();
        Step::Continue
    }

    /// The instruction that the machine is about to execute.
    pub fn fetch(&self) -> (r: Result<Instruction, InterpErr>)
        ensures
            r == fetch(self@),
            r is Ok ==> self@.frames.len() > 0 && self@.frame().ip < usize::MAX,
    {
        if self.frames.len() == 0 {
            return Err(InterpErr::NoFrame);
        }
        let ip = self.frame().ip;
        match self.code() {
            Some(code) => {
                if ip < code.instructions.len() {
                    Ok(code.instructions[ip])
                } else {
                    Err(InterpErr::InvalidInstructionPointer)
                }
            },
            None => Err(InterpErr::InvalidFrame),
        }
    }

    /// One turn of the fetch-decode-execute cycle.
    pub fn step(&mut self) -> (r: Step)
        requires
            well_formed(old(self)@),
        ensures
            old(self).interp.wf() ==> final(self).interp.wf(),
            *final(final(self).interp) == *final(old(self).interp),
            kept(*old(self).interp, *final(self).interp),
            (final(self)@, r@) == step(old(self)@),
            well_formed(final(self)@),
    {
        proof {
            reveal(step);
        }
        if self.waiting {
            return Step::Fault(InterpErr::AwaitingHost);
        }
        let inst = match self.fetch() {
            Ok(inst) => inst,
            Err(e) => {
                return Step::Fault(e);
            },
        };
        match inst {
            Instruction::Noop => {
                self.next();
                Step::Continue
            },
            Instruction::Pop => self.op_pop(),
            Instruction::PushConst(addr) => self.op_push_const(addr),
            Instruction::Add => self.op_binary(BinaryOp::Add),
            Instruction::Sub => self.op_binary(BinaryOp::Sub),
            Instruction::Mul => self.op_binary(BinaryOp::Mul),
            Instruction::Div => self.op_binary(BinaryOp::Div),
            Instruction::Rem => self.op_binary(BinaryOp::Rem),
            Instruction::Neg => self.op_neg(),
            Instruction::Not => self.op_not(),
            Instruction::Deref => self.op_deref(),
            Instruction::Eq => self.op_compare(CompareOp::Eq),
            Instruction::Neq => self.op_compare(CompareOp::Neq),
            Instruction::Lt => self.op_compare(CompareOp::Lt),
            Instruction::LtEq => self.op_compare(CompareOp::LtEq),
            Instruction::Gt => self.op_compare(CompareOp::Gt),
            Instruction::GtEq => self.op_compare(CompareOp::GtEq),
            Instruction::And => self.op_logic(LogicOp::And),
            Instruction::Or => self.op_logic(LogicOp::Or),
            Instruction::Jmp(offset) => self.jmp(offset),
            Instruction::Jmpt(offset) => self.op_branch(offset, true),
            Instruction::Jmpf(offset) => self.op_branch(offset, false),
            Instruction::Return => self.op_return(),
            Instruction::Call(argc) => self.op_call(argc),
            Instruction::GetGlobal(slot) => self.op_get_global(slot),
            Instruction::GetGlobalPtr(slot) => self.op_get_global_ptr(slot),
            Instruction::SetGlobal(slot) => self.op_set_global(slot),
            Instruction::Peek(slot) => self.op_peek(slot),
            Instruction::PeekPtr(slot) => self.op_peek_ptr(slot),
            Instruction::SetLocal(slot) => self.op_set_local(slot),
            Instruction::Index => self.op_index(false),
            Instruction::IndexPtr => self.op_index(true),
            Instruction::Offset => self.op_offset(),
            Instruction::ConstIndex(i) => self.op_const_index(i, false),
            Instruction::ConstIndexPtr(i) => self.op_const_index(i, true),
            Instruction::Assign => self.op_assign(),
            Instruction::Cast(target) => self.op_cast(target),
            Instruction::AggregateAlloc => self.op_aggregate_alloc(),
            Instruction::AggregatePush => self.op_aggregate_push(),
            Instruction::ArrayAlloc(size) => self.op_array_alloc(size),
            Instruction::ArrayPut(pos) => self.op_array_put(pos),
            Instruction::ArrayFill(size) => self.op_array_fill(size),
            Instruction::Copy(offset) => self.op_copy(offset),
            Instruction::Roll(offset) => self.op_roll(offset),
            Instruction::Increment => self.op_increment(),
            Instruction::Panic => self.op_panic(),
            Instruction::Halt => self.op_halt(),
        }
    }

    /// Takes up to `max_steps` turns of the cycle. The run stops at the
    /// first step that does not end in [`Step::Continue`]; it ends in
    /// `Continue` itself only when the steps are used up.
    pub fn run(&mut self, max_steps: u64) -> (r: Step)
        requires
            well_formed(old(self)@),
        ensures
            old(self).interp.wf() ==> final(self).interp.wf(),
            *final(final(self).interp) == *final(old(self).interp),
            kept(*old(self).interp, *final(self).interp),
            (final(self)@, r@) == run(old(self)@, max_steps as nat),
            well_formed(final(self)@),
    {
        let mut left = max_steps;
        while left > 0
            invariant
                well_formed(self@),
                *final(self.interp) == *final(old(self).interp),
                kept(*old(self).interp, *self.interp),
                old(self).interp.wf() ==> self.interp.wf(),
                run(self@, left as nat) == run(old(self)@, max_steps as nat),
            decreases left,
        {
            let r = self.step();
            match r {
                Step::Continue => {
                    left -= 1;
                },
                other => {
                    return other;
                },
            }
        }
        Step::Continue
    }

    /// Starts a run of `func`: pushes it, enters it, and takes up to
    /// `max_steps` turns of the cycle.
    pub fn run_func(&mut self, func: Func, max_steps: u64) -> (r: Step)
        requires
            well_formed(old(self)@),
        ensures
            old(self).interp.wf() ==> final(self).interp.wf(),
            *final(final(self).interp) == *final(old(self).interp),
            kept(*old(self).interp, *final(self).interp),
            (final(self)@, r@) == start(old(self)@, func@, max_steps as nat),
            well_formed(final(self)@),
    {
        if self.stack.len() >= STACK_MAX {
            return Step::Fault(InterpErr::StackOverflow);
        }
        self.stack.push(Value::Function(func));
        match self.push_frame() {
            Step::Continue => self.run(max_steps),
            other => {
                self.stack.pop();
                proof {
                    assert(self@.stack =~= old(self)@.stack);
                }
                other
            },
        }
    }

    /// Takes the host's result for the request that the machine waits on:
    /// pushes it and moves on. A machine that does not wait refuses it.
    pub fn resume(&mut self, result: Value) -> (r: Step)
        requires
            well_formed(old(self)@),
        ensures
            old(self).interp.wf() ==> final(self).interp.wf(),
            *final(final(self).interp) == *final(old(self).interp),
            kept(*old(self).interp, *final(self).interp),
            (final(self)@, r@) == resume(old(self)@, result@),
            well_formed(final(self)@),
    {
        if !self.waiting {
            return Step::Fault(InterpErr::NotAwaitingHost);
        }
        if self.frames.len() == 0 {
            return Step::Fault(InterpErr::NoFrame);
        }
        if self.frames.last().ip >= usize::MAX {
            return Step::Fault(InterpErr::InvalidInstructionPointer);
        }
        if self.stack.len() >= STACK_MAX {
            return Step::Fault(InterpErr::StackOverflow);
        }
        self.waiting = false;
        self.put(result);
        self.next();
        Step::Continue
    }
}

} // verus!
