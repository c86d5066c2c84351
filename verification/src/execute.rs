//! The instructions, one method each.
//!
//! Every method checks what the instruction needs before it changes
//! anything, so that a fault leaves the machine as it was.

use crate::arith::{
    BinaryOp, CompareOp, LogicOp, binary_op, compare_op, complement_op, is_float_pair,
    is_float_value, logic_op, negate_op,
};
use crate::cast::{cast_op, needs_host};
use crate::error::InterpErr;
use crate::instruction::CastInstruction;
use crate::machine::{
    StackFrame, aggregate_alloc_step, aggregate_push_step, binary_step, branch_step, cast_step,
    compare_step, copy_step, get_global_step, halt_step, jmp_step, jump, jump_target, logic_step,
    neg_step, not_step, peek_step, pop_step, push_const_step, ready, roll_step, set_global_step,
    set_local_step, well_formed,
};
use crate::byte_seq::{array_set, lemma_encode_decode, same_scalar, scalar_kind, scalar_of, width};
use crate::machine::{array_alloc_step, array_fill_step, array_filled, array_put_step};
use crate::value::{Array, ArrayModel, Datum, Value, group_models, lemma_aggregate_model, models};
use crate::vm::{HostOp, Step, VM, kept};
use vstd::prelude::*;

verus! {

broadcast use group_models;

impl<'vm> VM<'vm> {
    /// Executes `Pop`.
    pub(crate) fn op_pop(&mut self) -> (r: Step)
        requires
            ready(old(self)@),
        ensures
            *final(final(self).interp) == *final(old(self).interp),
            kept(*old(self).interp, *final(self).interp),
            (final(self)@, r@) == pop_step(old(self)@),
            well_formed(final(self)@),
    {
        if self.stack.len() < 1 {
            return Step::Fault(InterpErr::StackUnderflow);
        }
        self.drop_top(1);
        self.next();
        Step::Continue
    }

    /// Executes `PushConst`.
    pub(crate) fn op_push_const(&mut self, addr: u32) -> (r: Step)
        requires
            ready(old(self)@),
        ensures
            *final(final(self).interp) == *final(old(self).interp),
            kept(*old(self).interp, *final(self).interp),
            (final(self)@, r@) == push_const_step(old(self)@, addr),
            well_formed(final(self)@),
    {
        let v = match self.get_const(addr) {
            Some(constant) => constant.clone(),
            None => {
                return Step::Fault(InterpErr::UndefinedConstant);
            },
        };
        self.grow(v)
    }

    /// Executes `Add`, `Sub`, `Mul`, `Div` and `Rem`.
    pub(crate) fn op_binary(&mut self, op: BinaryOp) -> (r: Step)
        requires
            ready(old(self)@),
        ensures
            *final(final(self).interp) == *final(old(self).interp),
            kept(*old(self).interp, *final(self).interp),
            (final(self)@, r@) == binary_step(old(self)@, op),
            well_formed(final(self)@),
    {
        if self.stack.len() < 2 {
            return Step::Fault(InterpErr::StackUnderflow);
        }
        if is_float_pair(self.top(1), self.top(0)) {
            return self.ask(HostOp::Arith(op), 2);
        }
        match binary_op(op, self.top(1), self.top(0)) {
            Ok(v) => self.settle(2, v),
            Err(e) => Step::Fault(e),
        }
    }

    /// Executes `Eq`, `Neq`, `Lt`, `LtEq`, `Gt` and `GtEq`.
    pub(crate) fn op_compare(&mut self, op: CompareOp) -> (r: Step)
        requires
            ready(old(self)@),
        ensures
            *final(final(self).interp) == *final(old(self).interp),
            kept(*old(self).interp, *final(self).interp),
            (final(self)@, r@) == compare_step(old(self)@, op),
            well_formed(final(self)@),
    {
        if self.stack.len() < 2 {
            return Step::Fault(InterpErr::StackUnderflow);
        }
        if is_float_pair(self.top(1), self.top(0)) {
            return self.ask(HostOp::Compare(op), 2);
        }
        match compare_op(op, self.top(1), self.top(0)) {
            Ok(v) => self.settle(2, v),
            Err(e) => Step::Fault(e),
        }
    }

    /// Executes `And` and `Or`.
    pub(crate) fn op_logic(&mut self, op: LogicOp) -> (r: Step)
        requires
            ready(old(self)@),
        ensures
            *final(final(self).interp) == *final(old(self).interp),
            kept(*old(self).interp, *final(self).interp),
            (final(self)@, r@) == logic_step(old(self)@, op),
            well_formed(final(self)@),
    {
        if self.stack.len() < 2 {
            return Step::Fault(InterpErr::StackUnderflow);
        }
        let v = logic_op(op, self.top(1), self.top(0));
        self.settle(2, v)
    }

    /// Executes `Neg`.
    pub(crate) fn op_neg(&mut self) -> (r: Step)
        requires
            ready(old(self)@),
        ensures
            *final(final(self).interp) == *final(old(self).interp),
            kept(*old(self).interp, *final(self).interp),
            (final(self)@, r@) == neg_step(old(self)@),
            well_formed(final(self)@),
    {
        if self.stack.len() < 1 {
            return Step::Fault(InterpErr::StackUnderflow);
        }
        if is_float_value(self.top(0)) {
            return self.ask(HostOp::Negate, 1);
        }
        match negate_op(self.top(0)) {
            Ok(v) => self.settle(1, v),
            Err(e) => Step::Fault(e),
        }
    }

    /// Executes `Not`.
    pub(crate) fn op_not(&mut self) -> (r: Step)
        requires
            ready(old(self)@),
        ensures
            *final(final(self).interp) == *final(old(self).interp),
            kept(*old(self).interp, *final(self).interp),
            (final(self)@, r@) == not_step(old(self)@),
            well_formed(final(self)@),
    {
        if self.stack.len() < 1 {
            return Step::Fault(InterpErr::StackUnderflow);
        }
        match complement_op(self.top(0)) {
            Ok(v) => self.settle(1, v),
            Err(e) => Step::Fault(e),
        }
    }

    /// Where a jump by `offset` leads from the active frame's instruction.
    pub(crate) fn target(&self, offset: i32) -> (r: Option<usize>)
        requires
            self@.frames.len() > 0,
        ensures
            r == jump_target(self@.frame().ip, offset),
    {
        let ip = self.frames.last().ip;
        if offset >= 0 {
            ip.checked_add(offset as usize)
        } else {
            let back: usize = (-(offset as i64)) as usize;
            ip.checked_sub(back)
        }
    }

    /// Moves the instruction pointer of the active frame by `offset`.
    pub fn jmp(&mut self, offset: i32) -> (r: Step)
        requires
            ready(old(self)@),
        ensures
            old(self).interp.wf() ==> final(self).interp.wf(),
            *final(final(self).interp) == *final(old(self).interp),
            kept(*old(self).interp, *final(self).interp),
            (final(self)@, r@) == jmp_step(old(self)@, offset),
            well_formed(final(self)@),
    {
        match self.target(offset) {
            Some(ip) => {
                self.set_ip(ip);
                Step::Continue
            },
            None => Step::Fault(InterpErr::InvalidJump),
        }
    }

    /// Sets the instruction pointer of the active frame.
    pub(crate) fn set_ip(&mut self, ip: usize)
        requires
            old(self)@.frames.len() > 0,
        ensures
            *final(final(self).interp) == *final(old(self).interp),
            kept(*old(self).interp, *final(self).interp),
            final(self)@ == old(self)@.with_ip(ip),
    {
        let at = self.frames.len() - 1;
        let frame = *self.frames.get(at);
        self.frames.set(at, StackFrame { stack_slot: frame.stack_slot, ip });
    }

    /// Executes `Jmpt` (`when` is true) and `Jmpf` (`when` is false).
    pub(crate) fn op_branch(&mut self, offset: i32, when: bool) -> (r: Step)
        requires
            ready(old(self)@),
        ensures
            *final(final(self).interp) == *final(old(self).interp),
            kept(*old(self).interp, *final(self).interp),
            (final(self)@, r@) == branch_step(old(self)@, offset, when),
            well_formed(final(self)@),
    {
        if self.stack.len() < 1 {
            return Step::Fault(InterpErr::StackUnderflow);
        }
        if self.top(0).is_truthy() == when {
            match self.target(offset) {
                Some(ip) => {
                    self.drop_top(1);
                    self.set_ip(ip);
                    Step::Continue
                },
                None => Step::Fault(InterpErr::InvalidJump),
            }
        } else {
            self.drop_top(1);
            self.next();
            Step::Continue
        }
    }

    /// Executes `Halt`.
    pub(crate) fn op_halt(&mut self) -> (r: Step)
        requires
            ready(old(self)@),
        ensures
            *final(final(self).interp) == *final(old(self).interp),
            kept(*old(self).interp, *final(self).interp),
            (final(self)@, r@) == halt_step(old(self)@),
            well_formed(final(self)@),
    {
        if self.stack.len() < 2 {
            return Step::Fault(InterpErr::StackUnderflow);
        }
        let result = self.stack.pop();
        self.stack.pop();
        proof {
            assert(self@.stack =~= old(self)@.below(2));
        }
        Step::Finished(result)
    }

    /// Executes `GetGlobal`.
    pub(crate) fn op_get_global(&mut self, slot: u32) -> (r: Step)
        requires
            ready(old(self)@),
        ensures
            *final(final(self).interp) == *final(old(self).interp),
            kept(*old(self).interp, *final(self).interp),
            (final(self)@, r@) == get_global_step(old(self)@, slot),
            well_formed(final(self)@),
    {
        if slot as usize >= self.interp.globals.len() {
            return Step::Fault(InterpErr::UndefinedGlobal);
        }
        let v = self.interp.globals[slot as usize].clone();
        self.grow(v)
    }

    /// Executes `SetGlobal`.
    pub(crate) fn op_set_global(&mut self, slot: u32) -> (r: Step)
        requires
            ready(old(self)@),
        ensures
            *final(final(self).interp) == *final(old(self).interp),
            kept(*old(self).interp, *final(self).interp),
            (final(self)@, r@) == set_global_step(old(self)@, slot),
            well_formed(final(self)@),
    {
        if self.stack.len() < 1 {
            return Step::Fault(InterpErr::StackUnderflow);
        }
        if slot as usize >= self.interp.globals.len() {
            return Step::Fault(InterpErr::UndefinedGlobal);
        }
        let v = self.stack.pop();
        self.interp.globals.set(slot as usize, v);
        self.next();
        Step::Continue
    }

    /// The absolute index of a frame-relative slot, if it lies within the
    /// first `limit` slots of the stack.
    pub(crate) fn absolute(&self, slot: i32, limit: usize) -> (r: Option<usize>)
        requires
            self@.frames.len() > 0,
        ensures
            match r {
                Some(i) => i == self@.slot(slot) && i < limit,
                None => !(0 <= self@.slot(slot) < limit),
            },
    {
        let base = self.frames.last().stack_slot;
        let at = if slot >= 0 {
            base.checked_add(slot as usize)
        } else {
            let back: usize = (-(slot as i64)) as usize;
            base.checked_sub(back)
        };
        match at {
            Some(i) => if i < limit {
                Some(i)
            } else {
                None
            },
            None => None,
        }
    }

    /// Executes `Peek`.
    pub(crate) fn op_peek(&mut self, slot: i32) -> (r: Step)
        requires
            ready(old(self)@),
        ensures
            *final(final(self).interp) == *final(old(self).interp),
            kept(*old(self).interp, *final(self).interp),
            (final(self)@, r@) == peek_step(old(self)@, slot),
            well_formed(final(self)@),
    {
        match self.absolute(slot, self.stack.len()) {
            Some(i) => {
                let v = self.stack.get(i).clone();
                self.grow(v)
            },
            None => Step::Fault(InterpErr::InvalidSlot),
        }
    }

    /// Executes `SetLocal`.
    pub(crate) fn op_set_local(&mut self, slot: i32) -> (r: Step)
        requires
            ready(old(self)@),
        ensures
            *final(final(self).interp) == *final(old(self).interp),
            kept(*old(self).interp, *final(self).interp),
            (final(self)@, r@) == set_local_step(old(self)@, slot),
            well_formed(final(self)@),
    {
        if self.stack.len() < 1 {
            return Step::Fault(InterpErr::StackUnderflow);
        }
        match self.absolute(slot, self.stack.len() - 1) {
            Some(i) => {
                let v = self.stack.pop();
                self.stack.set(i, v);
                self.next();
                Step::Continue
            },
            None => Step::Fault(InterpErr::InvalidSlot),
        }
    }

    /// Executes `Copy`.
    pub(crate) fn op_copy(&mut self, offset: u32) -> (r: Step)
        requires
            ready(old(self)@),
        ensures
            *final(final(self).interp) == *final(old(self).interp),
            kept(*old(self).interp, *final(self).interp),
            (final(self)@, r@) == copy_step(old(self)@, offset),
            well_formed(final(self)@),
    {
        if offset as usize >= self.stack.len() {
            return Step::Fault(InterpErr::InvalidSlot);
        }
        let v = self.top(offset as usize).clone();
        self.grow(v)
    }

    /// Executes `Roll`.
    pub(crate) fn op_roll(&mut self, offset: u32) -> (r: Step)
        requires
            ready(old(self)@),
        ensures
            *final(final(self).interp) == *final(old(self).interp),
            kept(*old(self).interp, *final(self).interp),
            (final(self)@, r@) == roll_step(old(self)@, offset),
            well_formed(final(self)@),
    {
        if offset as usize >= self.stack.len() {
            return Step::Fault(InterpErr::InvalidSlot);
        }
        let v = self.stack.take(offset as usize);
        self.stack.push(v);
        self.next();
        Step::Continue
    }

    /// Executes `Cast`.
    pub(crate) fn op_cast(&mut self, target: CastInstruction) -> (r: Step)
        requires
            ready(old(self)@),
        ensures
            *final(final(self).interp) == *final(old(self).interp),
            kept(*old(self).interp, *final(self).interp),
            (final(self)@, r@) == cast_step(old(self)@, target),
            well_formed(final(self)@),
    {
        if self.stack.len() < 1 {
            return Step::Fault(InterpErr::StackUnderflow);
        }
        if needs_host(self.top(0), target) {
            return self.ask(HostOp::Cast(target), 1);
        }
        match cast_op(self.top(0), target) {
            Ok(v) => self.settle(1, v),
            Err(e) => Step::Fault(e),
        }
    }

    /// Executes `AggregateAlloc`.
    pub(crate) fn op_aggregate_alloc(&mut self) -> (r: Step)
        requires
            ready(old(self)@),
        ensures
            *final(final(self).interp) == *final(old(self).interp),
            kept(*old(self).interp, *final(self).interp),
            (final(self)@, r@) == aggregate_alloc_step(old(self)@),
            well_formed(final(self)@),
    {
        let items: Vec<Value> = Vec::new();
        proof {
            lemma_aggregate_model(items);
            assert(models(items@) =~= Seq::<Datum>::empty());
        }
        self.grow(Value::Aggregate(items))
    }

    /// Executes `AggregatePush`.
    pub(crate) fn op_aggregate_push(&mut self) -> (r: Step)
        requires
            ready(old(self)@),
        ensures
            *final(final(self).interp) == *final(old(self).interp),
            kept(*old(self).interp, *final(self).interp),
            (final(self)@, r@) == aggregate_push_step(old(self)@),
            well_formed(final(self)@),
    {
        if self.stack.len() < 2 {
            return Step::Fault(InterpErr::StackUnderflow);
        }
        match self.top(1) {
            Value::Aggregate(items) => {
            },
            _ => {
                return Step::Fault(InterpErr::InvalidOperand);
            },
        }
        let v = self.stack.pop();
        let target = self.stack.pop();
        match target {
            Value::Aggregate(items) => {
                let mut items = items;
                proof {
                    lemma_aggregate_model(items);
                }
                items.push(v);
                proof {
                    lemma_aggregate_model(items);
                }
                let whole = Value::Aggregate(items);
                self.stack.push(whole);
                proof {
                    assert(self@.stack =~= old(self)@.below(2).push(whole@));
                }
                self.next();
                Step::Continue
            },
            other => {
                self.stack.push(other);
                self.stack.push(v);
                Step::Fault(InterpErr::InvalidOperand)
            },
        }
    }

    /// Executes `ArrayAlloc`.
    pub(crate) fn op_array_alloc(&mut self, size: u32) -> (r: Step)
        requires
            ready(old(self)@),
        ensures
            *final(final(self).interp) == *final(old(self).interp),
            kept(*old(self).interp, *final(self).interp),
            (final(self)@, r@) == array_alloc_step(old(self)@, size),
            well_formed(final(self)@),
    {
        if self.stack.len() < 1 {
            return Step::Fault(InterpErr::StackUnderflow);
        }
        let ty = match self.top(0) {
            Value::Type(ty) => *ty,
            _ => {
                return Step::Fault(InterpErr::InvalidOperand);
            },
        };
        match Array::zeroed(ty, size as usize) {
            Some(a) => self.settle(1, Value::Array(a)),
            None => Step::Fault(InterpErr::Overflow),
        }
    }

    /// Executes `ArrayPut`.
    pub(crate) fn op_array_put(&mut self, pos: u32) -> (r: Step)
        requires
            ready(old(self)@),
        ensures
            *final(final(self).interp) == *final(old(self).interp),
            kept(*old(self).interp, *final(self).interp),
            (final(self)@, r@) == array_put_step(old(self)@, pos),
            well_formed(final(self)@),
    {
        if self.stack.len() < 2 {
            return Step::Fault(InterpErr::StackUnderflow);
        }
        match self.top(1) {
            Value::Array(a) => {
                match scalar_kind(self.top(0)) {
                    Some(s) => if !same_scalar(s, a.ty) {
                        return Step::Fault(InterpErr::InvalidOperand);
                    },
                    None => {
                        return Step::Fault(InterpErr::InvalidOperand);
                    },
                }
                if !a.accepts(pos as usize, self.top(0)) {
                    return Step::Fault(InterpErr::IndexOutOfBounds);
                }
            },
            _ => {
                return Step::Fault(InterpErr::InvalidOperand);
            },
        }
        let v = self.stack.pop();
        let target = self.stack.pop();
        match target {
            Value::Array(a) => {
                let mut a = a;
                a.write(pos as usize, &v);
                let whole = Value::Array(a);
                self.stack.push(whole);
                proof {
                    assert(self@.stack =~= old(self)@.below(2).push(whole@));
                }
                self.next();
                Step::Continue
            },
            other => {
                self.stack.push(other);
                self.stack.push(v);
                Step::Fault(InterpErr::InvalidOperand)
            },
        }
    }

    /// Executes `ArrayFill`.
    pub(crate) fn op_array_fill(&mut self, size: u32) -> (r: Step)
        requires
            ready(old(self)@),
        ensures
            *final(final(self).interp) == *final(old(self).interp),
            kept(*old(self).interp, *final(self).interp),
            (final(self)@, r@) == array_fill_step(old(self)@, size),
            well_formed(final(self)@),
    {
        if self.stack.len() < 2 {
            return Step::Fault(InterpErr::StackUnderflow);
        }
        match self.top(1) {
            Value::Array(a) => {
                match scalar_kind(self.top(0)) {
                    Some(s) => if !same_scalar(s, a.ty) {
                        return Step::Fault(InterpErr::InvalidOperand);
                    },
                    None => {
                        return Step::Fault(InterpErr::InvalidOperand);
                    },
                }
                proof {
                    lemma_filled_fits(a@, self@.peek(0), size as nat);
                }
                if size > 0 && !a.accepts_at((size - 1) as usize, self.top(0)) {
                    return Step::Fault(InterpErr::IndexOutOfBounds);
                }
            },
            _ => {
                return Step::Fault(InterpErr::InvalidOperand);
            },
        }
        let v = self.stack.pop();
        let target = self.stack.pop();
        match target {
            Value::Array(a) => {
                let mut a = a;
                let ghost start = a@;
                let mut i: u32 = 0;
                while i < size
                    invariant
                        i <= size,
                        array_filled(start, v@, size as nat) is Some,
                        array_filled(start, v@, i as nat) == Some(a@),
                    decreases size - i,
                {
                    proof {
                        if array_filled(start, v@, (i + 1) as nat) is None {
                            lemma_filled_stays_none(start, v@, (i + 1) as nat, size as nat);
                        }
                    }
                    a.set(i as usize, &v);
                    i += 1;
                }
                let whole = Value::Array(a);
                self.stack.push(whole);
                proof {
                    assert(self@.stack =~= old(self)@.below(2).push(whole@));
                }
                self.next();
                Step::Continue
            },
            other => {
                self.stack.push(other);
                self.stack.push(v);
                Step::Fault(InterpErr::InvalidOperand)
            },
        }
    }
}

/// A fill of `n` elements succeeds exactly when its last store does: a fill
/// changes neither the size of an array nor the kind of its elements.
pub proof fn lemma_filled_fits(a: ArrayModel, d: Datum, n: nat)
    ensures
        array_filled(a, d, n) matches Some(b) ==> b.ty == a.ty && b.bytes.len() == a.bytes.len(),
        n > 0 ==> (array_filled(a, d, n) is Some <==> array_set(a, n - 1, d) is Some),
    decreases n,
{
    if n > 0 {
        lemma_filled_fits(a, d, (n - 1) as nat);
        if scalar_of(d) is Some {
            lemma_encode_decode(d);
        }
        if n > 1 {
            let w = width(a.ty) as int;
            assert((n - 2) * w + w <= (n - 1) * w + w) by (nonlinear_arith)
                requires
                    w >= 0,
                    n >= 2,
            ;
        }
    }
}

/// Once a fill has run out of room, a longer one has too.
pub proof fn lemma_filled_stays_none(a: ArrayModel, d: Datum, k: nat, n: nat)
    requires
        k <= n,
        array_filled(a, d, k) is None,
    ensures
        array_filled(a, d, n) is None,
    decreases n,
{
    if k < n {
        lemma_filled_stays_none(a, d, k, (n - 1) as nat);
    }
}

} // verus!
