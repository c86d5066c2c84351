//! What each instruction does to the machine, instruction by instruction:
//! the groundwork for the laws that hold of every step.

use crate::arith::{BinaryOp, CompareOp, LogicOp};
use crate::instruction::{CastInstruction, Instruction};
use crate::machine::{
    Machine, Outcome, aggregate_alloc_step, aggregate_push_step, array_alloc_step, array_fill_step,
    array_put_step, assign_step, binary_step, branch_step, cast_step, compare_step,
    const_index_step, copy_step, deref_step, execute, get_global_ptr_step, get_global_step,
    halt_step, increment_step, index_step, jmp_step, logic_step, neg_step, not_step, offset_step,
    panic_step, peek_ptr_step, peek_step, pop_step, push_const_step, roll_step, set_global_step,
    set_local_step, stack_effect, well_formed,
};
use vstd::prelude::*;

verus! {

/// What holds of the outcome of every instruction but `Call` and `Return`:
/// if it is a fault the machine is as it was, the frames are as many as
/// before, the constants and what the machine carries of the session are
/// untouched, the globals are as many as before, the machine waits after
/// it exactly if it waited before or has now asked the host, and a machine
/// within its capacities stays within them.
pub open spec fn steady(m: Machine, next: (Machine, Outcome)) -> bool {
    &&& next.1 is Fault ==> next.0 == m
    &&& next.0.frames.len() == m.frames.len()
    &&& next.0.constants == m.constants
    &&& next.0.session == m.session
    &&& next.0.globals.len() == m.globals.len()
    &&& next.0.waiting == (m.waiting || next.1 is Host)
    &&& well_formed(m) ==> well_formed(next.0)
}

/// `pop_step` is steady.
proof fn lemma_pop_step_steady(m: Machine)
    requires
        m.frames.len() > 0,
    ensures
        steady(m, pop_step(m)),
{
}

/// `push_const_step` is steady.
proof fn lemma_push_const_step_steady(m: Machine, addr: u32)
    requires
        m.frames.len() > 0,
    ensures
        steady(m, push_const_step(m, addr)),
{
}

/// `binary_step` is steady.
proof fn lemma_binary_step_steady(m: Machine, op: BinaryOp)
    requires
        m.frames.len() > 0,
    ensures
        steady(m, binary_step(m, op)),
{
}

/// `compare_step` is steady.
proof fn lemma_compare_step_steady(m: Machine, op: CompareOp)
    requires
        m.frames.len() > 0,
    ensures
        steady(m, compare_step(m, op)),
{
}

/// `logic_step` is steady.
proof fn lemma_logic_step_steady(m: Machine, op: LogicOp)
    requires
        m.frames.len() > 0,
    ensures
        steady(m, logic_step(m, op)),
{
}

/// `neg_step` is steady.
proof fn lemma_neg_step_steady(m: Machine)
    requires
        m.frames.len() > 0,
    ensures
        steady(m, neg_step(m)),
{
}

/// `not_step` is steady.
proof fn lemma_not_step_steady(m: Machine)
    requires
        m.frames.len() > 0,
    ensures
        steady(m, not_step(m)),
{
}

/// `deref_step` is steady.
proof fn lemma_deref_step_steady(m: Machine)
    requires
        m.frames.len() > 0,
    ensures
        steady(m, deref_step(m)),
{
}

/// `jmp_step` is steady.
proof fn lemma_jmp_step_steady(m: Machine, offset: i32)
    requires
        m.frames.len() > 0,
    ensures
        steady(m, jmp_step(m, offset)),
{
}

/// `branch_step` is steady.
proof fn lemma_branch_step_steady(m: Machine, offset: i32, when: bool)
    requires
        m.frames.len() > 0,
    ensures
        steady(m, branch_step(m, offset, when)),
{
}

/// `halt_step` is steady.
proof fn lemma_halt_step_steady(m: Machine)
    requires
        m.frames.len() > 0,
    ensures
        steady(m, halt_step(m)),
{
}

/// `get_global_step` is steady.
proof fn lemma_get_global_step_steady(m: Machine, slot: u32)
    requires
        m.frames.len() > 0,
    ensures
        steady(m, get_global_step(m, slot)),
{
}

/// `get_global_ptr_step` is steady.
proof fn lemma_get_global_ptr_step_steady(m: Machine, slot: u32)
    requires
        m.frames.len() > 0,
    ensures
        steady(m, get_global_ptr_step(m, slot)),
{
}

/// `set_global_step` is steady.
proof fn lemma_set_global_step_steady(m: Machine, slot: u32)
    requires
        m.frames.len() > 0,
    ensures
        steady(m, set_global_step(m, slot)),
{
}

/// `peek_step` is steady.
proof fn lemma_peek_step_steady(m: Machine, slot: i32)
    requires
        m.frames.len() > 0,
    ensures
        steady(m, peek_step(m, slot)),
{
}

/// `peek_ptr_step` is steady.
proof fn lemma_peek_ptr_step_steady(m: Machine, slot: i32)
    requires
        m.frames.len() > 0,
    ensures
        steady(m, peek_ptr_step(m, slot)),
{
}

/// `set_local_step` is steady.
proof fn lemma_set_local_step_steady(m: Machine, slot: i32)
    requires
        m.frames.len() > 0,
    ensures
        steady(m, set_local_step(m, slot)),
{
}

/// `index_step` is steady.
proof fn lemma_index_step_steady(m: Machine, address: bool)
    requires
        m.frames.len() > 0,
    ensures
        steady(m, index_step(m, address)),
{
}

/// `const_index_step` is steady.
proof fn lemma_const_index_step_steady(m: Machine, i: u32, address: bool)
    requires
        m.frames.len() > 0,
    ensures
        steady(m, const_index_step(m, i, address)),
{
}

/// `offset_step` is steady.
proof fn lemma_offset_step_steady(m: Machine)
    requires
        m.frames.len() > 0,
    ensures
        steady(m, offset_step(m)),
{
}

/// `assign_step` is steady.
proof fn lemma_assign_step_steady(m: Machine)
    requires
        m.frames.len() > 0,
    ensures
        steady(m, assign_step(m)),
{
}

/// `cast_step` is steady.
proof fn lemma_cast_step_steady(m: Machine, target: CastInstruction)
    requires
        m.frames.len() > 0,
    ensures
        steady(m, cast_step(m, target)),
{
}

/// `aggregate_alloc_step` is steady.
proof fn lemma_aggregate_alloc_step_steady(m: Machine)
    requires
        m.frames.len() > 0,
    ensures
        steady(m, aggregate_alloc_step(m)),
{
}

/// `aggregate_push_step` is steady.
proof fn lemma_aggregate_push_step_steady(m: Machine)
    requires
        m.frames.len() > 0,
    ensures
        steady(m, aggregate_push_step(m)),
{
}

/// `array_alloc_step` is steady.
proof fn lemma_array_alloc_step_steady(m: Machine, size: u32)
    requires
        m.frames.len() > 0,
    ensures
        steady(m, array_alloc_step(m, size)),
{
}

/// `array_put_step` is steady.
proof fn lemma_array_put_step_steady(m: Machine, pos: u32)
    requires
        m.frames.len() > 0,
    ensures
        steady(m, array_put_step(m, pos)),
{
}

/// `array_fill_step` is steady.
proof fn lemma_array_fill_step_steady(m: Machine, size: u32)
    requires
        m.frames.len() > 0,
    ensures
        steady(m, array_fill_step(m, size)),
{
}

/// `copy_step` is steady.
proof fn lemma_copy_step_steady(m: Machine, offset: u32)
    requires
        m.frames.len() > 0,
    ensures
        steady(m, copy_step(m, offset)),
{
}

/// `roll_step` is steady.
proof fn lemma_roll_step_steady(m: Machine, offset: u32)
    requires
        m.frames.len() > 0,
    ensures
        steady(m, roll_step(m, offset)),
{
}

/// `increment_step` is steady.
proof fn lemma_increment_step_steady(m: Machine)
    requires
        m.frames.len() > 0,
    ensures
        steady(m, increment_step(m)),
{
}

/// `panic_step` is steady.
proof fn lemma_panic_step_steady(m: Machine)
    requires
        m.frames.len() > 0,
    ensures
        steady(m, panic_step(m)),
{
}

/// The effect of `pop_step` on the height of the stack.
proof fn lemma_pop_step_effect(m: Machine)
    requires
        m.frames.len() > 0,
        pop_step(m).1 is Continue,
    ensures
        pop_step(m).0.stack.len() == m.stack.len() - 1,
{
}

/// The effect of `push_const_step` on the height of the stack.
proof fn lemma_push_const_step_effect(m: Machine, addr: u32)
    requires
        m.frames.len() > 0,
        push_const_step(m, addr).1 is Continue,
    ensures
        push_const_step(m, addr).0.stack.len() == m.stack.len() + 1,
{
}

/// The effect of `binary_step` on the height of the stack.
proof fn lemma_binary_step_effect(m: Machine, op: BinaryOp)
    requires
        m.frames.len() > 0,
        binary_step(m, op).1 is Continue,
    ensures
        binary_step(m, op).0.stack.len() == m.stack.len() - 1,
{
}

/// The effect of `compare_step` on the height of the stack.
proof fn lemma_compare_step_effect(m: Machine, op: CompareOp)
    requires
        m.frames.len() > 0,
        compare_step(m, op).1 is Continue,
    ensures
        compare_step(m, op).0.stack.len() == m.stack.len() - 1,
{
}

/// The effect of `logic_step` on the height of the stack.
proof fn lemma_logic_step_effect(m: Machine, op: LogicOp)
    requires
        m.frames.len() > 0,
        logic_step(m, op).1 is Continue,
    ensures
        logic_step(m, op).0.stack.len() == m.stack.len() - 1,
{
}

/// The effect of `neg_step` on the height of the stack.
proof fn lemma_neg_step_effect(m: Machine)
    requires
        m.frames.len() > 0,
        neg_step(m).1 is Continue,
    ensures
        neg_step(m).0.stack.len() == m.stack.len(),
{
}

/// The effect of `not_step` on the height of the stack.
proof fn lemma_not_step_effect(m: Machine)
    requires
        m.frames.len() > 0,
        not_step(m).1 is Continue,
    ensures
        not_step(m).0.stack.len() == m.stack.len(),
{
}

/// The effect of `deref_step` on the height of the stack.
proof fn lemma_deref_step_effect(m: Machine)
    requires
        m.frames.len() > 0,
        deref_step(m).1 is Continue,
    ensures
        deref_step(m).0.stack.len() == m.stack.len(),
{
}

/// The effect of `jmp_step` on the height of the stack.
proof fn lemma_jmp_step_effect(m: Machine, offset: i32)
    requires
        m.frames.len() > 0,
        jmp_step(m, offset).1 is Continue,
    ensures
        jmp_step(m, offset).0.stack.len() == m.stack.len(),
{
}

/// The effect of `branch_step` on the height of the stack.
proof fn lemma_branch_step_effect(m: Machine, offset: i32, when: bool)
    requires
        m.frames.len() > 0,
        branch_step(m, offset, when).1 is Continue,
    ensures
        branch_step(m, offset, when).0.stack.len() == m.stack.len() - 1,
{
}

/// The effect of `get_global_step` on the height of the stack.
proof fn lemma_get_global_step_effect(m: Machine, slot: u32)
    requires
        m.frames.len() > 0,
        get_global_step(m, slot).1 is Continue,
    ensures
        get_global_step(m, slot).0.stack.len() == m.stack.len() + 1,
{
}

/// The effect of `get_global_ptr_step` on the height of the stack.
proof fn lemma_get_global_ptr_step_effect(m: Machine, slot: u32)
    requires
        m.frames.len() > 0,
        get_global_ptr_step(m, slot).1 is Continue,
    ensures
        get_global_ptr_step(m, slot).0.stack.len() == m.stack.len() + 1,
{
}

/// The effect of `set_global_step` on the height of the stack.
proof fn lemma_set_global_step_effect(m: Machine, slot: u32)
    requires
        m.frames.len() > 0,
        set_global_step(m, slot).1 is Continue,
    ensures
        set_global_step(m, slot).0.stack.len() == m.stack.len() - 1,
{
}

/// The effect of `peek_step` on the height of the stack.
proof fn lemma_peek_step_effect(m: Machine, slot: i32)
    requires
        m.frames.len() > 0,
        peek_step(m, slot).1 is Continue,
    ensures
        peek_step(m, slot).0.stack.len() == m.stack.len() + 1,
{
}

/// The effect of `peek_ptr_step` on the height of the stack.
proof fn lemma_peek_ptr_step_effect(m: Machine, slot: i32)
    requires
        m.frames.len() > 0,
        peek_ptr_step(m, slot).1 is Continue,
    ensures
        peek_ptr_step(m, slot).0.stack.len() == m.stack.len() + 1,
{
}

/// The effect of `set_local_step` on the height of the stack.
proof fn lemma_set_local_step_effect(m: Machine, slot: i32)
    requires
        m.frames.len() > 0,
        set_local_step(m, slot).1 is Continue,
    ensures
        set_local_step(m, slot).0.stack.len() == m.stack.len() - 1,
{
}

/// The effect of `index_step` on the height of the stack.
proof fn lemma_index_step_effect(m: Machine, address: bool)
    requires
        m.frames.len() > 0,
        index_step(m, address).1 is Continue,
    ensures
        index_step(m, address).0.stack.len() == m.stack.len() - 1,
{
}

/// The effect of `const_index_step` on the height of the stack.
proof fn lemma_const_index_step_effect(m: Machine, i: u32, address: bool)
    requires
        m.frames.len() > 0,
        const_index_step(m, i, address).1 is Continue,
    ensures
        const_index_step(m, i, address).0.stack.len() == m.stack.len(),
{
}

/// The effect of `offset_step` on the height of the stack.
proof fn lemma_offset_step_effect(m: Machine)
    requires
        m.frames.len() > 0,
        offset_step(m).1 is Continue,
    ensures
        offset_step(m).0.stack.len() == m.stack.len() - 1,
{
}

/// The effect of `cast_step` on the height of the stack.
proof fn lemma_cast_step_effect(m: Machine, target: CastInstruction)
    requires
        m.frames.len() > 0,
        cast_step(m, target).1 is Continue,
    ensures
        cast_step(m, target).0.stack.len() == m.stack.len(),
{
}

/// The effect of `aggregate_alloc_step` on the height of the stack.
proof fn lemma_aggregate_alloc_step_effect(m: Machine)
    requires
        m.frames.len() > 0,
        aggregate_alloc_step(m).1 is Continue,
    ensures
        aggregate_alloc_step(m).0.stack.len() == m.stack.len() + 1,
{
}

/// The effect of `aggregate_push_step` on the height of the stack.
proof fn lemma_aggregate_push_step_effect(m: Machine)
    requires
        m.frames.len() > 0,
        aggregate_push_step(m).1 is Continue,
    ensures
        aggregate_push_step(m).0.stack.len() == m.stack.len() - 1,
{
}

/// The effect of `array_alloc_step` on the height of the stack.
proof fn lemma_array_alloc_step_effect(m: Machine, size: u32)
    requires
        m.frames.len() > 0,
        array_alloc_step(m, size).1 is Continue,
    ensures
        array_alloc_step(m, size).0.stack.len() == m.stack.len(),
{
}

/// The effect of `array_put_step` on the height of the stack.
proof fn lemma_array_put_step_effect(m: Machine, pos: u32)
    requires
        m.frames.len() > 0,
        array_put_step(m, pos).1 is Continue,
    ensures
        array_put_step(m, pos).0.stack.len() == m.stack.len() - 1,
{
}

/// The effect of `array_fill_step` on the height of the stack.
proof fn lemma_array_fill_step_effect(m: Machine, size: u32)
    requires
        m.frames.len() > 0,
        array_fill_step(m, size).1 is Continue,
    ensures
        array_fill_step(m, size).0.stack.len() == m.stack.len() - 1,
{
}

/// The effect of `copy_step` on the height of the stack.
proof fn lemma_copy_step_effect(m: Machine, offset: u32)
    requires
        m.frames.len() > 0,
        copy_step(m, offset).1 is Continue,
    ensures
        copy_step(m, offset).0.stack.len() == m.stack.len() + 1,
{
}

/// The effect of `roll_step` on the height of the stack.
proof fn lemma_roll_step_effect(m: Machine, offset: u32)
    requires
        m.frames.len() > 0,
        roll_step(m, offset).1 is Continue,
    ensures
        roll_step(m, offset).0.stack.len() == m.stack.len(),
{
}

/// The effect of `assign_step` on the height of the stack.
proof fn lemma_assign_step_effect(m: Machine)
    requires
        m.frames.len() > 0,
        assign_step(m).1 is Continue,
    ensures
        assign_step(m).0.stack.len() == m.stack.len() - 2,
{
}

/// The effect of `increment_step` on the height of the stack.
proof fn lemma_increment_step_effect(m: Machine)
    requires
        m.frames.len() > 0,
        increment_step(m).1 is Continue,
    ensures
        increment_step(m).0.stack.len() == m.stack.len() - 1,
{
}

/// Every instruction but `Call` and `Return` is steady.
pub(crate) proof fn lemma_execute_steady(m: Machine, inst: Instruction)
    requires
        m.frames.len() > 0,
        !(inst is Call),
        !(inst is Return),
    ensures
        steady(m, execute(m, inst)),
{
    match inst {
        Instruction::Noop => {},
        Instruction::Pop => lemma_pop_step_steady(m),
        Instruction::PushConst(addr) => lemma_push_const_step_steady(m, addr),
        Instruction::Add => lemma_binary_step_steady(m, BinaryOp::Add),
        Instruction::Sub => lemma_binary_step_steady(m, BinaryOp::Sub),
        Instruction::Mul => lemma_binary_step_steady(m, BinaryOp::Mul),
        Instruction::Div => lemma_binary_step_steady(m, BinaryOp::Div),
        Instruction::Rem => lemma_binary_step_steady(m, BinaryOp::Rem),
        Instruction::Neg => lemma_neg_step_steady(m),
        Instruction::Not => lemma_not_step_steady(m),
        Instruction::Deref => lemma_deref_step_steady(m),
        Instruction::Eq => lemma_compare_step_steady(m, CompareOp::Eq),
        Instruction::Neq => lemma_compare_step_steady(m, CompareOp::Neq),
        Instruction::Lt => lemma_compare_step_steady(m, CompareOp::Lt),
        Instruction::LtEq => lemma_compare_step_steady(m, CompareOp::LtEq),
        Instruction::Gt => lemma_compare_step_steady(m, CompareOp::Gt),
        Instruction::GtEq => lemma_compare_step_steady(m, CompareOp::GtEq),
        Instruction::And => lemma_logic_step_steady(m, LogicOp::And),
        Instruction::Or => lemma_logic_step_steady(m, LogicOp::Or),
        Instruction::Jmp(offset) => lemma_jmp_step_steady(m, offset),
        Instruction::Jmpt(offset) => lemma_branch_step_steady(m, offset, true),
        Instruction::Jmpf(offset) => lemma_branch_step_steady(m, offset, false),
        Instruction::Return => {},
        Instruction::Call(argc) => {},
        Instruction::GetGlobal(slot) => lemma_get_global_step_steady(m, slot),
        Instruction::GetGlobalPtr(slot) => lemma_get_global_ptr_step_steady(m, slot),
        Instruction::SetGlobal(slot) => lemma_set_global_step_steady(m, slot),
        Instruction::Peek(slot) => lemma_peek_step_steady(m, slot),
        Instruction::PeekPtr(slot) => lemma_peek_ptr_step_steady(m, slot),
        Instruction::SetLocal(slot) => lemma_set_local_step_steady(m, slot),
        Instruction::Index => lemma_index_step_steady(m, false),
        Instruction::IndexPtr => lemma_index_step_steady(m, true),
        Instruction::Offset => lemma_offset_step_steady(m),
        Instruction::ConstIndex(i) => lemma_const_index_step_steady(m, i, false),
        Instruction::ConstIndexPtr(i) => lemma_const_index_step_steady(m, i, true),
        Instruction::Assign => lemma_assign_step_steady(m),
        Instruction::Cast(target) => lemma_cast_step_steady(m, target),
        Instruction::AggregateAlloc => lemma_aggregate_alloc_step_steady(m),
        Instruction::AggregatePush => lemma_aggregate_push_step_steady(m),
        Instruction::ArrayAlloc(size) => lemma_array_alloc_step_steady(m, size),
        Instruction::ArrayPut(pos) => lemma_array_put_step_steady(m, pos),
        Instruction::ArrayFill(size) => lemma_array_fill_step_steady(m, size),
        Instruction::Copy(offset) => lemma_copy_step_steady(m, offset),
        Instruction::Roll(offset) => lemma_roll_step_steady(m, offset),
        Instruction::Increment => lemma_increment_step_steady(m),
        Instruction::Panic => lemma_panic_step_steady(m),
        Instruction::Halt => lemma_halt_step_steady(m),
    }
}

/// Every instruction that is done has changed the number of values on the
/// stack by its fixed effect.
pub(crate) proof fn lemma_execute_effect(m: Machine, inst: Instruction)
    requires
        m.frames.len() > 0,
        execute(m, inst).1 is Continue,
        stack_effect(inst) is Some,
    ensures
        execute(m, inst).0.stack.len() == m.stack.len() + stack_effect(inst)->0,
{
    match inst {
        Instruction::Noop => {},
        Instruction::Pop => lemma_pop_step_effect(m),
        Instruction::PushConst(addr) => lemma_push_const_step_effect(m, addr),
        Instruction::Add => lemma_binary_step_effect(m, BinaryOp::Add),
        Instruction::Sub => lemma_binary_step_effect(m, BinaryOp::Sub),
        Instruction::Mul => lemma_binary_step_effect(m, BinaryOp::Mul),
        Instruction::Div => lemma_binary_step_effect(m, BinaryOp::Div),
        Instruction::Rem => lemma_binary_step_effect(m, BinaryOp::Rem),
        Instruction::Neg => lemma_neg_step_effect(m),
        Instruction::Not => lemma_not_step_effect(m),
        Instruction::Deref => lemma_deref_step_effect(m),
        Instruction::Eq => lemma_compare_step_effect(m, CompareOp::Eq),
        Instruction::Neq => lemma_compare_step_effect(m, CompareOp::Neq),
        Instruction::Lt => lemma_compare_step_effect(m, CompareOp::Lt),
        Instruction::LtEq => lemma_compare_step_effect(m, CompareOp::LtEq),
        Instruction::Gt => lemma_compare_step_effect(m, CompareOp::Gt),
        Instruction::GtEq => lemma_compare_step_effect(m, CompareOp::GtEq),
        Instruction::And => lemma_logic_step_effect(m, LogicOp::And),
        Instruction::Or => lemma_logic_step_effect(m, LogicOp::Or),
        Instruction::Jmp(offset) => lemma_jmp_step_effect(m, offset),
        Instruction::Jmpt(offset) => lemma_branch_step_effect(m, offset, true),
        Instruction::Jmpf(offset) => lemma_branch_step_effect(m, offset, false),
        Instruction::Return => {},
        Instruction::Call(argc) => {},
        Instruction::GetGlobal(slot) => lemma_get_global_step_effect(m, slot),
        Instruction::GetGlobalPtr(slot) => lemma_get_global_ptr_step_effect(m, slot),
        Instruction::SetGlobal(slot) => lemma_set_global_step_effect(m, slot),
        Instruction::Peek(slot) => lemma_peek_step_effect(m, slot),
        Instruction::PeekPtr(slot) => lemma_peek_ptr_step_effect(m, slot),
        Instruction::SetLocal(slot) => lemma_set_local_step_effect(m, slot),
        Instruction::Index => lemma_index_step_effect(m, false),
        Instruction::IndexPtr => lemma_index_step_effect(m, true),
        Instruction::Offset => lemma_offset_step_effect(m),
        Instruction::ConstIndex(i) => lemma_const_index_step_effect(m, i, false),
        Instruction::ConstIndexPtr(i) => lemma_const_index_step_effect(m, i, true),
        Instruction::Assign => lemma_assign_step_effect(m),
        Instruction::Cast(target) => lemma_cast_step_effect(m, target),
        Instruction::AggregateAlloc => lemma_aggregate_alloc_step_effect(m),
        Instruction::AggregatePush => lemma_aggregate_push_step_effect(m),
        Instruction::ArrayAlloc(size) => lemma_array_alloc_step_effect(m, size),
        Instruction::ArrayPut(pos) => lemma_array_put_step_effect(m, pos),
        Instruction::ArrayFill(size) => lemma_array_fill_step_effect(m, size),
        Instruction::Copy(offset) => lemma_copy_step_effect(m, offset),
        Instruction::Roll(offset) => lemma_roll_step_effect(m, offset),
        Instruction::Increment => lemma_increment_step_effect(m),
        Instruction::Panic => {},
        Instruction::Halt => {},
    }
}

} // verus!
