//! What short programs compute, for every input: the laws of single
//! instructions, put together over whole runs.

use crate::arith::{BinaryOp, arith, same_tag};
use crate::byte_seq::kind_of;
use crate::cast::integer_of;
use crate::error::InterpErr;
use crate::instruction::Instruction;
use crate::laws::{exact, highest, law_arithmetic_closure, law_run_in_parts, lowest};
use crate::machine::{
    FRAMES_MAX, Machine, Outcome, STACK_MAX, StackFrame, execute, fetch, run, step, units,
};
use crate::memory::store;
use crate::value::Datum;
use vstd::prelude::*;

verus! {

/// Whether the machine is about to execute the instructions `code`, in
/// order: it does not wait, and the function of its active frame holds them
/// from the instruction pointer on.
pub open spec fn about_to_run(m: Machine, code: Seq<Instruction>) -> bool {
    &&& !m.waiting
    &&& m.frames.len() > 0
    &&& m.function() is Some
    &&& m.frame().ip + code.len() <= m.function()->0.code.instructions.len()
    &&& m.frame().ip + code.len() <= usize::MAX
    &&& forall|k: int|
        0 <= k < code.len() ==> m.function()->0.code.instructions[m.frame().ip + k] == code[k]
}

/// The instruction for an arithmetic operation.
pub open spec fn instruction_of(op: BinaryOp) -> Instruction {
    match op {
        BinaryOp::Add => Instruction::Add,
        BinaryOp::Sub => Instruction::Sub,
        BinaryOp::Mul => Instruction::Mul,
        BinaryOp::Div => Instruction::Div,
        BinaryOp::Rem => Instruction::Rem,
    }
}

/// A machine that is about to run some instructions executes the first of
/// them in its next step.
proof fn lemma_first_step(m: Machine, code: Seq<Instruction>)
    requires
        about_to_run(m, code),
        code.len() > 0,
    ensures
        fetch(m) == Ok::<Instruction, InterpErr>(code[0]),
        step(m) == execute(m, code[0]),
{
    reveal(step);
    assert(m.function()->0.code.instructions[m.frame().ip + 0] == code[0]);
}

/// A step that goes on, keeps the frames and the values up to the base slot,
/// and moves the instruction pointer on by one, leaves the machine about to
/// run the rest.
proof fn lemma_rest(m: Machine, next: Machine, code: Seq<Instruction>)
    requires
        about_to_run(m, code),
        code.len() > 0,
        !next.waiting,
        next.frames.len() == m.frames.len(),
        next.frame().stack_slot == m.frame().stack_slot,
        next.frame().ip == m.frame().ip + 1,
        next.stack.len() > m.frame().stack_slot,
        next.stack[m.frame().stack_slot as int] == m.stack[m.frame().stack_slot as int],
    ensures
        about_to_run(next, code.skip(1)),
{
    assert forall|k: int| 0 <= k < code.skip(1).len() implies next.function()->0.code.instructions[
        next.frame().ip + k] == code.skip(1)[k] by {
        assert(m.function()->0.code.instructions[m.frame().ip + (k + 1)] == code[k + 1]);
    }
}

/// Arithmetic on two constants: the program `PushConst(x)`, `PushConst(y)`,
/// an arithmetic instruction, `Halt` ends with the result of the operation
/// on the two constants, the first pushed on the left. For `Add`, `Sub` and
/// `Mul` on integers of one kind it is an integer of that kind, and the exact
/// sum, difference or product where that fits the kind.
pub proof fn law_arithmetic_program(m: Machine, x: u32, y: u32, op: BinaryOp, n: nat)
    requires
        about_to_run(
            m,
            seq![
                Instruction::PushConst(x),
                Instruction::PushConst(y),
                instruction_of(op),
                Instruction::Halt,
            ],
        ),
        x < m.constants.len(),
        y < m.constants.len(),
        integer_of(m.constants[x as int]) is Some,
        same_tag(m.constants[x as int], m.constants[y as int]),
        op is Add || op is Sub || op is Mul,
        m.stack.len() + 2 <= STACK_MAX,
        n >= 4,
    ensures
        run(m, n).1 == Outcome::Finished(
            arith(op, m.constants[x as int], m.constants[y as int])->Ok_0,
        ),
        same_tag(
            arith(op, m.constants[x as int], m.constants[y as int])->Ok_0,
            m.constants[x as int],
        ),
        ({
            let e = exact(
                op,
                integer_of(m.constants[x as int])->0,
                integer_of(m.constants[y as int])->0,
            );
            lowest(m.constants[x as int]) <= e <= highest(m.constants[x as int]) ==> integer_of(
                arith(op, m.constants[x as int], m.constants[y as int])->Ok_0,
            ) == Some(e)
        }),
        run(m, n).0.stack == m.stack.drop_last(),
{
    let a = m.constants[x as int];
    let b = m.constants[y as int];
    let code = seq![
        Instruction::PushConst(x),
        Instruction::PushConst(y),
        instruction_of(op),
        Instruction::Halt,
    ];
    law_arithmetic_closure(op, a, b);
    let d = arith(op, a, b)->Ok_0;
    lemma_first_step(m, code);
    let m1 = step(m).0;
    lemma_rest(m, m1, code);
    lemma_first_step(m1, code.skip(1));
    let m2 = step(m1).0;
    lemma_rest(m1, m2, code.skip(1));
    lemma_first_step(m2, code.skip(1).skip(1));
    assert(m2.peek(1) == a && m2.peek(0) == b);
    let m3 = step(m2).0;
    assert(m3.stack =~= m.stack.push(d));
    lemma_rest(m2, m3, code.skip(1).skip(1));
    lemma_first_step(m3, code.skip(1).skip(1).skip(1));
    let m4 = step(m3).0;
    assert(m4.stack =~= m.stack.drop_last());
    assert(step(m3).1 == Outcome::Finished(d));
    lemma_run_on(m, n);
    lemma_run_on(m1, (n - 1) as nat);
    lemma_run_on(m2, (n - 2) as nat);
    lemma_run_ends(m3, (n - 3) as nat);
}

/// Writing through the address of a global, as a program: after a push of
/// `v`, `GetGlobalPtr(slot)`, `Assign`, `GetGlobal(slot)` and `Halt`, the run
/// ends with `v` and the global holds `v`. The write went into the global
/// itself.
pub proof fn law_write_through_program(m: Machine, c: u32, slot: u32, n: nat)
    requires
        about_to_run(
            m,
            seq![
                Instruction::PushConst(c),
                Instruction::GetGlobalPtr(slot),
                Instruction::Assign,
                Instruction::GetGlobal(slot),
                Instruction::Halt,
            ],
        ),
        c < m.constants.len(),
        slot < m.globals.len(),
        kind_of(m.constants[c as int]) == kind_of(m.globals[slot as int]),
        m.stack.len() + 2 <= STACK_MAX,
        n >= 5,
    ensures
        run(m, n).1 == Outcome::Finished(m.constants[c as int]),
        run(m, n).0.globals == m.globals.update(slot as int, m.constants[c as int]),
        run(m, n).0.stack == m.stack.drop_last(),
{
    let v = m.constants[c as int];
    let code = seq![
        Instruction::PushConst(c),
        Instruction::GetGlobalPtr(slot),
        Instruction::Assign,
        Instruction::GetGlobal(slot),
        Instruction::Halt,
    ];
    lemma_first_step(m, code);
    let m1 = step(m).0;
    lemma_rest(m, m1, code);
    let code1 = code.skip(1);
    lemma_first_step(m1, code1);
    let m2 = step(m1).0;
    lemma_rest(m1, m2, code1);
    let code2 = code1.skip(1);
    lemma_first_step(m2, code2);
    let path = seq![slot as usize];
    assert(m2.peek(1) == v);
    assert(m2.below(2) =~= m.stack);
    assert(store(m.globals[slot as int], path.skip(1), v) == Some(v));
    assert(store(Datum::Aggregate(m.globals), path, v) == Some(
        Datum::Aggregate(m.globals.update(slot as int, v)),
    ));
    let m3 = step(m2).0;
    assert(m3.stack == m.stack);
    assert(m3.globals == m.globals.update(slot as int, v));
    lemma_rest(m2, m3, code2);
    let code3 = code2.skip(1);
    lemma_first_step(m3, code3);
    let m4 = step(m3).0;
    assert(m4.stack == m.stack.push(v));
    lemma_rest(m3, m4, code3);
    let code4 = code3.skip(1);
    lemma_first_step(m4, code4);
    assert(step(m4).1 == Outcome::Finished(v));
    assert(step(m4).0.stack =~= m.stack.drop_last());
    lemma_run_on(m, n);
    lemma_run_on(m1, (n - 1) as nat);
    lemma_run_on(m2, (n - 2) as nat);
    lemma_run_on(m3, (n - 3) as nat);
    lemma_run_ends(m4, (n - 4) as nat);
}

/// Reading a frame-relative slot, as a program: `Peek(k)` and `Halt` end
/// the run with the value at the absolute index that is the frame's base
/// slot plus `k`. For `k == 0` that is the function the frame runs.
pub proof fn law_peek_program(m: Machine, k: i32, n: nat)
    requires
        about_to_run(m, seq![Instruction::Peek(k), Instruction::Halt]),
        0 <= m.frame().stack_slot + k < m.stack.len(),
        m.stack.len() < STACK_MAX,
        n >= 2,
    ensures
        run(m, n).1 == Outcome::Finished(m.stack[m.frame().stack_slot + k]),
        run(m, n).0.stack == m.stack.drop_last(),
{
    let code = seq![Instruction::Peek(k), Instruction::Halt];
    lemma_first_step(m, code);
    let m1 = step(m).0;
    lemma_rest(m, m1, code);
    lemma_first_step(m1, code.skip(1));
    assert(step(m1).0.stack =~= m.stack.drop_last());
    lemma_run_on(m, n);
    lemma_run_ends(m1, (n - 1) as nat);
}

/// Writing a frame-relative slot, as a program: with `v` on top of the
/// stack, `SetLocal(a)`, `Peek(b)` and `Halt` end the run with `v` if `b` is
/// `a`, and else with what slot `b` held before. The popped value lands in
/// the slot `a` above the base slot and nowhere else. (The base slot itself
/// holds the function that is running; a program that overwrites it cannot
/// go on.)
pub proof fn law_set_local_program(m: Machine, a: i32, b: i32, n: nat)
    requires
        about_to_run(m, seq![Instruction::SetLocal(a), Instruction::Peek(b), Instruction::Halt]),
        m.stack.len() <= STACK_MAX,
        m.frame().stack_slot < m.stack.len() - 1,
        0 <= m.frame().stack_slot + a < m.stack.len() - 1,
        0 <= m.frame().stack_slot + b < m.stack.len() - 1,
        a != 0,
        n >= 3,
    ensures
        run(m, n).1 == Outcome::Finished(
            if b == a {
                m.peek(0)
            } else {
                m.stack[m.frame().stack_slot + b]
            },
        ),
{
    let code = seq![Instruction::SetLocal(a), Instruction::Peek(b), Instruction::Halt];
    lemma_first_step(m, code);
    let m1 = step(m).0;
    lemma_rest(m, m1, code);
    lemma_first_step(m1, code.skip(1));
    let m2 = step(m1).0;
    lemma_rest(m1, m2, code.skip(1));
    lemma_first_step(m2, code.skip(1).skip(1));
    lemma_run_on(m, n);
    lemma_run_on(m1, (n - 1) as nat);
    lemma_run_ends(m2, (n - 2) as nat);
}

/// A call enters the callee: with a function on top of a stack of `L`
/// values, `Call` pushes a frame whose base slot is `L - 1`, the callee's
/// own, at its first instruction, and a unit placeholder for each local.
pub proof fn law_call_enters_callee(m: Machine, argc: u32)
    requires
        about_to_run(m, seq![Instruction::Call(argc)]),
        m.stack.len() > 0,
        m.peek(0) is Function,
        m.frames.len() < FRAMES_MAX,
        m.stack.len() + m.peek(0)->Function_0.code.locals <= STACK_MAX,
    ensures
        step(m).1 is Continue,
        step(m).0.frames == m.frames.push(
            StackFrame { stack_slot: (m.stack.len() - 1) as usize, ip: 0 },
        ),
        step(m).0.stack == m.stack + units(m.peek(0)->Function_0.code.locals as nat),
        step(m).0.function() == Some(m.peek(0)->Function_0),
{
    lemma_first_step(m, seq![Instruction::Call(argc)]);
}

/// A return resumes the caller: where a caller's frame remains, `Return`
/// with `v` on top cuts the stack back to below the callee's arguments and
/// pushes `v`, so that the callee's cell, its arguments, locals and
/// temporaries are gone and the stack is as long as the callee's base slot,
/// less the number of its arguments, plus one. The callee's frame is popped
/// and the caller goes on at the instruction after its call.
pub proof fn law_return_resumes_caller(m: Machine)
    requires
        about_to_run(m, seq![Instruction::Return]),
        m.frames.len() > 1,
        m.stack.len() >= m.frame().stack_slot + 2,
        m.function()->0.arg_types.len() <= m.frame().stack_slot,
        m.frames[m.frames.len() - 2].ip < usize::MAX,
    ensures
        step(m).1 is Continue,
        step(m).0.stack == m.stack.subrange(
            0,
            m.frame().stack_slot - m.function()->0.arg_types.len(),
        ).push(m.peek(0)),
        step(m).0.stack.len() == m.frame().stack_slot - m.function()->0.arg_types.len() + 1,
        step(m).0.frames.len() == m.frames.len() - 1,
        step(m).0.frame() == (StackFrame {
            stack_slot: m.frames[m.frames.len() - 2].stack_slot,
            ip: (m.frames[m.frames.len() - 2].ip + 1) as usize,
        }),
        forall|k: int| 0 <= k < m.frames.len() - 2 ==> step(m).0.frames[k] == m.frames[k],
{
    lemma_first_step(m, seq![Instruction::Return]);
}

/// The instructions that build an aggregate of the constants at the
/// addresses `cs`: `AggregateAlloc`, then for each address in turn
/// `PushConst` and `AggregatePush`.
pub open spec fn aggregate_code(cs: Seq<u32>) -> Seq<Instruction>
    decreases cs.len(),
{
    if cs.len() == 0 {
        seq![Instruction::AggregateAlloc]
    } else {
        aggregate_code(cs.drop_last()).push(Instruction::PushConst(cs.last())).push(
            Instruction::AggregatePush,
        )
    }
}

/// The constants at the addresses `cs`.
pub open spec fn constants_at(m: Machine, cs: Seq<u32>) -> Seq<Datum> {
    Seq::new(cs.len(), |j: int| m.constants[cs[j] as int])
}

/// The machine after it has built the aggregate of the constants at `cs`:
/// the aggregate is on top of the stack, and the instruction pointer is past
/// the instructions that built it.
pub open spec fn after_build(m: Machine, cs: Seq<u32>) -> Machine {
    m.with_stack(m.stack.push(Datum::Aggregate(constants_at(m, cs)))).with_ip(
        (m.frame().ip + 1 + 2 * cs.len()) as usize,
    )
}

/// The build of an aggregate of `k` values takes `1 + 2 * k` instructions.
proof fn lemma_aggregate_code_len(cs: Seq<u32>)
    ensures
        aggregate_code(cs).len() == 1 + 2 * cs.len(),
    decreases cs.len(),
{
    if cs.len() > 0 {
        lemma_aggregate_code_len(cs.drop_last());
    }
}

/// A machine that is about to run some instructions is about to run every
/// prefix of them.
proof fn lemma_prefix(m: Machine, code: Seq<Instruction>, k: int)
    requires
        about_to_run(m, code),
        0 <= k <= code.len(),
    ensures
        about_to_run(m, code.subrange(0, k)),
{
}

/// A machine that has the frames and the function of one that is about to
/// run some instructions, and is `j` instructions further on, is about to
/// run the rest.
proof fn lemma_later(m: Machine, next: Machine, code: Seq<Instruction>, j: int)
    requires
        about_to_run(m, code),
        0 <= j <= code.len(),
        !next.waiting,
        next.frames.len() == m.frames.len(),
        next.frame().stack_slot == m.frame().stack_slot,
        next.frame().ip == m.frame().ip + j,
        next.stack.len() > m.frame().stack_slot,
        next.stack[m.frame().stack_slot as int] == m.stack[m.frame().stack_slot as int],
    ensures
        about_to_run(next, code.skip(j)),
{
    assert forall|k: int| 0 <= k < code.skip(j).len() implies next.function()->0.code.instructions[
        next.frame().ip + k] == code.skip(j)[k] by {
        assert(m.function()->0.code.instructions[m.frame().ip + (k + j)] == code[k + j]);
    }
}

/// The build of an aggregate goes through: after `1 + 2 * k` steps the
/// machine holds the aggregate of the `k` constants, in order, on top of
/// its stack.
proof fn lemma_build(m: Machine, cs: Seq<u32>)
    requires
        about_to_run(m, aggregate_code(cs)),
        forall|j: int| 0 <= j < cs.len() ==> cs[j] < m.constants.len(),
        m.stack.len() + 2 <= STACK_MAX,
    ensures
        run(m, 1 + 2 * cs.len()) == (after_build(m, cs), Outcome::Continue),
    decreases cs.len(),
{
    lemma_aggregate_code_len(cs);
    if cs.len() == 0 {
        lemma_first_step(m, aggregate_code(cs));
        assert(constants_at(m, cs) =~= Seq::<Datum>::empty());
        lemma_run_on(m, 1);
    } else {
        let short = cs.drop_last();
        let steps = 1 + 2 * short.len();
        lemma_aggregate_code_len(short);
        assert(aggregate_code(cs).subrange(0, steps as int) =~= aggregate_code(short));
        lemma_prefix(m, aggregate_code(cs), steps as int);
        lemma_build(m, short);
        let mk = after_build(m, short);
        law_run_in_parts(m, steps, 2);
        lemma_later(m, mk, aggregate_code(cs), steps as int);
        let code = aggregate_code(cs).skip(steps as int);
        assert(code[0] == Instruction::PushConst(cs.last()));
        assert(code[1] == Instruction::AggregatePush);
        lemma_first_step(mk, code);
        let ma = step(mk).0;
        lemma_rest(mk, ma, code);
        lemma_first_step(ma, code.skip(1));
        let mb = step(ma).0;
        assert(constants_at(m, cs) =~= constants_at(m, short).push(m.constants[cs.last() as int]));
        assert(ma.below(2) =~= m.stack);
        assert(mb.stack == after_build(m, cs).stack);
        assert(mb.frames =~= after_build(m, cs).frames);
        lemma_run_on(mk, 2);
        lemma_run_on(ma, 1);
    }
}

/// Building an aggregate and indexing it, as a program: `AggregateAlloc`,
/// then for each of `N` constants `PushConst` and `AggregatePush`, then
/// `ConstIndex(i)` and `Halt`, ends the run with the `i`-th constant, for
/// every `i` below `N`. The aggregate holds the values in the order in which
/// they were pushed.
pub proof fn law_aggregate_program(m: Machine, cs: Seq<u32>, i: u32, n: nat)
    requires
        about_to_run(
            m,
            aggregate_code(cs).push(Instruction::ConstIndex(i)).push(Instruction::Halt),
        ),
        forall|j: int| 0 <= j < cs.len() ==> cs[j] < m.constants.len(),
        i < cs.len(),
        m.stack.len() + 2 <= STACK_MAX,
        n >= 3 + 2 * cs.len(),
    ensures
        run(m, n).1 == Outcome::Finished(m.constants[cs[i as int] as int]),
        run(m, n).0.stack == m.stack.drop_last(),
{
    let program = aggregate_code(cs).push(Instruction::ConstIndex(i)).push(Instruction::Halt);
    let steps = 1 + 2 * cs.len();
    lemma_aggregate_code_len(cs);
    assert(program.subrange(0, steps as int) =~= aggregate_code(cs));
    lemma_prefix(m, program, steps as int);
    lemma_build(m, cs);
    let mb = after_build(m, cs);
    law_run_in_parts(m, steps, (n - steps) as nat);
    lemma_later(m, mb, program, steps as int);
    let code = program.skip(steps as int);
    assert(code[0] == Instruction::ConstIndex(i));
    assert(code[1] == Instruction::Halt);
    lemma_first_step(mb, code);
    let mc = step(mb).0;
    assert(mb.below(1) =~= m.stack);
    assert(mc.stack == m.stack.push(m.constants[cs[i as int] as int]));
    lemma_rest(mb, mc, code);
    lemma_first_step(mc, code.skip(1));
    assert(step(mc).0.stack =~= m.stack.drop_last());
    lemma_run_on(mb, (n - steps) as nat);
    lemma_run_ends(mc, (n - steps - 1) as nat);
}

/// A run whose first step goes on is that step and then the rest of the
/// run.
proof fn lemma_run_on(m: Machine, n: nat)
    requires
        n > 0,
        step(m).1 is Continue,
    ensures
        run(m, n) == run(step(m).0, (n - 1) as nat),
{
}

/// A run whose first step does not go on is that step.
proof fn lemma_run_ends(m: Machine, n: nat)
    requires
        n > 0,
        !(step(m).1 is Continue),
    ensures
        run(m, n) == step(m),
{
}

} // verus!
