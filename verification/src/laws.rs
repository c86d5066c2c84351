//! What holds of the machine, whatever program it runs.

use crate::arith::{BinaryOp, arith, float_pair, same_tag, truncating_div, truncating_rem};
use crate::byte_seq::{array_get, array_set, encode, kind_of, lemma_encode_decode, width};
use crate::cast::integer_of;
use crate::error::InterpErr;
use crate::instruction::Instruction;
use crate::machine::{
    Machine, STACK_MAX, binary_step, deref, enter, execute, fault, fetch, peek_step, resume,
    return_step, run, set_local_step, stack_effect, start, step, well_formed,
};
use crate::memory::{element, load, store, store_cell};
use crate::step_lemmas::{lemma_execute_effect, lemma_execute_steady};
use crate::value::{ArrayModel, Datum, FuncModel, PointerModel};
use vstd::prelude::*;

verus! {

/// The result of an arithmetic instruction in unbounded integers.
pub open spec fn exact(op: BinaryOp, x: int, y: int) -> int {
    match op {
        BinaryOp::Add => x + y,
        BinaryOp::Sub => x - y,
        BinaryOp::Mul => x * y,
        BinaryOp::Div => truncating_div(x, y),
        BinaryOp::Rem => truncating_rem(x, y),
    }
}

/// The least number of an integer's kind.
pub open spec fn lowest(d: Datum) -> int {
    match d {
        Datum::I8(_) => i8::MIN as int,
        Datum::I16(_) => i16::MIN as int,
        Datum::I32(_) => i32::MIN as int,
        Datum::I64(_) => i64::MIN as int,
        Datum::Int(_) => isize::MIN as int,
        _ => 0,
    }
}

/// The greatest number of an integer's kind.
pub open spec fn highest(d: Datum) -> int {
    match d {
        Datum::I8(_) => i8::MAX as int,
        Datum::I16(_) => i16::MAX as int,
        Datum::I32(_) => i32::MAX as int,
        Datum::I64(_) => i64::MAX as int,
        Datum::Int(_) => isize::MAX as int,
        Datum::U8(_) => u8::MAX as int,
        Datum::U16(_) => u16::MAX as int,
        Datum::U32(_) => u32::MAX as int,
        Datum::U64(_) => u64::MAX as int,
        Datum::Uint(_) => usize::MAX as int,
        _ => 0,
    }
}

/// How many numbers an integer's kind has.
pub open spec fn modulus(d: Datum) -> int {
    highest(d) - lowest(d) + 1
}

/// Addition, subtraction and multiplication of two integers of one kind
/// never fault and give an integer of that kind: the one that differs from
/// the exact result by a multiple of the kind's modulus. So it is the exact
/// result where that fits the kind.
pub proof fn law_arithmetic_closure(op: BinaryOp, a: Datum, b: Datum)
    requires
        op is Add || op is Sub || op is Mul,
        integer_of(a) is Some,
        same_tag(a, b),
    ensures
        arith(op, a, b) is Ok,
        same_tag(arith(op, a, b)->Ok_0, a),
        integer_of(arith(op, a, b)->Ok_0) is Some,
        (integer_of(arith(op, a, b)->Ok_0)->0 - exact(op, integer_of(a)->0, integer_of(b)->0))
            % modulus(a) == 0,
        lowest(a) <= exact(op, integer_of(a)->0, integer_of(b)->0) <= highest(a) ==> integer_of(
            arith(op, a, b)->Ok_0,
        ) == Some(exact(op, integer_of(a)->0, integer_of(b)->0)),
{
    let x = integer_of(a)->0;
    let y = integer_of(b)->0;
    let m = modulus(a);
    let r = integer_of(arith(op, a, b)->Ok_0)->0;
    let e = exact(op, x, y);
    assert(m > 0);
    if op is Mul {
        // The product is cropped to its remainder modulo `m`, taken in the
        // kind's own range.
        vstd::arithmetic::div_mod::lemma_fundamental_div_mod(e, m);
        vstd::arithmetic::div_mod::lemma_mod_bound(e, m);
        assert(r == e % m || r == e % m - m);
        let k = if r == e % m {
            -(e / m)
        } else {
            -(e / m) - 1
        };
        assert(r - e == k * m) by (nonlinear_arith)
            requires
                e == m * (e / m) + e % m,
                r == e % m && k == -(e / m) || r == e % m - m && k == -(e / m) - 1,
        ;
        vstd::arithmetic::div_mod::lemma_mod_multiples_basic(k, m);
        if lowest(a) <= e <= highest(a) {
            if e >= 0 {
                vstd::arithmetic::div_mod::lemma_small_mod(e as nat, m as nat);
            } else {
                vstd::arithmetic::div_mod::lemma_mod_add_multiples_vanish(e, m);
                vstd::arithmetic::div_mod::lemma_small_mod((e + m) as nat, m as nat);
            }
        }
    } else {
        // A sum or a difference is off by at most one modulus.
        assert(r == e || r == e - m || r == e + m);
        vstd::arithmetic::div_mod::lemma_mod_multiples_basic(0, m);
        vstd::arithmetic::div_mod::lemma_mod_multiples_basic(1, m);
        vstd::arithmetic::div_mod::lemma_mod_multiples_basic(-1, m);
    }
}

/// Division and remainder of an integer by zero of its kind fault, and
/// leave the machine as it was.
pub proof fn law_division_by_zero(m: Machine, op: BinaryOp)
    requires
        op is Div || op is Rem,
        m.stack.len() >= 2,
        integer_of(m.peek(1)) is Some,
        same_tag(m.peek(1), m.peek(0)),
        integer_of(m.peek(0)) == Some(0int),
    ensures
        binary_step(m, op) == fault(m, InterpErr::DivisionByZero),
{
}

/// Arithmetic on two floating-point numbers of one width never faults,
/// whatever the divisor: the machine asks the host for the result.
pub proof fn law_float_arithmetic_asks_host(m: Machine, op: BinaryOp)
    requires
        m.stack.len() >= 2,
        float_pair(m.peek(1), m.peek(0)),
    ensures
        binary_step(m, op).1 is Host,
        binary_step(m, op).1->Host_0.args == seq![m.peek(1), m.peek(0)],
        binary_step(m, op).0.stack == m.below(2),
{
}

/// Whether the next step enters a function: a `Call` whose callee is a
/// bytecode function and which succeeds.
pub open spec fn enters(m: Machine) -> bool {
    &&& fetch(m) matches Ok(Instruction::Call(_))
    &&& m.stack.len() > 0
    &&& m.peek(0) is Function
    &&& step(m).1 is Continue
}

/// Whether the next step leaves a function: a `Return` that succeeds.
pub open spec fn leaves(m: Machine) -> bool {
    &&& fetch(m) matches Ok(Instruction::Return)
    &&& !(step(m).1 is Fault)
}

/// One if the condition holds, else zero.
pub open spec fn count(b: bool) -> int {
    if b {
        1
    } else {
        0
    }
}

/// A step that faults leaves the machine as it was. A step changes the
/// number of frames only by entering a function (one more) or leaving one
/// (one less). No step changes the constants pool, the number of globals,
/// or what the machine carries of the session beside its tables, and none
/// takes a machine beyond the capacity of its stacks. A machine that waits for the host
/// takes no step, and a machine waits after a step exactly if the step has
/// asked the host.
pub proof fn law_step_frames(m: Machine)
    ensures
        step(m).1 is Fault ==> step(m).0 == m,
        step(m).0.frames.len() == m.frames.len() + count(enters(m)) - count(leaves(m)),
        step(m).0.constants == m.constants,
        step(m).0.session == m.session,
        step(m).0.globals.len() == m.globals.len(),
        well_formed(m) ==> well_formed(step(m).0),
        m.waiting ==> step(m) == fault(m, InterpErr::AwaitingHost),
        !m.waiting ==> (step(m).0.waiting <==> step(m).1 is Host),
{
    reveal(step);
    match fetch(m) {
        Ok(inst) => {
            if !(inst is Call) && !(inst is Return) {
                lemma_execute_steady(m, inst);
            }
        },
        Err(_) => {},
    }
}

/// How many functions the first `n` steps of a run enter.
pub open spec fn calls_in(m: Machine, n: nat) -> int
    decreases n,
{
    if n == 0 {
        0
    } else if step(m).1 is Continue {
        count(enters(m)) + calls_in(step(m).0, (n - 1) as nat)
    } else {
        count(enters(m))
    }
}

/// How many functions the first `n` steps of a run leave.
pub open spec fn returns_in(m: Machine, n: nat) -> int
    decreases n,
{
    if n == 0 {
        0
    } else if step(m).1 is Continue {
        count(leaves(m)) + returns_in(step(m).0, (n - 1) as nat)
    } else {
        count(leaves(m))
    }
}

/// Every instruction that is done has changed the number of values on the
/// stack by its fixed effect.
pub proof fn law_stack_effect(m: Machine, inst: Instruction)
    requires
        m.frames.len() > 0,
        execute(m, inst).1 is Continue,
        stack_effect(inst) is Some,
    ensures
        execute(m, inst).0.stack.len() == m.stack.len() + stack_effect(inst)->0,
{
    lemma_execute_effect(m, inst);
}

/// The host's result ends the wait: a machine that has taken it waits no
/// longer, holds it on top of its stack, and has moved on by one
/// instruction. A machine that does not wait refuses it.
pub proof fn law_resume_ends_wait(m: Machine, d: Datum)
    ensures
        !m.waiting ==> resume(m, d) == fault(m, InterpErr::NotAwaitingHost),
        resume(m, d).1 is Continue ==> {
            &&& m.waiting
            &&& !resume(m, d).0.waiting
            &&& resume(m, d).0.stack == m.stack.push(d)
            &&& resume(m, d).0.frame().ip == m.frame().ip + 1
            &&& resume(m, d).0.frames.len() == m.frames.len()
        },
        !(resume(m, d).1 is Continue) ==> resume(m, d).0 == m,
{
}

/// A run of any length keeps a machine within the capacity of its stacks,
/// and leaves the constants pool, the number of globals and what it carries
/// of the session as it found them.
pub proof fn law_run_keeps_capacity(m: Machine, n: nat)
    requires
        well_formed(m),
    ensures
        well_formed(run(m, n).0),
        run(m, n).0.constants == m.constants,
        run(m, n).0.session == m.session,
        run(m, n).0.globals.len() == m.globals.len(),
    decreases n,
{
    if n > 0 {
        law_step_frames(m);
        if step(m).1 is Continue {
            law_run_keeps_capacity(step(m).0, (n - 1) as nat);
        }
    }
}

/// A run can be taken in two parts: where the first `a` steps end in
/// `Continue`, `b` more steps from there end as `a + b` steps from the
/// start do.
pub proof fn law_run_in_parts(m: Machine, a: nat, b: nat)
    requires
        run(m, a).1 is Continue,
    ensures
        run(m, a + b) == run(run(m, a).0, b),
    decreases a,
{
    if a > 0 {
        if step(m).1 is Continue {
            law_run_in_parts(step(m).0, (a - 1) as nat, b);
        }
    }
}

/// Calls and returns balance: at the end of a run of any length, the
/// frames in flight are those at its start, plus one for each function the
/// run entered, less one for each it left. So a run that ends in the frame
/// it started in has executed as many returns as calls.
pub proof fn law_call_return_balance(m: Machine, n: nat)
    ensures
        run(m, n).0.frames.len() + returns_in(m, n) == m.frames.len() + calls_in(m, n),
    decreases n,
{
    if n > 0 {
        law_step_frames(m);
        if step(m).1 is Continue {
            law_call_return_balance(step(m).0, (n - 1) as nat);
        }
    }
}

/// After a return from a frame that is not the outermost, the stack holds
/// the caller's values below the arguments and, on top of them, the
/// returned value: its length is the frame's base slot, less the number of
/// arguments, plus one.
pub proof fn law_return_restores_caller(m: Machine)
    requires
        m.frames.len() > 1,
        return_step(m).1 is Continue,
    ensures
        return_step(m).0.stack.len() == m.frame().stack_slot - m.function()->0.arg_types.len() + 1,
        return_step(m).0.stack.last() == m.peek(0),
        return_step(m).0.frames.len() == m.frames.len() - 1,
{
}

/// `Peek(n)` reads the slot `n` above the base slot of the active frame:
/// `Peek(0)` reads the base slot itself.
pub proof fn law_peek_reads_frame_slot(m: Machine, n: i32)
    requires
        peek_step(m, n).1 is Continue,
    ensures
        0 <= m.frame().stack_slot + n < m.stack.len(),
        peek_step(m, n).0.stack == m.stack.push(m.stack[m.frame().stack_slot + n]),
{
}

/// `SetLocal(n)` writes the popped value to the slot `n` above the base
/// slot of the active frame, and to no other.
pub proof fn law_set_local_writes_frame_slot(m: Machine, n: i32)
    requires
        set_local_step(m, n).1 is Continue,
    ensures
        0 <= m.frame().stack_slot + n < m.stack.len() - 1,
        set_local_step(m, n).0.stack.len() == m.stack.len() - 1,
        set_local_step(m, n).0.stack[m.frame().stack_slot + n] == m.peek(0),
        forall|i: int|
            0 <= i < m.stack.len() - 1 && i != m.frame().stack_slot + n ==> set_local_step(
                m,
                n,
            ).0.stack[i] == m.stack[i],
{
}

/// Writing through the address of a global changes that global: after
/// `GetGlobalPtr(slot)` and `Assign`, with `v` on the stack, `v` is gone
/// from the stack and the global holds it, so that `GetGlobal(slot)` then
/// pushes `v`.
pub proof fn law_global_write_through(m: Machine, slot: u32)
    requires
        m.frames.len() > 0,
        1 <= m.stack.len() < STACK_MAX,
        slot < m.globals.len(),
        kind_of(m.peek(0)) == kind_of(m.globals[slot as int]),
    ensures
        ({
            let (m1, o1) = execute(m, Instruction::GetGlobalPtr(slot));
            let (m2, o2) = execute(m1, Instruction::Assign);
            let (m3, o3) = execute(m2, Instruction::GetGlobal(slot));
            &&& o1 is Continue
            &&& o2 is Continue
            &&& o3 is Continue
            &&& m2.stack == m.below(1)
            &&& m2.globals == m.globals.update(slot as int, m.peek(0))
            &&& m3.stack == m.below(1).push(m.peek(0))
        }),
{
    let v = m.peek(0);
    let path = seq![slot as usize];
    assert(store(m.globals[slot as int], path.skip(1), v) == Some(v));
}

/// The machine after `AggregateAlloc` and then, for each of the given
/// values in turn, the value pushed and `AggregatePush`.
pub open spec fn aggregate_built(m: Machine, values: Seq<Datum>) -> Machine
    decreases values.len(),
{
    if values.len() == 0 {
        execute(m, Instruction::AggregateAlloc).0
    } else {
        let before = aggregate_built(m, values.drop_last());
        execute(
            before.with_stack(before.stack.push(values.last())),
            Instruction::AggregatePush,
        ).0
    }
}

/// An aggregate gives back what was put in: built from `values`, it sits
/// on top of the stack and holds them in order, and `ConstIndex(i)` then
/// replaces it by the `i`-th of them.
pub proof fn law_aggregate_round_trip(m: Machine, values: Seq<Datum>, i: u32)
    requires
        m.frames.len() > 0,
        m.stack.len() + 2 <= STACK_MAX,
        i < values.len(),
    ensures
        aggregate_built(m, values).stack == m.stack.push(Datum::Aggregate(values)),
        execute(aggregate_built(m, values), Instruction::ConstIndex(i)).1 is Continue,
        execute(aggregate_built(m, values), Instruction::ConstIndex(i)).0.stack == m.stack.push(
            values[i as int],
        ),
{
    lemma_aggregate_built(m, values);
}

/// What building an aggregate leaves on the stack.
proof fn lemma_aggregate_built(m: Machine, values: Seq<Datum>)
    requires
        m.frames.len() > 0,
        m.stack.len() + 2 <= STACK_MAX,
    ensures
        aggregate_built(m, values).stack == m.stack.push(Datum::Aggregate(values)),
        aggregate_built(m, values).frames.len() == m.frames.len(),
    decreases values.len(),
{
    if values.len() == 0 {
        assert(values =~= Seq::<Datum>::empty());
    } else {
        lemma_aggregate_built(m, values.drop_last());
        assert(values.drop_last().push(values.last()) =~= values);
    }
}

/// Once a run has stopped, more fuel changes nothing: where `a` steps end
/// otherwise than in `Continue`, `a + b` steps end as they do.
pub proof fn law_run_settles(m: Machine, a: nat, b: nat)
    requires
        !(run(m, a).1 is Continue),
    ensures
        run(m, a + b) == run(m, a),
    decreases a,
{
    if a > 0 {
        if step(m).1 is Continue {
            law_run_settles(step(m).0, (a - 1) as nat, b);
        }
    }
}

/// The same for a run started on a function: the entry frame is one more
/// frame in flight, beside those of the calls that the run makes. A run that
/// halts in its entry frame has pushed one frame more than it has executed
/// returns.
pub proof fn law_start_balance(m: Machine, f: FuncModel, n: nat)
    requires
        m.stack.len() < STACK_MAX,
        enter(m.with_stack(m.stack.push(Datum::Function(f)))).1 is Continue,
    ensures
        ({
            let entered = enter(m.with_stack(m.stack.push(Datum::Function(f)))).0;
            start(m, f, n).0.frames.len() + returns_in(entered, n) == m.frames.len() + 1
                + calls_in(entered, n)
        }),
{
    let entered = enter(m.with_stack(m.stack.push(Datum::Function(f)))).0;
    law_call_return_balance(entered, n);
}

/// An array gives back what was put in: after element `i` is set to a
/// scalar, element `i` is that scalar.
pub proof fn law_array_round_trip(a: ArrayModel, i: int, d: Datum)
    requires
        array_set(a, i, d) is Some,
    ensures
        array_get(array_set(a, i, d)->0, i) == Some(d),
{
    lemma_encode_decode(d);
    let w = width(a.ty) as int;
    let changed = array_set(a, i, d)->0;
    assert(changed.bytes.subrange(i * w, i * w + w) =~= encode(d)->0);
}

/// A store into an array changes one element only: every other element
/// reads as before.
pub proof fn law_array_set_elsewhere(a: ArrayModel, i: int, d: Datum, j: int)
    requires
        array_set(a, i, d) is Some,
        0 <= j,
        j != i,
    ensures
        array_get(array_set(a, i, d)->0, j) == array_get(a, j),
{
    lemma_encode_decode(d);
    let w = width(a.ty) as int;
    let changed = array_set(a, i, d)->0;
    assert(changed.bytes.len() == a.bytes.len());
    if j < i {
        assert(j * w + w <= i * w) by (nonlinear_arith)
            requires
                j + 1 <= i,
                w >= 0,
        ;
    } else {
        assert(i * w + w <= j * w) by (nonlinear_arith)
            requires
                i + 1 <= j,
                w >= 0,
        ;
    }
    if j * w + w <= a.bytes.len() {
        assert(changed.bytes.subrange(j * w, j * w + w) =~= a.bytes.subrange(j * w, j * w + w));
    }
}

/// What is written through a path is read through it: after a store of `v`
/// at the end of a path, the path leads to `v`.
pub proof fn law_store_then_load(d: Datum, path: Seq<usize>, v: Datum)
    requires
        store(d, path, v) is Some,
    ensures
        load(store(d, path, v)->0, path) == Some(v),
    decreases path.len(),
{
    if path.len() > 0 {
        let i = path[0] as int;
        let inner = element(d, i)->0;
        let changed = store(inner, path.skip(1), v)->0;
        law_store_then_load(inner, path.skip(1), v);
        match d {
            Datum::Array(a) => {
                law_array_round_trip(a, i, changed);
            },
            _ => {},
        }
        assert(element(store(d, path, v)->0, i) == Some(changed));
    }
}

/// The same through a pointer: after a write of `v` through a pointer that
/// claims the kind of `v`, a typed read through that pointer gives `v`.
pub proof fn law_write_then_deref(cells: Seq<Datum>, p: PointerModel, v: Datum)
    requires
        kind_of(v) == p.kind,
        store_cell(cells, p.path, v) is Some,
    ensures
        deref(store_cell(cells, p.path, v)->0, p) == Some(v),
{
    law_store_then_load(Datum::Aggregate(cells), p.path, v);
}

} // verus!
