use chili_interp::error::InterpErr;
use chili_interp::instruction::{CompiledCode, Instruction};
use chili_interp::interp::{BuildOptions, Interp};
use chili_interp::value::{Func, TyKind, Value};
use chili_interp::vm::{Step, VM};
use chili_interp::instruction::Scalar;
use ustr::ustr;

fn options() -> BuildOptions {
    BuildOptions {
        source_file: String::new(),
        verbose: false,
        emit_diagnostics: false,
        no_color: true,
        include_paths: vec![],
    }
}

fn function(name: &str, arg_types: Vec<TyKind>, instructions: Vec<Instruction>, locals: u16) -> Func {
    Func {
        name: ustr(name),
        arg_types,
        return_type: TyKind::Unit,
        code: CompiledCode { instructions, locals },
    }
}

fn word() -> TyKind {
    TyKind::Scalar(Scalar::Int)
}

#[test]
fn add_two_constants_and_halt() {
    let mut interp = Interp::new(options());
    interp.constants.push(Value::Int(5));
    interp.constants.push(Value::Int(3));
    let entry = function(
        "entry",
        vec![],
        vec![
            Instruction::PushConst(1),
            Instruction::PushConst(2),
            Instruction::Add,
            Instruction::Halt,
        ],
        0,
    );
    let mut vm = VM::new(&mut interp);
    match vm.run_func(entry, 100) {
        Step::Finished(Value::Int(v)) => assert_eq!(v, 8),
        other => panic!("unexpected outcome {:?}", other),
    }
}

#[test]
fn call_less_than_with_two_arguments() {
    let mut interp = Interp::new(options());
    let less = function(
        "less",
        vec![word(), word()],
        vec![Instruction::Peek(-2), Instruction::Peek(-1), Instruction::Lt, Instruction::Return],
        0,
    );
    interp.constants.push(Value::Int(2));
    interp.constants.push(Value::Int(7));
    interp.constants.push(Value::Function(less));
    let entry = function(
        "entry",
        vec![],
        vec![
            Instruction::PushConst(1),
            Instruction::PushConst(2),
            Instruction::PushConst(3),
            Instruction::Call(2),
            Instruction::Halt,
        ],
        0,
    );
    let mut vm = VM::new(&mut interp);
    match vm.run_func(entry, 100) {
        Step::Finished(Value::Bool(v)) => assert!(v),
        other => panic!("unexpected outcome {:?}", other),
    }
}

#[test]
fn call_less_than_is_false_the_other_way_round() {
    let mut interp = Interp::new(options());
    let less = function(
        "less",
        vec![word(), word()],
        vec![Instruction::Peek(-2), Instruction::Peek(-1), Instruction::Lt, Instruction::Return],
        0,
    );
    interp.constants.push(Value::Int(7));
    interp.constants.push(Value::Int(2));
    interp.constants.push(Value::Function(less));
    let entry = function(
        "entry",
        vec![],
        vec![
            Instruction::PushConst(1),
            Instruction::PushConst(2),
            Instruction::PushConst(3),
            Instruction::Call(2),
            Instruction::Halt,
        ],
        0,
    );
    let mut vm = VM::new(&mut interp);
    match vm.run_func(entry, 100) {
        Step::Finished(Value::Bool(v)) => assert!(!v),
        other => panic!("unexpected outcome {:?}", other),
    }
}

#[test]
fn return_leaves_result_where_the_arguments_were() {
    let mut interp = Interp::new(options());
    let second = function(
        "second",
        vec![word(), word()],
        vec![Instruction::Peek(-1), Instruction::Return],
        0,
    );
    interp.constants.push(Value::Int(10));
    interp.constants.push(Value::Int(20));
    interp.constants.push(Value::Function(second));
    let entry = function(
        "entry",
        vec![],
        vec![
            Instruction::PushConst(1),
            Instruction::PushConst(2),
            Instruction::PushConst(3),
            Instruction::Call(2),
            Instruction::Halt,
        ],
        0,
    );
    let mut vm = VM::new(&mut interp);
    assert!(matches!(vm.run_func(entry, 4), Step::Continue));
    // Inside the callee: [entry, 10, 20, second], base slot 3.
    assert_eq!(vm.frames.len(), 2);
    assert_eq!(vm.frame().stack_slot, 3);
    assert_eq!(vm.stack.len(), 4);
    assert!(matches!(vm.step(), Step::Continue));
    assert!(matches!(vm.step(), Step::Continue));
    // After the return: base slot 3, two arguments, plus the result.
    assert_eq!(vm.frames.len(), 1);
    assert_eq!(vm.stack.len(), 3 - 2 + 1);
    assert!(matches!(vm.stack.last(), Value::Int(20)));
    assert_eq!(vm.frame().ip, 4);
    assert!(matches!(vm.step(), Step::Finished(Value::Int(20))));
}

#[test]
fn outermost_return_finishes_the_run() {
    let mut interp = Interp::new(options());
    interp.constants.push(Value::I32(9));
    let entry = function("entry", vec![], vec![Instruction::PushConst(1), Instruction::Return], 0);
    let mut vm = VM::new(&mut interp);
    assert!(matches!(vm.run_func(entry, 10), Step::Finished(Value::I32(9))));
    assert_eq!(vm.frames.len(), 0);
}

#[test]
fn locals_are_reserved_as_units_above_the_base_slot() {
    let mut interp = Interp::new(options());
    let entry = function("entry", vec![], vec![Instruction::Halt], 3);
    let mut vm = VM::new(&mut interp);
    assert!(matches!(vm.run_func(entry, 0), Step::Continue));
    assert_eq!(vm.stack.len(), 4);
    assert!(matches!(vm.stack.get(0), Value::Function(_)));
    assert!(matches!(vm.stack.get(1), Value::Unit));
    assert!(matches!(vm.stack.get(3), Value::Unit));
    assert_eq!(vm.frame().stack_slot, 0);
    assert_eq!(vm.frame().ip, 0);
}

#[test]
fn peek_zero_reads_the_base_slot_and_set_local_writes_above_it() {
    let mut interp = Interp::new(options());
    interp.constants.push(Value::U8(42));
    let entry = function(
        "entry",
        vec![],
        vec![
            Instruction::PushConst(1),
            Instruction::SetLocal(2),
            Instruction::Peek(0),
            Instruction::Peek(2),
            Instruction::Halt,
        ],
        2,
    );
    let mut vm = VM::new(&mut interp);
    assert!(matches!(vm.run_func(entry, 2), Step::Continue));
    assert!(matches!(vm.stack.get(2), Value::U8(42)));
    assert!(matches!(vm.stack.get(1), Value::Unit));
    assert_eq!(vm.stack.len(), 3);
    assert!(matches!(vm.step(), Step::Continue));
    assert!(matches!(vm.stack.last(), Value::Function(_)));
    assert!(matches!(vm.run(10), Step::Finished(Value::U8(42))));
}

#[test]
fn run_stops_when_the_steps_are_used_up() {
    let mut interp = Interp::new(options());
    let entry = function("entry", vec![], vec![Instruction::Jmp(0)], 0);
    let mut vm = VM::new(&mut interp);
    assert!(matches!(vm.run_func(entry, 1000), Step::Continue));
    assert_eq!(vm.frame().ip, 0);
    assert!(matches!(vm.run(5), Step::Continue));
}

#[test]
fn jumps_move_the_instruction_pointer_relatively() {
    let mut interp = Interp::new(options());
    interp.constants.push(Value::Bool(true));
    interp.constants.push(Value::Int(1));
    interp.constants.push(Value::Int(2));
    // if true { 1 } else { 2 }
    let entry = function(
        "entry",
        vec![],
        vec![
            Instruction::PushConst(1),
            Instruction::Jmpf(3),
            Instruction::PushConst(2),
            Instruction::Jmp(2),
            Instruction::PushConst(3),
            Instruction::Halt,
        ],
        0,
    );
    let mut vm = VM::new(&mut interp);
    assert!(matches!(vm.run_func(entry, 100), Step::Finished(Value::Int(1))));
}

#[test]
fn jmpf_jumps_on_a_falsy_condition_and_pops_it() {
    let mut interp = Interp::new(options());
    interp.constants.push(Value::Int(0));
    interp.constants.push(Value::Int(1));
    interp.constants.push(Value::Int(2));
    let entry = function(
        "entry",
        vec![],
        vec![
            Instruction::PushConst(1),
            Instruction::Jmpf(3),
            Instruction::PushConst(2),
            Instruction::Jmp(2),
            Instruction::PushConst(3),
            Instruction::Halt,
        ],
        0,
    );
    let mut vm = VM::new(&mut interp);
    assert!(matches!(vm.run_func(entry, 2), Step::Continue));
    assert_eq!(vm.stack.len(), 1);
    assert_eq!(vm.frame().ip, 4);
    assert!(matches!(vm.run(100), Step::Finished(Value::Int(2))));
}

#[test]
fn jmpt_jumps_on_true_only() {
    let mut interp = Interp::new(options());
    interp.constants.push(Value::Bool(true));
    interp.constants.push(Value::Bool(false));
    let entry = function(
        "entry",
        vec![],
        vec![
            Instruction::PushConst(2),
            Instruction::Jmpt(10),
            Instruction::PushConst(1),
            Instruction::Jmpt(-3),
            Instruction::Halt,
        ],
        0,
    );
    let mut vm = VM::new(&mut interp);
    assert!(matches!(vm.run_func(entry, 2), Step::Continue));
    assert_eq!(vm.frame().ip, 2);
    assert!(matches!(vm.run(2), Step::Continue));
    assert_eq!(vm.frame().ip, 0);
}

#[test]
fn jump_below_zero_is_a_fault_that_changes_nothing() {
    let mut interp = Interp::new(options());
    let entry = function("entry", vec![], vec![Instruction::Noop, Instruction::Jmp(-2)], 0);
    let mut vm = VM::new(&mut interp);
    assert!(matches!(vm.run_func(entry, 100), Step::Fault(InterpErr::InvalidJump)));
    assert_eq!(vm.frame().ip, 1);
    assert_eq!(vm.stack.len(), 1);
}

#[test]
fn halt_returns_the_top_and_pops_the_function() {
    let mut interp = Interp::new(options());
    let entry = function("entry", vec![], vec![Instruction::PushConst(0), Instruction::Halt], 0);
    let mut vm = VM::new(&mut interp);
    assert!(matches!(vm.run_func(entry, 10), Step::Finished(Value::Unit)));
    assert_eq!(vm.stack.len(), 0);
}

#[test]
fn nested_calls_return_in_order() {
    let mut interp = Interp::new(options());
    // inner(x) = x + x
    let inner = function(
        "inner",
        vec![word()],
        vec![Instruction::Peek(-1), Instruction::Peek(-1), Instruction::Add, Instruction::Return],
        0,
    );
    interp.constants.push(Value::Function(inner)); // 1
    // outer(x) = inner(x) * 3
    let outer = function(
        "outer",
        vec![word()],
        vec![
            Instruction::Peek(-1),
            Instruction::PushConst(1),
            Instruction::Call(1),
            Instruction::PushConst(3),
            Instruction::Mul,
            Instruction::Return,
        ],
        0,
    );
    interp.constants.push(Value::Function(outer)); // 2
    interp.constants.push(Value::Int(3)); // 3
    interp.constants.push(Value::Int(7)); // 4
    let entry = function(
        "entry",
        vec![],
        vec![
            Instruction::PushConst(4),
            Instruction::PushConst(2),
            Instruction::Call(1),
            Instruction::Halt,
        ],
        0,
    );
    let mut vm = VM::new(&mut interp);
    assert!(matches!(vm.run_func(entry, 1000), Step::Finished(Value::Int(42))));
}

#[test]
fn copy_and_roll_reorder_the_stack() {
    let mut interp = Interp::new(options());
    interp.constants.push(Value::Int(1));
    interp.constants.push(Value::Int(2));
    interp.constants.push(Value::Int(3));
    let entry = function(
        "entry",
        vec![],
        vec![
            Instruction::PushConst(1),
            Instruction::PushConst(2),
            Instruction::PushConst(3),
            Instruction::Roll(2),
            Instruction::Copy(1),
            Instruction::Halt,
        ],
        0,
    );
    let mut vm = VM::new(&mut interp);
    assert!(matches!(vm.run_func(entry, 4), Step::Continue));
    // [entry, 2, 3, 1]
    assert!(matches!(vm.stack.get(1), Value::Int(2)));
    assert!(matches!(vm.stack.get(2), Value::Int(3)));
    assert!(matches!(vm.stack.get(3), Value::Int(1)));
    assert!(matches!(vm.step(), Step::Continue));
    // [entry, 2, 3, 1, 3]
    assert_eq!(vm.stack.len(), 5);
    assert!(matches!(vm.stack.last(), Value::Int(3)));
    assert!(matches!(vm.stack.get(3), Value::Int(1)));
}

#[test]
fn pop_discards_the_top() {
    let mut interp = Interp::new(options());
    interp.constants.push(Value::Int(1));
    interp.constants.push(Value::Int(2));
    let entry = function(
        "entry",
        vec![],
        vec![
            Instruction::PushConst(1),
            Instruction::PushConst(2),
            Instruction::Pop,
            Instruction::Noop,
            Instruction::Halt,
        ],
        0,
    );
    let mut vm = VM::new(&mut interp);
    assert!(matches!(vm.run_func(entry, 100), Step::Finished(Value::Int(1))));
}

#[test]
fn globals_are_read_and_written_by_slot() {
    let mut interp = Interp::new(options());
    interp.globals.push(Value::Int(1));
    interp.globals.push(Value::Int(2));
    interp.constants.push(Value::Int(50));
    let entry = function(
        "entry",
        vec![],
        vec![
            Instruction::PushConst(1),
            Instruction::SetGlobal(1),
            Instruction::GetGlobal(0),
            Instruction::GetGlobal(1),
            Instruction::Add,
            Instruction::Halt,
        ],
        0,
    );
    {
        let mut vm = VM::new(&mut interp);
        assert!(matches!(vm.run_func(entry, 100), Step::Finished(Value::Int(51))));
    }
    assert!(matches!(interp.globals[1], Value::Int(50)));
    assert!(matches!(interp.globals[0], Value::Int(1)));
}
