use chili_interp::error::InterpErr;
use chili_interp::instruction::{CompiledCode, Instruction};
use chili_interp::interp::{
    BindingInfo, BindingInfoId, BuildOptions, Env, Interp, ModuleId, Workspace,
};
use chili_interp::value::Value;
use chili_interp::vm::Step;
use ustr::ustr;

fn configured() -> BuildOptions {
    BuildOptions {
        source_file: "main.chili".to_string(),
        verbose: true,
        emit_diagnostics: false,
        no_color: true,
        include_paths: vec!["lib".to_string()],
    }
}

fn empty_workspace() -> Workspace {
    Workspace { binding_infos: vec![] }
}

#[test]
fn new_state_holds_the_unit_constant_only() {
    let interp = Interp::new(configured());
    assert_eq!(interp.constants.len(), 1);
    assert!(matches!(interp.constants[0], Value::Unit));
    assert!(interp.globals.is_empty());
    assert!(interp.functions.is_empty());
    assert!(interp.bindings_to_globals.is_empty());
    assert_eq!(interp.build_options.source_file, "main.chili");
    assert!(interp.build_options.verbose);
}

#[test]
fn new_session_is_in_no_module() {
    let mut interp = Interp::new(configured());
    let workspace = empty_workspace();
    let sess = interp.create_session(&workspace);
    assert!(sess.env_stack.is_empty());
    assert!(sess.evaluated_globals.is_empty());
    assert_eq!(sess.interp.constants.len(), 1);
}

#[test]
fn push_const_appends_and_emits_the_push() {
    let mut interp = Interp::new(configured());
    let workspace = empty_workspace();
    let mut sess = interp.create_session(&workspace);
    let mut code = CompiledCode::new();
    assert_eq!(sess.push_const(&mut code, Value::Int(5)), 1);
    assert_eq!(sess.push_const(&mut code, Value::Bool(true)), 2);
    assert_eq!(code.instructions, vec![Instruction::PushConst(1), Instruction::PushConst(2)]);
    assert_eq!(code.locals, 0);
    assert_eq!(sess.interp.constants.len(), 3);
    assert!(matches!(sess.interp.constants[1], Value::Int(5)));
    assert!(matches!(sess.interp.constants[2], Value::Bool(true)));
    assert!(matches!(sess.interp.constants[0], Value::Unit));
}

#[test]
fn push_const_unit_reuses_slot_zero() {
    let mut interp = Interp::new(configured());
    let workspace = empty_workspace();
    let mut sess = interp.create_session(&workspace);
    let mut code = CompiledCode::new();
    sess.push_const_unit(&mut code);
    assert_eq!(code.instructions, vec![Instruction::PushConst(0)]);
    assert_eq!(sess.interp.constants.len(), 1);
}

#[test]
fn insert_global_overwrites_the_slot_of_a_known_binding() {
    let mut interp = Interp::new(configured());
    let workspace = empty_workspace();
    let mut sess = interp.create_session(&workspace);
    assert_eq!(sess.get_global(BindingInfoId(7)), None);
    assert_eq!(sess.insert_global(BindingInfoId(7), Value::Int(1)), 0);
    assert_eq!(sess.insert_global(BindingInfoId(9), Value::Int(2)), 1);
    assert_eq!(sess.insert_global(BindingInfoId(7), Value::Int(3)), 0);
    assert_eq!(sess.get_global(BindingInfoId(7)), Some(0));
    assert_eq!(sess.get_global(BindingInfoId(9)), Some(1));
    assert_eq!(sess.get_global(BindingInfoId(8)), None);
    assert_eq!(sess.interp.globals.len(), 2);
    assert!(matches!(sess.interp.globals[0], Value::Int(3)));
    assert!(matches!(sess.interp.globals[1], Value::Int(2)));
}

#[test]
fn environment_scopes_shadow_and_unwind() {
    assert_eq!(Env::default().scopes.len(), 0);
    let mut env = Env::new();
    assert_eq!(env.get(BindingInfoId(1)), None);
    env.push_scope();
    env.insert(BindingInfoId(1), 10);
    env.insert(BindingInfoId(2), 20);
    env.push_scope();
    env.insert(BindingInfoId(1), 11);
    assert_eq!(env.get(BindingInfoId(1)), Some(11));
    assert_eq!(env.get(BindingInfoId(2)), Some(20));
    assert_eq!(env.get(BindingInfoId(3)), None);
    env.pop_scope();
    assert_eq!(env.get(BindingInfoId(1)), Some(10));
    env.pop_scope();
    assert_eq!(env.get(BindingInfoId(1)), None);
    env.pop_scope();
    assert_eq!(env.scopes.len(), 0);
}

#[test]
fn add_local_reserves_a_slot_and_binds_it() {
    let mut interp = Interp::new(configured());
    let workspace = empty_workspace();
    let mut sess = interp.create_session(&workspace);
    sess.env_stack.push((ModuleId(1), Env::new()));
    sess.env_stack.push((ModuleId(4), Env::new()));
    assert_eq!(sess.module_id(), ModuleId(4));
    sess.env_mut().push_scope();
    let mut code = CompiledCode::new();
    sess.add_local(&mut code, BindingInfoId(3));
    sess.add_local(&mut code, BindingInfoId(5));
    assert_eq!(code.locals, 2);
    assert_eq!(sess.env().get(BindingInfoId(3)), Some(1));
    assert_eq!(sess.env().get(BindingInfoId(5)), Some(2));
    assert_eq!(sess.env().get(BindingInfoId(4)), None);
    assert_eq!(sess.env_stack[0].1.scopes.len(), 0);
    assert!(code.instructions.is_empty());
}

#[test]
fn find_symbol_takes_the_first_binding_of_that_name_in_that_module() {
    let workspace = Workspace {
        binding_infos: vec![
            BindingInfo { module_id: ModuleId(0), symbol: ustr("main") },
            BindingInfo { module_id: ModuleId(1), symbol: ustr("helper") },
            BindingInfo { module_id: ModuleId(1), symbol: ustr("main") },
            BindingInfo { module_id: ModuleId(1), symbol: ustr("main") },
        ],
    };
    let mut interp = Interp::new(configured());
    let sess = interp.create_session(&workspace);
    assert_eq!(sess.find_symbol(ModuleId(1), ustr("main")), Some(BindingInfoId(2)));
    assert_eq!(sess.find_symbol(ModuleId(0), ustr("main")), Some(BindingInfoId(0)));
    assert_eq!(sess.find_symbol(ModuleId(1), ustr("helper")), Some(BindingInfoId(1)));
    assert_eq!(sess.find_symbol(ModuleId(0), ustr("helper")), None);
    assert_eq!(sess.find_symbol(ModuleId(2), ustr("main")), None);
    assert_eq!(sess.find_symbol(ModuleId(1), ustr("mai")), None);
}

#[test]
fn create_vm_starts_with_empty_stacks_over_the_session_tables() {
    let mut interp = Interp::new(configured());
    interp.globals.push(Value::Int(9));
    let workspace = empty_workspace();
    let mut sess = interp.create_session(&workspace);
    let vm = sess.create_vm();
    assert_eq!(vm.stack.len(), 0);
    assert_eq!(vm.frames.len(), 0);
    assert_eq!(vm.interp.constants.len(), 1);
    assert!(matches!(vm.interp.globals[0], Value::Int(9)));
}

#[test]
fn init_instructions_come_first_and_name_their_functions() {
    let mut interp = Interp::new(configured());
    let workspace = empty_workspace();
    let mut sess = interp.create_session(&workspace);
    for _ in 0..11 {
        let mut global = CompiledCode::new();
        global.push(Instruction::PushConst(0));
        global.push(Instruction::Return);
        sess.evaluated_globals.push(global);
    }
    let mut code = CompiledCode::new();
    code.locals = 4;
    code.push(Instruction::Noop);
    let out = sess.insert_init_instructions(code);
    assert_eq!(out.locals, 4);
    assert_eq!(out.instructions.len(), 23);
    assert_eq!(out.instructions[0], Instruction::PushConst(1));
    assert_eq!(out.instructions[1], Instruction::Call(0));
    assert_eq!(out.instructions[20], Instruction::PushConst(11));
    assert_eq!(out.instructions[21], Instruction::Call(0));
    assert_eq!(out.instructions[22], Instruction::Noop);
    assert_eq!(sess.interp.constants.len(), 12);
    assert_eq!(sess.evaluated_globals.len(), 11);
    let names: Vec<String> = sess.interp.constants[1..]
        .iter()
        .map(|c| match c {
            Value::Function(f) => {
                assert!(f.arg_types.is_empty());
                assert_eq!(f.code.instructions, vec![Instruction::PushConst(0), Instruction::Return]);
                f.name.as_str().to_string()
            }
            other => panic!("unexpected {:?}", other),
        })
        .collect();
    assert_eq!(names[0], "global_init_0");
    assert_eq!(names[9], "global_init_9");
    assert_eq!(names[10], "global_init_10");
}

#[test]
fn eval_runs_the_waiting_globals_and_then_the_code() {
    let mut interp = Interp::new(configured());
    interp.globals.push(Value::Int(0));
    interp.constants.push(Value::Int(5)); // 1
    interp.constants.push(Value::Int(3)); // 2
    let workspace = empty_workspace();
    let mut sess = interp.create_session(&workspace);
    // global 0 := 5, evaluated before the code runs
    let mut global = CompiledCode::new();
    global.push(Instruction::PushConst(1));
    global.push(Instruction::SetGlobal(0));
    global.push(Instruction::PushConst(0));
    global.push(Instruction::Return);
    sess.evaluated_globals.push(global);
    // the code: global 0 + 3
    let mut code = CompiledCode::new();
    code.push(Instruction::Pop);
    code.push(Instruction::GetGlobal(0));
    code.push(Instruction::PushConst(2));
    code.push(Instruction::Add);
    {
        let (vm, outcome) = sess.eval(code, 1000);
        assert!(matches!(outcome, Step::Finished(Value::Int(8))));
        assert_eq!(vm.stack.len(), 0);
        assert_eq!(vm.frames.len(), 1);
    }
    assert!(matches!(sess.interp.globals[0], Value::Int(5)));
    assert_eq!(sess.interp.constants.len(), 4);
    match &sess.interp.constants[3] {
        Value::Function(f) => assert_eq!(f.name.as_str(), "global_init_0"),
        other => panic!("unexpected {:?}", other),
    }
}

#[test]
fn eval_names_the_start_function_and_ends_it_with_halt() {
    let mut interp = Interp::new(configured());
    let workspace = empty_workspace();
    let mut sess = interp.create_session(&workspace);
    let mut code = CompiledCode::new();
    sess.push_const_unit(&mut code);
    let (vm, outcome) = sess.eval(code, 0);
    assert!(matches!(outcome, Step::Continue));
    let start = vm.func().unwrap();
    assert_eq!(start.name.as_str(), "__vm_start");
    assert_eq!(start.code.instructions, vec![Instruction::PushConst(0), Instruction::Halt]);
    assert!(start.arg_types.is_empty());
}

#[test]
fn eval_reports_a_fault_of_the_program() {
    let mut interp = Interp::new(configured());
    let workspace = empty_workspace();
    let mut sess = interp.create_session(&workspace);
    let (_, outcome) = sess.eval(CompiledCode::new(), 100);
    assert!(matches!(outcome, Step::Fault(InterpErr::StackUnderflow)));
}

#[test]
fn compiled_code_grows_by_push() {
    let mut code = CompiledCode::new();
    assert_eq!(code.len(), 0);
    assert_eq!(code.push(Instruction::Noop), 0);
    assert_eq!(code.push(Instruction::Halt), 1);
    assert_eq!(code.len(), 2);
    let copy = code.clone();
    assert_eq!(copy.instructions, code.instructions);
    assert_eq!(copy.locals, 0);
}

#[test]
fn add_local_leaves_the_tables_alone() {
    let mut interp = Interp::new(configured());
    interp.globals.push(Value::Int(1));
    let workspace = empty_workspace();
    let mut sess = interp.create_session(&workspace);
    sess.evaluated_globals.push(CompiledCode::new());
    sess.env_stack.push((ModuleId(0), Env::new()));
    sess.env_mut().push_scope();
    let mut code = CompiledCode::new();
    sess.add_local(&mut code, BindingInfoId(1));
    assert_eq!(sess.interp.constants.len(), 1);
    assert_eq!(sess.interp.globals.len(), 1);
    assert!(sess.interp.bindings_to_globals.is_empty());
    assert!(sess.interp.functions.is_empty());
    assert_eq!(sess.evaluated_globals.len(), 1);
}

#[test]
fn eval_leaves_the_environments_and_the_waiting_globals_alone() {
    let mut interp = Interp::new(configured());
    let workspace = empty_workspace();
    let mut sess = interp.create_session(&workspace);
    sess.env_stack.push((ModuleId(3), Env::new()));
    sess.env_stack.push((ModuleId(4), Env::new()));
    let mut global = CompiledCode::new();
    global.push(Instruction::PushConst(0));
    global.push(Instruction::Return);
    sess.evaluated_globals.push(global);
    let mut code = CompiledCode::new();
    code.push(Instruction::Pop);
    sess.push_const_unit(&mut code);
    {
        let (_, outcome) = sess.eval(code, 100);
        assert!(matches!(outcome, Step::Finished(Value::Unit)));
    }
    assert_eq!(sess.env_stack.len(), 2);
    assert_eq!(sess.module_id(), ModuleId(4));
    assert_eq!(sess.env_stack[0].0, ModuleId(3));
    assert_eq!(sess.evaluated_globals.len(), 1);
    assert_eq!(
        sess.evaluated_globals[0].instructions,
        vec![Instruction::PushConst(0), Instruction::Return]
    );
}

#[test]
fn a_run_leaves_the_side_table_alone_so_that_globals_can_be_inserted_after_it() {
    let mut interp = Interp::new(configured());
    let workspace = empty_workspace();
    let mut sess = interp.create_session(&workspace);
    assert_eq!(sess.insert_global(BindingInfoId(5), Value::Int(1)), 0);
    sess.interp.functions.insert(7, 3);
    sess.interp.constants.push(Value::Int(9));
    let mut code = CompiledCode::new();
    code.push(Instruction::PushConst(1));
    code.push(Instruction::SetGlobal(0));
    sess.push_const_unit(&mut code);
    {
        let (_, outcome) = sess.eval(code, 100);
        assert!(matches!(outcome, Step::Finished(Value::Unit)));
    }
    assert_eq!(sess.interp.bindings_to_globals.len(), 1);
    assert_eq!(sess.get_global(BindingInfoId(5)), Some(0));
    assert_eq!(sess.interp.functions.get(&7), Some(&3));
    assert_eq!(sess.interp.functions.len(), 1);
    assert_eq!(sess.interp.build_options.source_file, "main.chili");
    assert_eq!(sess.interp.globals.len(), 1);
    assert!(matches!(sess.interp.globals[0], Value::Int(9)));
    assert_eq!(sess.insert_global(BindingInfoId(5), Value::Int(2)), 0);
    assert_eq!(sess.insert_global(BindingInfoId(6), Value::Int(3)), 1);
    assert_eq!(sess.interp.globals.len(), 2);
}
