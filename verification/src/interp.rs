//! The state that outlives a run, and the session that prepares and starts
//! runs on it.
//!
//! The constants pool only grows; its slot zero always holds the unit
//! value. The globals table is indexed by slot, and a side table takes each
//! top-level binding to its slot, so that evaluating a binding again
//! overwrites its global instead of adding one.

use crate::instruction::{CodeModel, CompiledCode, Instruction};
use crate::machine::{Machine, Session, start, well_formed};
use crate::symbol::{same_name, ustr_text};
use crate::value::{Datum, Func, FuncModel, TyKind, Value, group_models, models};
use crate::vm::{Step, VM};
use std::collections::HashMap;
use ustr::{Ustr, ustr};
use vstd::prelude::*;
use vstd::string::StringExecFns;

pub use crate::error::InterpErr;

verus! {

broadcast use {group_models, vstd::std_specs::hash::group_hash_axioms};

/// The pool of constants. Slot zero always holds the unit value.
pub type Constants = Vec<Value>;

/// The table of globals.
pub type Globals = Vec<Value>;

/// The identity of a top-level binding.
#[derive(Clone, Copy, Debug, PartialEq, Eq, Structural)]
pub struct BindingInfoId(pub usize);

/// The identity of a module.
#[derive(Clone, Copy, Debug, PartialEq, Eq, Structural)]
pub struct ModuleId(pub usize);

/// How the surrounding build was configured.
#[derive(Debug)]
pub struct BuildOptions {
    pub source_file: String,
    pub verbose: bool,
    pub emit_diagnostics: bool,
    pub no_color: bool,
    pub include_paths: Vec<String>,
}

/// What the session needs to know of a top-level binding.
#[derive(Clone, Copy, Debug)]
pub struct BindingInfo {
    pub module_id: ModuleId,
    pub symbol: Ustr,
}

/// The bindings of the program at hand, in the order of their identities.
#[derive(Debug)]
pub struct Workspace {
    pub binding_infos: Vec<BindingInfo>,
}

/// Nested scopes that take a binding to its frame-relative slot.
pub struct Env {
    pub scopes: Vec<HashMap<usize, i16>>,
}

impl View for Env {
    type V = Seq<Map<usize, i16>>;

    open spec fn view(&self) -> Seq<Map<usize, i16>> {
        Seq::new(self.scopes@.len(), |i: int| self.scopes@[i]@)
    }
}

/// The slot that the innermost scope holding `id` gives it.
pub open spec fn lookup(scopes: Seq<Map<usize, i16>>, id: usize) -> Option<i16>
    decreases scopes.len(),
{
    if scopes.len() == 0 {
        None
    } else if scopes.last().contains_key(id) {
        Some(scopes.last()[id])
    } else {
        lookup(scopes.drop_last(), id)
    }
}

impl Env {
    /// An environment without any scope.
    pub fn new() -> (env: Env)
        ensures
            env@ == Seq::<Map<usize, i16>>::empty(),
    {
        Env { scopes: Vec::new() }
    }

    /// Opens a scope.
    pub fn push_scope(&mut self)
        ensures
            final(self)@ == old(self)@.push(Map::<usize, i16>::empty()),
    {
        self.scopes.push(HashMap::new());
    }

    /// Closes the innermost scope, if there is one.
    pub fn pop_scope(&mut self)
        ensures
            old(self)@.len() > 0 ==> final(self)@ == old(self)@.drop_last(),
            old(self)@.len() == 0 ==> final(self)@ == old(self)@,
    {
        self.scopes.pop();
    }

    /// Binds `id` to `slot` in the innermost scope.
    pub fn insert(&mut self, id: BindingInfoId, slot: i16)
        requires
            old(self)@.len() > 0,
        ensures
            final(self)@ == old(self)@.update(
                old(self)@.len() - 1,
                old(self)@.last().insert(id.0, slot),
            ),
    {
        let mut scope = self.scopes.pop().unwrap();
        scope.insert(id.0, slot);
        self.scopes.push(scope);
    }

    /// The slot of `id` in the innermost scope that binds it.
    pub fn get(&self, id: BindingInfoId) -> (slot: Option<i16>)
        ensures
            slot == lookup(self@, id.0),
    {
        let mut depth = self.scopes.len();
        proof {
            assert(self@.subrange(0, self@.len() as int) =~= self@);
        }
        while depth > 0
            invariant
                depth <= self.scopes@.len(),
                lookup(self@, id.0) == lookup(self@.subrange(0, depth as int), id.0),
            decreases depth,
        {
            let key = id.0;
            let ghost here = self@.subrange(0, depth as int);
            proof {
                assert(here.drop_last() =~= self@.subrange(0, depth - 1));
            }
            match self.scopes[depth - 1].get(&key) {
                Some(slot) => {
                    return Some(*slot);
                },
                None => {},
            }
            depth -= 1;
        }
        None
    }
}

impl Default for Env {
    /// An environment without any scope.
    fn default() -> (env: Env)
        ensures
            env@ == Seq::<Map<usize, i16>>::empty(),
    {
        Env::new()
    }
}

/// The interpreter's session-lifetime state.
pub struct Interp {
    pub globals: Globals,
    pub constants: Constants,
    pub functions: HashMap<usize, usize>,
    pub build_options: BuildOptions,
    pub bindings_to_globals: HashMap<usize, usize>,
}

impl Interp {
    /// Every binding that has a global has it within the table.
    pub open spec fn wf(&self) -> bool {
        forall|id: usize| #[trigger]
            self.bindings_to_globals@.contains_key(id) ==> self.bindings_to_globals@[id]
                < self.globals@.len()
    }

    /// What a machine over this state leaves alone: the table of functions,
    /// the side table from bindings to globals, and the build options.
    pub open spec fn session(&self) -> Session {
        Session {
            functions: self.functions@,
            bindings_to_globals: self.bindings_to_globals@,
            build_options: self.build_options,
        }
    }

    /// A session state with no globals and the one constant that is always
    /// there: the unit value, in slot zero.
    pub fn new(build_options: BuildOptions) -> (interp: Interp)
        ensures
            interp.wf(),
            interp.globals@.len() == 0,
            models(interp.constants@) == seq![Datum::Unit],
            interp.functions@ == Map::<usize, usize>::empty(),
            interp.bindings_to_globals@ == Map::<usize, usize>::empty(),
            interp.build_options == build_options,
    {
        let mut constants: Vec<Value> = Vec::new();
        constants.push(Value::unit());
        Interp {
            globals: Vec::new(),
            constants,
            functions: HashMap::new(),
            build_options,
            bindings_to_globals: HashMap::new(),
        }
    }

    /// Opens a session on this state: no module entered yet, no global
    /// waiting to be evaluated.
    pub fn create_session<'i>(&'i mut self, workspace: &'i Workspace) -> (sess: InterpSess<'i>)
        ensures
            *sess.interp == *old(self),
            *final(self) == *final(sess.interp),
            sess.workspace == workspace,
            sess.env_stack@.len() == 0,
            sess.evaluated_globals@.len() == 0,
    {
        InterpSess { interp: self, workspace, env_stack: Vec::new(), evaluated_globals: Vec::new() }
    }
}

/// A session: the state it works on, the modules it has entered, each with
/// its environment, and the code of the globals that are to be evaluated
/// when a run starts.
pub struct InterpSess<'i> {
    pub interp: &'i mut Interp,
    pub workspace: &'i Workspace,
    pub env_stack: Vec<(ModuleId, Env)>,
    pub evaluated_globals: Vec<CompiledCode>,
}

/// The decimal digits of a number, most significant first.
pub open spec fn decimal(n: nat) -> Seq<char>
    decreases n,
{
    if n < 10 {
        seq![digit(n)]
    } else {
        decimal(n / 10).push(digit(n % 10))
    }
}

/// The character for one decimal digit.
pub open spec fn digit(d: nat) -> char {
    if d == 0 {
        '0'
    } else if d == 1 {
        '1'
    } else if d == 2 {
        '2'
    } else if d == 3 {
        '3'
    } else if d == 4 {
        '4'
    } else if d == 5 {
        '5'
    } else if d == 6 {
        '6'
    } else if d == 7 {
        '7'
    } else if d == 8 {
        '8'
    } else {
        '9'
    }
}

/// Formats a number through `std::fmt::Display`, which writes an unsigned
/// integer as its decimal digits, without sign or padding.
#[verifier::external_body]
fn decimal_string(n: usize) -> (s: String)
    ensures
        s@ == decimal(n as nat),
{
    format!("{}", n)
}

/// The text of the name of the function that evaluates the `i`-th waiting
/// global.
pub open spec fn global_init_text(i: nat) -> Seq<char> {
    "global_init_"@ + decimal(i)
}

/// The function that the machine runs a waiting global's code as.
pub open spec fn is_global_init(f: FuncModel, i: nat, code: CodeModel) -> bool {
    &&& ustr_text(f.name) == global_init_text(i)
    &&& f.arg_types == Seq::<TyKind>::empty()
    &&& f.return_type == TyKind::Unit
    &&& f.code == code
}

/// The instructions that evaluate `n` waiting globals whose functions sit
/// in the constants pool from slot `first` on: push each and call it.
pub open spec fn init_instructions(first: nat, n: nat) -> Seq<Instruction>
    decreases n,
{
    if n == 0 {
        Seq::empty()
    } else {
        init_instructions(first, (n - 1) as nat).push(
            Instruction::PushConst((first + n - 1) as u32),
        ).push(Instruction::Call(0))
    }
}

impl<'i> InterpSess<'i> {
    /// A machine over this session's state.
    pub fn create_vm(&mut self) -> (vm: VM<'_>)
        ensures
            final(self).workspace == old(self).workspace,
            vm@ == (Machine {
                stack: Seq::empty(),
                frames: Seq::empty(),
                globals: models(old(self).interp.globals@),
                constants: models(old(self).interp.constants@),
                waiting: false,
                session: old(self).interp.session(),
            }),
            *vm.interp == *old(self).interp,
            *final(vm.interp) == *final(self).interp,
            final(self).env_stack == old(self).env_stack,
            final(self).evaluated_globals == old(self).evaluated_globals,
    {
        VM::new(&mut *self.interp)
    }

    /// Adds a constant to the pool and emits the instruction that pushes
    /// it. Returns the constant's slot.
    pub fn push_const(&mut self, code: &mut CompiledCode, value: Value) -> (slot: usize)
        requires
            old(self).interp.constants@.len() <= u32::MAX,
        ensures
            final(self).workspace == old(self).workspace,
            slot == old(self).interp.constants@.len(),
            final(self).interp.constants@ == old(self).interp.constants@.push(value),
            final(self).interp.globals == old(self).interp.globals,
            final(self).interp.functions == old(self).interp.functions,
            final(self).interp.bindings_to_globals == old(self).interp.bindings_to_globals,
            final(self).interp.build_options == old(self).interp.build_options,
            final(self).env_stack == old(self).env_stack,
            final(self).evaluated_globals == old(self).evaluated_globals,
            final(code)@ == (CodeModel {
                instructions: old(code)@.instructions.push(Instruction::PushConst(slot as u32)),
                locals: old(code)@.locals,
            }),
    {
        let slot = self.interp.constants.len();
        self.interp.constants.push(value);
        code.push(Instruction::PushConst(slot as u32));
        slot
    }

    /// Emits the instruction that pushes the unit value: the constant in
    /// slot zero.
    pub fn push_const_unit(&mut self, code: &mut CompiledCode)
        ensures
            final(self).workspace == old(self).workspace,
            *final(self).interp == *old(self).interp,
            final(self).env_stack == old(self).env_stack,
            final(self).evaluated_globals == old(self).evaluated_globals,
            final(code)@ == (CodeModel {
                instructions: old(code)@.instructions.push(Instruction::PushConst(0)),
                locals: old(code)@.locals,
            }),
    {
        code.push(Instruction::PushConst(0));
    }

    /// Stores the value of a top-level binding: in the binding's own slot
    /// if it has one, else in a new slot at the end of the table. Returns
    /// the slot.
    pub fn insert_global(&mut self, id: BindingInfoId, value: Value) -> (slot: usize)
        requires
            old(self).interp.wf(),
        ensures
            final(self).workspace == old(self).workspace,
            final(self).interp.wf(),
            final(self).interp.bindings_to_globals@ == old(self).interp.bindings_to_globals@.insert(
                id.0,
                slot,
            ),
            final(self).interp.constants == old(self).interp.constants,
            final(self).interp.functions == old(self).interp.functions,
            final(self).interp.build_options == old(self).interp.build_options,
            final(self).env_stack == old(self).env_stack,
            final(self).evaluated_globals == old(self).evaluated_globals,
            match old(self).global_of(id) {
                Some(known) => slot == known && final(self).interp.globals@ == old(
                    self,
                ).interp.globals@.update(slot as int, value),
                None => slot == old(self).interp.globals@.len() && final(self).interp.globals@
                    == old(self).interp.globals@.push(value),
            },
    {
        let key = id.0;
        let known = match self.interp.bindings_to_globals.get(&key) {
            Some(slot) => Some(*slot),
            None => None,
        };
        match known {
            Some(slot) => {
                self.interp.globals.set(slot, value);
                slot
            },
            None => {
                let slot = self.interp.globals.len();
                self.interp.globals.push(value);
                self.interp.bindings_to_globals.insert(key, slot);
                slot
            },
        }
    }

    /// The slot of a binding's global, in the model.
    pub open spec fn global_of(&self, id: BindingInfoId) -> Option<usize> {
        if self.interp.bindings_to_globals@.contains_key(id.0) {
            Some(self.interp.bindings_to_globals@[id.0])
        } else {
            None
        }
    }

    /// The slot of a binding's global, if the binding has one.
    pub fn get_global(&self, id: BindingInfoId) -> (slot: Option<usize>)
        ensures
            slot == self.global_of(id),
    {
        let key = id.0;
        match self.interp.bindings_to_globals.get(&key) {
            Some(slot) => Some(*slot),
            None => None,
        }
    }

    /// The module that the session is in.
    pub fn module_id(&self) -> (id: ModuleId)
        requires
            self.env_stack@.len() > 0,
        ensures
            id == self.env_stack@.last().0,
    {
        self.env_stack[self.env_stack.len() - 1].0
    }

    /// The environment of the module that the session is in.
    pub fn env(&self) -> (env: &Env)
        requires
            self.env_stack@.len() > 0,
        ensures
            *env == self.env_stack@.last().1,
    {
        &self.env_stack[self.env_stack.len() - 1].1
    }

    /// The environment of the module that the session is in, to change it.
    pub fn env_mut(&mut self) -> (env: &mut Env)
        requires
            old(self).env_stack@.len() > 0,
        ensures
            final(self).workspace == old(self).workspace,
            *env == old(self).env_stack@.last().1,
            final(self).env_stack@ == old(self).env_stack@.update(
                old(self).env_stack@.len() - 1,
                (old(self).env_stack@.last().0, *final(env)),
            ),
            final(self).interp == old(self).interp,
            final(self).evaluated_globals == old(self).evaluated_globals,
    {
        let last = self.env_stack.len() - 1;
        &mut self.env_stack[last].1
    }

    /// Reserves one more local slot in `code` and binds `id` to it in the
    /// innermost scope.
    pub fn add_local(&mut self, code: &mut CompiledCode, id: BindingInfoId)
        requires
            old(code).locals < i16::MAX,
            old(self).env_stack@.len() > 0,
            old(self).env_stack@.last().1@.len() > 0,
        ensures
            final(self).workspace == old(self).workspace,
            final(code)@ == (CodeModel {
                instructions: old(code)@.instructions,
                locals: (old(code).locals + 1) as u16,
            }),
            final(self).env_stack@.len() == old(self).env_stack@.len(),
            final(self).env_stack@.last().0 == old(self).env_stack@.last().0,
            final(self).env_stack@.last().1@ == old(self).env_stack@.last().1@.update(
                old(self).env_stack@.last().1@.len() - 1,
                old(self).env_stack@.last().1@.last().insert(id.0, (old(code).locals + 1) as i16),
            ),
            forall|k: int|
                0 <= k < old(self).env_stack@.len() - 1 ==> final(self).env_stack@[k] == old(
                    self,
                ).env_stack@[k],
            *final(self).interp == *old(self).interp,
            final(self).evaluated_globals == old(self).evaluated_globals,
    {
        code.locals += 1;
        let slot = code.locals as i16;
        self.env_mut().insert(id, slot);
    }

    /// Prepares a run of `code`. Each waiting global's code becomes a
    /// function in the constants pool, and the instructions that push and
    /// call those functions, in order, are put in front of `code`.
    pub fn insert_init_instructions(&mut self, code: CompiledCode) -> (out: CompiledCode)
        requires
            old(self).interp.constants@.len() + old(self).evaluated_globals@.len() <= u32::MAX,
        ensures
            final(self).workspace == old(self).workspace,
            out@.locals == code@.locals,
            out@.instructions == init_instructions(
                old(self).interp.constants@.len() as nat,
                old(self).evaluated_globals@.len() as nat,
            ) + code@.instructions,
            with_global_inits(
                old(self).interp.constants@,
                old(self).evaluated_globals@,
                final(self).interp.constants@,
            ),
            final(self).interp.globals == old(self).interp.globals,
            final(self).interp.functions == old(self).interp.functions,
            final(self).interp.bindings_to_globals == old(self).interp.bindings_to_globals,
            final(self).interp.build_options == old(self).interp.build_options,
            final(self).evaluated_globals == old(self).evaluated_globals,
            final(self).env_stack == old(self).env_stack,
    {
        let first = self.interp.constants.len();
        let mut init: Vec<Instruction> = Vec::new();
        let mut i: usize = 0;
        while i < self.evaluated_globals.len()
            invariant
                i <= self.evaluated_globals@.len(),
                first == old(self).interp.constants@.len(),
                first + self.evaluated_globals@.len() <= u32::MAX,
                self.interp.constants@.len() == first + i,
                self.interp.constants@.subrange(0, first as int) == old(self).interp.constants@,
                forall|k: int|
                    0 <= k < i ==> holds_global_init(
                        #[trigger] self.interp.constants@[first + k],
                        k as nat,
                        self.evaluated_globals@[k]@,
                    ),
                init@ == init_instructions(first as nat, i as nat),
                self.interp.globals == old(self).interp.globals,
                self.interp.functions == old(self).interp.functions,
                self.interp.bindings_to_globals == old(self).interp.bindings_to_globals,
                self.interp.build_options == old(self).interp.build_options,
                self.evaluated_globals == old(self).evaluated_globals,
                self.env_stack == old(self).env_stack,
                self.workspace == old(self).workspace,
            decreases self.evaluated_globals@.len() - i,
        {
            let slot = self.interp.constants.len();
            let text = String::from_str("global_init_").concat(decimal_string(i).as_str());
            let func = Func {
                name: ustr(text.as_str()),
                arg_types: Vec::new(),
                return_type: TyKind::Unit,
                code: self.evaluated_globals[i].clone(),
            };
            self.interp.constants.push(Value::Function(func));
            init.push(Instruction::PushConst(slot as u32));
            init.push(Instruction::Call(0));
            i += 1;
        }
        let mut rest = code.instructions;
        init.append(&mut rest);
        CompiledCode { instructions: init, locals: code.locals }
    }

    /// Starts the evaluation of lowered code: ends it with `Halt`, prepares
    /// the waiting globals, wraps the whole as the function `__vm_start`,
    /// and runs that function on a fresh machine for up to `max_steps`
    /// steps. Returns the machine together with the way the run stopped, so
    /// that a run that stopped for the host can go on.
    pub fn eval(&mut self, code: CompiledCode, max_steps: u64) -> (r: (VM<'_>, Step))
        requires
            old(self).interp.constants@.len() + old(self).evaluated_globals@.len() <= u32::MAX,
        ensures
            final(self).workspace == old(self).workspace,
            exists|f: FuncModel, constants: Seq<Value>|
                {
                    &&& ustr_text(f.name) == "__vm_start"@
                    &&& f.arg_types == Seq::<TyKind>::empty()
                    &&& f.return_type == TyKind::Unit
                    &&& f.code.locals == code@.locals
                    &&& f.code.instructions == init_instructions(
                        old(self).interp.constants@.len() as nat,
                        old(self).evaluated_globals@.len() as nat,
                    ) + code@.instructions.push(Instruction::Halt)
                    &&& with_global_inits(
                        old(self).interp.constants@,
                        old(self).evaluated_globals@,
                        constants,
                    )
                    &&& (r.0@, r.1@) == start(
                        Machine {
                            stack: Seq::empty(),
                            frames: Seq::empty(),
                            globals: models(old(self).interp.globals@),
                            constants: models(constants),
                            waiting: false,
                            session: old(self).interp.session(),
                        },
                        f,
                        max_steps as nat,
                    )
                },
            well_formed(r.0@),
            *final(r.0.interp) == *final(self).interp,
            final(self).env_stack == old(self).env_stack,
            final(self).evaluated_globals == old(self).evaluated_globals,
    {
        let ghost lowered = code@;
        let mut code = code;
        code.push(Instruction::Halt);
        let start_code = self.insert_init_instructions(code);
        let start_func = Func {
            name: ustr("__vm_start"),
            arg_types: Vec::new(),
            return_type: TyKind::Unit,
            code: start_code,
        };
        let ghost f = start_func@;
        let ghost constants = self.interp.constants@;
        let mut vm = self.create_vm();
        let ghost fresh = vm@;
        let r = vm.run_func(start_func, max_steps);
        proof {
            assert(f.arg_types =~= Seq::<TyKind>::empty());
            assert(f.code.instructions =~= init_instructions(
                old(self).interp.constants@.len() as nat,
                old(self).evaluated_globals@.len() as nat,
            ) + lowered.instructions.push(Instruction::Halt));
            assert(fresh == (Machine {
                stack: Seq::empty(),
                frames: Seq::empty(),
                globals: models(old(self).interp.globals@),
                constants: models(constants),
                waiting: false,
                session: old(self).interp.session(),
            }));
            assert((vm@, r@) == start(fresh, f, max_steps as nat));
        }
        (vm, r)
    }

    /// The first binding of the given module with the given name.
    pub fn find_symbol(&self, module_id: ModuleId, symbol: Ustr) -> (found: Option<BindingInfoId>)
        ensures
            match found {
                Some(id) => {
                    &&& id.0 < self.workspace.binding_infos@.len()
                    &&& names(self.workspace.binding_infos@[id.0 as int], module_id, symbol)
                    &&& forall|k: int|
                        0 <= k < id.0 ==> !names(
                            #[trigger] self.workspace.binding_infos@[k],
                            module_id,
                            symbol,
                        )
                },
                None => forall|k: int|
                    0 <= k < self.workspace.binding_infos@.len() ==> !names(
                        #[trigger] self.workspace.binding_infos@[k],
                        module_id,
                        symbol,
                    ),
            },
    {
        let infos = &self.workspace.binding_infos;
        let mut i: usize = 0;
        while i < infos.len()
            invariant
                i <= infos@.len(),
                infos == &self.workspace.binding_infos,
                forall|k: int| 0 <= k < i ==> !names(#[trigger] infos@[k], module_id, symbol),
            decreases infos.len() - i,
        {
            let info = infos[i];
            if info.module_id.0 == module_id.0 && same_name(info.symbol, symbol) {
                return Some(BindingInfoId(i));
            }
            i += 1;
        }
        None
    }
}

/// Whether a constant is the function that evaluates the `i`-th waiting
/// global.
pub open spec fn holds_global_init(constant: Value, i: nat, code: CodeModel) -> bool {
    constant matches Value::Function(f) && is_global_init(f@, i, code)
}

/// Whether `after` is the pool `before` followed by one function for each
/// waiting global, in order.
pub open spec fn with_global_inits(
    before: Seq<Value>,
    waiting: Seq<CompiledCode>,
    after: Seq<Value>,
) -> bool {
    &&& after.len() == before.len() + waiting.len()
    &&& after.subrange(0, before.len() as int) == before
    &&& forall|k: int|
        0 <= k < waiting.len() ==> holds_global_init(
            #[trigger] after[before.len() + k],
            k as nat,
            waiting[k]@,
        )
}

/// Whether a binding is the one of that name in that module.
pub open spec fn names(info: BindingInfo, module_id: ModuleId, symbol: Ustr) -> bool {
    info.module_id == module_id && ustr_text(info.symbol) == ustr_text(symbol)
}

} // verus!
