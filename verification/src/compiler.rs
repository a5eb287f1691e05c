use crate::error::{CompileError, StructuralError};
use crate::ir::{
    BlockKind, Callee, GlobalSlot, Instr, IrFunction, IrFunctionView, IrType, Operand, Placed,
};
use crate::lowering::{Env, FunctionLowering, LoweringEnv, LoweringState, PAGE_SIZE};
use crate::names::{function_name, indexed_name, main_name, start_name};
use crate::wasm_parser::{
    Function, FunctionView, MemoryType, ValType, WasmGlobal, WasmModule, WasmModuleView,
};
use crate::wellformed::{code_ok, law_lowered_code_is_well_formed};
use vstd::prelude::*;
use vstd::string::*;

verus! {

/// The largest number of pages that the backing region of a memory holds.
pub const MAX_PAGES: u64 = 65535;

/// The lowering of one module: what has been lowered of it so far.
#[derive(Debug)]
pub struct Compiler {
    pub module_name: String,
    /// The size in bytes of the linear memory, where the module has one.
    pub memory: Option<u32>,
    pub globals: Vec<GlobalSlot>,
    /// Whether the module imports the one recognized import.
    pub putchar_declared: bool,
    /// The lowered functions, in the order in which they were lowered.
    pub functions: Vec<IrFunction>,
}

/// The mathematical model of a [`Compiler`].
pub struct CompilerView {
    pub module_name: Seq<char>,
    pub memory: Option<u32>,
    pub globals: Seq<GlobalSlot>,
    pub putchar_declared: bool,
    pub functions: Seq<IrFunctionView>,
}

impl View for Compiler {
    type V = CompilerView;

    open spec fn view(&self) -> CompilerView {
        CompilerView {
            module_name: self.module_name@,
            memory: self.memory,
            globals: self.globals@,
            putchar_declared: self.putchar_declared,
            functions: self.functions@.map_values(|f: IrFunction| f@),
        }
    }
}

/// The position of the first function from `from` on that has the name
/// `name`.
pub open spec fn first_named(functions: Seq<IrFunctionView>, name: Seq<char>, from: int) -> Option<
    int,
>
    decreases functions.len() - from,
{
    if from < 0 || from >= functions.len() {
        None
    } else if functions[from].name == name {
        Some(from)
    } else {
        first_named(functions, name, from + 1)
    }
}

/// Finds the first function that has the name `name`.
pub fn find_function(functions: &Vec<IrFunction>, name: &String) -> (found: Option<usize>)
    ensures
        match found {
            Some(at) => at < functions.len() && first_named(
                functions@.map_values(|f: IrFunction| f@),
                name@,
                0,
            ) == Some(at as int),
            None => first_named(functions@.map_values(|f: IrFunction| f@), name@, 0) is None,
        },
{
    let ghost views = functions@.map_values(|f: IrFunction| f@);
    let mut at: usize = 0;
    while at < functions.len()
        invariant
            at <= functions.len(),
            views == functions@.map_values(|f: IrFunction| f@),
            first_named(views, name@, 0) == first_named(views, name@, at as int),
        decreases functions.len() - at,
    {
        if functions[at].name == *name {
            return Some(at);
        }
        at = at + 1;
    }
    None
}

/// Whether all of `globals` are of numeric types.
pub open spec fn globals_numeric(globals: Seq<WasmGlobal>) -> bool {
    forall|i: int|
        0 <= i < globals.len() ==> (#[trigger] globals[i]).global_type.content_type.is_numeric()
}

/// Whether all of `globals` are of numeric types.
pub fn globals_supported(globals: &[WasmGlobal]) -> (b: bool)
    ensures
        b == globals_numeric(globals@),
{
    let mut at: usize = 0;
    while at < globals.len()
        invariant
            at <= globals.len(),
            forall|i: int|
                0 <= i < at ==> (#[trigger] globals@[i]).global_type.content_type.is_numeric(),
        decreases globals.len() - at,
    {
        if !globals[at].global_type.content_type.is_supported() {
            return false;
        }
        at = at + 1;
    }
    true
}

impl WasmModuleView {
    /// Whether the functions and the globals of the module are all of
    /// numeric types.
    pub open spec fn is_numeric(self) -> bool {
        &&& forall|i: int| 0 <= i < self.functions.len() ==> (#[trigger] self.functions[i]).is_numeric()
        &&& globals_numeric(self.globals)
    }
}

/// The cell that stands for a global.
pub open spec fn slot_of(global: WasmGlobal) -> GlobalSlot {
    GlobalSlot { ty: global.global_type.content_type.ir_type(), mutable: global.global_type.mutable }
}

impl FunctionView {
    /// The name of the lowered function: the decoded name, or else the name
    /// that its index gives it.
    pub open spec fn lowered_name(self) -> Seq<char> {
        match self.name {
            Some(name) => name,
            None => indexed_name(self.idx),
        }
    }

    /// The function as it is declared before its body is lowered.
    pub open spec fn declaration(self) -> IrFunctionView {
        IrFunctionView {
            name: self.lowered_name(),
            params: self.params.map_values(|ty: ValType| ty.ir_type()),
            result: if self.results.len() > 0 {
                Some(self.results[0].ir_type())
            } else {
                None
            },
            blocks: Seq::empty(),
            code: Seq::empty(),
        }
    }
}

impl CompilerView {
    /// A module of which nothing has been lowered yet.
    pub open spec fn empty(module_name: Seq<char>) -> CompilerView {
        CompilerView {
            module_name,
            memory: None,
            globals: Seq::empty(),
            putchar_declared: false,
            functions: Seq::empty(),
        }
    }

    /// What the lowering of `function` reads of the module.  Every function
    /// of the module is declared already, this one too, so that a function
    /// can call itself and the functions that follow it.
    pub open spec fn env(self, function: FunctionView) -> LoweringEnv {
        LoweringEnv {
            params: function.params,
            locals: function.locals,
            results: function.results,
            memory: self.memory,
            globals: self.globals,
            putchar: self.putchar_declared,
            functions: self.functions,
        }
    }

    /// The module with `function` declared behind the functions that it has.
    pub open spec fn declare(self, function: FunctionView) -> CompilerView {
        CompilerView { functions: self.functions.push(function.declaration()), ..self }
    }

    /// The module with `functions` declared, in their order, behind the
    /// functions that it has.
    pub open spec fn declare_all(self, functions: Seq<FunctionView>) -> CompilerView {
        CompilerView {
            functions: self.functions + functions.map_values(|f: FunctionView| f.declaration()),
            ..self
        }
    }

    /// The lowering of the body of `function`, which is declared at the
    /// position `position`.  The function gets what was emitted up to the
    /// end of its body, to its return or to the first operator that failed;
    /// the result is its position, or that operator's error.
    pub open spec fn lower_body(self, position: int, function: FunctionView) -> (
        CompilerView,
        Result<usize, CompileError>,
    ) {
        let env = self.env(function);
        let body = LoweringState::start(env).run(env, function.operators);
        let lowered = IrFunctionView {
            blocks: body.state.blocks,
            code: body.state.code,
            ..function.declaration()
        };
        (
            CompilerView { functions: self.functions.update(position, lowered), ..self },
            match body.result {
                Ok(_) => Ok(position as usize),
                Err(e) => Err(e),
            },
        )
    }

    /// The lowering of one function.  A function type with more than one
    /// result is rejected, and so is a function with a parameter, a result
    /// or a local that is not numeric; the module is left as it is.  Otherwise the
    /// function is declared behind the functions that the module has, and
    /// its body is lowered.
    pub open spec fn compile_function(self, function: FunctionView) -> (
        CompilerView,
        Result<usize, CompileError>,
    ) {
        if function.results.len() > 1 {
            (self, Err(CompileError::StructuralError(StructuralError::MultipleResults)))
        } else if !function.is_numeric() {
            (self, Err(CompileError::StructuralError(StructuralError::UnsupportedType)))
        } else {
            self.declare(function).lower_body(self.functions.len() as int, function)
        }
    }

    /// The lowering of the bodies of `functions` from the position `at` on,
    /// one after the other, up to the first that fails.  The function at
    /// position `i` of `functions` is declared at position `base + i` of the
    /// module.
    pub open spec fn lower_bodies(self, base: int, functions: Seq<FunctionView>, at: int) -> (
        CompilerView,
        Result<(), CompileError>,
    )
        decreases functions.len() - at,
    {
        if at < 0 || at >= functions.len() {
            (self, Ok(()))
        } else {
            let (next, result) = self.lower_body(base + at, functions[at]);
            match result {
                Ok(_) => next.lower_bodies(base, functions, at + 1),
                Err(e) => (next, Err(e)),
            }
        }
    }

    /// The lowering of the functions of a module.  Where one of them has
    /// more than one result, or a type that is not numeric, all are rejected
    /// and the module is left as it is.  Otherwise all are declared, in their order, before the body of
    /// any is lowered; then the bodies are lowered in that order, up to the
    /// first that fails.
    pub open spec fn compile_functions(self, functions: Seq<FunctionView>) -> (
        CompilerView,
        Result<(), CompileError>,
    ) {
        if exists|i: int| 0 <= i < functions.len() && functions[i].results.len() > 1 {
            (self, Err(CompileError::StructuralError(StructuralError::MultipleResults)))
        } else if exists|i: int| 0 <= i < functions.len() && !functions[i].is_numeric() {
            (self, Err(CompileError::StructuralError(StructuralError::UnsupportedType)))
        } else {
            self.declare_all(functions).lower_bodies(self.functions.len() as int, functions, 0)
        }
    }

    /// The function that the entry point calls: the one named after the
    /// start index, or else the one named `_start`, if there is one.
    pub open spec fn start_function(self, start_func_idx: u32) -> Option<int> {
        match first_named(self.functions, indexed_name(start_func_idx), 0) {
            Some(at) => Some(at),
            None => first_named(self.functions, start_name(), 0),
        }
    }

    /// The synthesized entry point: it calls the start function, where
    /// there is one, and returns the status 0.
    pub open spec fn main_function(self, start_func_idx: u32) -> IrFunctionView {
        let status = Placed {
            block: 0,
            instr: Instr::Return {
                value: Some(Operand::ConstInt { ty: IrType::I32, bits: 0 }),
            },
        };
        IrFunctionView {
            name: main_name(),
            params: Seq::empty(),
            result: Some(IrType::I32),
            blocks: seq![BlockKind::Entry],
            code: match self.start_function(start_func_idx) {
                Some(at) => seq![
                    Placed {
                        block: 0,
                        instr: Instr::Call {
                            callee: Callee::Function { index: at as usize },
                            argc: 0,
                            has_result: self.functions[at].result is Some,
                        },
                    },
                    status,
                ],
                None => seq![status],
            },
        }
    }

    /// The module with the entry point appended.
    pub open spec fn create_main(self, start_func_idx: u32) -> CompilerView {
        CompilerView { functions: self.functions.push(self.main_function(start_func_idx)), ..self }
    }

    /// The module with its memory created, where it declares one.
    pub open spec fn with_memory(self, memories: Seq<MemoryType>) -> CompilerView {
        if memories.len() > 0 {
            CompilerView { memory: Some((memories[0].initial * PAGE_SIZE) as u32), ..self }
        } else {
            self
        }
    }

    /// The module with the entry point synthesized, where it has a start
    /// function.
    pub open spec fn with_main(self, start_func_idx: Option<u32>) -> CompilerView {
        match start_func_idx {
            Some(idx) => self.create_main(idx),
            None => self,
        }
    }

    /// The lowering of a whole module.  A module with more than one memory,
    /// with a function type of more than one result, with a function or a
    /// global of a type that is not numeric, or with a memory too
    /// large is rejected before anything is lowered.  Otherwise the memory,
    /// the globals, the import and all the functions are declared, the
    /// bodies of the functions are lowered in order, and last the entry point
    /// is synthesized.  The first function that fails ends the lowering.
    pub open spec fn compile_module(self, module: WasmModuleView) -> (
        CompilerView,
        Result<(), CompileError>,
    ) {
        if module.memories.len() > 1 {
            (self, Err(CompileError::StructuralError(StructuralError::MultipleMemories)))
        } else if exists|i: int| 0 <= i < module.functions.len() && module.functions[i].results.len() > 1 {
            (self, Err(CompileError::StructuralError(StructuralError::MultipleResults)))
        } else if !module.is_numeric() {
            (self, Err(CompileError::StructuralError(StructuralError::UnsupportedType)))
        } else if module.memories.len() == 1 && module.memories[0].initial > MAX_PAGES {
            (self, Err(CompileError::StructuralError(StructuralError::MemoryTooLarge)))
        } else {
            let declared = CompilerView {
                globals: self.globals + module.globals.map_values(|g: WasmGlobal| slot_of(g)),
                putchar_declared: self.putchar_declared || module.has_putchar_import,
                ..self.with_memory(module.memories)
            };
            let (lowered, result) = declared.compile_functions(module.functions);
            match result {
                Ok(_) => (lowered.with_main(module.start_func_idx), Ok(())),
                Err(e) => (lowered, Err(e)),
            }
        }
    }
}

/// The types that stand for `types` in the intermediate representation.
fn ir_types(types: &Vec<ValType>) -> (lowered: Vec<IrType>)
    ensures
        lowered@ == types@.map_values(|ty: ValType| ty.ir_type()),
{
    let mut lowered: Vec<IrType> = Vec::new();
    let mut at: usize = 0;
    while at < types.len()
        invariant
            at <= types.len(),
            lowered@ == types@.take(at as int).map_values(|ty: ValType| ty.ir_type()),
        decreases types.len() - at,
    {
        lowered.push(types[at].to_ir_type());
        at = at + 1;
    }
    assert(types@.take(at as int) == types@);
    lowered
}

/// The function as it is declared before its body is lowered.
fn declaration(function: &Function) -> (declared: IrFunction)
    ensures
        declared@ == function@.declaration(),
{
    let name = match &function.name {
        Some(name) => name.clone(),
        None => function_name(function.idx),
    };
    let results = function.func_type.results();
    let declared = IrFunction {
        name,
        params: ir_types(function.func_type.params()),
        result: if results.len() > 0 {
            Some(results[0].to_ir_type())
        } else {
            None
        },
        blocks: Vec::new(),
        code: Vec::new(),
    };
    assert(declared@.blocks =~= Seq::<BlockKind>::empty());
    assert(declared@.code =~= Seq::<Placed>::empty());
    declared
}

impl Compiler {
    /// Begins the lowering of a module of the given name.
    pub fn new(module_name: &str) -> (compiler: Result<Compiler, CompileError>)
        ensures
            compiler is Ok,
            compiler->Ok_0@ == CompilerView::empty(module_name@),
    {
        let compiler = Compiler {
            module_name: String::from_str(module_name),
            memory: None,
            globals: Vec::new(),
            putchar_declared: false,
            functions: Vec::new(),
        };
        assert(compiler@.functions =~= Seq::empty());
        Ok(compiler)
    }

    /// Creates the linear memory: `initial` pages of 64 KiB, fixed from now
    /// on.  More than 65535 pages are rejected.
    pub fn create_memory(&mut self, memory_type: &MemoryType) -> (r: Result<(), CompileError>)
        ensures
            memory_type.initial > MAX_PAGES ==> r == Err::<(), CompileError>(
                CompileError::StructuralError(StructuralError::MemoryTooLarge),
            ) && *final(self) == *old(self),
            memory_type.initial <= MAX_PAGES ==> r is Ok && final(self)@ == (CompilerView {
                memory: Some((memory_type.initial * PAGE_SIZE) as u32),
                ..old(self)@
            }),
    {
        if memory_type.initial > MAX_PAGES {
            return Err(CompileError::StructuralError(StructuralError::MemoryTooLarge));
        }
        let pages: u32 = memory_type.initial as u32;
        self.memory = Some(pages * PAGE_SIZE);
        Ok(())
    }

    /// Creates one cell for each global, after those that exist already.
    /// Each cell starts at the zero of the type of its global.  Where a
    /// global is of a type that is not numeric, none is created.
    pub fn create_globals(&mut self, globals: &[WasmGlobal]) -> (r: Result<(), CompileError>)
        ensures
            !globals_numeric(globals@) ==> r == Err::<(), CompileError>(
                CompileError::StructuralError(StructuralError::UnsupportedType),
            ) && *final(self) == *old(self),
            globals_numeric(globals@) ==> r is Ok && final(self)@ == (CompilerView {
                globals: old(self)@.globals + globals@.map_values(|g: WasmGlobal| slot_of(g)),
                ..old(self)@
            }) && forall|i: int|
                0 <= i < globals@.len() ==> (#[trigger] final(self)@.globals[old(self)@.globals.len()
                    + i]).initial() == globals@[i].global_type.content_type.ir_type().zero()
                    && final(self)@.globals[old(self)@.globals.len() + i].initial_bits() == 0,
    {
        if !globals_supported(globals) {
            return Err(CompileError::StructuralError(StructuralError::UnsupportedType));
        }
        let mut at: usize = 0;
        while at < globals.len()
            invariant
                at <= globals.len(),
                self.module_name == old(self).module_name,
                self.memory == old(self).memory,
                self.putchar_declared == old(self).putchar_declared,
                self.functions == old(self).functions,
                self.globals@ == old(self).globals@ + globals@.take(at as int).map_values(
                    |g: WasmGlobal| slot_of(g),
                ),
            decreases globals.len() - at,
        {
            let global_type = globals[at].global_type;
            self.globals.push(
                GlobalSlot { ty: global_type.content_type.to_ir_type(), mutable: global_type.mutable },
            );
            at = at + 1;
        }
        assert(globals@.take(at as int) == globals@);
        Ok(())
    }

    /// Declares `function` behind the functions that the module has.
    fn declare(&mut self, function: &Function)
        ensures
            final(self)@ == old(self)@.declare(function@),
            final(self).functions.len() == old(self).functions.len() + 1,
    {
        let declared = declaration(function);
        self.functions.push(declared);
        assert(self@.functions =~= old(self)@.functions.push(function@.declaration()));
    }

    /// Lowers the body of `function`, which is declared at `position`.
    fn lower_body(&mut self, position: usize, function: &Function) -> (r: Result<
        usize,
        CompileError,
    >)
        requires
            position < old(self).functions.len(),
        ensures
            (final(self)@, r) == old(self)@.lower_body(position as int, function@),
            final(self).functions.len() == old(self).functions.len(),
            code_ok(
                old(self)@.env(function@),
                final(self)@.functions[position as int].blocks.len() as int,
                final(self)@.functions[position as int].code,
            ),
    {
        let env = Env {
            params: &function.func_type.params,
            locals: &function.body.locals,
            results: &function.func_type.results,
            memory: self.memory,
            globals: &self.globals,
            putchar: self.putchar_declared,
            functions: &self.functions,
        };
        assert(env@ == old(self)@.env(function@));
        let mut lowering = FunctionLowering::begin(&env);
        let outcome = lowering.lower_operators(&env, &function.body.operators);
        let ghost body = lowering@;
        let FunctionLowering { blocks, code, .. } = lowering;
        let declared = declaration(function);
        let lowered = IrFunction {
            name: declared.name,
            params: declared.params,
            result: declared.result,
            blocks,
            code,
        };
        proof {
            let view = IrFunctionView {
                blocks: body.blocks,
                code: body.code,
                ..function@.declaration()
            };
            assert(lowered@ == view);
            assert(old(self).functions@.len() == old(self).functions.len());
            assert(body.code.len() == lowered.code.len());
            assert(body.blocks.len() == lowered.blocks.len());
            law_lowered_code_is_well_formed(old(self)@.env(function@), function@.operators);
        }
        self.functions.set(position, lowered);
        assert(self@.functions =~= old(self)@.functions.update(position as int, lowered@));
        match outcome {
            Ok(_) => Ok(position),
            Err(e) => Err(e),
        }
    }

    /// Lowers one function: declares it behind the functions that the module
    /// has, and lowers its body.  A function type with more than one result
    /// is rejected before anything is done.  The result is the position of
    /// the function in the module.
    pub fn compile_function(&mut self, function: &Function) -> (r: Result<usize, CompileError>)
        ensures
            (final(self)@, r) == old(self)@.compile_function(function@),
            function@.results.len() <= 1 && function@.is_numeric() ==> code_ok(
                old(self)@.declare(function@).env(function@),
                final(self)@.functions.last().blocks.len() as int,
                final(self)@.functions.last().code,
            ),
    {
        if function.func_type.results().len() > 1 {
            return Err(CompileError::StructuralError(StructuralError::MultipleResults));
        }
        if !function.is_supported() {
            return Err(CompileError::StructuralError(StructuralError::UnsupportedType));
        }
        let position = self.functions.len();
        self.declare(function);
        self.lower_body(position, function)
    }

    /// Synthesizes the entry point `main`: it calls the start function, the
    /// one named after `start_func_idx` or else the one named `_start`, if
    /// there is one, and returns the status 0.
    pub fn create_main(&mut self, start_func_idx: u32) -> (r: Result<(), CompileError>)
        ensures
            r is Ok,
            final(self)@ == old(self)@.create_main(start_func_idx),
    {
        let by_index = function_name(start_func_idx);
        let start = match find_function(&self.functions, &by_index) {
            Some(at) => Some(at),
            None => {
                let by_name = String::from_str("_start");
                find_function(&self.functions, &by_name)
            },
        };
        let mut code: Vec<Placed> = Vec::new();
        match start {
            Some(at) => {
                code.push(
                    Placed {
                        block: 0,
                        instr: Instr::Call {
                            callee: Callee::Function { index: at },
                            argc: 0,
                            has_result: self.functions[at].result.is_some(),
                        },
                    },
                );
            },
            None => {},
        }
        code.push(
            Placed {
                block: 0,
                instr: Instr::Return {
                    value: Some(Operand::ConstInt { ty: IrType::I32, bits: 0 }),
                },
            },
        );
        let mut blocks: Vec<BlockKind> = Vec::new();
        blocks.push(BlockKind::Entry);
        let main = IrFunction {
            name: String::from_str("main"),
            params: Vec::new(),
            result: Some(IrType::I32),
            blocks,
            code,
        };
        proof {
            let expected = old(self)@.main_function(start_func_idx);
            assert(main@.params =~= expected.params);
            assert(main@.blocks =~= expected.blocks);
            assert(main@.code =~= expected.code);
            assert(main@ == expected);
        }
        self.functions.push(main);
        assert(self@.functions =~= old(self)@.functions.push(
            old(self)@.main_function(start_func_idx),
        ));
        Ok(())
    }

    /// Lowers the bodies of `functions`, which are declared from the
    /// position `base` on, one after the other, up to the first that fails.
    #[verifier::rlimit(100)]
    fn lower_bodies(&mut self, base: usize, functions: &Vec<Function>) -> (r: Result<
        (),
        CompileError,
    >)
        requires
            old(self).functions.len() == base + functions.len(),
        ensures
            (final(self)@, r) == old(self)@.lower_bodies(
                base as int,
                functions@.map_values(|f: Function| f@),
                0,
            ),
    {
        let ghost all = functions@.map_values(|f: Function| f@);
        let mut at: usize = 0;
        while at < functions.len()
            invariant
                at <= functions.len(),
                all == functions@.map_values(|f: Function| f@),
                self.functions.len() == base + functions.len(),
                old(self)@.lower_bodies(base as int, all, 0) == self@.lower_bodies(
                    base as int,
                    all,
                    at as int,
                ),
            decreases functions.len() - at,
        {
            assert(all[at as int] == functions[at as int]@);
            if let Err(e) = self.lower_body(base + at, &functions[at]) {
                return Err(e);
            }
            at = at + 1;
        }
        Ok(())
    }

    /// Lowers the functions of a module: declares all of them, in their
    /// order, then lowers their bodies in that order, up to the first that
    /// fails.  Where one of them has more than one result, nothing is done.
    pub fn compile_functions(&mut self, functions: &Vec<Function>) -> (r: Result<
        (),
        CompileError,
    >)
        ensures
            (final(self)@, r) == old(self)@.compile_functions(
                functions@.map_values(|f: Function| f@),
            ),
    {
        let ghost all = functions@.map_values(|f: Function| f@);
        let mut at: usize = 0;
        while at < functions.len()
            invariant
                at <= functions.len(),
                all == functions@.map_values(|f: Function| f@),
                *self == *old(self),
                forall|i: int| 0 <= i < at ==> all[i].results.len() <= 1,
            decreases functions.len() - at,
        {
            if functions[at].func_type.results().len() > 1 {
                assert(all[at as int].results.len() > 1);
                return Err(CompileError::StructuralError(StructuralError::MultipleResults));
            }
            at = at + 1;
        }
        at = 0;
        while at < functions.len()
            invariant
                at <= functions.len(),
                all == functions@.map_values(|f: Function| f@),
                *self == *old(self),
                forall|i: int| 0 <= i < all.len() ==> all[i].results.len() <= 1,
                forall|i: int| 0 <= i < at ==> all[i].is_numeric(),
            decreases functions.len() - at,
        {
            if !functions[at].is_supported() {
                assert(!all[at as int].is_numeric());
                return Err(CompileError::StructuralError(StructuralError::UnsupportedType));
            }
            at = at + 1;
        }
        let base = self.functions.len();
        at = 0;
        while at < functions.len()
            invariant
                at <= functions.len(),
                all == functions@.map_values(|f: Function| f@),
                base == old(self).functions.len(),
                self.functions.len() == base + at,
                self@ == (CompilerView {
                    functions: old(self)@.functions + all.take(at as int).map_values(
                        |f: FunctionView| f.declaration(),
                    ),
                    ..old(self)@
                }),
            decreases functions.len() - at,
        {
            let ghost before = self@;
            self.declare(&functions[at]);
            assert(self@.functions =~= old(self)@.functions + all.take(at as int + 1).map_values(
                |f: FunctionView| f.declaration(),
            )) by {
                assert(all[at as int] == functions[at as int]@);
                assert(all.take(at as int + 1) =~= all.take(at as int).push(all[at as int]));
            }
            at = at + 1;
        }
        assert(all.take(at as int) == all);
        self.lower_bodies(base, functions)
    }

    /// Lowers a whole module: the memory, the globals and the import are
    /// declared, the functions are lowered in order, and the entry point is
    /// synthesized where the module has a start function.  A malformed
    /// module is rejected before anything is lowered; the first function
    /// that fails ends the lowering.
    pub fn compile_module(&mut self, wasm_module: &WasmModule) -> (r: Result<(), CompileError>)
        ensures
            (final(self)@, r) == old(self)@.compile_module(wasm_module@),
    {
        let ghost module = wasm_module@;
        if wasm_module.memories.len() > 1 {
            return Err(CompileError::StructuralError(StructuralError::MultipleMemories));
        }
        let mut at: usize = 0;
        while at < wasm_module.functions.len()
            invariant
                at <= wasm_module.functions.len(),
                module == wasm_module@,
                *self == *old(self),
                module.memories.len() <= 1,
                forall|i: int| 0 <= i < at ==> module.functions[i].results.len() <= 1,
            decreases wasm_module.functions.len() - at,
        {
            if wasm_module.functions[at].func_type.results().len() > 1 {
                assert(module.functions[at as int].results.len() > 1);
                return Err(CompileError::StructuralError(StructuralError::MultipleResults));
            }
            at = at + 1;
        }
        at = 0;
        while at < wasm_module.functions.len()
            invariant
                at <= wasm_module.functions.len(),
                module == wasm_module@,
                *self == *old(self),
                module.memories.len() <= 1,
                forall|i: int| 0 <= i < module.functions.len() ==> module.functions[i].results.len() <= 1,
                forall|i: int| 0 <= i < at ==> (#[trigger] module.functions[i]).is_numeric(),
            decreases wasm_module.functions.len() - at,
        {
            if !wasm_module.functions[at].is_supported() {
                assert(!module.functions[at as int].is_numeric());
                return Err(CompileError::StructuralError(StructuralError::UnsupportedType));
            }
            at = at + 1;
        }
        if !globals_supported(wasm_module.globals.as_slice()) {
            return Err(CompileError::StructuralError(StructuralError::UnsupportedType));
        }
        if wasm_module.memories.len() == 1 {
            let created = self.create_memory(&wasm_module.memories[0]);
            if let Err(e) = created {
                return Err(e);
            }
        }
        let _ = self.create_globals(wasm_module.globals.as_slice());
        if wasm_module.has_putchar_import {
            self.declare_putchar();
        }
        if let Err(e) = self.compile_functions(&wasm_module.functions) {
            return Err(e);
        }
        if let Some(start_func_idx) = wasm_module.start_func_idx {
            let _ = self.create_main(start_func_idx);
        }
        Ok(())
    }

    /// Declares the one recognized import: character output.
    pub fn declare_putchar(&mut self)
        ensures
            final(self)@ == (CompilerView { putchar_declared: true, ..old(self)@ }),
    {
        self.putchar_declared = true;
    }
}

} // verus!
