use crate::ir::IrType;
use vstd::prelude::*;
use vstd::string::*;

verus! {

/// The type of a value on the operand stack, in a local or in a global.
/// The four numeric types are modeled; a function or a global of another
/// type is rejected when it is lowered.
#[derive(Clone, Copy, Debug, PartialEq, Eq, Structural)]
pub enum ValType {
    I32,
    I64,
    F32,
    F64,
    /// A 128-bit vector.
    V128,
    /// A reference.
    Ref,
}

impl ValType {
    /// Whether the type is one of the four numeric types.
    pub open spec fn is_numeric(self) -> bool {
        self != ValType::V128 && self != ValType::Ref
    }

    /// Whether the type is one of the four numeric types.
    pub fn is_supported(self) -> (b: bool)
        ensures
            b == self.is_numeric(),
    {
        match self {
            ValType::V128 | ValType::Ref => false,
            _ => true,
        }
    }

    /// The type that stands for this one in the intermediate representation.
    /// A type that is not numeric has none: it is rejected wherever the
    /// lowering meets one, and stands here as an address.
    pub open spec fn ir_type(self) -> IrType
        recommends
            self.is_numeric(),
    {
        match self {
            ValType::I32 => IrType::I32,
            ValType::I64 => IrType::I64,
            ValType::F32 => IrType::F32,
            ValType::F64 => IrType::F64,
            _ => IrType::Ptr,
        }
    }

    /// The type that stands for this one in the intermediate representation.
    pub fn to_ir_type(self) -> (ty: IrType)
        ensures
            ty == self.ir_type(),
    {
        match self {
            ValType::I32 => IrType::I32,
            ValType::I64 => IrType::I64,
            ValType::F32 => IrType::F32,
            ValType::F64 => IrType::F64,
            _ => IrType::Ptr,
        }
    }
}

/// Whether all of `types` are numeric.
pub open spec fn all_numeric(types: Seq<ValType>) -> bool {
    forall|i: int| 0 <= i < types.len() ==> (#[trigger] types[i]).is_numeric()
}

/// Whether all of `types` are numeric.
pub fn all_supported(types: &Vec<ValType>) -> (b: bool)
    ensures
        b == all_numeric(types@),
{
    let mut at: usize = 0;
    while at < types.len()
        invariant
            at <= types.len(),
            forall|i: int| 0 <= i < at ==> (#[trigger] types@[i]).is_numeric(),
        decreases types.len() - at,
    {
        if !types[at].is_supported() {
            return false;
        }
        at = at + 1;
    }
    true
}

/// The type of a function: its parameters and its results, in order.
#[derive(Clone, Debug)]
pub struct FuncType {
    pub params: Vec<ValType>,
    pub results: Vec<ValType>,
}

impl FuncType {
    /// A function type of the given parameters and results.
    pub fn new(params: Vec<ValType>, results: Vec<ValType>) -> (ty: FuncType)
        ensures
            ty.params == params,
            ty.results == results,
    {
        FuncType { params, results }
    }

    /// The types of the parameters.
    pub fn params(&self) -> (p: &Vec<ValType>)
        ensures
            p == self.params,
    {
        &self.params
    }

    /// The types of the results.
    pub fn results(&self) -> (r: &Vec<ValType>)
        ensures
            r == self.results,
    {
        &self.results
    }
}

/// The declaration of a linear memory.  Sizes are in pages of 64 KiB.
#[derive(Clone, Copy, Debug, PartialEq, Eq, Structural)]
pub struct MemoryType {
    pub memory64: bool,
    pub shared: bool,
    pub initial: u64,
    pub maximum: Option<u64>,
    pub page_size_log2: Option<u32>,
}

/// The type of a global: what it holds and whether it can be written.
#[derive(Clone, Copy, Debug, PartialEq, Eq, Structural)]
pub struct GlobalType {
    pub content_type: ValType,
    pub mutable: bool,
    pub shared: bool,
}

/// A global of the module.
#[derive(Clone, Copy, Debug, PartialEq, Eq, Structural)]
pub struct WasmGlobal {
    pub global_type: GlobalType,
}

/// The immediate of a memory access.
#[derive(Clone, Copy, Debug, PartialEq, Eq, Structural)]
pub struct MemArg {
    pub align: u8,
    pub max_align: u8,
    /// The static part of the effective address.
    pub offset: u64,
    pub memory: u32,
}

/// The type annotation of a block, a loop or an if.
#[derive(Clone, Copy, Debug, PartialEq, Eq, Structural)]
pub enum BlockType {
    Empty,
    Type(ValType),
    FuncType(u32),
}

/// The abstract heap types that a reference can point into.
#[derive(Clone, Copy, Debug, PartialEq, Eq, Structural)]
pub enum AbstractHeapType {
    Func,
    Extern,
    Any,
    /// The bottom of the `Any` hierarchy.
    NoAny,
    NoExtern,
    NoFunc,
    Eq,
    Struct,
    Array,
    I31,
    Exn,
    NoExn,
}

/// The heap type of a reference.
#[derive(Clone, Copy, Debug, PartialEq, Eq, Structural)]
pub enum HeapType {
    Abstract { shared: bool, ty: AbstractHeapType },
    Concrete { type_index: u32 },
}

/// A binary32 constant, held by its bit pattern.
#[derive(Clone, Copy, Debug, PartialEq, Eq, Structural)]
pub struct Ieee32(pub u32);

impl Ieee32 {
    /// The constant with the given bit pattern.
    pub fn from_bits(bits: u32) -> (v: Ieee32)
        ensures
            v.0 == bits,
    {
        Ieee32(bits)
    }

    /// The bit pattern of the constant.
    pub fn bits(&self) -> (b: u32)
        ensures
            b == self.0,
    {
        self.0
    }
}

/// A binary64 constant, held by its bit pattern.
#[derive(Clone, Copy, Debug, PartialEq, Eq, Structural)]
pub struct Ieee64(pub u64);

impl Ieee64 {
    /// The constant with the given bit pattern.
    pub fn from_bits(bits: u64) -> (v: Ieee64)
        ensures
            v.0 == bits,
    {
        Ieee64(bits)
    }

    /// The bit pattern of the constant.
    pub fn bits(&self) -> (b: u64)
        ensures
            b == self.0,
    {
        self.0
    }
}

/// One operator of a function body.  Every operator but `Unmodeled` belongs
/// to the modeled set.
#[allow(inconsistent_fields)]
#[derive(Clone, Copy, Debug, PartialEq, Eq, Structural)]
pub enum Operator {
    Unreachable,
    Block { blockty: BlockType },
    Loop { blockty: BlockType },
    If { blockty: BlockType },
    Else,
    End,
    Br { relative_depth: u32 },
    BrIf { relative_depth: u32 },
    Return,
    Call { function_index: u32 },
    Drop,
    Select,
    LocalGet { local_index: u32 },
    LocalSet { local_index: u32 },
    LocalTee { local_index: u32 },
    GlobalGet { global_index: u32 },
    GlobalSet { global_index: u32 },
    I32Load { memarg: MemArg },
    I64Load { memarg: MemArg },
    F32Load { memarg: MemArg },
    F64Load { memarg: MemArg },
    I32Load8S { memarg: MemArg },
    I32Load8U { memarg: MemArg },
    I32Load16S { memarg: MemArg },
    I32Load16U { memarg: MemArg },
    I64Load8S { memarg: MemArg },
    I64Load8U { memarg: MemArg },
    I64Load16S { memarg: MemArg },
    I64Load16U { memarg: MemArg },
    I64Load32S { memarg: MemArg },
    I64Load32U { memarg: MemArg },
    I32Store { memarg: MemArg },
    I64Store { memarg: MemArg },
    F32Store { memarg: MemArg },
    F64Store { memarg: MemArg },
    I32Store8 { memarg: MemArg },
    I32Store16 { memarg: MemArg },
    I64Store8 { memarg: MemArg },
    I64Store16 { memarg: MemArg },
    I64Store32 { memarg: MemArg },
    MemorySize { mem: u32 },
    MemoryGrow { mem: u32 },
    MemoryCopy { dst_mem: u32, src_mem: u32 },
    MemoryFill { mem: u32 },
    I32Const { value: i32 },
    I64Const { value: i64 },
    F32Const { value: Ieee32 },
    F64Const { value: Ieee64 },
    RefNull { hty: HeapType },
    RefIsNull,
    I32Eqz,
    I32Eq,
    I32Ne,
    I32LtS,
    I32LtU,
    I32GtS,
    I32GtU,
    I32LeS,
    I32LeU,
    I32GeS,
    I32GeU,
    I64Eqz,
    I64Eq,
    I64Ne,
    I64LtS,
    I64LtU,
    I64GtS,
    I64GtU,
    I64LeS,
    I64LeU,
    I64GeS,
    I64GeU,
    F32Eq,
    F32Ne,
    F32Lt,
    F32Gt,
    F32Le,
    F32Ge,
    F64Eq,
    F64Ne,
    F64Lt,
    F64Gt,
    F64Le,
    F64Ge,
    I32Clz,
    I32Ctz,
    I32Popcnt,
    I32Add,
    I32Sub,
    I32Mul,
    I32DivS,
    I32DivU,
    I32RemS,
    I32RemU,
    I32And,
    I32Or,
    I32Xor,
    I32Shl,
    I32ShrS,
    I32ShrU,
    I32Rotl,
    I32Rotr,
    I64Clz,
    I64Ctz,
    I64Popcnt,
    I64Add,
    I64Sub,
    I64Mul,
    I64DivS,
    I64DivU,
    I64RemS,
    I64RemU,
    I64And,
    I64Or,
    I64Xor,
    I64Shl,
    I64ShrS,
    I64ShrU,
    I64Rotl,
    I64Rotr,
    F32Abs,
    F32Neg,
    F32Ceil,
    F32Floor,
    F32Trunc,
    F32Nearest,
    F32Sqrt,
    F32Add,
    F32Sub,
    F32Mul,
    F32Div,
    F32Min,
    F32Max,
    F32Copysign,
    F64Abs,
    F64Neg,
    F64Ceil,
    F64Floor,
    F64Trunc,
    F64Nearest,
    F64Sqrt,
    F64Add,
    F64Sub,
    F64Mul,
    F64Div,
    F64Min,
    F64Max,
    F64Copysign,
    I32WrapI64,
    I32TruncF32S,
    I32TruncF32U,
    I32TruncF64S,
    I32TruncF64U,
    I64ExtendI32S,
    I64ExtendI32U,
    F32ConvertI32S,
    F32ConvertI32U,
    F32DemoteF64,
    F64ConvertI32S,
    F64ConvertI32U,
    F64PromoteF32,
    I32Extend8S,
    /// An operator outside the modeled set, by the first byte of its opcode.
    Unmodeled { opcode: u32 },
}

/// The body of a function: the types of its declared locals (the parameters
/// come before them) and its operators.
#[derive(Clone, Debug)]
pub struct FunctionBody {
    pub locals: Vec<ValType>,
    pub operators: Vec<Operator>,
}

/// A function of the module.
#[derive(Clone, Debug)]
pub struct Function {
    /// Its index among all functions, imported ones included.
    pub idx: u32,
    pub name: Option<String>,
    pub func_type: FuncType,
    pub body: FunctionBody,
}

/// The mathematical model of a [`Function`].
pub struct FunctionView {
    pub idx: u32,
    pub name: Option<Seq<char>>,
    pub params: Seq<ValType>,
    pub results: Seq<ValType>,
    pub locals: Seq<ValType>,
    pub operators: Seq<Operator>,
}

impl FunctionView {
    /// Whether the parameters, the results and the declared locals of the
    /// function are all of numeric types.
    pub open spec fn is_numeric(self) -> bool {
        all_numeric(self.params) && all_numeric(self.results) && all_numeric(self.locals)
    }
}

impl Function {
    /// Whether the parameters, the results and the declared locals of the
    /// function are all of numeric types.
    pub fn is_supported(&self) -> (b: bool)
        ensures
            b == self@.is_numeric(),
    {
        all_supported(&self.func_type.params) && all_supported(&self.func_type.results)
            && all_supported(&self.body.locals)
    }
}

impl View for Function {
    type V = FunctionView;

    open spec fn view(&self) -> FunctionView {
        FunctionView {
            idx: self.idx,
            name: match self.name {
                Some(n) => Some(n@),
                None => None,
            },
            params: self.func_type.params@,
            results: self.func_type.results@,
            locals: self.body.locals@,
            operators: self.body.operators@,
        }
    }
}

/// A decoded module.
#[derive(Clone, Debug)]
pub struct WasmModule {
    pub functions: Vec<Function>,
    pub start_func_idx: Option<u32>,
    pub memories: Vec<MemoryType>,
    /// Whether the one recognized import, character output, is present.  It
    /// then is function 0.
    pub has_putchar_import: bool,
    pub globals: Vec<WasmGlobal>,
}

/// The mathematical model of a [`WasmModule`].
pub struct WasmModuleView {
    pub functions: Seq<FunctionView>,
    pub start_func_idx: Option<u32>,
    pub memories: Seq<MemoryType>,
    pub has_putchar_import: bool,
    pub globals: Seq<WasmGlobal>,
}

impl View for WasmModule {
    type V = WasmModuleView;

    open spec fn view(&self) -> WasmModuleView {
        WasmModuleView {
            functions: self.functions@.map_values(|f: Function| f@),
            start_func_idx: self.start_func_idx,
            memories: self.memories@,
            has_putchar_import: self.has_putchar_import,
            globals: self.globals@,
        }
    }
}

/// The mathematical model of a [`FuncType`].
pub struct FuncTypeView {
    pub params: Seq<ValType>,
    pub results: Seq<ValType>,
}

impl View for FuncType {
    type V = FuncTypeView;

    open spec fn view(&self) -> FuncTypeView {
        FuncTypeView { params: self.params@, results: self.results@ }
    }
}

/// An entry of the import section.
#[derive(Clone, Debug)]
pub struct Import {
    pub name: String,
    /// Whether the import is a function.
    pub is_function: bool,
}

/// An entry of the code section: the locals in groups of one type, and the
/// operators.
#[derive(Clone, Debug)]
pub struct CodeBody {
    pub locals: Vec<(u32, ValType)>,
    pub operators: Vec<Operator>,
}

/// The sections of a module as the decoder hands them over, each in the
/// order of the binary.
#[derive(Clone, Debug)]
pub struct Sections {
    pub types: Vec<FuncType>,
    pub imports: Vec<Import>,
    /// The type index of each entry of the function section.
    pub functions: Vec<u32>,
    pub start: Option<u32>,
    pub memories: Vec<MemoryType>,
    pub globals: Vec<WasmGlobal>,
    pub code: Vec<CodeBody>,
}

/// The mathematical model of [`Sections`].
pub struct SectionsView {
    pub types: Seq<FuncTypeView>,
    /// Of each import its name and whether it is a function.
    pub imports: Seq<(Seq<char>, bool)>,
    pub functions: Seq<u32>,
    pub start: Option<u32>,
    pub memories: Seq<MemoryType>,
    pub globals: Seq<WasmGlobal>,
    /// Of each entry of the code section its groups of locals and its
    /// operators.
    pub code: Seq<(Seq<(u32, ValType)>, Seq<Operator>)>,
}

impl View for Sections {
    type V = SectionsView;

    open spec fn view(&self) -> SectionsView {
        SectionsView {
            types: self.types@.map_values(|t: FuncType| t@),
            imports: self.imports@.map_values(|i: Import| (i.name@, i.is_function)),
            functions: self.functions@,
            start: self.start,
            memories: self.memories@,
            globals: self.globals@,
            code: self.code@.map_values(|c: CodeBody| (c.locals@, c.operators@)),
        }
    }
}

/// The name of the one recognized import.
pub open spec fn putchar_name() -> Seq<char> {
    "putchar"@
}

/// The locals of the first `upto` groups, each group written out.
pub open spec fn expanded_locals(groups: Seq<(u32, ValType)>, upto: int) -> Seq<ValType>
    decreases upto,
{
    if upto <= 0 {
        Seq::empty()
    } else {
        expanded_locals(groups, upto - 1) + Seq::new(
            groups[upto - 1].0 as nat,
            |i: int| groups[upto - 1].1,
        )
    }
}

impl SectionsView {
    /// The number of functions among the first `upto` imports.
    pub open spec fn imported_functions(self, upto: int) -> nat
        decreases upto,
    {
        if upto <= 0 {
            0
        } else {
            self.imported_functions(upto - 1) + if self.imports[upto - 1].1 {
                1nat
            } else {
                0nat
            }
        }
    }

    /// Whether a function named `putchar` is imported.
    pub open spec fn imports_putchar(self) -> bool {
        exists|i: int|
            0 <= i < self.imports.len() && self.imports[i].1 && self.imports[i].0
                == putchar_name()
    }

    /// The index of the function declared at position `at` of the function
    /// section: the imported functions come first.  It is cut to 32 bits.
    pub open spec fn index_at(self, at: int) -> u32 {
        ((self.imported_functions(self.imports.len() as int) + at) % 0x1_0000_0000) as u32
    }

    /// The functions that the first `upto` entries of the function section
    /// declare.  An entry whose type does not exist declares none.  A
    /// function has the body at its own position in the code section, if
    /// there is one; the first function whose index is the start index is
    /// named `_start`.
    pub open spec fn assembled(self, upto: int) -> Seq<FunctionView>
        decreases upto,
    {
        if upto <= 0 {
            Seq::empty()
        } else {
            let before = self.assembled(upto - 1);
            let type_index = self.functions[upto - 1];
            if type_index < self.types.len() {
                let idx = self.index_at(upto - 1);
                let position = before.len() as int;
                let has_body = position < self.code.len();
                before.push(
                    FunctionView {
                        idx,
                        name: if self.start == Some(idx) && !has_index(before, idx) {
                            Some("_start"@)
                        } else {
                            None
                        },
                        params: self.types[type_index as int].params,
                        results: self.types[type_index as int].results,
                        locals: if has_body {
                            expanded_locals(
                                self.code[position].0,
                                self.code[position].0.len() as int,
                            )
                        } else {
                            Seq::empty()
                        },
                        operators: if has_body {
                            self.code[position].1
                        } else {
                            Seq::empty()
                        },
                    },
                )
            } else {
                before
            }
        }
    }

    /// The module that the sections describe.
    pub open spec fn module(self) -> WasmModuleView {
        WasmModuleView {
            functions: self.assembled(self.functions.len() as int),
            start_func_idx: self.start,
            memories: self.memories,
            has_putchar_import: self.imports_putchar(),
            globals: self.globals,
        }
    }
}

/// Whether one of `functions` has the index `idx`.
pub open spec fn has_index(functions: Seq<FunctionView>, idx: u32) -> bool {
    exists|i: int| 0 <= i < functions.len() && functions[i].idx == idx
}

fn copy_types(types: &Vec<ValType>) -> (copy: Vec<ValType>)
    ensures
        copy@ == types@,
{
    let mut copy: Vec<ValType> = Vec::new();
    let mut at: usize = 0;
    while at < types.len()
        invariant
            at <= types.len(),
            copy@ == types@.take(at as int),
        decreases types.len() - at,
    {
        copy.push(types[at]);
        at = at + 1;
    }
    assert(types@.take(at as int) == types@);
    copy
}

fn copy_operators(operators: &Vec<Operator>) -> (copy: Vec<Operator>)
    ensures
        copy@ == operators@,
{
    let mut copy: Vec<Operator> = Vec::new();
    let mut at: usize = 0;
    while at < operators.len()
        invariant
            at <= operators.len(),
            copy@ == operators@.take(at as int),
        decreases operators.len() - at,
    {
        copy.push(operators[at]);
        at = at + 1;
    }
    assert(operators@.take(at as int) == operators@);
    copy
}

/// Writes the groups of locals out, one local after the other.
pub fn expand_locals(groups: &Vec<(u32, ValType)>) -> (locals: Vec<ValType>)
    ensures
        locals@ == expanded_locals(groups@, groups.len() as int),
{
    let mut locals: Vec<ValType> = Vec::new();
    let mut at: usize = 0;
    while at < groups.len()
        invariant
            at <= groups.len(),
            locals@ == expanded_locals(groups@, at as int),
        decreases groups.len() - at,
    {
        let (count, ty) = groups[at];
        let mut written: u32 = 0;
        while written < count
            invariant
                at < groups.len(),
                written <= count,
                groups@[at as int] == (count, ty),
                locals@ == expanded_locals(groups@, at as int) + Seq::new(
                    written as nat,
                    |i: int| ty,
                ),
            decreases count - written,
        {
            locals.push(ty);
            written = written + 1;
        }
        at = at + 1;
    }
    locals
}

impl WasmModule {
    /// Assembles a module from its decoded sections.  The functions of the
    /// module are those that the function section declares with a type that
    /// exists; their indices count the imported functions first; their
    /// bodies are those of the code section, by position; the first function
    /// whose index is the start index is named `_start`.
    pub fn from_sections(sections: &Sections) -> (module: WasmModule)
        ensures
            module@ == sections@.module(),
    {
        let ghost view = sections@;
        let mut imported: usize = 0;
        let mut has_putchar_import = false;
        let putchar = String::from_str("putchar");
        let mut at: usize = 0;
        while at < sections.imports.len()
            invariant
                at <= sections.imports.len(),
                view == sections@,
                putchar@ == putchar_name(),
                imported == view.imported_functions(at as int),
                imported <= at,
                has_putchar_import == (exists|i: int|
                    0 <= i < at && view.imports[i].1 && view.imports[i].0 == putchar_name()),
            decreases sections.imports.len() - at,
        {
            if sections.imports[at].is_function {
                imported = imported + 1;
                if sections.imports[at].name == putchar {
                    has_putchar_import = true;
                }
            }
            at = at + 1;
        }
        let mut functions: Vec<Function> = Vec::new();
        let mut named = false;
        at = 0;
        while at < sections.functions.len()
            invariant
                at <= sections.functions.len(),
                view == sections@,
                imported == view.imported_functions(view.imports.len() as int),
                functions@.map_values(|f: Function| f@) == view.assembled(at as int),
                named == (sections.start is Some && has_index(
                    view.assembled(at as int),
                    sections.start->0,
                )),
            decreases sections.functions.len() - at,
        {
            let type_index = sections.functions[at] as usize;
            if type_index < sections.types.len() {
                let idx = ((imported as u128 + at as u128) % 0x1_0000_0000) as u32;
                let position = functions.len();
                let is_start = match sections.start {
                    Some(start) => start == idx,
                    None => false,
                };
                let name = if is_start && !named {
                    Some(String::from_str("_start"))
                } else {
                    None
                };
                let body = if position < sections.code.len() {
                    FunctionBody {
                        locals: expand_locals(&sections.code[position].locals),
                        operators: copy_operators(&sections.code[position].operators),
                    }
                } else {
                    FunctionBody { locals: Vec::new(), operators: Vec::new() }
                };
                let func_type = FuncType {
                    params: copy_types(&sections.types[type_index].params),
                    results: copy_types(&sections.types[type_index].results),
                };
                let ghost before = view.assembled(at as int);
                let function = Function { idx, name, func_type, body };
                proof {
                    assert(view.types[type_index as int] == sections.types[type_index as int]@);
                    if position < sections.code.len() {
                        assert(view.code[position as int] == (
                            sections.code[position as int].locals@,
                            sections.code[position as int].operators@,
                        ));
                    }
                    assert(function@ == view.assembled(at as int + 1).last());
                }
                functions.push(function);
                proof {
                    let after = view.assembled(at as int + 1);
                    assert(functions@.map_values(|f: Function| f@) =~= after);
                    if sections.start is Some {
                        let start = sections.start->0;
                        if has_index(before, start) {
                            let i = choose|i: int| 0 <= i < before.len() && before[i].idx == start;
                            assert(after[i].idx == start);
                        }
                        if is_start {
                            assert(after[after.len() - 1].idx == start);
                        }
                        if has_index(after, start) && !has_index(before, start) {
                            let i = choose|i: int| 0 <= i < after.len() && after[i].idx == start;
                            assert(i == after.len() - 1);
                        }
                    }
                }
                if is_start {
                    named = true;
                }
            }
            at = at + 1;
        }
        let module = WasmModule {
            functions,
            start_func_idx: sections.start,
            memories: sections.memories.clone(),
            has_putchar_import,
            globals: sections.globals.clone(),
        };
        module
    }
}

} // verus!
