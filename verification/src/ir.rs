use vstd::prelude::*;

verus! {

/// The type of a value of the intermediate representation.
#[derive(Clone, Copy, Debug, PartialEq, Eq, Structural)]
pub enum IrType {
    /// A truth value, as produced by a comparison.
    I1,
    I8,
    I16,
    I32,
    I64,
    F32,
    F64,
    /// An address: a local's cell, a global's cell or a place in memory.
    Ptr,
}

impl IrType {
    /// The number of bits of an integer type; 0 for the other types.
    pub open spec fn int_bits(self) -> nat {
        match self {
            IrType::I1 => 1,
            IrType::I8 => 8,
            IrType::I16 => 16,
            IrType::I32 => 32,
            IrType::I64 => 64,
            _ => 0,
        }
    }

    /// The number of bytes a value of this type occupies in linear memory;
    /// 0 for the types that are never stored there.
    pub open spec fn byte_size(self) -> nat {
        match self {
            IrType::I8 => 1,
            IrType::I16 => 2,
            IrType::I32 => 4,
            IrType::I64 => 8,
            IrType::F32 => 4,
            IrType::F64 => 8,
            _ => 0,
        }
    }

    /// Whether this is an integer type.
    pub open spec fn is_int(self) -> bool {
        self.int_bits() > 0
    }

    /// Whether this is a floating-point type.
    pub open spec fn is_float(self) -> bool {
        self == IrType::F32 || self == IrType::F64
    }

    /// Whether this is an integer type.
    pub fn is_int_type(self) -> (b: bool)
        ensures
            b == self.is_int(),
    {
        match self {
            IrType::I1 | IrType::I8 | IrType::I16 | IrType::I32 | IrType::I64 => true,
            _ => false,
        }
    }

    /// Whether this is a floating-point type.
    pub fn is_float_type(self) -> (b: bool)
        ensures
            b == self.is_float(),
    {
        match self {
            IrType::F32 | IrType::F64 => true,
            _ => false,
        }
    }

    /// The zero of this type: the integer 0, the floating-point number +0,
    /// the null address.
    pub open spec fn zero(self) -> Operand {
        match self {
            IrType::F32 => Operand::ConstF32 { bits: 0 },
            IrType::F64 => Operand::ConstF64 { bits: 0 },
            IrType::Ptr => Operand::NullPtr,
            _ => Operand::ConstInt { ty: self, bits: 0 },
        }
    }

    /// The zero of this type.
    pub fn zero_value(self) -> (zero: Operand)
        ensures
            zero == self.zero(),
    {
        match self {
            IrType::F32 => Operand::ConstF32 { bits: 0 },
            IrType::F64 => Operand::ConstF64 { bits: 0 },
            IrType::Ptr => Operand::NullPtr,
            _ => Operand::ConstInt { ty: self, bits: 0 },
        }
    }

    /// The number of bytes a value of this type occupies in linear memory.
    pub fn size_in_bytes(self) -> (n: u64)
        ensures
            n == self.byte_size(),
    {
        match self {
            IrType::I8 => 1,
            IrType::I16 => 2,
            IrType::I32 => 4,
            IrType::I64 => 8,
            IrType::F32 => 4,
            IrType::F64 => 8,
            _ => 0,
        }
    }
}

/// Integer operations on two operands of one width.  The result has that
/// width.  The result of a shift by the width or more is left to the
/// backend, as is that of a division by zero.
#[derive(Clone, Copy, Debug, PartialEq, Eq, Structural)]
pub enum IntBinOp {
    Add,
    Sub,
    Mul,
    SDiv,
    UDiv,
    SRem,
    URem,
    And,
    Or,
    Xor,
    Shl,
    LShr,
    AShr,
}

/// Floating-point operations on two operands of one width.
#[derive(Clone, Copy, Debug, PartialEq, Eq, Structural)]
pub enum FloatBinOp {
    Add,
    Sub,
    Mul,
    Div,
}

/// Integer comparison predicates.
#[derive(Clone, Copy, Debug, PartialEq, Eq, Structural)]
pub enum IntPredicate {
    EQ,
    NE,
    UGT,
    UGE,
    ULT,
    ULE,
    SGT,
    SGE,
    SLT,
    SLE,
}

/// Floating-point comparison predicates.  The ordered ones are false when an
/// operand is a NaN; `UNE` is true then.
#[derive(Clone, Copy, Debug, PartialEq, Eq, Structural)]
pub enum FloatPredicate {
    OEQ,
    UNE,
    OLT,
    OGT,
    OLE,
    OGE,
}

/// Conversions of one value to another type.
#[derive(Clone, Copy, Debug, PartialEq, Eq, Structural)]
pub enum CastOp {
    Truncate,
    ZeroExtend,
    SignExtend,
    SignedToFloat,
    UnsignedToFloat,
    FloatToSigned,
    FloatToUnsigned,
    FloatExtend,
    FloatTruncate,
}

/// Backend intrinsics of one operand.  The two zero counts are the variants
/// that are defined on a zero operand.
#[derive(Clone, Copy, Debug, PartialEq, Eq, Structural)]
pub enum UnaryIntrinsic {
    CountLeadingZeros,
    CountTrailingZeros,
    PopCount,
    Abs,
    Sqrt,
    Ceil,
    Floor,
    Trunc,
    Nearest,
}

impl UnaryIntrinsic {
    /// Whether the intrinsic counts zero bits from one end.  Such a count is
    /// asked for in the variant that is defined on a zero operand, where it
    /// is the width.
    pub open spec fn counts_zeros(self) -> bool {
        self == UnaryIntrinsic::CountLeadingZeros || self == UnaryIntrinsic::CountTrailingZeros
    }

    /// Whether the intrinsic counts zero bits from one end.
    pub fn is_zero_count(self) -> (b: bool)
        ensures
            b == self.counts_zeros(),
    {
        match self {
            UnaryIntrinsic::CountLeadingZeros | UnaryIntrinsic::CountTrailingZeros => true,
            _ => false,
        }
    }
}

/// Backend intrinsics of two operands.
#[derive(Clone, Copy, Debug, PartialEq, Eq, Structural)]
pub enum BinaryIntrinsic {
    Min,
    Max,
    CopySign,
}

/// The target of a call.
#[derive(Clone, Copy, Debug, PartialEq, Eq, Structural)]
pub enum Callee {
    /// The one recognized import: character output.
    Putchar,
    /// The function at this position among the functions of the module.
    Function { index: usize },
}

/// A value that an instruction reads.
#[allow(inconsistent_fields)]
#[derive(Clone, Copy, Debug, PartialEq, Eq, Structural)]
pub enum Operand {
    /// An integer constant; `bits` holds it zero-extended.
    ConstInt { ty: IrType, bits: u64 },
    /// A binary32 constant, by its bit pattern.
    ConstF32 { bits: u32 },
    /// A binary64 constant, by its bit pattern.
    ConstF64 { bits: u64 },
    /// The null reference: a zero address.
    NullPtr,
    /// The incoming value of a parameter of the function.
    Param { index: usize },
    /// The result of the instruction at position `id` of the function's code.
    Value { id: usize },
    /// The address of the cell of a global.
    Global { index: usize },
    /// The address of the first byte of linear memory.
    Memory,
}

/// One instruction.  An instruction that yields a value is referred to by
/// its position in the code of its function, see [`Operand::Value`].
#[allow(inconsistent_fields)]
#[derive(Clone, Copy, Debug, PartialEq, Eq, Structural)]
pub enum Instr {
    IntBinary { op: IntBinOp, ty: IrType, lhs: Operand, rhs: Operand },
    /// Yields an `I1`.
    IntCompare { pred: IntPredicate, ty: IrType, lhs: Operand, rhs: Operand },
    FloatBinary { op: FloatBinOp, ty: IrType, lhs: Operand, rhs: Operand },
    /// Yields an `I1`.
    FloatCompare { pred: FloatPredicate, ty: IrType, lhs: Operand, rhs: Operand },
    FloatNeg { ty: IrType, value: Operand },
    Cast { op: CastOp, from: IrType, to: IrType, value: Operand },
    UnaryIntrinsic { op: UnaryIntrinsic, ty: IrType, value: Operand },
    BinaryIntrinsic { op: BinaryIntrinsic, ty: IrType, lhs: Operand, rhs: Operand },
    /// Yields `if_true` where the `I1` operand `cond` is 1, else `if_false`.
    Select { cond: Operand, if_true: Operand, if_false: Operand },
    /// Reserves a cell and yields its address.  The cell holds nothing
    /// until a value is stored to it.
    Alloca { ty: IrType },
    Load { ty: IrType, ptr: Operand },
    Store { ty: IrType, ptr: Operand, value: Operand },
    /// Yields the address `index` bytes after `base`.
    ElementPtr { base: Operand, index: Operand },
    /// Copies `len` bytes; the two regions may overlap.
    MemoryMove { dest: Operand, src: Operand, len: Operand },
    /// Sets `len` bytes to the `I8` operand `value`.
    MemorySet { dest: Operand, value: Operand, len: Operand },
    /// Stages the next argument, in call order, of the call that follows.
    CallArg { value: Operand },
    /// Calls `callee` with the `argc` arguments staged before it.
    Call { callee: Callee, argc: usize, has_result: bool },
    /// Goes on in block `target`.
    Jump { target: usize },
    /// Goes on in `if_true` where the `I1` operand `cond` is 1, else in
    /// `if_false`.
    Branch { cond: Operand, if_true: usize, if_false: usize },
    Return { value: Option<Operand> },
    /// Aborts execution.
    Trap,
    /// Marks a point that control never reaches.
    Unreachable,
}

/// An instruction together with the block it was emitted into.
#[derive(Clone, Copy, Debug, PartialEq, Eq, Structural)]
pub struct Placed {
    pub block: usize,
    pub instr: Instr,
}

/// What a block of a function stands for.
#[derive(Clone, Copy, Debug, PartialEq, Eq, Structural)]
pub enum BlockKind {
    Entry,
    Block,
    BlockEnd,
    LoopHeader,
    LoopEnd,
    IfThen,
    IfElse,
    IfMerge,
    /// The inert block that follows an unconditional branch.
    AfterBranch,
    /// The fallthrough of a conditional branch.
    BranchContinue,
    /// The inert block that follows an `unreachable`.
    AfterUnreachable,
    /// The block that a failed bounds check leads to.
    OutOfBounds,
    /// The block in which a checked memory access takes place.
    InBounds,
}

/// The cell of a global of the module.  It starts at the zero of its type.
#[derive(Clone, Copy, Debug, PartialEq, Eq, Structural)]
pub struct GlobalSlot {
    pub ty: IrType,
    pub mutable: bool,
}

impl GlobalSlot {
    /// The value that the cell holds when the module starts: the zero of its
    /// type.
    pub open spec fn initial(self) -> Operand {
        self.ty.zero()
    }

    /// The bit pattern of the value that the cell holds when the module
    /// starts.
    pub open spec fn initial_bits(self) -> u64 {
        match self.initial() {
            Operand::ConstInt { bits, .. } => bits,
            Operand::ConstF32 { bits } => bits as u64,
            Operand::ConstF64 { bits } => bits,
            _ => 0,
        }
    }

    /// The value that the cell holds when the module starts.
    pub fn initial_value(&self) -> (value: Operand)
        ensures
            value == self.initial(),
    {
        self.ty.zero_value()
    }
}

/// One lowered function: its signature, its blocks, and its instructions in
/// the order of emission.
#[derive(Debug)]
pub struct IrFunction {
    pub name: String,
    pub params: Vec<IrType>,
    pub result: Option<IrType>,
    pub blocks: Vec<BlockKind>,
    pub code: Vec<Placed>,
}

/// The mathematical model of an [`IrFunction`].
pub struct IrFunctionView {
    pub name: Seq<char>,
    pub params: Seq<IrType>,
    pub result: Option<IrType>,
    pub blocks: Seq<BlockKind>,
    pub code: Seq<Placed>,
}

impl View for IrFunction {
    type V = IrFunctionView;

    open spec fn view(&self) -> IrFunctionView {
        IrFunctionView {
            name: self.name@,
            params: self.params@,
            result: self.result,
            blocks: self.blocks@,
            code: self.code@,
        }
    }
}

} // verus!
