use crate::ir::{
    BinaryIntrinsic, CastOp, FloatBinOp, FloatPredicate, IntBinOp, IntPredicate, IrType, Operand,
    UnaryIntrinsic,
};
use crate::wasm_parser::Operator;
use vstd::prelude::*;

verus! {

/// What an operator asks of the lowering: the class it belongs to, with the
/// particulars of the instructions that stand for it.
#[allow(inconsistent_fields)]
#[derive(Clone, Copy, Debug, PartialEq, Eq, Structural)]
pub enum Shape {
    /// Pushes a constant.
    Const { value: Operand },
    /// Pops two integers of type `ty`, pushes the result of `op` on them.
    IntBinary { op: IntBinOp, ty: IrType },
    /// Pops an amount and an integer of type `ty`, pushes the integer
    /// shifted by the amount modulo the width.  `op` is one of the three
    /// shifts.
    Shift { op: IntBinOp, ty: IrType },
    /// Pops two integers of type `ty`, pushes the truth value of `pred` as a
    /// 32-bit 0 or 1.
    IntCompare { pred: IntPredicate, ty: IrType },
    /// Pops an integer of type `ty`, pushes whether it is zero as a 32-bit 0
    /// or 1.
    IntEqz { ty: IrType },
    /// Pops an amount and an integer of type `ty`, pushes the integer
    /// rotated by the amount.
    Rotate { left: bool, ty: IrType },
    FloatBinary { op: FloatBinOp, ty: IrType },
    FloatCompare { pred: FloatPredicate, ty: IrType },
    FloatNeg { ty: IrType },
    /// Pops a value of type `from`, pushes it converted to `to`.
    Cast { op: CastOp, from: IrType, to: IrType },
    /// Pops a 32-bit integer, pushes its low 8 bits sign-extended to 32.
    SignExtend8,
    UnaryIntrinsic { op: UnaryIntrinsic, ty: IrType },
    BinaryIntrinsic { op: BinaryIntrinsic, ty: IrType },
    LocalGet { index: u32 },
    LocalSet { index: u32 },
    LocalTee { index: u32 },
    GlobalGet { index: u32 },
    GlobalSet { index: u32 },
    /// Pops an address, pushes the value of type `ty` found there.
    Load { ty: IrType, offset: u64 },
    /// Pops an address, pushes the integer of type `from` found there,
    /// extended to `to`.
    LoadExtend { from: IrType, to: IrType, signed: bool, offset: u64 },
    /// Pops a value of type `ty` and an address, stores the value there.
    Store { ty: IrType, offset: u64 },
    /// Pops an integer of type `from` and an address, stores the low bits of
    /// the integer there as a `to`.
    StoreTruncate { from: IrType, to: IrType, offset: u64 },
    MemorySize,
    MemoryGrow,
    MemoryCopy,
    MemoryFill,
    Call { function_index: u32 },
    Return,
    Drop,
    Select,
    Block,
    Loop,
    If,
    Else,
    End,
    Br { depth: u32 },
    BrIf { depth: u32 },
    RefNull,
    RefIsNull,
    Unreachable,
    /// The operator is outside the modeled set.
    Unsupported { opcode: u32 },
}

/// The table of the operators: what each one asks of the lowering.
pub open spec fn shape_of(op: Operator) -> Shape {
    match op {
        Operator::Unreachable => Shape::Unreachable,
        Operator::Block { .. } => Shape::Block,
        Operator::Loop { .. } => Shape::Loop,
        Operator::If { .. } => Shape::If,
        Operator::Else => Shape::Else,
        Operator::End => Shape::End,
        Operator::Br { relative_depth } => Shape::Br { depth: relative_depth },
        Operator::BrIf { relative_depth } => Shape::BrIf { depth: relative_depth },
        Operator::Return => Shape::Return,
        Operator::Call { function_index } => Shape::Call { function_index },
        Operator::Drop => Shape::Drop,
        Operator::Select => Shape::Select,
        Operator::LocalGet { local_index } => Shape::LocalGet { index: local_index },
        Operator::LocalSet { local_index } => Shape::LocalSet { index: local_index },
        Operator::LocalTee { local_index } => Shape::LocalTee { index: local_index },
        Operator::GlobalGet { global_index } => Shape::GlobalGet { index: global_index },
        Operator::GlobalSet { global_index } => Shape::GlobalSet { index: global_index },
        Operator::I32Load { memarg } => Shape::Load { ty: IrType::I32, offset: memarg.offset },
        Operator::I64Load { memarg } => Shape::Load { ty: IrType::I64, offset: memarg.offset },
        Operator::F32Load { memarg } => Shape::Load { ty: IrType::F32, offset: memarg.offset },
        Operator::F64Load { memarg } => Shape::Load { ty: IrType::F64, offset: memarg.offset },
        Operator::I32Load8S { memarg } => {
            Shape::LoadExtend { from: IrType::I8, to: IrType::I32, signed: true, offset: memarg.offset }
        },
        Operator::I32Load8U { memarg } => {
            Shape::LoadExtend { from: IrType::I8, to: IrType::I32, signed: false, offset: memarg.offset }
        },
        Operator::I32Load16S { memarg } => {
            Shape::LoadExtend { from: IrType::I16, to: IrType::I32, signed: true, offset: memarg.offset }
        },
        Operator::I32Load16U { memarg } => {
            Shape::LoadExtend { from: IrType::I16, to: IrType::I32, signed: false, offset: memarg.offset }
        },
        Operator::I64Load8S { memarg } => {
            Shape::LoadExtend { from: IrType::I8, to: IrType::I64, signed: true, offset: memarg.offset }
        },
        Operator::I64Load8U { memarg } => {
            Shape::LoadExtend { from: IrType::I8, to: IrType::I64, signed: false, offset: memarg.offset }
        },
        Operator::I64Load16S { memarg } => {
            Shape::LoadExtend { from: IrType::I16, to: IrType::I64, signed: true, offset: memarg.offset }
        },
        Operator::I64Load16U { memarg } => {
            Shape::LoadExtend { from: IrType::I16, to: IrType::I64, signed: false, offset: memarg.offset }
        },
        Operator::I64Load32S { memarg } => {
            Shape::LoadExtend { from: IrType::I32, to: IrType::I64, signed: true, offset: memarg.offset }
        },
        Operator::I64Load32U { memarg } => {
            Shape::LoadExtend { from: IrType::I32, to: IrType::I64, signed: false, offset: memarg.offset }
        },
        Operator::I32Store { memarg } => Shape::Store { ty: IrType::I32, offset: memarg.offset },
        Operator::I64Store { memarg } => Shape::Store { ty: IrType::I64, offset: memarg.offset },
        Operator::F32Store { memarg } => Shape::Store { ty: IrType::F32, offset: memarg.offset },
        Operator::F64Store { memarg } => Shape::Store { ty: IrType::F64, offset: memarg.offset },
        Operator::I32Store8 { memarg } => {
            Shape::StoreTruncate { from: IrType::I32, to: IrType::I8, offset: memarg.offset }
        },
        Operator::I32Store16 { memarg } => {
            Shape::StoreTruncate { from: IrType::I32, to: IrType::I16, offset: memarg.offset }
        },
        Operator::I64Store8 { memarg } => {
            Shape::StoreTruncate { from: IrType::I64, to: IrType::I8, offset: memarg.offset }
        },
        Operator::I64Store16 { memarg } => {
            Shape::StoreTruncate { from: IrType::I64, to: IrType::I16, offset: memarg.offset }
        },
        Operator::I64Store32 { memarg } => {
            Shape::StoreTruncate { from: IrType::I64, to: IrType::I32, offset: memarg.offset }
        },
        Operator::MemorySize { .. } => Shape::MemorySize,
        Operator::MemoryGrow { .. } => Shape::MemoryGrow,
        Operator::MemoryCopy { .. } => Shape::MemoryCopy,
        Operator::MemoryFill { .. } => Shape::MemoryFill,
        Operator::I32Const { value } => {
            Shape::Const { value: Operand::ConstInt { ty: IrType::I32, bits: (value as u32) as u64 } }
        },
        Operator::I64Const { value } => {
            Shape::Const { value: Operand::ConstInt { ty: IrType::I64, bits: value as u64 } }
        },
        Operator::F32Const { value } => Shape::Const { value: Operand::ConstF32 { bits: value.0 } },
        Operator::F64Const { value } => Shape::Const { value: Operand::ConstF64 { bits: value.0 } },
        Operator::RefNull { .. } => Shape::RefNull,
        Operator::RefIsNull => Shape::RefIsNull,
        Operator::I32Eqz => Shape::IntEqz { ty: IrType::I32 },
        Operator::I32Eq => Shape::IntCompare { pred: IntPredicate::EQ, ty: IrType::I32 },
        Operator::I32Ne => Shape::IntCompare { pred: IntPredicate::NE, ty: IrType::I32 },
        Operator::I32LtS => Shape::IntCompare { pred: IntPredicate::SLT, ty: IrType::I32 },
        Operator::I32LtU => Shape::IntCompare { pred: IntPredicate::ULT, ty: IrType::I32 },
        Operator::I32GtS => Shape::IntCompare { pred: IntPredicate::SGT, ty: IrType::I32 },
        Operator::I32GtU => Shape::IntCompare { pred: IntPredicate::UGT, ty: IrType::I32 },
        Operator::I32LeS => Shape::IntCompare { pred: IntPredicate::SLE, ty: IrType::I32 },
        Operator::I32LeU => Shape::IntCompare { pred: IntPredicate::ULE, ty: IrType::I32 },
        Operator::I32GeS => Shape::IntCompare { pred: IntPredicate::SGE, ty: IrType::I32 },
        Operator::I32GeU => Shape::IntCompare { pred: IntPredicate::UGE, ty: IrType::I32 },
        Operator::I64Eqz => Shape::IntEqz { ty: IrType::I64 },
        Operator::I64Eq => Shape::IntCompare { pred: IntPredicate::EQ, ty: IrType::I64 },
        Operator::I64Ne => Shape::IntCompare { pred: IntPredicate::NE, ty: IrType::I64 },
        Operator::I64LtS => Shape::IntCompare { pred: IntPredicate::SLT, ty: IrType::I64 },
        Operator::I64LtU => Shape::IntCompare { pred: IntPredicate::ULT, ty: IrType::I64 },
        Operator::I64GtS => Shape::IntCompare { pred: IntPredicate::SGT, ty: IrType::I64 },
        Operator::I64GtU => Shape::IntCompare { pred: IntPredicate::UGT, ty: IrType::I64 },
        Operator::I64LeS => Shape::IntCompare { pred: IntPredicate::SLE, ty: IrType::I64 },
        Operator::I64LeU => Shape::IntCompare { pred: IntPredicate::ULE, ty: IrType::I64 },
        Operator::I64GeS => Shape::IntCompare { pred: IntPredicate::SGE, ty: IrType::I64 },
        Operator::I64GeU => Shape::IntCompare { pred: IntPredicate::UGE, ty: IrType::I64 },
        Operator::F32Eq => Shape::FloatCompare { pred: FloatPredicate::OEQ, ty: IrType::F32 },
        Operator::F32Ne => Shape::FloatCompare { pred: FloatPredicate::UNE, ty: IrType::F32 },
        Operator::F32Lt => Shape::FloatCompare { pred: FloatPredicate::OLT, ty: IrType::F32 },
        Operator::F32Gt => Shape::FloatCompare { pred: FloatPredicate::OGT, ty: IrType::F32 },
        Operator::F32Le => Shape::FloatCompare { pred: FloatPredicate::OLE, ty: IrType::F32 },
        Operator::F32Ge => Shape::FloatCompare { pred: FloatPredicate::OGE, ty: IrType::F32 },
        Operator::F64Eq => Shape::FloatCompare { pred: FloatPredicate::OEQ, ty: IrType::F64 },
        Operator::F64Ne => Shape::FloatCompare { pred: FloatPredicate::UNE, ty: IrType::F64 },
        Operator::F64Lt => Shape::FloatCompare { pred: FloatPredicate::OLT, ty: IrType::F64 },
        Operator::F64Gt => Shape::FloatCompare { pred: FloatPredicate::OGT, ty: IrType::F64 },
        Operator::F64Le => Shape::FloatCompare { pred: FloatPredicate::OLE, ty: IrType::F64 },
        Operator::F64Ge => Shape::FloatCompare { pred: FloatPredicate::OGE, ty: IrType::F64 },
        Operator::I32Clz => {
            Shape::UnaryIntrinsic { op: UnaryIntrinsic::CountLeadingZeros, ty: IrType::I32 }
        },
        Operator::I32Ctz => {
            Shape::UnaryIntrinsic { op: UnaryIntrinsic::CountTrailingZeros, ty: IrType::I32 }
        },
        Operator::I32Popcnt => {
            Shape::UnaryIntrinsic { op: UnaryIntrinsic::PopCount, ty: IrType::I32 }
        },
        Operator::I32Add => Shape::IntBinary { op: IntBinOp::Add, ty: IrType::I32 },
        Operator::I32Sub => Shape::IntBinary { op: IntBinOp::Sub, ty: IrType::I32 },
        Operator::I32Mul => Shape::IntBinary { op: IntBinOp::Mul, ty: IrType::I32 },
        Operator::I32DivS => Shape::IntBinary { op: IntBinOp::SDiv, ty: IrType::I32 },
        Operator::I32DivU => Shape::IntBinary { op: IntBinOp::UDiv, ty: IrType::I32 },
        Operator::I32RemS => Shape::IntBinary { op: IntBinOp::SRem, ty: IrType::I32 },
        Operator::I32RemU => Shape::IntBinary { op: IntBinOp::URem, ty: IrType::I32 },
        Operator::I32And => Shape::IntBinary { op: IntBinOp::And, ty: IrType::I32 },
        Operator::I32Or => Shape::IntBinary { op: IntBinOp::Or, ty: IrType::I32 },
        Operator::I32Xor => Shape::IntBinary { op: IntBinOp::Xor, ty: IrType::I32 },
        Operator::I32Shl => Shape::Shift { op: IntBinOp::Shl, ty: IrType::I32 },
        Operator::I32ShrS => Shape::Shift { op: IntBinOp::AShr, ty: IrType::I32 },
        Operator::I32ShrU => Shape::Shift { op: IntBinOp::LShr, ty: IrType::I32 },
        Operator::I32Rotl => Shape::Rotate { left: true, ty: IrType::I32 },
        Operator::I32Rotr => Shape::Rotate { left: false, ty: IrType::I32 },
        Operator::I64Clz => {
            Shape::UnaryIntrinsic { op: UnaryIntrinsic::CountLeadingZeros, ty: IrType::I64 }
        },
        Operator::I64Ctz => {
            Shape::UnaryIntrinsic { op: UnaryIntrinsic::CountTrailingZeros, ty: IrType::I64 }
        },
        Operator::I64Popcnt => {
            Shape::UnaryIntrinsic { op: UnaryIntrinsic::PopCount, ty: IrType::I64 }
        },
        Operator::I64Add => Shape::IntBinary { op: IntBinOp::Add, ty: IrType::I64 },
        Operator::I64Sub => Shape::IntBinary { op: IntBinOp::Sub, ty: IrType::I64 },
        Operator::I64Mul => Shape::IntBinary { op: IntBinOp::Mul, ty: IrType::I64 },
        Operator::I64DivS => Shape::IntBinary { op: IntBinOp::SDiv, ty: IrType::I64 },
        Operator::I64DivU => Shape::IntBinary { op: IntBinOp::UDiv, ty: IrType::I64 },
        Operator::I64RemS => Shape::IntBinary { op: IntBinOp::SRem, ty: IrType::I64 },
        Operator::I64RemU => Shape::IntBinary { op: IntBinOp::URem, ty: IrType::I64 },
        Operator::I64And => Shape::IntBinary { op: IntBinOp::And, ty: IrType::I64 },
        Operator::I64Or => Shape::IntBinary { op: IntBinOp::Or, ty: IrType::I64 },
        Operator::I64Xor => Shape::IntBinary { op: IntBinOp::Xor, ty: IrType::I64 },
        Operator::I64Shl => Shape::Shift { op: IntBinOp::Shl, ty: IrType::I64 },
        Operator::I64ShrS => Shape::Shift { op: IntBinOp::AShr, ty: IrType::I64 },
        Operator::I64ShrU => Shape::Shift { op: IntBinOp::LShr, ty: IrType::I64 },
        Operator::I64Rotl => Shape::Rotate { left: true, ty: IrType::I64 },
        Operator::I64Rotr => Shape::Rotate { left: false, ty: IrType::I64 },
        Operator::F32Abs => Shape::UnaryIntrinsic { op: UnaryIntrinsic::Abs, ty: IrType::F32 },
        Operator::F32Neg => Shape::FloatNeg { ty: IrType::F32 },
        Operator::F32Ceil => Shape::UnaryIntrinsic { op: UnaryIntrinsic::Ceil, ty: IrType::F32 },
        Operator::F32Floor => Shape::UnaryIntrinsic { op: UnaryIntrinsic::Floor, ty: IrType::F32 },
        Operator::F32Trunc => Shape::UnaryIntrinsic { op: UnaryIntrinsic::Trunc, ty: IrType::F32 },
        Operator::F32Nearest => {
            Shape::UnaryIntrinsic { op: UnaryIntrinsic::Nearest, ty: IrType::F32 }
        },
        Operator::F32Sqrt => Shape::UnaryIntrinsic { op: UnaryIntrinsic::Sqrt, ty: IrType::F32 },
        Operator::F32Add => Shape::FloatBinary { op: FloatBinOp::Add, ty: IrType::F32 },
        Operator::F32Sub => Shape::FloatBinary { op: FloatBinOp::Sub, ty: IrType::F32 },
        Operator::F32Mul => Shape::FloatBinary { op: FloatBinOp::Mul, ty: IrType::F32 },
        Operator::F32Div => Shape::FloatBinary { op: FloatBinOp::Div, ty: IrType::F32 },
        Operator::F32Min => Shape::BinaryIntrinsic { op: BinaryIntrinsic::Min, ty: IrType::F32 },
        Operator::F32Max => Shape::BinaryIntrinsic { op: BinaryIntrinsic::Max, ty: IrType::F32 },
        Operator::F32Copysign => {
            Shape::BinaryIntrinsic { op: BinaryIntrinsic::CopySign, ty: IrType::F32 }
        },
        Operator::F64Abs => Shape::UnaryIntrinsic { op: UnaryIntrinsic::Abs, ty: IrType::F64 },
        Operator::F64Neg => Shape::FloatNeg { ty: IrType::F64 },
        Operator::F64Ceil => Shape::UnaryIntrinsic { op: UnaryIntrinsic::Ceil, ty: IrType::F64 },
        Operator::F64Floor => Shape::UnaryIntrinsic { op: UnaryIntrinsic::Floor, ty: IrType::F64 },
        Operator::F64Trunc => Shape::UnaryIntrinsic { op: UnaryIntrinsic::Trunc, ty: IrType::F64 },
        Operator::F64Nearest => {
            Shape::UnaryIntrinsic { op: UnaryIntrinsic::Nearest, ty: IrType::F64 }
        },
        Operator::F64Sqrt => Shape::UnaryIntrinsic { op: UnaryIntrinsic::Sqrt, ty: IrType::F64 },
        Operator::F64Add => Shape::FloatBinary { op: FloatBinOp::Add, ty: IrType::F64 },
        Operator::F64Sub => Shape::FloatBinary { op: FloatBinOp::Sub, ty: IrType::F64 },
        Operator::F64Mul => Shape::FloatBinary { op: FloatBinOp::Mul, ty: IrType::F64 },
        Operator::F64Div => Shape::FloatBinary { op: FloatBinOp::Div, ty: IrType::F64 },
        Operator::F64Min => Shape::BinaryIntrinsic { op: BinaryIntrinsic::Min, ty: IrType::F64 },
        Operator::F64Max => Shape::BinaryIntrinsic { op: BinaryIntrinsic::Max, ty: IrType::F64 },
        Operator::F64Copysign => {
            Shape::BinaryIntrinsic { op: BinaryIntrinsic::CopySign, ty: IrType::F64 }
        },
        Operator::I32WrapI64 => {
            Shape::Cast { op: CastOp::Truncate, from: IrType::I64, to: IrType::I32 }
        },
        Operator::I32TruncF32S => {
            Shape::Cast { op: CastOp::FloatToSigned, from: IrType::F32, to: IrType::I32 }
        },
        Operator::I32TruncF32U => {
            Shape::Cast { op: CastOp::FloatToUnsigned, from: IrType::F32, to: IrType::I32 }
        },
        Operator::I32TruncF64S => {
            Shape::Cast { op: CastOp::FloatToSigned, from: IrType::F64, to: IrType::I32 }
        },
        Operator::I32TruncF64U => {
            Shape::Cast { op: CastOp::FloatToUnsigned, from: IrType::F64, to: IrType::I32 }
        },
        Operator::I64ExtendI32S => {
            Shape::Cast { op: CastOp::SignExtend, from: IrType::I32, to: IrType::I64 }
        },
        Operator::I64ExtendI32U => {
            Shape::Cast { op: CastOp::ZeroExtend, from: IrType::I32, to: IrType::I64 }
        },
        Operator::F32ConvertI32S => {
            Shape::Cast { op: CastOp::SignedToFloat, from: IrType::I32, to: IrType::F32 }
        },
        Operator::F32ConvertI32U => {
            Shape::Cast { op: CastOp::UnsignedToFloat, from: IrType::I32, to: IrType::F32 }
        },
        Operator::F32DemoteF64 => {
            Shape::Cast { op: CastOp::FloatTruncate, from: IrType::F64, to: IrType::F32 }
        },
        Operator::F64ConvertI32S => {
            Shape::Cast { op: CastOp::SignedToFloat, from: IrType::I32, to: IrType::F64 }
        },
        Operator::F64ConvertI32U => {
            Shape::Cast { op: CastOp::UnsignedToFloat, from: IrType::I32, to: IrType::F64 }
        },
        Operator::F64PromoteF32 => {
            Shape::Cast { op: CastOp::FloatExtend, from: IrType::F32, to: IrType::F64 }
        },
        Operator::I32Extend8S => Shape::SignExtend8,
        Operator::Unmodeled { opcode } => Shape::Unsupported { opcode },
    }
}

fn bits_of_i32(value: i32) -> (bits: u64)
    ensures
        bits == (value as u32) as u64,
{
    (#[verifier::truncate] (value as u32)) as u64
}

fn bits_of_i64(value: i64) -> (bits: u64)
    ensures
        bits == value as u64,
{
    #[verifier::truncate] (value as u64)
}

/// Looks an operator up in the table.
pub fn classify(op: Operator) -> (shape: Shape)
    ensures
        shape == shape_of(op),
{
    match op {
        Operator::Unreachable => Shape::Unreachable,
        Operator::Block { .. } => Shape::Block,
        Operator::Loop { .. } => Shape::Loop,
        Operator::If { .. } => Shape::If,
        Operator::Else => Shape::Else,
        Operator::End => Shape::End,
        Operator::Br { relative_depth } => Shape::Br { depth: relative_depth },
        Operator::BrIf { relative_depth } => Shape::BrIf { depth: relative_depth },
        Operator::Return => Shape::Return,
        Operator::Call { function_index } => Shape::Call { function_index },
        Operator::Drop => Shape::Drop,
        Operator::Select => Shape::Select,
        Operator::LocalGet { local_index } => Shape::LocalGet { index: local_index },
        Operator::LocalSet { local_index } => Shape::LocalSet { index: local_index },
        Operator::LocalTee { local_index } => Shape::LocalTee { index: local_index },
        Operator::GlobalGet { global_index } => Shape::GlobalGet { index: global_index },
        Operator::GlobalSet { global_index } => Shape::GlobalSet { index: global_index },
        Operator::I32Load { memarg } => Shape::Load { ty: IrType::I32, offset: memarg.offset },
        Operator::I64Load { memarg } => Shape::Load { ty: IrType::I64, offset: memarg.offset },
        Operator::F32Load { memarg } => Shape::Load { ty: IrType::F32, offset: memarg.offset },
        Operator::F64Load { memarg } => Shape::Load { ty: IrType::F64, offset: memarg.offset },
        Operator::I32Load8S { memarg } => {
            Shape::LoadExtend { from: IrType::I8, to: IrType::I32, signed: true, offset: memarg.offset }
        },
        Operator::I32Load8U { memarg } => {
            Shape::LoadExtend { from: IrType::I8, to: IrType::I32, signed: false, offset: memarg.offset }
        },
        Operator::I32Load16S { memarg } => {
            Shape::LoadExtend { from: IrType::I16, to: IrType::I32, signed: true, offset: memarg.offset }
        },
        Operator::I32Load16U { memarg } => {
            Shape::LoadExtend { from: IrType::I16, to: IrType::I32, signed: false, offset: memarg.offset }
        },
        Operator::I64Load8S { memarg } => {
            Shape::LoadExtend { from: IrType::I8, to: IrType::I64, signed: true, offset: memarg.offset }
        },
        Operator::I64Load8U { memarg } => {
            Shape::LoadExtend { from: IrType::I8, to: IrType::I64, signed: false, offset: memarg.offset }
        },
        Operator::I64Load16S { memarg } => {
            Shape::LoadExtend { from: IrType::I16, to: IrType::I64, signed: true, offset: memarg.offset }
        },
        Operator::I64Load16U { memarg } => {
            Shape::LoadExtend { from: IrType::I16, to: IrType::I64, signed: false, offset: memarg.offset }
        },
        Operator::I64Load32S { memarg } => {
            Shape::LoadExtend { from: IrType::I32, to: IrType::I64, signed: true, offset: memarg.offset }
        },
        Operator::I64Load32U { memarg } => {
            Shape::LoadExtend { from: IrType::I32, to: IrType::I64, signed: false, offset: memarg.offset }
        },
        Operator::I32Store { memarg } => Shape::Store { ty: IrType::I32, offset: memarg.offset },
        Operator::I64Store { memarg } => Shape::Store { ty: IrType::I64, offset: memarg.offset },
        Operator::F32Store { memarg } => Shape::Store { ty: IrType::F32, offset: memarg.offset },
        Operator::F64Store { memarg } => Shape::Store { ty: IrType::F64, offset: memarg.offset },
        Operator::I32Store8 { memarg } => {
            Shape::StoreTruncate { from: IrType::I32, to: IrType::I8, offset: memarg.offset }
        },
        Operator::I32Store16 { memarg } => {
            Shape::StoreTruncate { from: IrType::I32, to: IrType::I16, offset: memarg.offset }
        },
        Operator::I64Store8 { memarg } => {
            Shape::StoreTruncate { from: IrType::I64, to: IrType::I8, offset: memarg.offset }
        },
        Operator::I64Store16 { memarg } => {
            Shape::StoreTruncate { from: IrType::I64, to: IrType::I16, offset: memarg.offset }
        },
        Operator::I64Store32 { memarg } => {
            Shape::StoreTruncate { from: IrType::I64, to: IrType::I32, offset: memarg.offset }
        },
        Operator::MemorySize { .. } => Shape::MemorySize,
        Operator::MemoryGrow { .. } => Shape::MemoryGrow,
        Operator::MemoryCopy { .. } => Shape::MemoryCopy,
        Operator::MemoryFill { .. } => Shape::MemoryFill,
        Operator::I32Const { value } => {
            Shape::Const { value: Operand::ConstInt { ty: IrType::I32, bits: bits_of_i32(value) } }
        },
        Operator::I64Const { value } => {
            Shape::Const { value: Operand::ConstInt { ty: IrType::I64, bits: bits_of_i64(value) } }
        },
        Operator::F32Const { value } => Shape::Const { value: Operand::ConstF32 { bits: value.0 } },
        Operator::F64Const { value } => Shape::Const { value: Operand::ConstF64 { bits: value.0 } },
        Operator::RefNull { .. } => Shape::RefNull,
        Operator::RefIsNull => Shape::RefIsNull,
        Operator::I32Eqz => Shape::IntEqz { ty: IrType::I32 },
        Operator::I32Eq => Shape::IntCompare { pred: IntPredicate::EQ, ty: IrType::I32 },
        Operator::I32Ne => Shape::IntCompare { pred: IntPredicate::NE, ty: IrType::I32 },
        Operator::I32LtS => Shape::IntCompare { pred: IntPredicate::SLT, ty: IrType::I32 },
        Operator::I32LtU => Shape::IntCompare { pred: IntPredicate::ULT, ty: IrType::I32 },
        Operator::I32GtS => Shape::IntCompare { pred: IntPredicate::SGT, ty: IrType::I32 },
        Operator::I32GtU => Shape::IntCompare { pred: IntPredicate::UGT, ty: IrType::I32 },
        Operator::I32LeS => Shape::IntCompare { pred: IntPredicate::SLE, ty: IrType::I32 },
        Operator::I32LeU => Shape::IntCompare { pred: IntPredicate::ULE, ty: IrType::I32 },
        Operator::I32GeS => Shape::IntCompare { pred: IntPredicate::SGE, ty: IrType::I32 },
        Operator::I32GeU => Shape::IntCompare { pred: IntPredicate::UGE, ty: IrType::I32 },
        Operator::I64Eqz => Shape::IntEqz { ty: IrType::I64 },
        Operator::I64Eq => Shape::IntCompare { pred: IntPredicate::EQ, ty: IrType::I64 },
        Operator::I64Ne => Shape::IntCompare { pred: IntPredicate::NE, ty: IrType::I64 },
        Operator::I64LtS => Shape::IntCompare { pred: IntPredicate::SLT, ty: IrType::I64 },
        Operator::I64LtU => Shape::IntCompare { pred: IntPredicate::ULT, ty: IrType::I64 },
        Operator::I64GtS => Shape::IntCompare { pred: IntPredicate::SGT, ty: IrType::I64 },
        Operator::I64GtU => Shape::IntCompare { pred: IntPredicate::UGT, ty: IrType::I64 },
        Operator::I64LeS => Shape::IntCompare { pred: IntPredicate::SLE, ty: IrType::I64 },
        Operator::I64LeU => Shape::IntCompare { pred: IntPredicate::ULE, ty: IrType::I64 },
        Operator::I64GeS => Shape::IntCompare { pred: IntPredicate::SGE, ty: IrType::I64 },
        Operator::I64GeU => Shape::IntCompare { pred: IntPredicate::UGE, ty: IrType::I64 },
        Operator::F32Eq => Shape::FloatCompare { pred: FloatPredicate::OEQ, ty: IrType::F32 },
        Operator::F32Ne => Shape::FloatCompare { pred: FloatPredicate::UNE, ty: IrType::F32 },
        Operator::F32Lt => Shape::FloatCompare { pred: FloatPredicate::OLT, ty: IrType::F32 },
        Operator::F32Gt => Shape::FloatCompare { pred: FloatPredicate::OGT, ty: IrType::F32 },
        Operator::F32Le => Shape::FloatCompare { pred: FloatPredicate::OLE, ty: IrType::F32 },
        Operator::F32Ge => Shape::FloatCompare { pred: FloatPredicate::OGE, ty: IrType::F32 },
        Operator::F64Eq => Shape::FloatCompare { pred: FloatPredicate::OEQ, ty: IrType::F64 },
        Operator::F64Ne => Shape::FloatCompare { pred: FloatPredicate::UNE, ty: IrType::F64 },
        Operator::F64Lt => Shape::FloatCompare { pred: FloatPredicate::OLT, ty: IrType::F64 },
        Operator::F64Gt => Shape::FloatCompare { pred: FloatPredicate::OGT, ty: IrType::F64 },
        Operator::F64Le => Shape::FloatCompare { pred: FloatPredicate::OLE, ty: IrType::F64 },
        Operator::F64Ge => Shape::FloatCompare { pred: FloatPredicate::OGE, ty: IrType::F64 },
        Operator::I32Clz => {
            Shape::UnaryIntrinsic { op: UnaryIntrinsic::CountLeadingZeros, ty: IrType::I32 }
        },
        Operator::I32Ctz => {
            Shape::UnaryIntrinsic { op: UnaryIntrinsic::CountTrailingZeros, ty: IrType::I32 }
        },
        Operator::I32Popcnt => {
            Shape::UnaryIntrinsic { op: UnaryIntrinsic::PopCount, ty: IrType::I32 }
        },
        Operator::I32Add => Shape::IntBinary { op: IntBinOp::Add, ty: IrType::I32 },
        Operator::I32Sub => Shape::IntBinary { op: IntBinOp::Sub, ty: IrType::I32 },
        Operator::I32Mul => Shape::IntBinary { op: IntBinOp::Mul, ty: IrType::I32 },
        Operator::I32DivS => Shape::IntBinary { op: IntBinOp::SDiv, ty: IrType::I32 },
        Operator::I32DivU => Shape::IntBinary { op: IntBinOp::UDiv, ty: IrType::I32 },
        Operator::I32RemS => Shape::IntBinary { op: IntBinOp::SRem, ty: IrType::I32 },
        Operator::I32RemU => Shape::IntBinary { op: IntBinOp::URem, ty: IrType::I32 },
        Operator::I32And => Shape::IntBinary { op: IntBinOp::And, ty: IrType::I32 },
        Operator::I32Or => Shape::IntBinary { op: IntBinOp::Or, ty: IrType::I32 },
        Operator::I32Xor => Shape::IntBinary { op: IntBinOp::Xor, ty: IrType::I32 },
        Operator::I32Shl => Shape::Shift { op: IntBinOp::Shl, ty: IrType::I32 },
        Operator::I32ShrS => Shape::Shift { op: IntBinOp::AShr, ty: IrType::I32 },
        Operator::I32ShrU => Shape::Shift { op: IntBinOp::LShr, ty: IrType::I32 },
        Operator::I32Rotl => Shape::Rotate { left: true, ty: IrType::I32 },
        Operator::I32Rotr => Shape::Rotate { left: false, ty: IrType::I32 },
        Operator::I64Clz => {
            Shape::UnaryIntrinsic { op: UnaryIntrinsic::CountLeadingZeros, ty: IrType::I64 }
        },
        Operator::I64Ctz => {
            Shape::UnaryIntrinsic { op: UnaryIntrinsic::CountTrailingZeros, ty: IrType::I64 }
        },
        Operator::I64Popcnt => {
            Shape::UnaryIntrinsic { op: UnaryIntrinsic::PopCount, ty: IrType::I64 }
        },
        Operator::I64Add => Shape::IntBinary { op: IntBinOp::Add, ty: IrType::I64 },
        Operator::I64Sub => Shape::IntBinary { op: IntBinOp::Sub, ty: IrType::I64 },
        Operator::I64Mul => Shape::IntBinary { op: IntBinOp::Mul, ty: IrType::I64 },
        Operator::I64DivS => Shape::IntBinary { op: IntBinOp::SDiv, ty: IrType::I64 },
        Operator::I64DivU => Shape::IntBinary { op: IntBinOp::UDiv, ty: IrType::I64 },
        Operator::I64RemS => Shape::IntBinary { op: IntBinOp::SRem, ty: IrType::I64 },
        Operator::I64RemU => Shape::IntBinary { op: IntBinOp::URem, ty: IrType::I64 },
        Operator::I64And => Shape::IntBinary { op: IntBinOp::And, ty: IrType::I64 },
        Operator::I64Or => Shape::IntBinary { op: IntBinOp::Or, ty: IrType::I64 },
        Operator::I64Xor => Shape::IntBinary { op: IntBinOp::Xor, ty: IrType::I64 },
        Operator::I64Shl => Shape::Shift { op: IntBinOp::Shl, ty: IrType::I64 },
        Operator::I64ShrS => Shape::Shift { op: IntBinOp::AShr, ty: IrType::I64 },
        Operator::I64ShrU => Shape::Shift { op: IntBinOp::LShr, ty: IrType::I64 },
        Operator::I64Rotl => Shape::Rotate { left: true, ty: IrType::I64 },
        Operator::I64Rotr => Shape::Rotate { left: false, ty: IrType::I64 },
        Operator::F32Abs => Shape::UnaryIntrinsic { op: UnaryIntrinsic::Abs, ty: IrType::F32 },
        Operator::F32Neg => Shape::FloatNeg { ty: IrType::F32 },
        Operator::F32Ceil => Shape::UnaryIntrinsic { op: UnaryIntrinsic::Ceil, ty: IrType::F32 },
        Operator::F32Floor => Shape::UnaryIntrinsic { op: UnaryIntrinsic::Floor, ty: IrType::F32 },
        Operator::F32Trunc => Shape::UnaryIntrinsic { op: UnaryIntrinsic::Trunc, ty: IrType::F32 },
        Operator::F32Nearest => {
            Shape::UnaryIntrinsic { op: UnaryIntrinsic::Nearest, ty: IrType::F32 }
        },
        Operator::F32Sqrt => Shape::UnaryIntrinsic { op: UnaryIntrinsic::Sqrt, ty: IrType::F32 },
        Operator::F32Add => Shape::FloatBinary { op: FloatBinOp::Add, ty: IrType::F32 },
        Operator::F32Sub => Shape::FloatBinary { op: FloatBinOp::Sub, ty: IrType::F32 },
        Operator::F32Mul => Shape::FloatBinary { op: FloatBinOp::Mul, ty: IrType::F32 },
        Operator::F32Div => Shape::FloatBinary { op: FloatBinOp::Div, ty: IrType::F32 },
        Operator::F32Min => Shape::BinaryIntrinsic { op: BinaryIntrinsic::Min, ty: IrType::F32 },
        Operator::F32Max => Shape::BinaryIntrinsic { op: BinaryIntrinsic::Max, ty: IrType::F32 },
        Operator::F32Copysign => {
            Shape::BinaryIntrinsic { op: BinaryIntrinsic::CopySign, ty: IrType::F32 }
        },
        Operator::F64Abs => Shape::UnaryIntrinsic { op: UnaryIntrinsic::Abs, ty: IrType::F64 },
        Operator::F64Neg => Shape::FloatNeg { ty: IrType::F64 },
        Operator::F64Ceil => Shape::UnaryIntrinsic { op: UnaryIntrinsic::Ceil, ty: IrType::F64 },
        Operator::F64Floor => Shape::UnaryIntrinsic { op: UnaryIntrinsic::Floor, ty: IrType::F64 },
        Operator::F64Trunc => Shape::UnaryIntrinsic { op: UnaryIntrinsic::Trunc, ty: IrType::F64 },
        Operator::F64Nearest => {
            Shape::UnaryIntrinsic { op: UnaryIntrinsic::Nearest, ty: IrType::F64 }
        },
        Operator::F64Sqrt => Shape::UnaryIntrinsic { op: UnaryIntrinsic::Sqrt, ty: IrType::F64 },
        Operator::F64Add => Shape::FloatBinary { op: FloatBinOp::Add, ty: IrType::F64 },
        Operator::F64Sub => Shape::FloatBinary { op: FloatBinOp::Sub, ty: IrType::F64 },
        Operator::F64Mul => Shape::FloatBinary { op: FloatBinOp::Mul, ty: IrType::F64 },
        Operator::F64Div => Shape::FloatBinary { op: FloatBinOp::Div, ty: IrType::F64 },
        Operator::F64Min => Shape::BinaryIntrinsic { op: BinaryIntrinsic::Min, ty: IrType::F64 },
        Operator::F64Max => Shape::BinaryIntrinsic { op: BinaryIntrinsic::Max, ty: IrType::F64 },
        Operator::F64Copysign => {
            Shape::BinaryIntrinsic { op: BinaryIntrinsic::CopySign, ty: IrType::F64 }
        },
        Operator::I32WrapI64 => {
            Shape::Cast { op: CastOp::Truncate, from: IrType::I64, to: IrType::I32 }
        },
        Operator::I32TruncF32S => {
            Shape::Cast { op: CastOp::FloatToSigned, from: IrType::F32, to: IrType::I32 }
        },
        Operator::I32TruncF32U => {
            Shape::Cast { op: CastOp::FloatToUnsigned, from: IrType::F32, to: IrType::I32 }
        },
        Operator::I32TruncF64S => {
            Shape::Cast { op: CastOp::FloatToSigned, from: IrType::F64, to: IrType::I32 }
        },
        Operator::I32TruncF64U => {
            Shape::Cast { op: CastOp::FloatToUnsigned, from: IrType::F64, to: IrType::I32 }
        },
        Operator::I64ExtendI32S => {
            Shape::Cast { op: CastOp::SignExtend, from: IrType::I32, to: IrType::I64 }
        },
        Operator::I64ExtendI32U => {
            Shape::Cast { op: CastOp::ZeroExtend, from: IrType::I32, to: IrType::I64 }
        },
        Operator::F32ConvertI32S => {
            Shape::Cast { op: CastOp::SignedToFloat, from: IrType::I32, to: IrType::F32 }
        },
        Operator::F32ConvertI32U => {
            Shape::Cast { op: CastOp::UnsignedToFloat, from: IrType::I32, to: IrType::F32 }
        },
        Operator::F32DemoteF64 => {
            Shape::Cast { op: CastOp::FloatTruncate, from: IrType::F64, to: IrType::F32 }
        },
        Operator::F64ConvertI32S => {
            Shape::Cast { op: CastOp::SignedToFloat, from: IrType::I32, to: IrType::F64 }
        },
        Operator::F64ConvertI32U => {
            Shape::Cast { op: CastOp::UnsignedToFloat, from: IrType::I32, to: IrType::F64 }
        },
        Operator::F64PromoteF32 => {
            Shape::Cast { op: CastOp::FloatExtend, from: IrType::F32, to: IrType::F64 }
        },
        Operator::I32Extend8S => Shape::SignExtend8,
        Operator::Unmodeled { opcode } => Shape::Unsupported { opcode },
    }
}

} // verus!
