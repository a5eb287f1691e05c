use crate::ir::{BinaryIntrinsic, BlockKind, IrType, UnaryIntrinsic};
use vstd::prelude::*;
use vstd::string::*;

verus! {

/// The character of a decimal digit.
pub open spec fn digit_char(d: nat) -> char {
    if d == 0 {
        '0'
    } else if d == 1 {
        '1'
    } else if d == 2 {
        '2'
    } else if d == 3 {
        '3'
    } else if d == 4 {
        '4'
    } else if d == 5 {
        '5'
    } else if d == 6 {
        '6'
    } else if d == 7 {
        '7'
    } else if d == 8 {
        '8'
    } else {
        '9'
    }
}

/// The decimal notation of `n`, without leading zeros.
pub open spec fn decimal(n: nat) -> Seq<char>
    decreases n,
{
    if n < 10 {
        seq![digit_char(n)]
    } else {
        decimal(n / 10).push(digit_char(n % 10))
    }
}

/// The name that a function gets from its index: `func_` and the index in
/// decimal notation.
pub open spec fn indexed_name(index: u32) -> Seq<char> {
    "func_"@ + decimal(index as nat)
}

/// The name of the start function.
pub open spec fn start_name() -> Seq<char> {
    "_start"@
}

/// The name of the synthesized entry point.
pub open spec fn main_name() -> Seq<char> {
    "main"@
}

fn digit_str(d: u32) -> (s: &'static str)
    requires
        d < 10,
    ensures
        s@ == seq![digit_char(d as nat)],
{
    proof {
        reveal_strlit("0");
        reveal_strlit("1");
        reveal_strlit("2");
        reveal_strlit("3");
        reveal_strlit("4");
        reveal_strlit("5");
        reveal_strlit("6");
        reveal_strlit("7");
        reveal_strlit("8");
        reveal_strlit("9");
    }
    let s = if d == 0 {
        "0"
    } else if d == 1 {
        "1"
    } else if d == 2 {
        "2"
    } else if d == 3 {
        "3"
    } else if d == 4 {
        "4"
    } else if d == 5 {
        "5"
    } else if d == 6 {
        "6"
    } else if d == 7 {
        "7"
    } else if d == 8 {
        "8"
    } else {
        "9"
    };
    assert(s@ =~= seq![digit_char(d as nat)]);
    s
}

/// Appends the decimal notation of `n` to `text`.
pub fn append_decimal(text: &mut String, n: u32)
    ensures
        final(text)@ == old(text)@ + decimal(n as nat),
    decreases n,
{
    if n >= 10 {
        append_decimal(text, n / 10);
    }
    text.append(digit_str(n % 10));
    assert(text@ =~= old(text)@ + decimal(n as nat));
}

/// Builds the name `func_<index>`.
pub fn function_name(index: u32) -> (name: String)
    ensures
        name@ == indexed_name(index),
{
    let mut name = String::from_str("func_");
    append_decimal(&mut name, index);
    name
}

/// The name of the cell of the global with the index `index`: `global_` and
/// the index in decimal notation.
pub open spec fn indexed_global_name(index: u32) -> Seq<char> {
    "global_"@ + decimal(index as nat)
}

/// Builds the name `global_<index>`.
pub fn global_name(index: u32) -> (name: String)
    ensures
        name@ == indexed_global_name(index),
{
    let mut name = String::from_str("global_");
    append_decimal(&mut name, index);
    name
}

/// The label of a block of the given kind.
pub open spec fn block_label_text(kind: BlockKind) -> Seq<char> {
    match kind {
        BlockKind::Entry => "entry"@,
        BlockKind::Block => "block"@,
        BlockKind::BlockEnd => "block_end"@,
        BlockKind::LoopHeader => "loop_header"@,
        BlockKind::LoopEnd => "loop_end"@,
        BlockKind::IfThen => "if_then"@,
        BlockKind::IfElse => "if_else"@,
        BlockKind::IfMerge => "if_merge"@,
        BlockKind::AfterBranch => "unreachable"@,
        BlockKind::BranchContinue => "br_if_continue"@,
        BlockKind::AfterUnreachable => "after_unreachable"@,
        BlockKind::OutOfBounds => "trap"@,
        BlockKind::InBounds => "continue"@,
    }
}

/// The label of a block of the given kind.
pub fn block_label(kind: BlockKind) -> (label: &'static str)
    ensures
        label@ == block_label_text(kind),
{
    match kind {
        BlockKind::Entry => "entry",
        BlockKind::Block => "block",
        BlockKind::BlockEnd => "block_end",
        BlockKind::LoopHeader => "loop_header",
        BlockKind::LoopEnd => "loop_end",
        BlockKind::IfThen => "if_then",
        BlockKind::IfElse => "if_else",
        BlockKind::IfMerge => "if_merge",
        BlockKind::AfterBranch => "unreachable",
        BlockKind::BranchContinue => "br_if_continue",
        BlockKind::AfterUnreachable => "after_unreachable",
        BlockKind::OutOfBounds => "trap",
        BlockKind::InBounds => "continue",
    }
}

/// The part of the name of an intrinsic that tells the type of its
/// operands.
pub open spec fn type_suffix_text(ty: IrType) -> Seq<char> {
    match ty {
        IrType::I1 => ".i1"@,
        IrType::I8 => ".i8"@,
        IrType::I16 => ".i16"@,
        IrType::I32 => ".i32"@,
        IrType::I64 => ".i64"@,
        IrType::F32 => ".f32"@,
        IrType::F64 => ".f64"@,
        IrType::Ptr => ".p0i8"@,
    }
}

fn type_suffix(ty: IrType) -> (suffix: &'static str)
    ensures
        suffix@ == type_suffix_text(ty),
{
    match ty {
        IrType::I1 => ".i1",
        IrType::I8 => ".i8",
        IrType::I16 => ".i16",
        IrType::I32 => ".i32",
        IrType::I64 => ".i64",
        IrType::F32 => ".f32",
        IrType::F64 => ".f64",
        IrType::Ptr => ".p0i8",
    }
}

/// The name of the backend intrinsic that stands for `op` at the type `ty`.
pub open spec fn unary_intrinsic_text(op: UnaryIntrinsic, ty: IrType) -> Seq<char> {
    (match op {
        UnaryIntrinsic::CountLeadingZeros => "llvm.ctlz"@,
        UnaryIntrinsic::CountTrailingZeros => "llvm.cttz"@,
        UnaryIntrinsic::PopCount => "llvm.ctpop"@,
        UnaryIntrinsic::Abs => "llvm.fabs"@,
        UnaryIntrinsic::Sqrt => "llvm.sqrt"@,
        UnaryIntrinsic::Ceil => "llvm.ceil"@,
        UnaryIntrinsic::Floor => "llvm.floor"@,
        UnaryIntrinsic::Trunc => "llvm.trunc"@,
        UnaryIntrinsic::Nearest => "llvm.nearbyint"@,
    }) + type_suffix_text(ty)
}

/// Builds the name of the backend intrinsic that stands for `op` at the type
/// `ty`.
pub fn unary_intrinsic_name(op: UnaryIntrinsic, ty: IrType) -> (name: String)
    ensures
        name@ == unary_intrinsic_text(op, ty),
{
    let mut name = String::from_str(
        match op {
            UnaryIntrinsic::CountLeadingZeros => "llvm.ctlz",
            UnaryIntrinsic::CountTrailingZeros => "llvm.cttz",
            UnaryIntrinsic::PopCount => "llvm.ctpop",
            UnaryIntrinsic::Abs => "llvm.fabs",
            UnaryIntrinsic::Sqrt => "llvm.sqrt",
            UnaryIntrinsic::Ceil => "llvm.ceil",
            UnaryIntrinsic::Floor => "llvm.floor",
            UnaryIntrinsic::Trunc => "llvm.trunc",
            UnaryIntrinsic::Nearest => "llvm.nearbyint",
        },
    );
    name.append(type_suffix(ty));
    name
}

/// The name of the backend intrinsic that stands for `op` at the type `ty`.
pub open spec fn binary_intrinsic_text(op: BinaryIntrinsic, ty: IrType) -> Seq<char> {
    (match op {
        BinaryIntrinsic::Min => "llvm.minnum"@,
        BinaryIntrinsic::Max => "llvm.maxnum"@,
        BinaryIntrinsic::CopySign => "llvm.copysign"@,
    }) + type_suffix_text(ty)
}

/// Builds the name of the backend intrinsic that stands for `op` at the type
/// `ty`.
pub fn binary_intrinsic_name(op: BinaryIntrinsic, ty: IrType) -> (name: String)
    ensures
        name@ == binary_intrinsic_text(op, ty),
{
    let mut name = String::from_str(
        match op {
            BinaryIntrinsic::Min => "llvm.minnum",
            BinaryIntrinsic::Max => "llvm.maxnum",
            BinaryIntrinsic::CopySign => "llvm.copysign",
        },
    );
    name.append(type_suffix(ty));
    name
}

} // verus!
