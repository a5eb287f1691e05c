use auto_parallel_wasm::control::{ControlBlock, ControlBlockType};
use auto_parallel_wasm::ir::{
    BlockKind, CastOp, Instr, IntBinOp, IntPredicate, IrFunction, IrType, Operand, Placed,
};
use auto_parallel_wasm::compiler::find_function;
use auto_parallel_wasm::lowering::{Env, Flow, FunctionLowering};
use auto_parallel_wasm::machine::{find_in_block, run_function, Interpreter, Outcome};
use auto_parallel_wasm::ir::{BinaryIntrinsic, UnaryIntrinsic};
use auto_parallel_wasm::names::{
    binary_intrinsic_name, block_label, function_name, global_name, unary_intrinsic_name,
};
use auto_parallel_wasm::numeric::{eval_int_binary, eval_int_cast, eval_int_compare};
use auto_parallel_wasm::shape::{classify, Shape};
use auto_parallel_wasm::wasm_parser::{Ieee32, Ieee64, MemArg, Operator, ValType};
use auto_parallel_wasm::CompileError;

#[test]
fn addition_subtraction_and_multiplication_wrap() {
    let add = |ty, a, b| eval_int_binary(IntBinOp::Add, ty, a, b);
    assert_eq!(add(IrType::I32, 0xFFFF_FFFF, 1), Some(0));
    assert_eq!(add(IrType::I32, 0x7FFF_FFFF, 0x7FFF_FFFF), Some(0xFFFF_FFFE));
    assert_eq!(add(IrType::I64, u64::MAX, u64::MAX), Some(u64::MAX - 1));
    let sub = |ty, a, b| eval_int_binary(IntBinOp::Sub, ty, a, b);
    assert_eq!(sub(IrType::I32, 0, 0xFFFF_FFFF), Some(1));
    assert_eq!(sub(IrType::I32, 5, 7), Some(0xFFFF_FFFE));
    assert_eq!(sub(IrType::I64, 0, 1), Some(u64::MAX));
    let mul = |ty, a, b| eval_int_binary(IntBinOp::Mul, ty, a, b);
    assert_eq!(mul(IrType::I32, 0xFFFF_FFFF, 0xFFFF_FFFF), Some(1));
    assert_eq!(mul(IrType::I32, 0x8000_0000, 2), Some(0));
    assert_eq!(mul(IrType::I64, u64::MAX, 2), Some(u64::MAX - 1));
    assert_eq!(mul(IrType::I64, 0x1_0000_0001, 0x1_0000_0001), Some(0x2_0000_0001));
}

#[test]
fn operands_must_be_patterns_of_the_type() {
    assert_eq!(eval_int_binary(IntBinOp::Add, IrType::I32, 0x1_0000_0000, 0), None);
    assert_eq!(eval_int_binary(IntBinOp::Add, IrType::I32, 0, 0x1_0000_0000), None);
    assert_eq!(eval_int_binary(IntBinOp::Add, IrType::I8, 1, 1), None);
    assert_eq!(eval_int_binary(IntBinOp::Add, IrType::F32, 1, 1), None);
    assert_eq!(eval_int_compare(IntPredicate::EQ, IrType::I32, u64::MAX, 0), None);
    assert_eq!(eval_int_compare(IntPredicate::EQ, IrType::Ptr, 0, 0), None);
    assert_eq!(eval_int_cast(CastOp::ZeroExtend, IrType::I1, IrType::I32, 2), None);
    assert_eq!(eval_int_cast(CastOp::Truncate, IrType::I32, IrType::I64, 1), None);
    assert_eq!(eval_int_cast(CastOp::ZeroExtend, IrType::I64, IrType::I32, 1), None);
    assert_eq!(eval_int_cast(CastOp::SignExtend, IrType::I64, IrType::I8, 1), None);
    assert_eq!(eval_int_cast(CastOp::SignedToFloat, IrType::I32, IrType::F32, 1), None);
    assert_eq!(eval_int_cast(CastOp::Truncate, IrType::I32, IrType::F32, 1), None);
}

#[test]
fn division_truncates_toward_zero() {
    let neg = |v: i32| v as u32 as u64;
    let sdiv = |a, b| eval_int_binary(IntBinOp::SDiv, IrType::I32, a, b);
    let srem = |a, b| eval_int_binary(IntBinOp::SRem, IrType::I32, a, b);
    assert_eq!(sdiv(7, 2), Some(3));
    assert_eq!(sdiv(neg(-7), 2), Some(neg(-3)));
    assert_eq!(sdiv(7, neg(-2)), Some(neg(-3)));
    assert_eq!(sdiv(neg(-7), neg(-2)), Some(3));
    assert_eq!(sdiv(neg(i32::MIN), 1), Some(neg(i32::MIN)));
    assert_eq!(sdiv(neg(i32::MIN), neg(-1)), None);
    assert_eq!(sdiv(neg(i32::MIN + 1), neg(-1)), Some(0x7FFF_FFFF));
    assert_eq!(sdiv(1, 0), None);
    assert_eq!(srem(7, 2), Some(1));
    assert_eq!(srem(neg(-7), 2), Some(neg(-1)));
    assert_eq!(srem(7, neg(-2)), Some(1));
    assert_eq!(srem(neg(-7), neg(-2)), Some(neg(-1)));
    assert_eq!(srem(neg(-6), 3), Some(0));
    assert_eq!(srem(neg(i32::MIN), neg(-1)), None);
    assert_eq!(srem(1, 0), None);
    let udiv = |a, b| eval_int_binary(IntBinOp::UDiv, IrType::I64, a, b);
    let urem = |a, b| eval_int_binary(IntBinOp::URem, IrType::I64, a, b);
    assert_eq!(udiv(u64::MAX, 2), Some(0x7FFF_FFFF_FFFF_FFFF));
    assert_eq!(urem(u64::MAX, 10), Some(5));
    assert_eq!(udiv(1, 0), None);
    assert_eq!(urem(1, 0), None);
    let sdiv64 = |a: i64, b: i64| eval_int_binary(IntBinOp::SDiv, IrType::I64, a as u64, b as u64);
    assert_eq!(sdiv64(-9, 4), Some((-2i64) as u64));
    assert_eq!(sdiv64(i64::MIN, -1), None);
    assert_eq!(sdiv64(i64::MIN, 2), Some((i64::MIN / 2) as u64));
}

#[test]
fn shifts_by_less_than_the_width() {
    let op = |op, ty, a, b| eval_int_binary(op, ty, a, b);
    assert_eq!(op(IntBinOp::Shl, IrType::I32, 1, 0), Some(1));
    assert_eq!(op(IntBinOp::Shl, IrType::I32, 1, 31), Some(0x8000_0000));
    assert_eq!(op(IntBinOp::Shl, IrType::I32, 1, 32), None);
    assert_eq!(op(IntBinOp::Shl, IrType::I32, 3, 31), Some(0x8000_0000));
    assert_eq!(op(IntBinOp::Shl, IrType::I32, 1, 0xFFFF_FFFF), None);
    assert_eq!(op(IntBinOp::Shl, IrType::I64, 1, 64), None);
    assert_eq!(op(IntBinOp::Shl, IrType::I64, 1, 63), Some(0x8000_0000_0000_0000));
    assert_eq!(op(IntBinOp::LShr, IrType::I32, 0x8000_0000, 31), Some(1));
    assert_eq!(op(IntBinOp::LShr, IrType::I32, 0x8000_0000, 63), None);
    assert_eq!(op(IntBinOp::LShr, IrType::I64, u64::MAX, 1), Some(u64::MAX >> 1));
    assert_eq!(op(IntBinOp::LShr, IrType::I64, u64::MAX, 63), Some(1));
    assert_eq!(op(IntBinOp::AShr, IrType::I32, 0x8000_0000, 31), Some(0xFFFF_FFFF));
    assert_eq!(op(IntBinOp::AShr, IrType::I32, 0x8000_0000, 0), Some(0x8000_0000));
    assert_eq!(op(IntBinOp::AShr, IrType::I32, 0x7FFF_FFFF, 30), Some(1));
    assert_eq!(op(IntBinOp::AShr, IrType::I32, 0xFFFF_FFF0, 4), Some(0xFFFF_FFFF));
    assert_eq!(op(IntBinOp::AShr, IrType::I32, 0xFFFF_FFF0, 36), None);
    assert_eq!(op(IntBinOp::AShr, IrType::I64, 0x8000_0000_0000_0000, 1), Some(0xC000_0000_0000_0000));
    assert_eq!(op(IntBinOp::AShr, IrType::I64, 16, 2), Some(4));
    assert_eq!(op(IntBinOp::AShr, IrType::I64, 16, 64), None);
    assert_eq!(op(IntBinOp::And, IrType::I64, 0xF0F0, 0xFF00), Some(0xF000));
    assert_eq!(op(IntBinOp::Or, IrType::I64, 0xF0F0, 0xFF00), Some(0xFFF0));
    assert_eq!(op(IntBinOp::Xor, IrType::I64, 0xF0F0, 0xFF00), Some(0x0FF0));
}

#[test]
fn comparisons_read_the_patterns_signed_or_unsigned() {
    let cmp = |pred, a: i32, b: i32| {
        eval_int_compare(pred, IrType::I32, a as u32 as u64, b as u32 as u64)
    };
    for (a, b) in [(0, 0), (1, 2), (2, 1), (-1, 1), (1, -1), (i32::MIN, i32::MAX), (-5, -3)] {
        let (ua, ub) = (a as u32, b as u32);
        assert_eq!(cmp(IntPredicate::EQ, a, b), Some(a == b));
        assert_eq!(cmp(IntPredicate::NE, a, b), Some(a != b));
        assert_eq!(cmp(IntPredicate::SLT, a, b), Some(a < b));
        assert_eq!(cmp(IntPredicate::SLE, a, b), Some(a <= b));
        assert_eq!(cmp(IntPredicate::SGT, a, b), Some(a > b));
        assert_eq!(cmp(IntPredicate::SGE, a, b), Some(a >= b));
        assert_eq!(cmp(IntPredicate::ULT, a, b), Some(ua < ub));
        assert_eq!(cmp(IntPredicate::ULE, a, b), Some(ua <= ub));
        assert_eq!(cmp(IntPredicate::UGT, a, b), Some(ua > ub));
        assert_eq!(cmp(IntPredicate::UGE, a, b), Some(ua >= ub));
    }
    assert_eq!(
        eval_int_compare(IntPredicate::SLT, IrType::I64, i64::MIN as u64, 0),
        Some(true)
    );
    assert_eq!(
        eval_int_compare(IntPredicate::ULT, IrType::I64, i64::MIN as u64, 0),
        Some(false)
    );
}

#[test]
fn conversions_extend_and_truncate() {
    let cast = |op, from, to, v| eval_int_cast(op, from, to, v);
    assert_eq!(cast(CastOp::ZeroExtend, IrType::I1, IrType::I32, 1), Some(1));
    assert_eq!(cast(CastOp::ZeroExtend, IrType::I1, IrType::I32, 0), Some(0));
    assert_eq!(cast(CastOp::ZeroExtend, IrType::I8, IrType::I64, 0xFF), Some(0xFF));
    assert_eq!(cast(CastOp::ZeroExtend, IrType::I32, IrType::I64, 0xFFFF_FFFF), Some(0xFFFF_FFFF));
    assert_eq!(cast(CastOp::SignExtend, IrType::I8, IrType::I32, 0xFF), Some(0xFFFF_FFFF));
    assert_eq!(cast(CastOp::SignExtend, IrType::I8, IrType::I32, 0x7F), Some(0x7F));
    assert_eq!(cast(CastOp::SignExtend, IrType::I8, IrType::I32, 0x80), Some(0xFFFF_FF80));
    assert_eq!(cast(CastOp::SignExtend, IrType::I16, IrType::I64, 0x8000), Some(0xFFFF_FFFF_FFFF_8000));
    assert_eq!(cast(CastOp::SignExtend, IrType::I32, IrType::I64, 0x8000_0000), Some(0xFFFF_FFFF_8000_0000));
    assert_eq!(cast(CastOp::SignExtend, IrType::I32, IrType::I32, 0x8000_0000), Some(0x8000_0000));
    assert_eq!(cast(CastOp::Truncate, IrType::I64, IrType::I32, 0x1234_5678_9ABC_DEF0), Some(0x9ABC_DEF0));
    assert_eq!(cast(CastOp::Truncate, IrType::I32, IrType::I8, 0x1FF), Some(0xFF));
    assert_eq!(cast(CastOp::Truncate, IrType::I64, IrType::I16, 0x12345), Some(0x2345));
    assert_eq!(cast(CastOp::Truncate, IrType::I32, IrType::I1, 3), Some(1));
}

#[test]
fn the_table_classifies_the_operators() {
    let memarg = MemArg { align: 1, max_align: 3, offset: 24, memory: 0 };
    assert_eq!(
        classify(Operator::I32Const { value: -1 }),
        Shape::Const { value: Operand::ConstInt { ty: IrType::I32, bits: 0xFFFF_FFFF } }
    );
    assert_eq!(
        classify(Operator::I64Const { value: -1 }),
        Shape::Const { value: Operand::ConstInt { ty: IrType::I64, bits: u64::MAX } }
    );
    assert_eq!(
        classify(Operator::F32Const { value: Ieee32::from_bits(1.5f32.to_bits()) }),
        Shape::Const { value: Operand::ConstF32 { bits: 0x3FC0_0000 } }
    );
    assert_eq!(
        classify(Operator::F64Const { value: Ieee64::from_bits((-2.0f64).to_bits()) }),
        Shape::Const { value: Operand::ConstF64 { bits: 0xC000_0000_0000_0000 } }
    );
    assert_eq!(Ieee32::from_bits(7).bits(), 7);
    assert_eq!(Ieee64::from_bits(9).bits(), 9);
    assert_eq!(classify(Operator::I64ShrS), Shape::Shift { op: IntBinOp::AShr, ty: IrType::I64 });
    assert_eq!(classify(Operator::I32ShrU), Shape::Shift { op: IntBinOp::LShr, ty: IrType::I32 });
    assert_eq!(classify(Operator::I32Shl), Shape::Shift { op: IntBinOp::Shl, ty: IrType::I32 });
    assert_eq!(
        classify(Operator::I64DivU),
        Shape::IntBinary { op: IntBinOp::UDiv, ty: IrType::I64 }
    );
    assert_eq!(
        classify(Operator::I32GeU),
        Shape::IntCompare { pred: IntPredicate::UGE, ty: IrType::I32 }
    );
    assert_eq!(
        classify(Operator::F64Ne),
        Shape::FloatCompare { pred: auto_parallel_wasm::ir::FloatPredicate::UNE, ty: IrType::F64 }
    );
    assert_eq!(
        classify(Operator::F32Lt),
        Shape::FloatCompare { pred: auto_parallel_wasm::ir::FloatPredicate::OLT, ty: IrType::F32 }
    );
    assert_eq!(
        classify(Operator::I64Load16S { memarg }),
        Shape::LoadExtend { from: IrType::I16, to: IrType::I64, signed: true, offset: 24 }
    );
    assert_eq!(
        classify(Operator::I32Store8 { memarg }),
        Shape::StoreTruncate { from: IrType::I32, to: IrType::I8, offset: 24 }
    );
    assert_eq!(classify(Operator::F64Load { memarg }), Shape::Load { ty: IrType::F64, offset: 24 });
    assert_eq!(classify(Operator::I64Rotl), Shape::Rotate { left: true, ty: IrType::I64 });
    assert_eq!(classify(Operator::I32Rotr), Shape::Rotate { left: false, ty: IrType::I32 });
    assert_eq!(
        classify(Operator::I32TruncF64U),
        Shape::Cast { op: CastOp::FloatToUnsigned, from: IrType::F64, to: IrType::I32 }
    );
    assert_eq!(classify(Operator::Unmodeled { opcode: 1 }), Shape::Unsupported { opcode: 1 });
}

#[test]
fn sizes_and_kinds_of_the_types() {
    let sizes: Vec<u64> = [
        IrType::I1,
        IrType::I8,
        IrType::I16,
        IrType::I32,
        IrType::I64,
        IrType::F32,
        IrType::F64,
        IrType::Ptr,
    ]
    .iter()
    .map(|ty| ty.size_in_bytes())
    .collect();
    assert_eq!(sizes, vec![0, 1, 2, 4, 8, 4, 8, 0]);
    assert!(IrType::I1.is_int_type() && !IrType::I1.is_float_type());
    assert!(!IrType::F32.is_int_type() && IrType::F32.is_float_type());
    assert!(!IrType::Ptr.is_int_type() && !IrType::Ptr.is_float_type());
    assert_eq!(ValType::F64.to_ir_type(), IrType::F64);
}

#[test]
fn names_are_found_in_order() {
    assert_eq!(function_name(0), "func_0");
    assert_eq!(function_name(1234567890), "func_1234567890");
    let named = |name: &str| IrFunction {
        name: name.to_string(),
        params: vec![],
        result: None,
        blocks: vec![],
        code: vec![],
    };
    let functions = vec![named("a"), named("b"), named("a"), named("")];
    assert_eq!(find_function(&functions, &"a".to_string()), Some(0));
    assert_eq!(find_function(&functions, &"b".to_string()), Some(1));
    assert_eq!(find_function(&functions, &"".to_string()), Some(3));
    assert_eq!(find_function(&functions, &"c".to_string()), None);
    assert_eq!(find_function(&vec![], &"a".to_string()), None);
}

#[test]
fn lowering_step_by_step() {
    let params = vec![ValType::I32];
    let locals = vec![ValType::I64];
    let results = vec![ValType::I64];
    let globals = vec![];
    let functions = vec![];
    let env = Env {
        params: &params,
        locals: &locals,
        results: &results,
        memory: None,
        globals: &globals,
        putchar: false,
        functions: &functions,
    };
    let mut lowering = FunctionLowering::begin(&env);
    assert_eq!(lowering.blocks, vec![BlockKind::Entry]);
    assert_eq!(
        lowering.code,
        vec![
            Placed { block: 0, instr: Instr::Alloca { ty: IrType::I64 } },
            Placed {
                block: 0,
                instr: Instr::Store {
                    ty: IrType::I64,
                    ptr: Operand::Value { id: 0 },
                    value: Operand::ConstInt { ty: IrType::I64, bits: 0 },
                },
            },
        ]
    );
    assert_eq!(lowering.cursor, 0);
    assert!(lowering.value_stack.is_empty());
    assert!(lowering.control_stack.is_empty());

    assert_eq!(
        lowering.lower_operator(&env, Operator::LocalGet { local_index: 0 }),
        Ok(Flow::Continue)
    );
    assert_eq!(lowering.value_stack, vec![Operand::Param { index: 0 }]);
    assert_eq!(lowering.lower_operator(&env, Operator::I64ExtendI32U), Ok(Flow::Continue));
    assert_eq!(lowering.value_stack, vec![Operand::Value { id: 2 }]);
    assert_eq!(
        lowering.lower_operator(&env, Operator::Loop {
            blockty: auto_parallel_wasm::wasm_parser::BlockType::Empty
        }),
        Ok(Flow::Continue)
    );
    assert_eq!(
        lowering.control_stack,
        vec![ControlBlock {
            block_type: ControlBlockType::Loop,
            end_block: 2,
            continue_block: Some(1),
        }]
    );
    assert_eq!(lowering.cursor, 1);
    // a failure leaves the lowering as it was
    let code_before = lowering.code.clone();
    assert_eq!(lowering.lower_operator(&env, Operator::I64Add), Err(CompileError::StackUnderflow));
    assert_eq!(lowering.code, code_before);
    assert_eq!(lowering.value_stack, vec![Operand::Value { id: 2 }]);
    assert_eq!(lowering.cursor, 1);
    assert_eq!(lowering.lower_operator(&env, Operator::End), Ok(Flow::Continue));
    assert_eq!(lowering.cursor, 2);
    assert!(lowering.control_stack.is_empty());
    assert_eq!(lowering.lower_operator(&env, Operator::Return), Ok(Flow::Stop));
    assert!(lowering.value_stack.is_empty());

    let mut again = FunctionLowering::begin(&env);
    assert_eq!(
        again.lower_operators(
            &env,
            &vec![
                Operator::LocalGet { local_index: 1 },
                Operator::Return,
                Operator::Drop,
            ]
        ),
        Ok(Flow::Stop)
    );
    assert_eq!(again.code.len(), 4);
    let mut failing = FunctionLowering::begin(&env);
    assert_eq!(
        failing.lower_operators(&env, &vec![Operator::Drop, Operator::Return]),
        Err(CompileError::StackUnderflow)
    );
    assert_eq!(failing.code.len(), 2);
    let mut open = FunctionLowering::begin(&env);
    assert_eq!(open.lower_operators(&env, &vec![]), Ok(Flow::Continue));
}

#[test]
fn the_machine_runs_instructions_one_by_one() {
    let mut machine = Interpreter::new(vec![5], vec![9], 4);
    assert_eq!(machine.operand_value(Operand::Param { index: 0 }), Some(5));
    assert_eq!(machine.operand_value(Operand::Param { index: 1 }), None);
    assert_eq!(machine.operand_value(Operand::Value { id: 0 }), None);
    assert_eq!(machine.operand_value(Operand::Value { id: 100 }), None);
    assert_eq!(machine.operand_value(Operand::NullPtr), None);
    assert_eq!(machine.cell_value(Operand::Global { index: 0 }), Some(9));
    assert_eq!(machine.cell_value(Operand::Global { index: 1 }), None);
    assert_eq!(machine.cell_value(Operand::Value { id: 0 }), None);
    assert!(machine.execute(0, Instr::Alloca { ty: IrType::I32 }));
    // a reserved cell holds nothing until a value is stored to it
    assert_eq!(machine.cell_value(Operand::Value { id: 0 }), None);
    assert!(!machine.execute(2, Instr::Load { ty: IrType::I32, ptr: Operand::Value { id: 0 } }));
    assert_eq!(machine.operand_value(Operand::ConstF32 { bits: 0x3F80_0000 }), Some(0x3F80_0000));
    assert_eq!(machine.operand_value(Operand::ConstF64 { bits: u64::MAX }), Some(u64::MAX));
    assert!(machine.execute(
        1,
        Instr::Store {
            ty: IrType::I32,
            ptr: Operand::Value { id: 0 },
            value: Operand::Param { index: 0 },
        }
    ));
    assert_eq!(machine.cell_value(Operand::Value { id: 0 }), Some(5));
    assert!(machine.execute(2, Instr::Load { ty: IrType::I32, ptr: Operand::Value { id: 0 } }));
    assert_eq!(machine.operand_value(Operand::Value { id: 2 }), Some(5));
    // a store to a cell that is not reserved, a float operation
    assert!(!machine.execute(
        3,
        Instr::Store {
            ty: IrType::I32,
            ptr: Operand::Value { id: 3 },
            value: Operand::Param { index: 0 },
        }
    ));
    assert!(!machine.execute(3, Instr::FloatNeg { ty: IrType::F32, value: Operand::Param { index: 0 } }));
    assert!(!machine.execute(3, Instr::Trap));
    assert_eq!(machine.operand_value(Operand::Value { id: 3 }), None);
}

#[test]
fn the_machine_follows_the_blocks() {
    let code = vec![
        Placed { block: 0, instr: Instr::Jump { target: 2 } },
        Placed { block: 1, instr: Instr::Return { value: Some(Operand::Value { id: 3 }) } },
        Placed { block: 2, instr: Instr::Jump { target: 1 } },
        Placed {
            block: 1,
            instr: Instr::IntBinary {
                op: IntBinOp::Add,
                ty: IrType::I32,
                lhs: Operand::Param { index: 0 },
                rhs: Operand::Param { index: 0 },
            },
        },
    ];
    assert_eq!(find_in_block(&code, 1, 0), Some(1));
    assert_eq!(find_in_block(&code, 1, 2), Some(3));
    assert_eq!(find_in_block(&code, 2, 3), None);
    assert_eq!(find_in_block(&code, 3, 0), None);
    assert_eq!(find_in_block(&code, 0, 9), None);
    let function = IrFunction {
        name: "f".to_string(),
        params: vec![IrType::I32],
        result: Some(IrType::I32),
        blocks: vec![BlockKind::Entry, BlockKind::Block, BlockKind::BlockEnd],
        code,
    };
    // the return in block 1 comes first and reads a value that has not been
    // yielded yet
    assert_eq!(run_function(&function, vec![4], vec![], 10), Outcome::Stuck);
    assert_eq!(run_function(&function, vec![4], vec![], 2), Outcome::OutOfFuel);
    assert_eq!(run_function(&function, vec![4], vec![], 0), Outcome::OutOfFuel);
    let empty = IrFunction {
        name: "e".to_string(),
        params: vec![],
        result: None,
        blocks: vec![BlockKind::Entry],
        code: vec![],
    };
    assert_eq!(run_function(&empty, vec![], vec![], 5), Outcome::Stuck);
}

#[test]
fn names_of_intrinsics_blocks_and_globals() {
    assert_eq!(unary_intrinsic_name(UnaryIntrinsic::CountLeadingZeros, IrType::I32), "llvm.ctlz.i32");
    assert_eq!(unary_intrinsic_name(UnaryIntrinsic::CountTrailingZeros, IrType::I64), "llvm.cttz.i64");
    assert_eq!(unary_intrinsic_name(UnaryIntrinsic::PopCount, IrType::I64), "llvm.ctpop.i64");
    assert_eq!(unary_intrinsic_name(UnaryIntrinsic::Abs, IrType::F32), "llvm.fabs.f32");
    assert_eq!(unary_intrinsic_name(UnaryIntrinsic::Sqrt, IrType::F64), "llvm.sqrt.f64");
    assert_eq!(unary_intrinsic_name(UnaryIntrinsic::Ceil, IrType::F32), "llvm.ceil.f32");
    assert_eq!(unary_intrinsic_name(UnaryIntrinsic::Floor, IrType::F32), "llvm.floor.f32");
    assert_eq!(unary_intrinsic_name(UnaryIntrinsic::Trunc, IrType::F64), "llvm.trunc.f64");
    assert_eq!(unary_intrinsic_name(UnaryIntrinsic::Nearest, IrType::F64), "llvm.nearbyint.f64");
    assert_eq!(binary_intrinsic_name(BinaryIntrinsic::Min, IrType::F32), "llvm.minnum.f32");
    assert_eq!(binary_intrinsic_name(BinaryIntrinsic::Max, IrType::F64), "llvm.maxnum.f64");
    assert_eq!(binary_intrinsic_name(BinaryIntrinsic::CopySign, IrType::F64), "llvm.copysign.f64");
    assert!(UnaryIntrinsic::CountLeadingZeros.is_zero_count());
    assert!(UnaryIntrinsic::CountTrailingZeros.is_zero_count());
    assert!(!UnaryIntrinsic::PopCount.is_zero_count());
    assert!(!UnaryIntrinsic::Sqrt.is_zero_count());
    assert_eq!(block_label(BlockKind::Entry), "entry");
    assert_eq!(block_label(BlockKind::IfMerge), "if_merge");
    assert_eq!(block_label(BlockKind::LoopHeader), "loop_header");
    assert_eq!(block_label(BlockKind::OutOfBounds), "trap");
    assert_eq!(global_name(0), "global_0");
    assert_eq!(global_name(305), "global_305");
}
