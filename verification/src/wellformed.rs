use crate::control::{branch_target_at, ControlBlock, ControlBlockType};
use crate::error::CompileError;
use crate::ir::{
    BlockKind, Callee, CastOp, Instr, IntBinOp, IntPredicate, IrType, Operand, Placed,
};
use crate::lowering::{Flow, LoweringEnv, LoweringState, PAGE_SIZE};
use crate::shape::{shape_of, Shape};
use crate::wasm_parser::Operator;
use vstd::prelude::*;

verus! {

/// Whether `operand` can be read by an instruction at position `at`: a
/// result is that of an earlier instruction, a parameter and a global exist.
pub open spec fn operand_ok(env: LoweringEnv, at: int, operand: Operand) -> bool {
    match operand {
        Operand::Value { id } => id < at,
        Operand::Param { index } => index < env.params.len(),
        Operand::Global { index } => index < env.globals.len(),
        _ => true,
    }
}

/// Whether the instruction `instr` at position `at` reads only what it can
/// read, and leads only to blocks that exist, `blocks` being their number.
pub open spec fn instr_ok(env: LoweringEnv, blocks: int, at: int, instr: Instr) -> bool {
    match instr {
        Instr::IntBinary { lhs, rhs, .. } => operand_ok(env, at, lhs) && operand_ok(env, at, rhs),
        Instr::IntCompare { lhs, rhs, .. } => operand_ok(env, at, lhs) && operand_ok(env, at, rhs),
        Instr::FloatBinary { lhs, rhs, .. } => operand_ok(env, at, lhs) && operand_ok(env, at, rhs),
        Instr::FloatCompare { lhs, rhs, .. } => operand_ok(env, at, lhs) && operand_ok(
            env,
            at,
            rhs,
        ),
        Instr::FloatNeg { value, .. } => operand_ok(env, at, value),
        Instr::Cast { value, .. } => operand_ok(env, at, value),
        Instr::UnaryIntrinsic { value, .. } => operand_ok(env, at, value),
        Instr::BinaryIntrinsic { lhs, rhs, .. } => operand_ok(env, at, lhs) && operand_ok(
            env,
            at,
            rhs,
        ),
        Instr::Select { cond, if_true, if_false } => operand_ok(env, at, cond) && operand_ok(
            env,
            at,
            if_true,
        ) && operand_ok(env, at, if_false),
        Instr::Alloca { .. } => true,
        Instr::Load { ptr, .. } => operand_ok(env, at, ptr),
        Instr::Store { ptr, value, .. } => operand_ok(env, at, ptr) && operand_ok(env, at, value),
        Instr::ElementPtr { base, index } => operand_ok(env, at, base) && operand_ok(
            env,
            at,
            index,
        ),
        Instr::MemoryMove { dest, src, len } => operand_ok(env, at, dest) && operand_ok(
            env,
            at,
            src,
        ) && operand_ok(env, at, len),
        Instr::MemorySet { dest, value, len } => operand_ok(env, at, dest) && operand_ok(
            env,
            at,
            value,
        ) && operand_ok(env, at, len),
        Instr::CallArg { value } => operand_ok(env, at, value),
        Instr::Call { callee, argc, .. } => argc <= at && match callee {
            Callee::Putchar => env.putchar,
            Callee::Function { index } => index < env.functions.len(),
        },
        Instr::Jump { target } => target < blocks,
        Instr::Branch { cond, if_true, if_false } => operand_ok(env, at, cond) && if_true < blocks
            && if_false < blocks,
        Instr::Return { value } => match value {
            Some(v) => operand_ok(env, at, v),
            None => true,
        },
        Instr::Trap => true,
        Instr::Unreachable => true,
    }
}

/// Whether the frame leads only to blocks that exist, and has a header
/// where it is a loop.
pub open spec fn frame_ok(blocks: int, frame: ControlBlock) -> bool {
    &&& frame.end_block < blocks
    &&& frame.continue_block matches Some(block) ==> block < blocks
    &&& frame.block_type == ControlBlockType::Loop ==> frame.continue_block is Some
}

/// Whether the code is well formed: every instruction stands in a block
/// that exists, reads only results of earlier instructions, and leads only
/// to blocks that exist.
pub open spec fn code_ok(env: LoweringEnv, blocks: int, code: Seq<Placed>) -> bool {
    forall|i: int|
        0 <= i < code.len() ==> (#[trigger] code[i]).block < blocks && instr_ok(
            env,
            blocks,
            i,
            code[i].instr,
        )
}

impl LoweringState {
    /// Whether the state is well formed: the code is, the cells of the
    /// declared locals are reserved, the cursor stands at a block that
    /// exists, the operands on the stack can be read at the insertion point,
    /// and the frames lead to blocks that exist.
    pub open spec fn well_formed(self, env: LoweringEnv) -> bool {
        &&& self.cursor < self.blocks.len()
        &&& self.blocks.len() <= usize::MAX
        &&& env.locals.len() <= self.code.len() <= usize::MAX
        &&& code_ok(env, self.blocks.len() as int, self.code)
        &&& forall|k: int|
            0 <= k < self.stack.len() ==> operand_ok(
                env,
                self.code.len() as int,
                #[trigger] self.stack[k],
            )
        &&& forall|j: int|
            0 <= j < self.frames.len() ==> frame_ok(
                self.blocks.len() as int,
                #[trigger] self.frames[j],
            )
    }
}

/// The state in which lowering begins is well formed.
pub proof fn lemma_start_well_formed(env: LoweringEnv)
    requires
        2 * env.locals.len() <= usize::MAX,
    ensures
        LoweringState::start(env).well_formed(env),
{
    let s = LoweringState::start(env);
    let cells = env.locals.len() as int;
    assert forall|i: int| 0 <= i < s.code.len() implies (#[trigger] s.code[i]).block
        < s.blocks.len() && instr_ok(env, s.blocks.len() as int, i, s.code[i].instr) by {
        if i >= cells {
            assert(s.code[i] == env.zeroing(i - cells));
        }
    }
}

proof fn lemma_emit(s: LoweringState, env: LoweringEnv, instr: Instr)
    requires
        s.well_formed(env),
        s.code.len() < usize::MAX,
        instr_ok(env, s.blocks.len() as int, s.code.len() as int, instr),
    ensures
        s.emit(instr).well_formed(env),
{
    let t = s.emit(instr);
    assert forall|i: int| 0 <= i < t.code.len() implies (#[trigger] t.code[i]).block
        < t.blocks.len() && instr_ok(env, t.blocks.len() as int, i, t.code[i].instr) by {
        if i < s.code.len() {
            assert(t.code[i] == s.code[i]);
        }
    }
    assert forall|k: int| 0 <= k < t.stack.len() implies operand_ok(
        env,
        t.code.len() as int,
        #[trigger] t.stack[k],
    ) by {
        assert(operand_ok(env, s.code.len() as int, s.stack[k]));
    }
}

proof fn lemma_push(s: LoweringState, env: LoweringEnv, operand: Operand)
    requires
        s.well_formed(env),
        operand_ok(env, s.code.len() as int, operand),
    ensures
        s.push(operand).well_formed(env),
{
    let t = s.push(operand);
    assert forall|k: int| 0 <= k < t.stack.len() implies operand_ok(
        env,
        t.code.len() as int,
        #[trigger] t.stack[k],
    ) by {
        if k < s.stack.len() {
            assert(t.stack[k] == s.stack[k]);
        }
    }
}

proof fn lemma_pop(s: LoweringState, env: LoweringEnv)
    requires
        s.well_formed(env),
        s.stack.len() > 0,
    ensures
        s.pop().well_formed(env),
        operand_ok(env, s.code.len() as int, s.top(0)),
{
    let t = s.pop();
    assert forall|k: int| 0 <= k < t.stack.len() implies operand_ok(
        env,
        t.code.len() as int,
        #[trigger] t.stack[k],
    ) by {
        assert(t.stack[k] == s.stack[k]);
    }
}

proof fn lemma_append_block(s: LoweringState, env: LoweringEnv, kind: BlockKind)
    requires
        s.well_formed(env),
        s.blocks.len() < usize::MAX,
    ensures
        s.append_block(kind).well_formed(env),
{
    let t = s.append_block(kind);
    assert forall|i: int| 0 <= i < t.code.len() implies (#[trigger] t.code[i]).block
        < t.blocks.len() && instr_ok(env, t.blocks.len() as int, i, t.code[i].instr) by {
        assert(instr_ok(env, s.blocks.len() as int, i, s.code[i].instr));
    }
    assert forall|j: int| 0 <= j < t.frames.len() implies frame_ok(
        t.blocks.len() as int,
        #[trigger] t.frames[j],
    ) by {
        assert(frame_ok(s.blocks.len() as int, s.frames[j]));
    }
}

proof fn lemma_position_at(s: LoweringState, env: LoweringEnv, block: usize)
    requires
        s.well_formed(env),
        block < s.blocks.len(),
    ensures
        s.position_at(block).well_formed(env),
{
}

proof fn lemma_push_frame(s: LoweringState, env: LoweringEnv, frame: ControlBlock)
    requires
        s.well_formed(env),
        frame_ok(s.blocks.len() as int, frame),
    ensures
        s.push_frame(frame).well_formed(env),
{
    let t = s.push_frame(frame);
    assert forall|j: int| 0 <= j < t.frames.len() implies frame_ok(
        t.blocks.len() as int,
        #[trigger] t.frames[j],
    ) by {
        if j < s.frames.len() {
            assert(t.frames[j] == s.frames[j]);
        }
    }
}

proof fn lemma_pop_frame(s: LoweringState, env: LoweringEnv)
    requires
        s.well_formed(env),
        s.frames.len() > 0,
    ensures
        s.pop_frame().well_formed(env),
        frame_ok(s.blocks.len() as int, s.frames.last()),
{
    let t = s.pop_frame();
    assert forall|j: int| 0 <= j < t.frames.len() implies frame_ok(
        t.blocks.len() as int,
        #[trigger] t.frames[j],
    ) by {
        assert(t.frames[j] == s.frames[j]);
    }
}

proof fn lemma_emit_value(s: LoweringState, env: LoweringEnv, instr: Instr)
    requires
        s.well_formed(env),
        s.code.len() < usize::MAX,
        instr_ok(env, s.blocks.len() as int, s.code.len() as int, instr),
    ensures
        s.emit_value(instr).well_formed(env),
{
    lemma_emit(s, env, instr);
    lemma_push(s.emit(instr), env, Operand::Value { id: s.next_id() });
}

proof fn lemma_emit_truth(s: LoweringState, env: LoweringEnv, first: Instr)
    requires
        s.well_formed(env),
        s.code.len() + 1 < usize::MAX,
        instr_ok(env, s.blocks.len() as int, s.code.len() as int, first),
    ensures
        s.emit_truth(first).well_formed(env),
{
    lemma_emit(s, env, first);
    lemma_emit_value(
        s.emit(first),
        env,
        Instr::Cast {
            op: CastOp::ZeroExtend,
            from: IrType::I1,
            to: IrType::I32,
            value: Operand::Value { id: s.next_id() },
        },
    );
}

/// After the two topmost operands are popped, the state is well formed and
/// both operands can be read at the insertion point.
proof fn lemma_pop2(s: LoweringState, env: LoweringEnv)
    requires
        s.well_formed(env),
        s.stack.len() >= 2,
    ensures
        s.pop().pop().well_formed(env),
        operand_ok(env, s.code.len() as int, s.top(0)),
        operand_ok(env, s.code.len() as int, s.top(1)),
{
    lemma_pop(s, env);
    lemma_pop(s.pop(), env);
    assert(s.pop().top(0) == s.top(1));
}

proof fn lemma_pop3(s: LoweringState, env: LoweringEnv)
    requires
        s.well_formed(env),
        s.stack.len() >= 3,
    ensures
        s.pop().pop().pop().well_formed(env),
        operand_ok(env, s.code.len() as int, s.top(0)),
        operand_ok(env, s.code.len() as int, s.top(1)),
        operand_ok(env, s.code.len() as int, s.top(2)),
{
    lemma_pop2(s, env);
    lemma_pop(s.pop().pop(), env);
    assert(s.pop().pop().top(0) == s.top(2));
}

proof fn lemma_guard(s: LoweringState, env: LoweringEnv, out_of_bounds: Operand)
    requires
        s.well_formed(env),
        s.code.len() + 2 <= usize::MAX,
        s.blocks.len() + 2 <= usize::MAX,
        operand_ok(env, s.code.len() as int, out_of_bounds),
    ensures
        s.guard(out_of_bounds).well_formed(env),
        s.guard(out_of_bounds).code.len() == s.code.len() + 2,
        s.guard(out_of_bounds).blocks.len() == s.blocks.len() + 2,
        s.guard(out_of_bounds).stack == s.stack,
        s.guard(out_of_bounds).frames == s.frames,
{
    let trap = s.next_block();
    let ok = (trap + 1) as usize;
    let s1 = s.append_block(BlockKind::OutOfBounds);
    lemma_append_block(s, env, BlockKind::OutOfBounds);
    let s2 = s1.append_block(BlockKind::InBounds);
    lemma_append_block(s1, env, BlockKind::InBounds);
    let s3 = s2.emit(Instr::Branch { cond: out_of_bounds, if_true: trap, if_false: ok });
    lemma_emit(s2, env, Instr::Branch { cond: out_of_bounds, if_true: trap, if_false: ok });
    lemma_position_at(s3, env, trap);
    lemma_emit(s3.position_at(trap), env, Instr::Trap);
    lemma_position_at(s3.position_at(trap).emit(Instr::Trap), env, ok);
}

proof fn lemma_checked_address(
    s: LoweringState,
    env: LoweringEnv,
    memory: u32,
    base: Operand,
    offset: u64,
    size: u64,
)
    requires
        s.well_formed(env),
        s.checked_address(memory, base, offset, size).0.code.len() <= usize::MAX,
        s.checked_address(memory, base, offset, size).0.blocks.len() <= usize::MAX,
        operand_ok(env, s.code.len() as int, base),
    ensures
        s.checked_address(memory, base, offset, size).0.well_formed(env),
        operand_ok(
            env,
            s.checked_address(memory, base, offset, size).0.code.len() as int,
            s.checked_address(memory, base, offset, size).1,
        ),
        s.checked_address(memory, base, offset, size).0.code.len() <= s.code.len() + 6,
        s.checked_address(memory, base, offset, size).0.code.len() >= s.code.len(),
        s.checked_address(memory, base, offset, size).0.blocks.len() == s.blocks.len() + 2,
        s.checked_address(memory, base, offset, size).0.stack == s.stack,
{
    let wide = Operand::Value { id: s.next_id() };
    let widen = Instr::Cast {
        op: CastOp::ZeroExtend,
        from: IrType::I32,
        to: IrType::I64,
        value: base,
    };
    let s1 = s.emit(widen);
    lemma_emit(s, env, widen);
    let sum = Instr::IntBinary {
        op: IntBinOp::Add,
        ty: IrType::I64,
        lhs: wide,
        rhs: Operand::ConstInt { ty: IrType::I64, bits: offset },
    };
    let (s2, address) = if offset > 0 {
        (s1.emit(sum), Operand::Value { id: s1.next_id() })
    } else {
        (s1, wide)
    };
    if offset > 0 {
        lemma_emit(s1, env, sum);
    }
    let compare = Instr::IntCompare {
        pred: IntPredicate::UGT,
        ty: IrType::I64,
        lhs: address,
        rhs: Operand::ConstInt { ty: IrType::I64, bits: (memory - size) as u64 },
    };
    let (s3, out_of_bounds) = if size <= memory && offset <= memory - size {
        (s2.emit(compare), Operand::Value { id: s2.next_id() })
    } else {
        (s2, Operand::ConstInt { ty: IrType::I1, bits: 1 })
    };
    if size <= memory && offset <= memory - size {
        lemma_emit(s2, env, compare);
    }
    lemma_guard(s3, env, out_of_bounds);
    let s4 = s3.guard(out_of_bounds);
    lemma_emit(s4, env, Instr::ElementPtr { base: Operand::Memory, index: address });
}

proof fn lemma_checked_range(
    s: LoweringState,
    env: LoweringEnv,
    memory: u32,
    start: Operand,
    len: Operand,
)
    requires
        s.well_formed(env),
        s.code.len() + 6 <= usize::MAX,
        s.blocks.len() + 2 <= usize::MAX,
        operand_ok(env, s.code.len() as int, start),
        operand_ok(env, s.code.len() as int, len),
    ensures
        s.checked_range(memory, start, len).well_formed(env),
        s.checked_range(memory, start, len).code.len() == s.code.len() + 6,
        s.checked_range(memory, start, len).blocks.len() == s.blocks.len() + 2,
        s.checked_range(memory, start, len).stack == s.stack,
{
    let first = s.next_id();
    let wide_start = Operand::Value { id: first };
    let wide_len = Operand::Value { id: (first + 1) as usize };
    let end = Operand::Value { id: (first + 2) as usize };
    let out_of_bounds = Operand::Value { id: (first + 3) as usize };
    let i0 = Instr::Cast { op: CastOp::ZeroExtend, from: IrType::I32, to: IrType::I64, value: start };
    let i1 = Instr::Cast { op: CastOp::ZeroExtend, from: IrType::I32, to: IrType::I64, value: len };
    let i2 = Instr::IntBinary { op: IntBinOp::Add, ty: IrType::I64, lhs: wide_start, rhs: wide_len };
    let i3 = Instr::IntCompare {
        pred: IntPredicate::UGT,
        ty: IrType::I64,
        lhs: end,
        rhs: Operand::ConstInt { ty: IrType::I64, bits: memory as u64 },
    };
    lemma_emit(s, env, i0);
    lemma_emit(s.emit(i0), env, i1);
    lemma_emit(s.emit(i0).emit(i1), env, i2);
    lemma_emit(s.emit(i0).emit(i1).emit(i2), env, i3);
    lemma_guard(s.emit(i0).emit(i1).emit(i2).emit(i3), env, out_of_bounds);
}

proof fn lemma_numeric(s: LoweringState, env: LoweringEnv, shape: Shape)
    requires
        s.well_formed(env),
        s.apply(env, shape).state.code.len() <= usize::MAX,
        shape matches Shape::Const { value } ==> operand_ok(env, s.code.len() as int, value),
        ({
            ||| shape is Const
            ||| shape is IntBinary
            ||| shape is Shift
            ||| shape is IntCompare
            ||| shape is IntEqz
            ||| shape is Rotate
            ||| shape is FloatBinary
            ||| shape is FloatCompare
            ||| shape is FloatNeg
            ||| shape is Cast
            ||| shape is SignExtend8
            ||| shape is UnaryIntrinsic
            ||| shape is BinaryIntrinsic
            ||| shape is Drop
            ||| shape is Select
            ||| shape is RefNull
            ||| shape is RefIsNull
        }),
    ensures
        s.apply(env, shape).state.well_formed(env),
{
    let t = s.apply(env, shape).state;
    match shape {
        Shape::Const { value } => {
            lemma_push(s, env, value);
        },
        Shape::IntBinary { op, ty } => {
            if s.stack.len() >= 2 {
                lemma_pop2(s, env);
                lemma_emit_value(
                    s.pop().pop(),
                    env,
                    Instr::IntBinary { op, ty, lhs: s.top(1), rhs: s.top(0) },
                );
            }
        },
        Shape::Shift { op, ty } => {
            if s.stack.len() >= 2 {
                lemma_pop2(s, env);
                let masking = Instr::IntBinary {
                    op: IntBinOp::And,
                    ty,
                    lhs: s.top(0),
                    rhs: LoweringState::amount_mask(ty),
                };
                lemma_emit(s.pop().pop(), env, masking);
                lemma_emit_value(
                    s.pop().pop().emit(masking),
                    env,
                    Instr::IntBinary {
                        op,
                        ty,
                        lhs: s.top(1),
                        rhs: Operand::Value { id: s.next_id() },
                    },
                );
            }
        },
        Shape::IntCompare { pred, ty } => {
            if s.stack.len() >= 2 {
                lemma_pop2(s, env);
                lemma_emit_truth(
                    s.pop().pop(),
                    env,
                    Instr::IntCompare { pred, ty, lhs: s.top(1), rhs: s.top(0) },
                );
            }
        },
        Shape::IntEqz { ty } => {
            if s.stack.len() >= 1 {
                lemma_pop(s, env);
                lemma_emit_truth(
                    s.pop(),
                    env,
                    Instr::IntCompare {
                        pred: IntPredicate::EQ,
                        ty,
                        lhs: s.top(0),
                        rhs: Operand::ConstInt { ty, bits: 0 },
                    },
                );
            }
        },
        Shape::Rotate { left, ty } => {
            if s.stack.len() >= 2 {
                lemma_pop2(s, env);
                let amount = s.top(0);
                let value = s.top(1);
                let width = Operand::ConstInt { ty, bits: ty.int_bits() as u64 };
                let first = s.next_id();
                let masked = Operand::Value { id: first };
                let near = Operand::Value { id: (first + 1) as usize };
                let rest = Operand::Value { id: (first + 2) as usize };
                let opposite = Operand::Value { id: (first + 3) as usize };
                let far = Operand::Value { id: (first + 4) as usize };
                let (toward, back) = if left {
                    (IntBinOp::Shl, IntBinOp::LShr)
                } else {
                    (IntBinOp::LShr, IntBinOp::Shl)
                };
                let i0 = Instr::IntBinary { op: IntBinOp::URem, ty, lhs: amount, rhs: width };
                let i1 = Instr::IntBinary { op: toward, ty, lhs: value, rhs: masked };
                let i2 = Instr::IntBinary { op: IntBinOp::Sub, ty, lhs: width, rhs: masked };
                let i3 = Instr::IntBinary {
                    op: IntBinOp::And,
                    ty,
                    lhs: rest,
                    rhs: LoweringState::amount_mask(ty),
                };
                let i4 = Instr::IntBinary { op: back, ty, lhs: value, rhs: opposite };
                let i5 = Instr::IntBinary { op: IntBinOp::Or, ty, lhs: near, rhs: far };
                let s0 = s.pop().pop();
                lemma_emit(s0, env, i0);
                lemma_emit(s0.emit(i0), env, i1);
                lemma_emit(s0.emit(i0).emit(i1), env, i2);
                lemma_emit(s0.emit(i0).emit(i1).emit(i2), env, i3);
                lemma_emit(s0.emit(i0).emit(i1).emit(i2).emit(i3), env, i4);
                lemma_emit_value(s0.emit(i0).emit(i1).emit(i2).emit(i3).emit(i4), env, i5);
            }
        },
        Shape::FloatBinary { op, ty } => {
            if s.stack.len() >= 2 {
                lemma_pop2(s, env);
                lemma_emit_value(
                    s.pop().pop(),
                    env,
                    Instr::FloatBinary { op, ty, lhs: s.top(1), rhs: s.top(0) },
                );
            }
        },
        Shape::FloatCompare { pred, ty } => {
            if s.stack.len() >= 2 {
                lemma_pop2(s, env);
                lemma_emit_truth(
                    s.pop().pop(),
                    env,
                    Instr::FloatCompare { pred, ty, lhs: s.top(1), rhs: s.top(0) },
                );
            }
        },
        Shape::FloatNeg { ty } => {
            if s.stack.len() >= 1 {
                lemma_pop(s, env);
                lemma_emit_value(s.pop(), env, Instr::FloatNeg { ty, value: s.top(0) });
            }
        },
        Shape::Cast { op, from, to } => {
            if s.stack.len() >= 1 {
                lemma_pop(s, env);
                lemma_emit_value(s.pop(), env, Instr::Cast { op, from, to, value: s.top(0) });
            }
        },
        Shape::SignExtend8 => {
            if s.stack.len() >= 1 {
                lemma_pop(s, env);
                let first = s.next_id();
                let i0 = Instr::IntBinary {
                    op: IntBinOp::And,
                    ty: IrType::I32,
                    lhs: s.top(0),
                    rhs: Operand::ConstInt { ty: IrType::I32, bits: 0xFF },
                };
                let i1 = Instr::Cast {
                    op: CastOp::Truncate,
                    from: IrType::I32,
                    to: IrType::I8,
                    value: Operand::Value { id: first },
                };
                let i2 = Instr::Cast {
                    op: CastOp::SignExtend,
                    from: IrType::I8,
                    to: IrType::I32,
                    value: Operand::Value { id: (first + 1) as usize },
                };
                lemma_emit(s.pop(), env, i0);
                lemma_emit(s.pop().emit(i0), env, i1);
                lemma_emit_value(s.pop().emit(i0).emit(i1), env, i2);
            }
        },
        Shape::UnaryIntrinsic { op, ty } => {
            if s.stack.len() >= 1 {
                lemma_pop(s, env);
                lemma_emit_value(s.pop(), env, Instr::UnaryIntrinsic { op, ty, value: s.top(0) });
            }
        },
        Shape::BinaryIntrinsic { op, ty } => {
            if s.stack.len() >= 2 {
                lemma_pop2(s, env);
                lemma_emit_value(
                    s.pop().pop(),
                    env,
                    Instr::BinaryIntrinsic { op, ty, lhs: s.top(1), rhs: s.top(0) },
                );
            }
        },
        Shape::Drop => {
            if s.stack.len() >= 1 {
                lemma_pop(s, env);
            }
        },
        Shape::Select => {
            if s.stack.len() >= 3 {
                lemma_pop3(s, env);
                let s0 = s.pop().pop().pop();
                lemma_emit(s0, env, LoweringState::is_nonzero(s.top(0)));
                lemma_emit_value(
                    s0.emit(LoweringState::is_nonzero(s.top(0))),
                    env,
                    Instr::Select {
                        cond: Operand::Value { id: s.next_id() },
                        if_true: s.top(1),
                        if_false: s.top(2),
                    },
                );
            }
        },
        Shape::RefNull => {
            lemma_push(s, env, Operand::NullPtr);
        },
        Shape::RefIsNull => {
            if s.stack.len() >= 1 {
                lemma_pop(s, env);
                lemma_emit_truth(
                    s.pop(),
                    env,
                    Instr::IntCompare {
                        pred: IntPredicate::EQ,
                        ty: IrType::Ptr,
                        lhs: s.top(0),
                        rhs: Operand::NullPtr,
                    },
                );
            }
        },
        _ => {},
    }
}

proof fn lemma_load(s: LoweringState, env: LoweringEnv, ty: IrType, offset: u64)
    requires
        s.well_formed(env),
        s.load(env, ty, offset).state.code.len() <= usize::MAX,
        s.load(env, ty, offset).state.blocks.len() <= usize::MAX,
    ensures
        s.load(env, ty, offset).state.well_formed(env),
{
    if s.stack.len() >= 1 && env.memory is Some {
        lemma_pop(s, env);
        let size = ty.byte_size() as u64;
        let (s1, ptr) = s.pop().checked_address(env.memory->0, s.top(0), offset, size);
        lemma_checked_address(s.pop(), env, env.memory->0, s.top(0), offset, size);
        lemma_emit_value(s1, env, Instr::Load { ty, ptr });
    }
}

proof fn lemma_load_extend(
    s: LoweringState,
    env: LoweringEnv,
    from: IrType,
    to: IrType,
    signed: bool,
    offset: u64,
)
    requires
        s.well_formed(env),
        s.load_extend(env, from, to, signed, offset).state.code.len() <= usize::MAX,
        s.load_extend(env, from, to, signed, offset).state.blocks.len() <= usize::MAX,
    ensures
        s.load_extend(env, from, to, signed, offset).state.well_formed(env),
{
    if s.stack.len() >= 1 && env.memory is Some {
        lemma_pop(s, env);
        let size = from.byte_size() as u64;
        let (s1, ptr) = s.pop().checked_address(env.memory->0, s.top(0), offset, size);
        lemma_checked_address(s.pop(), env, env.memory->0, s.top(0), offset, size);
        lemma_emit(s1, env, Instr::Load { ty: from, ptr });
        lemma_emit_value(
            s1.emit(Instr::Load { ty: from, ptr }),
            env,
            Instr::Cast {
                op: if signed {
                    CastOp::SignExtend
                } else {
                    CastOp::ZeroExtend
                },
                from,
                to,
                value: Operand::Value { id: s1.next_id() },
            },
        );
    }
}

proof fn lemma_store(s: LoweringState, env: LoweringEnv, ty: IrType, offset: u64)
    requires
        s.well_formed(env),
        s.store(env, ty, offset).state.code.len() <= usize::MAX,
        s.store(env, ty, offset).state.blocks.len() <= usize::MAX,
    ensures
        s.store(env, ty, offset).state.well_formed(env),
{
    if s.stack.len() >= 2 && env.memory is Some {
        lemma_pop2(s, env);
        let size = ty.byte_size() as u64;
        let s0 = s.pop().pop();
        let (s1, ptr) = s0.checked_address(env.memory->0, s.top(1), offset, size);
        lemma_checked_address(s0, env, env.memory->0, s.top(1), offset, size);
        lemma_emit(s1, env, Instr::Store { ty, ptr, value: s.top(0) });
    }
}

proof fn lemma_store_truncate(
    s: LoweringState,
    env: LoweringEnv,
    from: IrType,
    to: IrType,
    offset: u64,
)
    requires
        s.well_formed(env),
        s.store_truncate(env, from, to, offset).state.code.len() <= usize::MAX,
        s.store_truncate(env, from, to, offset).state.blocks.len() <= usize::MAX,
    ensures
        s.store_truncate(env, from, to, offset).state.well_formed(env),
{
    if s.stack.len() >= 2 && env.memory is Some {
        lemma_pop2(s, env);
        let size = to.byte_size() as u64;
        let s0 = s.pop().pop();
        let (s1, ptr) = s0.checked_address(env.memory->0, s.top(1), offset, size);
        lemma_checked_address(s0, env, env.memory->0, s.top(1), offset, size);
        let low = Instr::Cast { op: CastOp::Truncate, from, to, value: s.top(0) };
        lemma_emit(s1, env, low);
        lemma_emit(
            s1.emit(low),
            env,
            Instr::Store { ty: to, ptr, value: Operand::Value { id: s1.next_id() } },
        );
    }
}

proof fn lemma_memory_copy(s: LoweringState, env: LoweringEnv)
    requires
        s.well_formed(env),
        s.memory_copy(env).state.code.len() <= usize::MAX,
        s.memory_copy(env).state.blocks.len() <= usize::MAX,
    ensures
        s.memory_copy(env).state.well_formed(env),
{
    if s.stack.len() >= 3 && env.memory is Some {
        let memory = env.memory->0;
        lemma_pop3(s, env);
        let len = s.top(0);
        let s0 = s.pop().pop().pop();
        let s1 = s0.checked_range(memory, s.top(2), len);
        let s2 = s1.checked_range(memory, s.top(1), len);
        assert(s1.code.len() == s0.code.len() + 6 && s1.blocks.len() == s0.blocks.len() + 2);
        assert(s2.code.len() == s1.code.len() + 6 && s2.blocks.len() == s1.blocks.len() + 2);
        lemma_checked_range(s0, env, memory, s.top(2), len);
        lemma_checked_range(s1, env, memory, s.top(1), len);
        let to = Instr::ElementPtr {
            base: Operand::Memory,
            index: Operand::Value { id: s0.next_id() },
        };
        let from = Instr::ElementPtr {
            base: Operand::Memory,
            index: Operand::Value { id: s1.next_id() },
        };
        lemma_emit(s2, env, to);
        lemma_emit(s2.emit(to), env, from);
        lemma_emit(
            s2.emit(to).emit(from),
            env,
            Instr::MemoryMove {
                dest: Operand::Value { id: s2.next_id() },
                src: Operand::Value { id: (s2.next_id() + 1) as usize },
                len,
            },
        );
    }
}

proof fn lemma_memory_fill(s: LoweringState, env: LoweringEnv)
    requires
        s.well_formed(env),
        s.memory_fill(env).state.code.len() <= usize::MAX,
        s.memory_fill(env).state.blocks.len() <= usize::MAX,
    ensures
        s.memory_fill(env).state.well_formed(env),
{
    if s.stack.len() >= 3 && env.memory is Some {
        let memory = env.memory->0;
        lemma_pop3(s, env);
        let len = s.top(0);
        let s0 = s.pop().pop().pop();
        let s1 = s0.checked_range(memory, s.top(2), len);
        assert(s1.code.len() == s0.code.len() + 6 && s1.blocks.len() == s0.blocks.len() + 2);
        lemma_checked_range(s0, env, memory, s.top(2), len);
        let to = Instr::ElementPtr {
            base: Operand::Memory,
            index: Operand::Value { id: s0.next_id() },
        };
        let byte = Instr::Cast {
            op: CastOp::Truncate,
            from: IrType::I32,
            to: IrType::I8,
            value: s.top(1),
        };
        lemma_emit(s1, env, to);
        lemma_emit(s1.emit(to), env, byte);
        lemma_emit(
            s1.emit(to).emit(byte),
            env,
            Instr::MemorySet {
                dest: Operand::Value { id: s1.next_id() },
                value: Operand::Value { id: (s1.next_id() + 1) as usize },
                len,
            },
        );
    }
}

proof fn lemma_memory_size_grow(s: LoweringState, env: LoweringEnv)
    requires
        s.well_formed(env),
    ensures
        s.memory_size(env).state.well_formed(env),
        s.memory_grow().state.well_formed(env),
{
    if env.memory is Some {
        lemma_push(
            s,
            env,
            Operand::ConstInt {
                ty: IrType::I32,
                bits: (env.memory->0 / PAGE_SIZE) as u64,
            },
        );
    }
    if s.stack.len() >= 1 {
        lemma_pop(s, env);
        lemma_push(s.pop(), env, Operand::ConstInt { ty: IrType::I32, bits: 0xFFFF_FFFF });
    }
}

proof fn lemma_locals(s: LoweringState, env: LoweringEnv, index: u32)
    requires
        s.well_formed(env),
    ensures
        s.local_get(env, index).state.code.len() <= usize::MAX ==> s.local_get(
            env,
            index,
        ).state.well_formed(env),
        s.local_set(env, index).state.code.len() <= usize::MAX ==> s.local_set(
            env,
            index,
        ).state.well_formed(env),
        s.local_tee(env, index).state.code.len() <= usize::MAX ==> s.local_tee(
            env,
            index,
        ).state.well_formed(env),
{
    if s.code.len() == usize::MAX {
        if index < env.params.len() {
            lemma_push(s, env, Operand::Param { index: index as usize });
        }
    } else if env.params.len() <= index < env.params.len() + env.locals.len() {
        let ty = env.local_type(index);
        let ptr = env.local_cell(index);
        lemma_emit_value(s, env, Instr::Load { ty, ptr });
        if s.stack.len() >= 1 {
            lemma_pop(s, env);
            lemma_emit(s.pop(), env, Instr::Store { ty, ptr, value: s.top(0) });
            lemma_emit(s, env, Instr::Store { ty, ptr, value: s.top(0) });
        }
    } else if index < env.params.len() {
        lemma_push(s, env, Operand::Param { index: index as usize });
    }
}

proof fn lemma_globals(s: LoweringState, env: LoweringEnv, index: u32)
    requires
        s.well_formed(env),
    ensures
        s.global_get(env, index).state.code.len() <= usize::MAX ==> s.global_get(
            env,
            index,
        ).state.well_formed(env),
        s.global_set(env, index).state.code.len() <= usize::MAX ==> s.global_set(
            env,
            index,
        ).state.well_formed(env),
{
    if s.code.len() < usize::MAX && index < env.globals.len() {
        let ty = env.globals[index as int].ty;
        let ptr = Operand::Global { index: index as usize };
        lemma_emit_value(s, env, Instr::Load { ty, ptr });
        if s.stack.len() >= 1 {
            lemma_pop(s, env);
            lemma_emit(s.pop(), env, Instr::Store { ty, ptr, value: s.top(0) });
        }
    }
}

proof fn lemma_return(s: LoweringState, env: LoweringEnv, flow: Flow)
    requires
        s.well_formed(env),
    ensures
        s.emit_return(env, flow).state.code.len() <= usize::MAX ==> s.emit_return(
            env,
            flow,
        ).state.well_formed(env),
{
    if s.code.len() == usize::MAX {
    } else if env.results.len() == 0 {
        lemma_emit(s, env, Instr::Return { value: None });
    } else if s.stack.len() >= 1 {
        lemma_pop(s, env);
        lemma_emit(s.pop(), env, Instr::Return { value: Some(s.top(0)) });
    }
}

proof fn lemma_block_and_loop(s: LoweringState, env: LoweringEnv)
    requires
        s.well_formed(env),
        s.block().state.code.len() <= usize::MAX,
        s.block().state.blocks.len() <= usize::MAX,
    ensures
        s.block().state.well_formed(env),
        s.loop_().state.well_formed(env),
{
    let body = s.next_block();
    let end = (body + 1) as usize;
    lemma_append_block(s, env, BlockKind::Block);
    lemma_append_block(s.append_block(BlockKind::Block), env, BlockKind::BlockEnd);
    let s2 = s.append_block(BlockKind::Block).append_block(BlockKind::BlockEnd);
    lemma_emit(s2, env, Instr::Jump { target: body });
    let s3 = s2.emit(Instr::Jump { target: body });
    lemma_position_at(s3, env, body);
    lemma_push_frame(
        s3.position_at(body),
        env,
        ControlBlock { block_type: ControlBlockType::Block, end_block: end, continue_block: None },
    );
    lemma_append_block(s, env, BlockKind::LoopHeader);
    lemma_append_block(s.append_block(BlockKind::LoopHeader), env, BlockKind::LoopEnd);
    let l2 = s.append_block(BlockKind::LoopHeader).append_block(BlockKind::LoopEnd);
    lemma_emit(l2, env, Instr::Jump { target: body });
    let l3 = l2.emit(Instr::Jump { target: body });
    lemma_position_at(l3, env, body);
    lemma_push_frame(
        l3.position_at(body),
        env,
        ControlBlock {
            block_type: ControlBlockType::Loop,
            end_block: end,
            continue_block: Some(body),
        },
    );
}

proof fn lemma_if(s: LoweringState, env: LoweringEnv)
    requires
        s.well_formed(env),
        s.if_().state.code.len() <= usize::MAX,
        s.if_().state.blocks.len() <= usize::MAX,
    ensures
        s.if_().state.well_formed(env),
{
    if s.stack.len() >= 1 {
        let then_block = s.next_block();
        let else_block = (then_block + 1) as usize;
        let merge_block = (then_block + 2) as usize;
        lemma_pop(s, env);
        let s1 = s.pop().append_block(BlockKind::IfThen);
        lemma_append_block(s.pop(), env, BlockKind::IfThen);
        let s2 = s1.append_block(BlockKind::IfElse);
        lemma_append_block(s1, env, BlockKind::IfElse);
        let s3 = s2.append_block(BlockKind::IfMerge);
        lemma_append_block(s2, env, BlockKind::IfMerge);
        let s4 = s3.emit(LoweringState::is_nonzero(s.top(0)));
        lemma_emit(s3, env, LoweringState::is_nonzero(s.top(0)));
        let branch = Instr::Branch {
            cond: Operand::Value { id: s.next_id() },
            if_true: then_block,
            if_false: else_block,
        };
        lemma_emit(s4, env, branch);
        let frame = ControlBlock {
            block_type: ControlBlockType::If,
            end_block: merge_block,
            continue_block: Some(else_block),
        };
        lemma_push_frame(s4.emit(branch), env, frame);
        lemma_position_at(s4.emit(branch).push_frame(frame), env, then_block);
    }
}

proof fn lemma_else_end(s: LoweringState, env: LoweringEnv)
    requires
        s.well_formed(env),
    ensures
        s.else_().state.code.len() <= usize::MAX ==> s.else_().state.well_formed(env),
        s.end(env).state.code.len() <= usize::MAX ==> s.end(env).state.well_formed(env),
{
    if s.frames.len() > 0 && s.code.len() < usize::MAX {
        let frame = s.frames.last();
        assert(frame_ok(s.blocks.len() as int, frame));
        let jump = Instr::Jump { target: frame.end_block };
        lemma_emit(s, env, jump);
        if frame.continue_block is Some {
            lemma_position_at(s.emit(jump), env, frame.continue_block->0);
        }
        lemma_pop_frame(s, env);
        lemma_emit(s.pop_frame(), env, jump);
        lemma_position_at(s.pop_frame().emit(jump), env, frame.end_block);
    } else {
        lemma_return(s, env, Flow::Continue);
    }
}

/// A branch target is a block that exists.
proof fn lemma_branch_target_exists(s: LoweringState, env: LoweringEnv, depth: u32)
    requires
        s.well_formed(env),
    ensures
        branch_target_at(s.frames, depth) matches Some(target) ==> target < s.blocks.len(),
{
    if depth < s.frames.len() {
        assert(frame_ok(s.blocks.len() as int, s.frames[s.frames.len() - 1 - depth]));
    }
}

proof fn lemma_branches(s: LoweringState, env: LoweringEnv, depth: u32)
    requires
        s.well_formed(env),
    ensures
        s.br(depth).state.code.len() <= usize::MAX && s.br(depth).state.blocks.len()
            <= usize::MAX ==> s.br(depth).state.well_formed(env),
        s.br_if(depth).state.code.len() <= usize::MAX && s.br_if(depth).state.blocks.len()
            <= usize::MAX ==> s.br_if(depth).state.well_formed(env),
        s.unreachable().state.code.len() <= usize::MAX && s.unreachable().state.blocks.len()
            <= usize::MAX ==> s.unreachable().state.well_formed(env),
{
    lemma_branch_target_exists(s, env, depth);
    if s.code.len() < usize::MAX && s.blocks.len() < usize::MAX {
        lemma_emit(s, env, Instr::Unreachable);
        lemma_append_block(s.emit(Instr::Unreachable), env, BlockKind::AfterUnreachable);
        lemma_position_at(
            s.emit(Instr::Unreachable).append_block(BlockKind::AfterUnreachable),
            env,
            s.next_block(),
        );
        if branch_target_at(s.frames, depth) is Some {
            let target = branch_target_at(s.frames, depth)->0;
            lemma_emit(s, env, Instr::Jump { target });
            lemma_append_block(s.emit(Instr::Jump { target }), env, BlockKind::AfterBranch);
            lemma_position_at(
                s.emit(Instr::Jump { target }).append_block(BlockKind::AfterBranch),
                env,
                s.next_block(),
            );
            if s.stack.len() >= 1 && s.code.len() + 2 <= usize::MAX {
                lemma_pop(s, env);
                let s1 = s.pop().append_block(BlockKind::BranchContinue);
                lemma_append_block(s.pop(), env, BlockKind::BranchContinue);
                let s2 = s1.emit(LoweringState::is_nonzero(s.top(0)));
                lemma_emit(s1, env, LoweringState::is_nonzero(s.top(0)));
                let branch = Instr::Branch {
                    cond: Operand::Value { id: s.next_id() },
                    if_true: target,
                    if_false: s.next_block(),
                };
                lemma_emit(s2, env, branch);
                lemma_position_at(s2.emit(branch), env, s.next_block());
            }
        }
    }
}

proof fn lemma_call_with(
    s: LoweringState,
    env: LoweringEnv,
    callee: Callee,
    argc: usize,
    has_result: bool,
)
    requires
        s.well_formed(env),
        s.call_with(callee, argc, has_result).state.code.len() <= usize::MAX,
        match callee {
            Callee::Putchar => env.putchar,
            Callee::Function { index } => index < env.functions.len(),
        },
    ensures
        s.call_with(callee, argc, has_result).state.well_formed(env),
{
    if s.stack.len() >= argc {
        let kept = s.stack.len() - argc;
        let args = s.stack.skip(kept);
        let popped = LoweringState { stack: s.stack.take(kept), ..s };
        let staged = popped.emit_args(args);
        assert(staged.well_formed(env)) by {
            assert forall|i: int| 0 <= i < staged.code.len() implies (#[trigger] staged.code[i]).block
                < staged.blocks.len() && instr_ok(
                env,
                staged.blocks.len() as int,
                i,
                staged.code[i].instr,
            ) by {
                if i < s.code.len() {
                    assert(staged.code[i] == s.code[i]);
                } else {
                    let k = i - s.code.len();
                    assert(staged.code[i].instr == Instr::CallArg { value: args[k] });
                    assert(args[k] == s.stack[kept + k]);
                    assert(operand_ok(env, s.code.len() as int, s.stack[kept + k]));
                }
            }
            assert forall|k: int| 0 <= k < staged.stack.len() implies operand_ok(
                env,
                staged.code.len() as int,
                #[trigger] staged.stack[k],
            ) by {
                assert(staged.stack[k] == s.stack[k]);
                assert(operand_ok(env, s.code.len() as int, s.stack[k]));
            }
        }
        let call = Instr::Call { callee, argc, has_result };
        lemma_emit(staged, env, call);
        if has_result {
            lemma_push(staged.emit(call), env, Operand::Value { id: staged.next_id() });
        }
    }
}

#[verifier::rlimit(80)]
proof fn lemma_grows_simple(s: LoweringState, env: LoweringEnv, shape: Shape)
    requires
        !(shape is Load || shape is LoadExtend || shape is Store || shape is StoreTruncate
            || shape is MemoryCopy || shape is MemoryFill || shape is Call),
    ensures
        s.code.len() <= s.apply(env, shape).state.code.len(),
        s.blocks.len() <= s.apply(env, shape).state.blocks.len(),
{
}

proof fn lemma_grows_load(s: LoweringState, env: LoweringEnv, ty: IrType, offset: u64)
    ensures
        s.code.len() <= s.load(env, ty, offset).state.code.len(),
        s.blocks.len() <= s.load(env, ty, offset).state.blocks.len(),
{
    lemma_address_size(s.pop(), env.memory->0, s.top(0), offset, ty.byte_size() as u64);
}

proof fn lemma_grows_load_extend(
    s: LoweringState,
    env: LoweringEnv,
    from: IrType,
    to: IrType,
    signed: bool,
    offset: u64,
)
    ensures
        s.code.len() <= s.load_extend(env, from, to, signed, offset).state.code.len(),
        s.blocks.len() <= s.load_extend(env, from, to, signed, offset).state.blocks.len(),
{
    lemma_address_size(s.pop(), env.memory->0, s.top(0), offset, from.byte_size() as u64);
}

proof fn lemma_grows_store(s: LoweringState, env: LoweringEnv, ty: IrType, offset: u64)
    ensures
        s.code.len() <= s.store(env, ty, offset).state.code.len(),
        s.blocks.len() <= s.store(env, ty, offset).state.blocks.len(),
{
    lemma_address_size(s.pop().pop(), env.memory->0, s.top(1), offset, ty.byte_size() as u64);
}

proof fn lemma_grows_store_truncate(
    s: LoweringState,
    env: LoweringEnv,
    from: IrType,
    to: IrType,
    offset: u64,
)
    ensures
        s.code.len() <= s.store_truncate(env, from, to, offset).state.code.len(),
        s.blocks.len() <= s.store_truncate(env, from, to, offset).state.blocks.len(),
{
    lemma_address_size(s.pop().pop(), env.memory->0, s.top(1), offset, to.byte_size() as u64);
}

proof fn lemma_grows_bulk(s: LoweringState, env: LoweringEnv)
    ensures
        s.code.len() <= s.memory_copy(env).state.code.len(),
        s.blocks.len() <= s.memory_copy(env).state.blocks.len(),
        s.code.len() <= s.memory_fill(env).state.code.len(),
        s.blocks.len() <= s.memory_fill(env).state.blocks.len(),
{
}

proof fn lemma_grows_memory(s: LoweringState, env: LoweringEnv, shape: Shape)
    requires
        shape is Load || shape is LoadExtend || shape is Store || shape is StoreTruncate
            || shape is MemoryCopy || shape is MemoryFill,
    ensures
        s.code.len() <= s.apply(env, shape).state.code.len(),
        s.blocks.len() <= s.apply(env, shape).state.blocks.len(),
{
    match shape {
        Shape::Load { ty, offset } => {
            lemma_grows_load(s, env, ty, offset);
        },
        Shape::LoadExtend { from, to, signed, offset } => {
            lemma_grows_load_extend(s, env, from, to, signed, offset);
        },
        Shape::Store { ty, offset } => {
            lemma_grows_store(s, env, ty, offset);
        },
        Shape::StoreTruncate { from, to, offset } => {
            lemma_grows_store_truncate(s, env, from, to, offset);
        },
        _ => {
            lemma_grows_bulk(s, env);
        },
    }
}

proof fn lemma_grows_call(s: LoweringState, env: LoweringEnv, function_index: u32)
    ensures
        s.code.len() <= s.call(env, function_index).state.code.len(),
        s.blocks.len() <= s.call(env, function_index).state.blocks.len(),
{
}

/// The lowering of an operator grows the code and the blocks, if it changes
/// them at all.
pub proof fn lemma_step_grows(s: LoweringState, env: LoweringEnv, operator: Operator)
    ensures
        s.code.len() <= s.step(env, operator).state.code.len(),
        s.blocks.len() <= s.step(env, operator).state.blocks.len(),
{
    reveal(LoweringState::step);
    let shape = shape_of(operator);
    if shape is Load || shape is LoadExtend || shape is Store || shape is StoreTruncate
        || shape is MemoryCopy || shape is MemoryFill {
        lemma_grows_memory(s, env, shape);
    } else if shape is Call {
        lemma_grows_call(s, env, shape->function_index);
    } else {
        lemma_grows_simple(s, env, shape);
    }
}

/// The address computation emits between four and six instructions and
/// appends two blocks.
proof fn lemma_address_size(s: LoweringState, memory: u32, base: Operand, offset: u64, size: u64)
    ensures
        s.code.len() + 4 <= s.checked_address(memory, base, offset, size).0.code.len(),
        s.checked_address(memory, base, offset, size).0.code.len() <= s.code.len() + 6,
        s.checked_address(memory, base, offset, size).0.blocks.len() == s.blocks.len() + 2,
{
}

proof fn lemma_call(s: LoweringState, env: LoweringEnv, function_index: u32)
    requires
        s.well_formed(env),
        s.call(env, function_index).state.code.len() <= usize::MAX,
    ensures
        s.call(env, function_index).state.well_formed(env),
{
    if env.putchar && function_index == 0 {
        lemma_call_with(s, env, Callee::Putchar, 1, true);
    } else {
        let index = env.local_index(function_index);
        if index < env.functions.len() {
            lemma_call_with(
                s,
                env,
                Callee::Function { index: index as usize },
                env.functions[index as int].params.len() as usize,
                env.functions[index as int].result is Some,
            );
        }
    }
}

/// The operands that the table of the operators holds can be read anywhere.
proof fn lemma_constants_ok(env: LoweringEnv, operator: Operator, at: int)
    ensures
        shape_of(operator) matches Shape::Const { value } ==> operand_ok(
            env,
            at,
            value,
        ),
{
}

/// The lowering of an operator keeps the state well formed, as long as the
/// code and the blocks can be counted.
pub proof fn lemma_step_well_formed(s: LoweringState, env: LoweringEnv, operator: Operator)
    requires
        s.well_formed(env),
        env.functions.len() <= usize::MAX,
        s.step(env, operator).state.code.len() <= usize::MAX,
        s.step(env, operator).state.blocks.len() <= usize::MAX,
    ensures
        s.step(env, operator).state.well_formed(env),
{
    reveal(LoweringState::step);
    let shape = shape_of(operator);
    lemma_constants_ok(env, operator, s.code.len() as int);
    match shape {
        Shape::Load { ty, offset } => {
            lemma_load(s, env, ty, offset);
        },
        Shape::LoadExtend { from, to, signed, offset } => {
            lemma_load_extend(s, env, from, to, signed, offset);
        },
        Shape::Store { ty, offset } => {
            lemma_store(s, env, ty, offset);
        },
        Shape::StoreTruncate { from, to, offset } => {
            lemma_store_truncate(s, env, from, to, offset);
        },
        Shape::MemorySize => {
            lemma_memory_size_grow(s, env);
        },
        Shape::MemoryGrow => {
            lemma_memory_size_grow(s, env);
        },
        Shape::MemoryCopy => {
            lemma_memory_copy(s, env);
        },
        Shape::MemoryFill => {
            lemma_memory_fill(s, env);
        },
        Shape::LocalGet { index } => {
            lemma_locals(s, env, index);
        },
        Shape::LocalSet { index } => {
            lemma_locals(s, env, index);
        },
        Shape::LocalTee { index } => {
            lemma_locals(s, env, index);
        },
        Shape::GlobalGet { index } => {
            lemma_globals(s, env, index);
        },
        Shape::GlobalSet { index } => {
            lemma_globals(s, env, index);
        },
        Shape::Call { function_index } => {
            lemma_call(s, env, function_index);
        },
        Shape::Return => {
            lemma_return(s, env, Flow::Stop);
        },
        Shape::Block => {
            lemma_block_and_loop(s, env);
        },
        Shape::Loop => {
            lemma_block_and_loop(s, env);
        },
        Shape::If => {
            lemma_if(s, env);
        },
        Shape::Else => {
            lemma_else_end(s, env);
        },
        Shape::End => {
            lemma_else_end(s, env);
        },
        Shape::Br { depth } => {
            lemma_branches(s, env, depth);
        },
        Shape::BrIf { depth } => {
            lemma_branches(s, env, depth);
        },
        Shape::Unreachable => {
            lemma_branches(s, env, 0);
        },
        Shape::Unsupported { .. } => {},
        _ => {
            lemma_numeric(s, env, shape);
        },
    }
}

/// The lowering of operators grows the code and the blocks, if it changes
/// them at all.
pub proof fn lemma_run_grows(s: LoweringState, env: LoweringEnv, ops: Seq<Operator>)
    ensures
        s.code.len() <= s.run(env, ops).state.code.len(),
        s.blocks.len() <= s.run(env, ops).state.blocks.len(),
    decreases ops.len(),
{
    if ops.len() > 0 {
        let first = s.step(env, ops[0]);
        lemma_step_grows(s, env, ops[0]);
        if first.result == Ok::<Flow, CompileError>(Flow::Continue) {
            lemma_run_grows(first.state, env, ops.drop_first());
        }
    }
}

/// The lowering of operators keeps the state well formed, as long as the
/// code and the blocks can be counted.
pub proof fn lemma_run_well_formed(s: LoweringState, env: LoweringEnv, ops: Seq<Operator>)
    requires
        s.well_formed(env),
        env.functions.len() <= usize::MAX,
        s.run(env, ops).state.code.len() <= usize::MAX,
        s.run(env, ops).state.blocks.len() <= usize::MAX,
    ensures
        s.run(env, ops).state.well_formed(env),
    decreases ops.len(),
{
    if ops.len() > 0 {
        let first = s.step(env, ops[0]);
        if first.result == Ok::<Flow, CompileError>(Flow::Continue) {
            lemma_run_grows(first.state, env, ops.drop_first());
            lemma_step_well_formed(s, env, ops[0]);
            lemma_run_well_formed(first.state, env, ops.drop_first());
        } else {
            lemma_step_well_formed(s, env, ops[0]);
        }
    }
}

/// The code that the lowering of a function emits is well formed, whether
/// the lowering ends in success or in a failure: every instruction stands
/// in a block that exists, reads only results of instructions emitted before
/// it, parameters and globals that exist, and leads only to blocks that
/// exist; a call names a function that is declared.
pub proof fn law_lowered_code_is_well_formed(env: LoweringEnv, ops: Seq<Operator>)
    requires
        env.functions.len() <= usize::MAX,
        LoweringState::start(env).run(env, ops).state.code.len() <= usize::MAX,
        LoweringState::start(env).run(env, ops).state.blocks.len() <= usize::MAX,
    ensures
        ({
            let end = LoweringState::start(env).run(env, ops).state;
            code_ok(env, end.blocks.len() as int, end.code)
        }),
{
    lemma_run_grows(LoweringState::start(env), env, ops);
    lemma_start_well_formed(env);
    lemma_run_well_formed(LoweringState::start(env), env, ops);
}

/// The state in which the branch of the bounds check of an access is
/// emitted is well formed.
pub proof fn lemma_address_prefix_well_formed(
    s: LoweringState,
    env: LoweringEnv,
    memory: u32,
    base: Operand,
    offset: u64,
    size: u64,
)
    requires
        s.well_formed(env),
        s.code.len() + 6 <= usize::MAX,
        operand_ok(env, s.code.len() as int, base),
    ensures
        ({
            let wide = Operand::Value { id: s.next_id() };
            let s1 = s.emit(
                Instr::Cast {
                    op: CastOp::ZeroExtend,
                    from: IrType::I32,
                    to: IrType::I64,
                    value: base,
                },
            );
            let sum = Instr::IntBinary {
                op: IntBinOp::Add,
                ty: IrType::I64,
                lhs: wide,
                rhs: Operand::ConstInt { ty: IrType::I64, bits: offset },
            };
            let (s2, address) = if offset > 0 {
                (s1.emit(sum), Operand::Value { id: s1.next_id() })
            } else {
                (s1, wide)
            };
            let compare = Instr::IntCompare {
                pred: IntPredicate::UGT,
                ty: IrType::I64,
                lhs: address,
                rhs: Operand::ConstInt { ty: IrType::I64, bits: (memory - size) as u64 },
            };
            let s3 = if size <= memory && offset <= memory - size {
                s2.emit(compare)
            } else {
                s2
            };
            s3.well_formed(env) && s3.cursor == s.cursor && s3.blocks == s.blocks
        }),
{
    let wide = Operand::Value { id: s.next_id() };
    let widen = Instr::Cast {
        op: CastOp::ZeroExtend,
        from: IrType::I32,
        to: IrType::I64,
        value: base,
    };
    let s1 = s.emit(widen);
    lemma_emit(s, env, widen);
    let sum = Instr::IntBinary {
        op: IntBinOp::Add,
        ty: IrType::I64,
        lhs: wide,
        rhs: Operand::ConstInt { ty: IrType::I64, bits: offset },
    };
    let (s2, address) = if offset > 0 {
        (s1.emit(sum), Operand::Value { id: s1.next_id() })
    } else {
        (s1, wide)
    };
    if offset > 0 {
        lemma_emit(s1, env, sum);
    }
    let compare = Instr::IntCompare {
        pred: IntPredicate::UGT,
        ty: IrType::I64,
        lhs: address,
        rhs: Operand::ConstInt { ty: IrType::I64, bits: (memory - size) as u64 },
    };
    if size <= memory && offset <= memory - size {
        lemma_emit(s2, env, compare);
    }
}

/// Popping an operand keeps the state well formed.
pub proof fn lemma_pop_well_formed(s: LoweringState, env: LoweringEnv)
    requires
        s.well_formed(env),
        s.stack.len() > 0,
    ensures
        s.pop().well_formed(env),
{
    lemma_pop(s, env);
}

/// Popping three operands keeps the state well formed, and the operands
/// can be read at the insertion point.
pub proof fn lemma_pop3_well_formed(s: LoweringState, env: LoweringEnv)
    requires
        s.well_formed(env),
        s.stack.len() >= 3,
    ensures
        s.pop().pop().pop().well_formed(env),
        operand_ok(env, s.code.len() as int, s.top(0)),
        operand_ok(env, s.code.len() as int, s.top(1)),
        operand_ok(env, s.code.len() as int, s.top(2)),
{
    lemma_pop3(s, env);
}

/// The check of a region keeps the state well formed.
pub proof fn lemma_range_well_formed(
    s: LoweringState,
    env: LoweringEnv,
    memory: u32,
    start: Operand,
    len: Operand,
)
    requires
        s.well_formed(env),
        s.code.len() + 6 <= usize::MAX,
        s.blocks.len() + 2 <= usize::MAX,
        operand_ok(env, s.code.len() as int, start),
        operand_ok(env, s.code.len() as int, len),
    ensures
        s.checked_range(memory, start, len).well_formed(env),
        s.checked_range(memory, start, len).code.len() == s.code.len() + 6,
        s.checked_range(memory, start, len).blocks.len() == s.blocks.len() + 2,
{
    lemma_checked_range(s, env, memory, start, len);
}

/// The state in which the branch of the check of a region is emitted is
/// well formed.
pub proof fn lemma_range_prefix_well_formed(
    s: LoweringState,
    env: LoweringEnv,
    memory: u32,
    start: Operand,
    len: Operand,
)
    requires
        s.well_formed(env),
        s.code.len() + 6 <= usize::MAX,
        operand_ok(env, s.code.len() as int, start),
        operand_ok(env, s.code.len() as int, len),
    ensures
        ({
            let first = s.next_id();
            s.emit(
                Instr::Cast {
                    op: CastOp::ZeroExtend,
                    from: IrType::I32,
                    to: IrType::I64,
                    value: start,
                },
            ).emit(
                Instr::Cast {
                    op: CastOp::ZeroExtend,
                    from: IrType::I32,
                    to: IrType::I64,
                    value: len,
                },
            ).emit(
                Instr::IntBinary {
                    op: IntBinOp::Add,
                    ty: IrType::I64,
                    lhs: Operand::Value { id: first },
                    rhs: Operand::Value { id: (first + 1) as usize },
                },
            ).emit(
                Instr::IntCompare {
                    pred: IntPredicate::UGT,
                    ty: IrType::I64,
                    lhs: Operand::Value { id: (first + 2) as usize },
                    rhs: Operand::ConstInt { ty: IrType::I64, bits: memory as u64 },
                },
            ).well_formed(env)
        }),
{
    let first = s.next_id();
    let i0 = Instr::Cast { op: CastOp::ZeroExtend, from: IrType::I32, to: IrType::I64, value: start };
    let i1 = Instr::Cast { op: CastOp::ZeroExtend, from: IrType::I32, to: IrType::I64, value: len };
    let i2 = Instr::IntBinary {
        op: IntBinOp::Add,
        ty: IrType::I64,
        lhs: Operand::Value { id: first },
        rhs: Operand::Value { id: (first + 1) as usize },
    };
    let i3 = Instr::IntCompare {
        pred: IntPredicate::UGT,
        ty: IrType::I64,
        lhs: Operand::Value { id: (first + 2) as usize },
        rhs: Operand::ConstInt { ty: IrType::I64, bits: memory as u64 },
    };
    lemma_emit(s, env, i0);
    lemma_emit(s.emit(i0), env, i1);
    lemma_emit(s.emit(i0).emit(i1), env, i2);
    lemma_emit(s.emit(i0).emit(i1).emit(i2), env, i3);
}

} // verus!
