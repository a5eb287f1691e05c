use crate::control::{branch_target_at, ControlBlockType};
use crate::error::CompileError;
use crate::ir::{Callee, CastOp, Instr, IntBinOp, IrType, Operand, Placed};
use crate::lowering::{Flow, LoweringEnv, LoweringState, Step};
use crate::machine::{next_in_block, Machine};
use crate::numeric::{
    fits, int_binary, int_cast, int_compare, is_operand_type, modulus, signed_value, wrap,
};
use crate::shape::{shape_of, Shape};
use crate::wasm_parser::{all_numeric, Operator};
use vstd::prelude::*;

verus! {

/// The value on top of the operand stack after the operator of the shape
/// `shape` has been lowered in the state `s` and the instructions emitted
/// for it have run on the machine `m`.
pub open spec fn value_after(s: LoweringState, env: LoweringEnv, shape: Shape, m: Machine) -> Option<
    u64,
> {
    let t = s.apply(env, shape).state;
    match m.run(t.code, s.code.len() as int, t.code.len() as int) {
        Some(after) => after.operand_value(t.top(0)),
        None => None,
    }
}

proof fn lemma_results_fit(op: IntBinOp, ty: IrType, a: u64, b: u64)
    requires
        int_binary(op, ty, a, b) is Some,
    ensures
        fits(ty, int_binary(op, ty, a, b)->0),
{
    if ty == IrType::I32 {
        assert(a < 0x1_0000_0000 && b < 0x1_0000_0000 ==> (a & b) < 0x1_0000_0000) by (bit_vector);
        assert(a < 0x1_0000_0000 && b < 0x1_0000_0000 ==> (a | b) < 0x1_0000_0000) by (bit_vector);
        assert(a < 0x1_0000_0000 && b < 0x1_0000_0000 ==> (a ^ b) < 0x1_0000_0000) by (bit_vector);
        assert(((a << b) & 0xFFFF_FFFFu64) < 0x1_0000_0000) by (bit_vector);
        assert(a < 0x1_0000_0000 ==> (a >> b) < 0x1_0000_0000) by (bit_vector);
        assert(a < 0x1_0000_0000 ==> ((a >> b) | (0xFFFF_FFFFu64 ^ (0xFFFF_FFFFu64 >> b)))
            < 0x1_0000_0000) by (bit_vector);
    }
    if b != 0 {
        assert(a / b <= a) by (nonlinear_arith)
            requires
                b > 0,
        ;
    }
}

/// Every binary integer operator yields a value of its declared width, and
/// addition, subtraction and multiplication yield the exact result modulo 2
/// to the power of that width.  `a` and `b` are the values of the two
/// topmost operands, `b` that of the top.  Where the operation is left to
/// the backend, the machine does not go on.
pub proof fn law_binary_operator_wraps(
    s: LoweringState,
    env: LoweringEnv,
    operator: Operator,
    m: Machine,
    a: u64,
    b: u64,
)
    requires
        shape_of(operator) is IntBinary,
        s.stack.len() >= 2,
        s.code.len() < usize::MAX,
        m.operand_value(s.top(1)) == Some(a),
        m.operand_value(s.top(0)) == Some(b),
    ensures
        ({
            let op = shape_of(operator)->IntBinary_op;
            let ty = shape_of(operator)->IntBinary_ty;
            let result = value_after(s, env, shape_of(operator), m);
            &&& is_operand_type(ty)
            &&& s.step(env, operator).result == Ok::<Flow, CompileError>(Flow::Continue)
            &&& s.step(env, operator).state.stack.len() == s.stack.len() - 1
            &&& result == int_binary(op, ty, a, b)
            &&& result is Some ==> result->0 < modulus(ty)
            &&& result is Some && op == IntBinOp::Add ==> result->0 == (a + b) % modulus(ty)
            &&& result is Some && op == IntBinOp::Sub ==> result->0 == (a - b) % modulus(ty)
            &&& result is Some && op == IntBinOp::Mul ==> result->0 == (a * b) % modulus(ty)
        }),
{
    reveal(LoweringState::step);
    let op = shape_of(operator)->IntBinary_op;
    let ty = shape_of(operator)->IntBinary_ty;
    reveal_with_fuel(Machine::run, 2);
    if int_binary(op, ty, a, b) is Some {
        lemma_results_fit(op, ty, a, b);
    }
}

/// Masking with the width less one reduces an amount modulo the width.
proof fn lemma_amount_mask(ty: IrType, amount: u64)
    requires
        is_operand_type(ty),
    ensures
        amount & ((ty.int_bits() - 1) as u64) == amount % (ty.int_bits() as u64),
        fits(ty, (amount % (ty.int_bits() as u64)) as u64),
        fits(ty, (ty.int_bits() - 1) as u64),
{
    if ty == IrType::I32 {
        assert(amount & 31 == amount % 32) by (bit_vector);
    } else {
        assert(amount & 63 == amount % 64) by (bit_vector);
    }
}

/// A shift takes its amount modulo the width of its operands: the value
/// pushed is that of the shift of `a` by `b` modulo the width.  `a` is the
/// value of the operand below the top and `b` that of the top.
pub proof fn law_shift_takes_amount_modulo_width(
    s: LoweringState,
    env: LoweringEnv,
    operator: Operator,
    m: Machine,
    a: u64,
    b: u64,
)
    requires
        shape_of(operator) is Shift,
        s.stack.len() >= 2,
        s.code.len() + 2 <= usize::MAX,
        s.defines(s.top(1)),
        s.defines(s.top(0)),
        m.operand_value(s.top(1)) == Some(a),
        m.operand_value(s.top(0)) == Some(b),
        fits(shape_of(operator)->Shift_ty, a),
        fits(shape_of(operator)->Shift_ty, b),
    ensures
        ({
            let op = shape_of(operator)->Shift_op;
            let ty = shape_of(operator)->Shift_ty;
            let amount = (b % (ty.int_bits() as u64)) as u64;
            let result = value_after(s, env, shape_of(operator), m);
            &&& is_operand_type(ty)
            &&& op == IntBinOp::Shl || op == IntBinOp::LShr || op == IntBinOp::AShr
            &&& result is Some
            &&& result == int_binary(op, ty, a, amount)
            &&& result->0 < modulus(ty)
        }),
{
    let op = shape_of(operator)->Shift_op;
    let ty = shape_of(operator)->Shift_ty;
    let bits = ty.int_bits() as u64;
    let amount = (b % bits) as u64;
    let first = s.code.len() as int;
    let t = s.shift(op, ty).state;
    lemma_amount_mask(ty, b);
    assert(int_binary(IntBinOp::And, ty, b, (bits - 1) as u64) == Some(amount));
    lemma_results_fit(op, ty, a, amount);
    let m1 = m.define(first, amount);
    let m2 = m1.define(first + 1, int_binary(op, ty, a, amount)->0);
    assert(m.execute(first, t.code[first].instr) == Some(m1));
    assert(m1.execute(first + 1, t.code[first + 1].instr) == Some(m2));
    reveal_with_fuel(Machine::run, 2);
    assert(m1.run(t.code, first + 1, first + 2) == Some(m2));
    assert(m.run(t.code, first, first + 2) == Some(m2));
}

/// The pattern `x` rotated by `n` places at the type `ty`: to the left
/// where `left` holds, else to the right.
pub open spec fn rotated(left: bool, ty: IrType, x: u64, n: u64) -> u64 {
    let bits = ty.int_bits() as u64;
    let mask = (modulus(ty) - 1) as u64;
    let near = n % bits;
    let far = ((bits - near) as u64) % bits;
    if left {
        ((x << near) & mask) | (x >> far)
    } else {
        (x >> near) | ((x << far) & mask)
    }
}

/// The instructions that a rotation is lowered to compute `rotated`.
#[verifier::rlimit(50)]
pub proof fn lemma_rotation_value(
    s: LoweringState,
    env: LoweringEnv,
    left: bool,
    ty: IrType,
    m: Machine,
    x: u64,
    n: u64,
)
    requires
        is_operand_type(ty),
        fits(ty, x),
        fits(ty, n),
        s.stack.len() >= 2,
        s.code.len() + 6 <= usize::MAX,
        s.defines(s.top(1)),
        s.defines(s.top(0)),
        m.operand_value(s.top(1)) == Some(x),
        m.operand_value(s.top(0)) == Some(n),
    ensures
        value_after(s, env, Shape::Rotate { left, ty }, m) == Some(rotated(left, ty, x, n)),
        fits(ty, rotated(left, ty, x, n)),
{
    let bits = ty.int_bits() as u64;
    let mask = (modulus(ty) - 1) as u64;
    let near = n % bits;
    let rest = (bits - near) as u64;
    let far = rest % bits;
    let t = s.rotate(left, ty).state;
    let first = s.code.len() as int;
    let (toward, back) = if left {
        (IntBinOp::Shl, IntBinOp::LShr)
    } else {
        (IntBinOp::LShr, IntBinOp::Shl)
    };
    assert(bits == 32 || bits == 64);
    assert(int_binary(IntBinOp::URem, ty, n, bits) == Some(near));
    assert(int_binary(IntBinOp::Sub, ty, bits, near) == Some(rest));
    lemma_amount_mask(ty, rest);
    assert(int_binary(IntBinOp::And, ty, rest, (bits - 1) as u64) == Some(far));
    let shifted_near = int_binary(toward, ty, x, near)->0;
    let shifted_far = int_binary(back, ty, x, far)->0;
    lemma_results_fit(toward, ty, x, near);
    lemma_results_fit(back, ty, x, far);
    lemma_results_fit(IntBinOp::Or, ty, shifted_near, shifted_far);
    let m1 = m.define(first, near);
    let m2 = m1.define(first + 1, shifted_near);
    let m3 = m2.define(first + 2, rest);
    let m4 = m3.define(first + 3, far);
    let m5 = m4.define(first + 4, shifted_far);
    let m6 = m5.define(first + 5, shifted_near | shifted_far);
    assert(m.execute(first, t.code[first].instr) == Some(m1));
    assert(m1.execute(first + 1, t.code[first + 1].instr) == Some(m2));
    assert(m2.execute(first + 2, t.code[first + 2].instr) == Some(m3));
    assert(m3.execute(first + 3, t.code[first + 3].instr) == Some(m4));
    assert(m4.execute(first + 4, t.code[first + 4].instr) == Some(m5));
    assert(m5.execute(first + 5, t.code[first + 5].instr) == Some(m6));
    reveal_with_fuel(Machine::run, 2);
    assert(m5.run(t.code, first + 5, first + 6) == Some(m6));
    assert(m4.run(t.code, first + 4, first + 6) == Some(m6));
    assert(m3.run(t.code, first + 3, first + 6) == Some(m6));
    assert(m2.run(t.code, first + 2, first + 6) == Some(m6));
    assert(m1.run(t.code, first + 1, first + 6) == Some(m6));
    assert(m.run(t.code, first, first + 6) == Some(m6));
}

/// A rotation one way and then the other way by the same amount gives the
/// pattern back.
pub proof fn lemma_rotations_cancel(left: bool, ty: IrType, x: u64, n: u64)
    requires
        is_operand_type(ty),
        fits(ty, x),
    ensures
        rotated(!left, ty, rotated(left, ty, x, n), n) == x,
{
    if ty == IrType::I32 {
        let near = n % 32;
        let far = ((32 - near) as u64) % 32;
        assert(near < 32 && far == (32 - near) % 32 && x < 0x1_0000_0000 ==> ({
            let there = ((x << near) & 0xFFFF_FFFFu64) | (x >> far);
            ((there >> near) | ((there << far) & 0xFFFF_FFFFu64)) == x
        })) by (bit_vector);
        assert(near < 32 && far == (32 - near) % 32 && x < 0x1_0000_0000 ==> ({
            let there = (x >> near) | ((x << far) & 0xFFFF_FFFFu64);
            (((there << near) & 0xFFFF_FFFFu64) | (there >> far)) == x
        })) by (bit_vector);
    } else {
        let near = n % 64;
        let far = ((64 - near) as u64) % 64;
        assert(near < 64 && far == (64 - near) % 64 ==> ({
            let there = ((x << near) & 0xFFFF_FFFF_FFFF_FFFFu64) | (x >> far);
            ((there >> near) | ((there << far) & 0xFFFF_FFFF_FFFF_FFFFu64)) == x
        })) by (bit_vector);
        assert(near < 64 && far == (64 - near) % 64 ==> ({
            let there = (x >> near) | ((x << far) & 0xFFFF_FFFF_FFFF_FFFFu64);
            (((there << near) & 0xFFFF_FFFF_FFFF_FFFFu64) | (there >> far)) == x
        })) by (bit_vector);
    }
}

/// A rotation followed by the opposite rotation by the same amount gives
/// the value back, whatever the amount.  The first operator is lowered in
/// the state `s1` and runs on `m1`, with `x` below the amount `n` on the
/// stack; the second is lowered in `s2` and runs on `m2`, with the result of
/// the first below the same amount.
pub proof fn law_rotate_round_trip(
    env: LoweringEnv,
    first: Operator,
    second: Operator,
    s1: LoweringState,
    m1: Machine,
    s2: LoweringState,
    m2: Machine,
    x: u64,
    n: u64,
)
    requires
        shape_of(first) is Rotate,
        shape_of(second) is Rotate,
        shape_of(first)->Rotate_ty == shape_of(second)->Rotate_ty,
        shape_of(first)->left != shape_of(second)->left,
        fits(shape_of(first)->Rotate_ty, x),
        fits(shape_of(first)->Rotate_ty, n),
        s1.stack.len() >= 2,
        s1.code.len() + 6 <= usize::MAX,
        s1.defines(s1.top(1)),
        s1.defines(s1.top(0)),
        m1.operand_value(s1.top(1)) == Some(x),
        m1.operand_value(s1.top(0)) == Some(n),
        s2.stack.len() >= 2,
        s2.code.len() + 6 <= usize::MAX,
        s2.defines(s2.top(1)),
        s2.defines(s2.top(0)),
        m2.operand_value(s2.top(1)) == value_after(s1, env, shape_of(first), m1),
        m2.operand_value(s2.top(0)) == Some(n),
    ensures
        value_after(s1, env, shape_of(first), m1) is Some,
        value_after(s2, env, shape_of(second), m2) == Some(x),
{
    let ty = shape_of(first)->Rotate_ty;
    let left = shape_of(first)->left;
    lemma_rotation_value(s1, env, left, ty, m1, x, n);
    lemma_rotation_value(s2, env, !left, ty, m2, rotated(left, ty, x, n), n);
    lemma_rotations_cancel(left, ty, x, n);
}

/// An integer comparison yields exactly 1 where its predicate holds of the
/// two topmost operands and exactly 0 where it does not.
pub proof fn law_comparison_is_zero_or_one(
    s: LoweringState,
    env: LoweringEnv,
    operator: Operator,
    m: Machine,
    a: u64,
    b: u64,
)
    requires
        shape_of(operator) is IntCompare,
        s.stack.len() >= 2,
        s.code.len() + 2 <= usize::MAX,
        m.operand_value(s.top(1)) == Some(a),
        m.operand_value(s.top(0)) == Some(b),
    ensures
        ({
            let pred = shape_of(operator)->IntCompare_pred;
            let ty = shape_of(operator)->IntCompare_ty;
            let result = value_after(s, env, shape_of(operator), m);
            &&& result == match int_compare(pred, ty, a, b) {
                Some(holds) => Some(
                    if holds {
                        1u64
                    } else {
                        0u64
                    },
                ),
                None => None,
            }
            &&& result is Some ==> result->0 == 0 || result->0 == 1
        }),
{
    reveal_with_fuel(Machine::run, 3);
}

/// The test for zero yields exactly 1 where the topmost operand is zero and
/// exactly 0 where it is not.
pub proof fn law_eqz_is_zero_or_one(
    s: LoweringState,
    env: LoweringEnv,
    operator: Operator,
    m: Machine,
    a: u64,
)
    requires
        shape_of(operator) is IntEqz,
        s.stack.len() >= 1,
        s.code.len() + 2 <= usize::MAX,
        m.operand_value(s.top(0)) == Some(a),
        fits(shape_of(operator)->IntEqz_ty, a),
    ensures
        value_after(s, env, shape_of(operator), m) == Some(
            if a == 0 {
                1u64
            } else {
                0u64
            },
        ),
{
    reveal_with_fuel(Machine::run, 3);
}

/// What a floating-point comparison pushes is the zero-extension to 32 bits
/// of the one-bit result of the comparison, so it is 0 or 1 whatever the
/// backend's comparison yields.
pub proof fn law_float_comparison_is_zero_or_one(
    s: LoweringState,
    env: LoweringEnv,
    operator: Operator,
    truth: u64,
)
    requires
        shape_of(operator) is FloatCompare,
        s.stack.len() >= 2,
        s.code.len() + 2 <= usize::MAX,
    ensures
        ({
            let t = s.step(env, operator).state;
            let compared = s.code.len() as int;
            &&& t.code.len() == s.code.len() + 2
            &&& t.code[compared].instr is FloatCompare
            &&& t.code[compared + 1].instr == Instr::Cast {
                op: CastOp::ZeroExtend,
                from: IrType::I1,
                to: IrType::I32,
                value: Operand::Value { id: compared as usize },
            }
            &&& t.top(0) == Operand::Value { id: (compared + 1) as usize }
            &&& match int_cast(CastOp::ZeroExtend, IrType::I1, IrType::I32, truth) {
                Some(pushed) => pushed == truth && (pushed == 0 || pushed == 1),
                None => truth >= 2,
            }
        }),
{
    reveal(LoweringState::step);
}

/// The number of operands that an operator of the shape `shape` needs in
/// the state `s`.  A call needs as many as its target has parameters, and
/// none where it has no target; a return and the end of the function need
/// one where the function has a result.
pub open spec fn operands_needed(s: LoweringState, env: LoweringEnv, shape: Shape) -> nat {
    match shape {
        Shape::Const { .. } => 0,
        Shape::IntBinary { .. } => 2,
        Shape::Shift { .. } => 2,
        Shape::IntCompare { .. } => 2,
        Shape::IntEqz { .. } => 1,
        Shape::Rotate { .. } => 2,
        Shape::FloatBinary { .. } => 2,
        Shape::FloatCompare { .. } => 2,
        Shape::FloatNeg { .. } => 1,
        Shape::Cast { .. } => 1,
        Shape::SignExtend8 => 1,
        Shape::UnaryIntrinsic { .. } => 1,
        Shape::BinaryIntrinsic { .. } => 2,
        Shape::LocalGet { .. } => 0,
        Shape::LocalSet { .. } => 1,
        Shape::LocalTee { .. } => 1,
        Shape::GlobalGet { .. } => 0,
        Shape::GlobalSet { .. } => 1,
        Shape::Load { .. } => 1,
        Shape::LoadExtend { .. } => 1,
        Shape::Store { .. } => 2,
        Shape::StoreTruncate { .. } => 2,
        Shape::MemorySize => 0,
        Shape::MemoryGrow => 1,
        Shape::MemoryCopy => 3,
        Shape::MemoryFill => 3,
        Shape::Call { function_index } => if env.putchar && function_index == 0 {
            1
        } else {
            if env.local_index(function_index) < env.functions.len() {
                (env.functions[env.local_index(function_index) as int].params.len() as usize) as nat
            } else {
                0
            }
        },
        Shape::Return => if env.results.len() > 0 {
            1
        } else {
            0
        },
        Shape::Drop => 1,
        Shape::Select => 3,
        Shape::Block => 0,
        Shape::Loop => 0,
        Shape::If => 1,
        Shape::Else => 0,
        Shape::End => if s.frames.len() == 0 && env.results.len() > 0 {
            1
        } else {
            0
        },
        Shape::Br { .. } => 0,
        Shape::BrIf { .. } => 1,
        Shape::RefNull => 0,
        Shape::RefIsNull => 1,
        Shape::Unreachable => 0,
        Shape::Unsupported { .. } => 0,
    }
}

/// An operator fails with a stack underflow exactly where the stack holds
/// fewer operands than it needs; it then emits nothing and leaves the
/// lowering as it was.
pub proof fn law_underflow(s: LoweringState, env: LoweringEnv, operator: Operator)
    ensures
        s.stack.len() < operands_needed(s, env, shape_of(operator)) <==> s.step(
            env,
            operator,
        ).result == Err::<Flow, CompileError>(CompileError::StackUnderflow),
        s.step(env, operator).result is Err ==> s.step(env, operator).state == s,
{
    reveal(LoweringState::step);
    lemma_underflow(s, env, shape_of(operator));
}

#[verifier::rlimit(60)]
proof fn lemma_underflow(s: LoweringState, env: LoweringEnv, shape: Shape)
    ensures
        s.stack.len() < operands_needed(s, env, shape) <==> s.apply(env, shape).result == Err::<
            Flow,
            CompileError,
        >(CompileError::StackUnderflow),
        s.apply(env, shape).result is Err ==> s.apply(env, shape).state == s,
{
}

/// Once an operator has failed, no operator that follows is lowered: the
/// lowering of `before`, `operator` and `after` ends with the failure of
/// `operator`, in the state that `before` has led to.
#[verifier::rlimit(100)]
pub proof fn law_failure_ends_lowering(
    s: LoweringState,
    env: LoweringEnv,
    before: Seq<Operator>,
    operator: Operator,
    after: Seq<Operator>,
)
    requires
        s.run(env, before).result == Ok::<Flow, CompileError>(Flow::Continue),
        s.run(env, before).state.step(env, operator).result is Err,
    ensures
        s.run(env, before.push(operator) + after) == (Step {
            state: s.run(env, before).state,
            result: s.run(env, before).state.step(env, operator).result,
        }),
    decreases before.len(),
{
    let all = before.push(operator) + after;
    if before.len() == 0 {
        assert(all[0] == operator);
        law_underflow(s, env, operator);
    } else {
        let first = s.step(env, before[0]);
        assert(all[0] == before[0]);
        assert(all.drop_first() == before.drop_first().push(operator) + after);
        law_failure_ends_lowering(first.state, env, before.drop_first(), operator, after);
    }
}

/// With `N` frames open, a branch of the relative depth `d < N` leads to
/// the frame at position `N - 1 - d`, counted from the outermost: to its
/// header where that frame is a loop, else to its end.
pub proof fn law_branch_target(s: LoweringState, depth: u32)
    requires
        depth < s.frames.len(),
    ensures
        ({
            let frame = s.frames[s.frames.len() - 1 - depth];
            let target = if frame.block_type == ControlBlockType::Loop
                && frame.continue_block is Some {
                frame.continue_block->0
            } else {
                frame.end_block
            };
            &&& branch_target_at(s.frames, depth) == Some(target)
            &&& s.br(depth).result is Ok
            &&& s.br(depth).state.code == s.code.push(
                Placed { block: s.cursor, instr: Instr::Jump { target } },
            )
            &&& s.stack.len() >= 1 ==> s.br_if(depth).result is Ok && s.br_if(
                depth,
            ).state.code.last().instr == Instr::Branch {
                cond: Operand::Value { id: s.next_id() },
                if_true: target,
                if_false: s.next_block(),
            }
        }),
{
}

/// What is stored to a declared local is what a read of that local
/// observes: after `local.set` and `local.get` of one index, the value `v`
/// that was on top of the stack is on top again.
pub proof fn law_local_set_then_get(
    s: LoweringState,
    env: LoweringEnv,
    index: u32,
    m: Machine,
    v: u64,
)
    requires
        env.params.len() <= index < env.params.len() + env.locals.len(),
        s.stack.len() >= 1,
        s.code.len() + 2 <= usize::MAX,
        s.defines(s.top(0)),
        m.operand_value(s.top(0)) == Some(v),
        m.can_store(env.local_cell(index)),
    ensures
        ({
            let set = s.step(env, Operator::LocalSet { local_index: index });
            let get = set.state.step(env, Operator::LocalGet { local_index: index });
            &&& set.result == Ok::<Flow, CompileError>(Flow::Continue)
            &&& get.result == Ok::<Flow, CompileError>(Flow::Continue)
            &&& get.state.stack.len() == s.stack.len()
            &&& m.run(get.state.code, s.code.len() as int, get.state.code.len() as int) matches Some(
                after,
            ) && after.operand_value(get.state.top(0)) == Some(v)
        }),
{
    reveal(LoweringState::step);
    reveal_with_fuel(Machine::run, 3);
}

/// `local.tee` stores the value `v` on top of the stack to the local and
/// leaves it on top of the stack; a `local.get` that follows observes `v`.
pub proof fn law_local_tee(s: LoweringState, env: LoweringEnv, index: u32, m: Machine, v: u64)
    requires
        env.params.len() <= index < env.params.len() + env.locals.len(),
        s.stack.len() >= 1,
        s.code.len() + 2 <= usize::MAX,
        s.defines(s.top(0)),
        m.operand_value(s.top(0)) == Some(v),
        m.can_store(env.local_cell(index)),
    ensures
        ({
            let tee = s.step(env, Operator::LocalTee { local_index: index });
            let get = tee.state.step(env, Operator::LocalGet { local_index: index });
            &&& tee.result == Ok::<Flow, CompileError>(Flow::Continue)
            &&& tee.state.stack == s.stack
            &&& m.run(tee.state.code, s.code.len() as int, tee.state.code.len() as int) matches Some(
                stored,
            ) && stored.cell_value(env.local_cell(index)) == Some(v) && stored.operand_value(
                tee.state.top(0),
            ) == Some(v)
            &&& get.result == Ok::<Flow, CompileError>(Flow::Continue)
            &&& m.run(get.state.code, s.code.len() as int, get.state.code.len() as int) matches Some(
                after,
            ) && after.operand_value(get.state.top(0)) == Some(v) && after.operand_value(
                get.state.top(1),
            ) == Some(v)
        }),
{
    reveal(LoweringState::step);
    reveal_with_fuel(Machine::run, 3);
}

/// Instructions that stand one after the other in one block run in the
/// order of emission: where the instructions from `from` up to `to` all
/// stand in the block `block` and lead the machine `m` to `after`, a run of
/// the function from `from` goes on from `to` on the machine `after`, with
/// one unit of fuel used for each instruction.
pub proof fn law_straight_line_run(
    m: Machine,
    code: Seq<Placed>,
    block: usize,
    from: int,
    to: int,
    fuel: nat,
    after: Machine,
)
    requires
        0 <= from <= to <= code.len(),
        forall|i: int| from <= i < to ==> (#[trigger] code[i]).block == block,
        m.run(code, from, to) == Some(after),
    ensures
        m.run_from(code, block, from, (fuel + (to - from)) as nat) == after.run_from(
            code,
            block,
            to,
            fuel,
        ),
    decreases to - from,
{
    if from < to {
        assert(code[from].block == block);
        assert(next_in_block(code, block, from) == Some(from));
        let next = m.execute(from, code[from].instr)->0;
        law_straight_line_run(next, code, block, from + 1, to, fuel, after);
    }
}

/// A run of instructions can be split at any point.
pub proof fn lemma_run_split(m: Machine, code: Seq<Placed>, from: int, mid: int, to: int)
    requires
        from <= mid <= to,
    ensures
        m.run(code, from, to) == match m.run(code, from, mid) {
            Some(there) => there.run(code, mid, to),
            None => None,
        },
    decreases mid - from,
{
    if from < mid {
        match m.execute(from, code[from].instr) {
            Some(next) => {
                lemma_run_split(next, code, from + 1, mid, to);
            },
            None => {},
        }
    }
}

/// The machine at the entry of a function once the cells of the first
/// `cells` declared locals are reserved and the first `zeroed` of them hold
/// zero.
pub open spec fn with_locals(params: Seq<u64>, globals: Seq<u64>, cells: int, zeroed: int) -> Machine {
    Machine {
        reserved: Set::new(|i: int| 0 <= i < cells),
        cells: Map::new(|i: int| 0 <= i < zeroed, |i: int| 0u64),
        ..Machine::start(params, globals)
    }
}

proof fn lemma_cells_reserved(params: Seq<u64>, globals: Seq<u64>, env: LoweringEnv, upto: int)
    requires
        0 <= upto <= env.locals.len(),
    ensures
        Machine::start(params, globals).run(LoweringState::start(env).code, 0, upto) == Some(
            with_locals(params, globals, upto, 0),
        ),
    decreases upto,
{
    let code = LoweringState::start(env).code;
    let m = Machine::start(params, globals);
    if upto == 0 {
        assert(with_locals(params, globals, 0, 0).reserved =~= m.reserved);
        assert(with_locals(params, globals, 0, 0).cells =~= m.cells);
    } else {
        lemma_cells_reserved(params, globals, env, upto - 1);
        lemma_run_split(m, code, 0, upto - 1, upto);
        let before = with_locals(params, globals, upto - 1, 0);
        let after = with_locals(params, globals, upto, 0);
        assert(code[upto - 1].instr == Instr::Alloca { ty: env.locals[upto - 1].ir_type() });
        let next = before.execute(upto - 1, code[upto - 1].instr)->0;
        assert(next.reserved =~= after.reserved);
        assert(next.cells =~= after.cells);
        reveal_with_fuel(Machine::run, 2);
    }
}

proof fn lemma_cells_zeroed(params: Seq<u64>, globals: Seq<u64>, env: LoweringEnv, upto: int)
    requires
        0 <= upto <= env.locals.len(),
        2 * env.locals.len() <= usize::MAX,
        all_numeric(env.locals),
    ensures
        with_locals(params, globals, env.locals.len() as int, 0).run(
            LoweringState::start(env).code,
            env.locals.len() as int,
            env.locals.len() + upto,
        ) == Some(with_locals(params, globals, env.locals.len() as int, upto)),
    decreases upto,
{
    let code = LoweringState::start(env).code;
    let cells = env.locals.len() as int;
    let start = with_locals(params, globals, cells, 0);
    if upto > 0 {
        lemma_cells_zeroed(params, globals, env, upto - 1);
        lemma_run_split(start, code, cells, cells + upto - 1, cells + upto);
        let before = with_locals(params, globals, cells, upto - 1);
        let after = with_locals(params, globals, cells, upto);
        assert(code[cells + upto - 1] == env.zeroing(upto - 1));
        let ty = env.locals[upto - 1].ir_type();
        assert(env.locals[upto - 1].is_numeric());
        assert(before.operand_value(ty.zero()) == Some(0u64));
        let next = before.execute(cells + upto - 1, code[cells + upto - 1].instr)->0;
        assert(next.cells =~= after.cells);
        assert(next.reserved =~= after.reserved);
        reveal_with_fuel(Machine::run, 2);
    }
}

/// Every declared local starts at zero: the instructions with which the
/// lowering of a function begins reserve one cell for each declared local
/// and leave zero in it.
pub proof fn law_locals_start_at_zero(env: LoweringEnv, params: Seq<u64>, globals: Seq<u64>)
    requires
        2 * env.locals.len() <= usize::MAX,
        all_numeric(env.locals),
    ensures
        ({
            let code = LoweringState::start(env).code;
            &&& code.len() == 2 * env.locals.len()
            &&& Machine::start(params, globals).run(code, 0, code.len() as int) matches Some(m)
                && forall|index: u32|
                env.params.len() <= index < env.params.len() + env.locals.len() ==> m.can_store(
                    #[trigger] env.local_cell(index),
                ) && m.cell_value(env.local_cell(index)) == Some(0u64)
        }),
{
    let code = LoweringState::start(env).code;
    let cells = env.locals.len() as int;
    let m0 = Machine::start(params, globals);
    lemma_cells_reserved(params, globals, env, cells);
    lemma_cells_zeroed(params, globals, env, cells);
    lemma_run_split(m0, code, 0, cells, 2 * cells);
}

/// The size of the memory is its number of pages, and an attempt to grow
/// it yields -1.
pub proof fn law_memory_size_and_grow(s: LoweringState, env: LoweringEnv, m: Machine)
    requires
        env.memory is Some,
    ensures
        value_after(s, env, Shape::MemorySize, m) == Some((env.memory->0 / 65536) as u64),
        s.memory_size(env).state.code == s.code,
        s.stack.len() >= 1 ==> value_after(s, env, Shape::MemoryGrow, m) == Some(0xFFFF_FFFFu64)
            && s.memory_grow().state.code == s.code,
{
}

/// A conversion between integers yields the value of the conversion of the
/// topmost operand: the low 32 bits, the 32 bits as they are, or the 32 bits
/// read as a two's-complement number.
pub proof fn law_integer_conversions(
    s: LoweringState,
    env: LoweringEnv,
    operator: Operator,
    m: Machine,
    a: u64,
)
    requires
        shape_of(operator) is Cast,
        s.stack.len() >= 1,
        s.code.len() + 1 <= usize::MAX,
        m.operand_value(s.top(0)) == Some(a),
    ensures
        ({
            let result = value_after(s, env, shape_of(operator), m);
            &&& result == int_cast(
                shape_of(operator)->Cast_op,
                shape_of(operator)->Cast_from,
                shape_of(operator)->Cast_to,
                a,
            )
            &&& operator == Operator::I32WrapI64 ==> result == Some((a % 0x1_0000_0000) as u64)
            &&& operator == Operator::I64ExtendI32U && a < 0x1_0000_0000 ==> result == Some(a)
            &&& operator == Operator::I64ExtendI32S && a < 0x1_0000_0000 ==> result == Some(
                wrap(IrType::I64, signed_value(IrType::I32, a)),
            )
        }),
{
    reveal_with_fuel(Machine::run, 2);
}

/// The sign extension of the low 8 bits yields those bits read as a
/// two's-complement number.
pub proof fn law_sign_extend_8(s: LoweringState, env: LoweringEnv, m: Machine, a: u64)
    requires
        s.stack.len() >= 1,
        s.code.len() + 3 <= usize::MAX,
        s.defines(s.top(0)),
        m.operand_value(s.top(0)) == Some(a),
        a < 0x1_0000_0000,
    ensures
        value_after(s, env, Shape::SignExtend8, m) == Some(
            wrap(IrType::I32, signed_value(IrType::I8, (a % 256) as u64)),
        ),
{
    assert(a & 0xFF == a % 256) by (bit_vector);
    let first = s.code.len() as int;
    let t = s.sign_extend_8().state;
    let low = (a % 256) as u64;
    let m1 = m.define(first, low);
    let m2 = m1.define(first + 1, low);
    let m3 = m2.define(first + 2, wrap(IrType::I32, signed_value(IrType::I8, low)));
    assert(m.execute(first, t.code[first].instr) == Some(m1));
    assert(m1.execute(first + 1, t.code[first + 1].instr) == Some(m2));
    assert(m2.execute(first + 2, t.code[first + 2].instr) == Some(m3));
    reveal_with_fuel(Machine::run, 2);
    assert(m2.run(t.code, first + 2, first + 3) == Some(m3));
    assert(m1.run(t.code, first + 1, first + 3) == Some(m3));
    assert(m.run(t.code, first, first + 3) == Some(m3));
}

/// `select` yields the upper of its two values where the condition on top
/// of the stack is not zero, else the lower one.
pub proof fn law_select(
    s: LoweringState,
    env: LoweringEnv,
    m: Machine,
    lower: u64,
    upper: u64,
    condition: u64,
)
    requires
        s.stack.len() >= 3,
        s.code.len() + 2 <= usize::MAX,
        s.defines(s.top(0)),
        s.defines(s.top(1)),
        s.defines(s.top(2)),
        m.operand_value(s.top(2)) == Some(lower),
        m.operand_value(s.top(1)) == Some(upper),
        m.operand_value(s.top(0)) == Some(condition),
        condition < 0x1_0000_0000,
    ensures
        value_after(s, env, Shape::Select, m) == Some(
            if condition != 0 {
                upper
            } else {
                lower
            },
        ),
{
    reveal_with_fuel(Machine::run, 3);
}

/// A call leads to the function at the position of its index among the
/// functions of the module, the import counted first where it is present,
/// whether that function is lowered already, is lowered later or is the
/// start function.  The arguments are the topmost operands, staged in the
/// order in which they were pushed; they are consumed, and one result is
/// pushed exactly where the callee has a result.  An index beyond the last
/// function is an unknown function, and only such an index is.
pub proof fn law_call_resolves_by_position(s: LoweringState, env: LoweringEnv, function_index: u32)
    requires
        env.functions.len() <= usize::MAX,
    ensures
        ({
            let imports: int = if env.putchar {
                1
            } else {
                0
            };
            let position = function_index - imports;
            let step = s.step(env, Operator::Call { function_index });
            &&& function_index < imports ==> step == s.call_with(Callee::Putchar, 1, true)
            &&& imports <= function_index < imports + env.functions.len() ==> {
                let callee = env.functions[position];
                let argc = callee.params.len();
                &&& step == s.call_with(
                    Callee::Function { index: position as usize },
                    argc as usize,
                    callee.result is Some,
                )
                &&& argc <= usize::MAX && s.stack.len() >= argc ==> {
                    let kept = s.stack.len() - argc;
                    &&& step.result == Ok::<Flow, CompileError>(Flow::Continue)
                    &&& step.state.code.len() == s.code.len() + argc + 1
                    &&& forall|j: int|
                        0 <= j < argc ==> (#[trigger] step.state.code[s.code.len() + j]).instr
                            == Instr::CallArg { value: s.stack[kept + j] }
                    &&& step.state.code.last().instr == Instr::Call {
                        callee: Callee::Function { index: position as usize },
                        argc: argc as usize,
                        has_result: callee.result is Some,
                    }
                    &&& step.state.stack.len() == kept + if callee.result is Some {
                        1int
                    } else {
                        0int
                    }
                    &&& step.state.stack.take(kept) == s.stack.take(kept)
                }
            }
            &&& function_index >= imports + env.functions.len() <==> step.result == Err::<
                Flow,
                CompileError,
            >(CompileError::UnknownFunction { index: position as u32 })
        }),
{
    reveal(LoweringState::step);
}

/// Whether the instruction stores to the cell of the global `index`.
pub open spec fn writes_global(instr: Instr, index: int) -> bool {
    instr matches Instr::Store { ptr: Operand::Global { index: written }, .. } && written == index
}

/// Only a store to its cell changes what a global holds.
proof fn lemma_global_is_kept(m: Machine, code: Seq<Placed>, from: int, to: int, index: int)
    requires
        0 <= from <= to <= code.len(),
        forall|i: int| from <= i < to ==> !writes_global((#[trigger] code[i]).instr, index),
        m.run(code, from, to) is Some,
    ensures
        m.run(code, from, to)->0.globals.dom().contains(index) == m.globals.dom().contains(index),
        m.globals.dom().contains(index) ==> m.run(code, from, to)->0.globals[index]
            == m.globals[index],
    decreases to - from,
{
    if from < to {
        assert(!writes_global(code[from].instr, index));
        let next = m.execute(from, code[from].instr)->0;
        lemma_global_is_kept(next, code, from + 1, to, index);
    }
}

/// Every global starts at zero: in a module that has just started, a read
/// of a global before any write to it yields 0.  The instructions from
/// `from` up to `to` run on the machine at the entry without a store to the
/// global; then the code that the read is lowered to yields 0.
pub proof fn law_globals_start_at_zero(
    s: LoweringState,
    env: LoweringEnv,
    index: u32,
    params: Seq<u64>,
    code: Seq<Placed>,
    from: int,
    to: int,
)
    requires
        index < env.globals.len(),
        forall|i: int| 0 <= i < env.globals.len() ==> (#[trigger] env.globals[i]).ty != IrType::Ptr,
        0 <= from <= to <= code.len(),
        forall|i: int| from <= i < to ==> !writes_global((#[trigger] code[i]).instr, index as int),
        Machine::entry(params, env.globals).run(code, from, to) is Some,
        s.code.len() < usize::MAX,
    ensures
        forall|i: int|
            0 <= i < env.globals.len() ==> (#[trigger] env.globals[i]).initial_bits() == 0
                && Machine::entry(params, env.globals).operand_value(env.globals[i].initial())
                == Some(0u64),
        ({
            let m = Machine::entry(params, env.globals).run(code, from, to)->0;
            &&& m.cell_value(Operand::Global { index: index as usize }) == Some(0u64)
            &&& value_after(s, env, Shape::GlobalGet { index }, m) == Some(0u64)
        }),
{
    let m0 = Machine::entry(params, env.globals);
    assert(env.globals[index as int].initial_bits() == 0);
    assert(m0.globals.dom().contains(index as int) && m0.globals[index as int] == 0);
    lemma_global_is_kept(m0, code, from, to, index as int);
    reveal_with_fuel(Machine::run, 2);
}

} // verus!
