use crate::compiler::CompilerView;
use crate::error::CompileError;
use crate::ir::{CastOp, Instr, IntBinOp, IntPredicate, IrType, Operand, Placed};
use crate::laws::{
    law_local_set_then_get, law_locals_start_at_zero, law_straight_line_run, lemma_rotation_value,
    lemma_rotations_cancel, lemma_run_split, rotated,
};
use crate::lowering::{Flow, LoweringEnv, LoweringState, Step};
use crate::machine::{next_in_block, Machine, Outcome};
use crate::numeric::{fits, int_binary, int_compare, is_operand_type, modulus};
use crate::shape::{shape_of, Shape};
use crate::wasm_parser::{FunctionView, Operator};
use crate::wellformed::{lemma_run_grows, lemma_step_grows};
use vstd::prelude::*;

verus! {

/// The lowering of operators goes on behind the first one, where that one
/// goes on.
pub proof fn lemma_run_first(s: LoweringState, env: LoweringEnv, ops: Seq<Operator>)
    requires
        ops.len() > 0,
        s.step(env, ops[0]).result == Ok::<Flow, CompileError>(Flow::Continue),
    ensures
        s.run(env, ops) == s.step(env, ops[0]).state.run(env, ops.drop_first()),
{
}

/// The lowering of no operator leaves the state as it is.
pub proof fn lemma_run_none(s: LoweringState, env: LoweringEnv, ops: Seq<Operator>)
    requires
        ops.len() == 0,
    ensures
        s.run(env, ops) == s.go(),
{
}

/// A constant is pushed.
pub proof fn lemma_step_constant(s: LoweringState, env: LoweringEnv, op: Operator, value: Operand)
    requires
        shape_of(op) == (Shape::Const { value }),
    ensures
        s.step(env, op) == s.push(value).go(),
{
    reveal(LoweringState::step);
}

/// A binary integer operator replaces the two topmost operands by the
/// result of one instruction.
pub proof fn lemma_step_binary(s: LoweringState, env: LoweringEnv, op: Operator)
    requires
        shape_of(op) is IntBinary,
        s.stack.len() >= 2,
    ensures
        s.step(env, op) == s.pop().pop().emit_value(
            Instr::IntBinary {
                op: shape_of(op)->IntBinary_op,
                ty: shape_of(op)->IntBinary_ty,
                lhs: s.top(1),
                rhs: s.top(0),
            },
        ).go(),
{
    reveal(LoweringState::step);
}

/// With no frame open, the end of a function that has a result returns the
/// top of the stack.
pub proof fn lemma_step_end(s: LoweringState, env: LoweringEnv)
    requires
        s.frames.len() == 0,
        env.results.len() > 0,
        s.stack.len() >= 1,
    ensures
        s.step(env, Operator::End) == s.pop().emit(
            Instr::Return { value: Some(s.top(0)) },
        ).go(),
{
    reveal(LoweringState::step);
}

/// The lowering of an operator is that of an operator of its shape: what
/// the opaque definition of `step` says.
pub proof fn lemma_step(s: LoweringState, env: LoweringEnv, op: Operator)
    ensures
        s.step(env, op) == s.apply(env, shape_of(op)),
{
    reveal(LoweringState::step);
}

/// The code of the function `f` as `compile_function` lowers it in the
/// module `c`, and the result of that lowering.
pub open spec fn lowered(c: CompilerView, f: FunctionView) -> Step {
    LoweringState::start(c.declare(f).env(f)).run(c.declare(f).env(f), f.operators)
}

/// What `compile_function` yields for a function that it does not reject:
/// the function is appended with the code that `lowered` gives.
pub proof fn lemma_compiled(c: CompilerView, f: FunctionView)
    requires
        f.results.len() <= 1,
        f.is_numeric(),
    ensures
        c.compile_function(f).0.functions.len() == c.functions.len() + 1,
        c.compile_function(f).0.functions.last().code == lowered(c, f).state.code,
        c.compile_function(f).0.functions.last().blocks == lowered(c, f).state.blocks,
        lowered(c, f).result is Ok ==> c.compile_function(f).1 == Ok::<usize, CompileError>(
            c.functions.len() as usize,
        ),
        lowered(c, f).result matches Err(e) ==> c.compile_function(f).1 == Err::<
            usize,
            CompileError,
        >(e),
{
}

/// A function that pushes two constants, applies a binary integer operator
/// and ends returns the result of the operator on the constants, which
/// wraps at the width of the operator: for an addition, a subtraction and a
/// multiplication it is the exact result modulo 2 to the power of the
/// width.  Where the operation is left to the backend the machine does not
/// go on.
pub proof fn law_binary_function_wraps(
    c: CompilerView,
    f: FunctionView,
    first: Operator,
    second: Operator,
    operator: Operator,
    ty: IrType,
    a: u64,
    b: u64,
    globals: Seq<u64>,
    fuel: nat,
)
    requires
        f.params.len() == 0,
        f.locals.len() == 0,
        f.results.len() == 1,
        f.is_numeric(),
        f.operators == seq![first, second, operator, Operator::End],
        shape_of(first) == (Shape::Const { value: Operand::ConstInt { ty, bits: a } }),
        shape_of(second) == (Shape::Const { value: Operand::ConstInt { ty, bits: b } }),
        shape_of(operator) is IntBinary,
        shape_of(operator)->IntBinary_ty == ty,
        fuel >= 2,
    ensures
        ({
            let op = shape_of(operator)->IntBinary_op;
            let outcome = Machine::start(Seq::empty(), globals).run_from(
                c.compile_function(f).0.functions.last().code,
                0,
                0,
                fuel,
            );
            &&& c.compile_function(f).1 is Ok
            &&& outcome == match int_binary(op, ty, a, b) {
                Some(r) => Outcome::Returned { value: Some(r) },
                None => Outcome::Stuck,
            }
            &&& fits(ty, a) && fits(ty, b) && is_operand_type(ty) ==> {
                &&& op == IntBinOp::Add ==> outcome == Outcome::Returned {
                    value: Some(((a + b) % modulus(ty)) as u64),
                }
                &&& op == IntBinOp::Sub ==> outcome == Outcome::Returned {
                    value: Some(((a - b) % modulus(ty)) as u64),
                }
                &&& op == IntBinOp::Mul ==> outcome == Outcome::Returned {
                    value: Some(((a * b) % modulus(ty)) as u64),
                }
            }
        }),
{
    let op = shape_of(operator)->IntBinary_op;
    let env = c.declare(f).env(f);
    let ops = f.operators;
    let x = Operand::ConstInt { ty, bits: a };
    let y = Operand::ConstInt { ty, bits: b };
    let s0 = LoweringState::start(env);
    assert(s0.code =~= Seq::<Placed>::empty());
    let s1 = s0.push(x);
    let s2 = s1.push(y);
    let compute = Instr::IntBinary { op, ty, lhs: x, rhs: y };
    let s3 = s2.pop().pop().emit_value(compute);
    let s4 = s3.pop().emit(Instr::Return { value: Some(Operand::Value { id: 0 }) });
    let ops1 = seq![second, operator, Operator::End];
    let ops2 = seq![operator, Operator::End];
    let ops3 = seq![Operator::End];
    assert(ops.drop_first() =~= ops1);
    assert(ops1.drop_first() =~= ops2);
    assert(ops2.drop_first() =~= ops3);
    lemma_step_constant(s0, env, first, x);
    lemma_step_constant(s1, env, second, y);
    lemma_step_binary(s2, env, operator);
    assert(s2.step(env, operator) == s3.go());
    lemma_step_end(s3, env);
    assert(s3.step(env, Operator::End) == s4.go());
    lemma_run_none(s4, env, ops3.drop_first());
    lemma_run_first(s3, env, ops3);
    lemma_run_first(s2, env, ops2);
    lemma_run_first(s1, env, ops1);
    lemma_run_first(s0, env, ops);
    assert(s0.run(env, ops) == s4.go());
    lemma_compiled(c, f);
    let code = s4.code;
    assert(code =~= seq![
        Placed { block: 0, instr: compute },
        Placed { block: 0, instr: Instr::Return { value: Some(Operand::Value { id: 0 }) } },
    ]);
    let m0 = Machine::start(Seq::empty(), globals);
    assert(next_in_block(code, 0, 0) == Some(0int));
    assert(next_in_block(code, 0, 1) == Some(1int));
    reveal_with_fuel(Machine::run_from, 3);
}

/// The test for zero replaces the topmost operand by the truth value of its
/// comparison with zero.
pub proof fn lemma_step_eqz(s: LoweringState, env: LoweringEnv, op: Operator)
    requires
        shape_of(op) is IntEqz,
        s.stack.len() >= 1,
    ensures
        s.step(env, op) == s.pop().emit_truth(
            Instr::IntCompare {
                pred: IntPredicate::EQ,
                ty: shape_of(op)->IntEqz_ty,
                lhs: s.top(0),
                rhs: Operand::ConstInt { ty: shape_of(op)->IntEqz_ty, bits: 0 },
            },
        ).go(),
{
    reveal(LoweringState::step);
}

/// A rotation is lowered as `rotate` says.
pub proof fn lemma_step_rotate(s: LoweringState, env: LoweringEnv, op: Operator)
    requires
        shape_of(op) is Rotate,
    ensures
        s.step(env, op) == s.rotate(shape_of(op)->left, shape_of(op)->Rotate_ty),
{
    reveal(LoweringState::step);
}

/// A function that pushes a constant, tests it for zero and ends returns
/// exactly 1 where the constant is zero and exactly 0 where it is not.
pub proof fn law_eqz_function(
    c: CompilerView,
    f: FunctionView,
    first: Operator,
    operator: Operator,
    ty: IrType,
    x: u64,
    globals: Seq<u64>,
    fuel: nat,
)
    requires
        f.params.len() == 0,
        f.locals.len() == 0,
        f.results.len() == 1,
        f.is_numeric(),
        f.operators == seq![first, operator, Operator::End],
        shape_of(first) == (Shape::Const { value: Operand::ConstInt { ty, bits: x } }),
        shape_of(operator) == (Shape::IntEqz { ty }),
        is_operand_type(ty),
        fits(ty, x),
        fuel >= 3,
    ensures
        c.compile_function(f).1 is Ok,
        Machine::start(Seq::empty(), globals).run_from(
            c.compile_function(f).0.functions.last().code,
            0,
            0,
            fuel,
        ) == (Outcome::Returned {
            value: Some(
                if x == 0 {
                    1u64
                } else {
                    0u64
                },
            ),
        }),
{
    let env = c.declare(f).env(f);
    let ops = f.operators;
    let constant = Operand::ConstInt { ty, bits: x };
    let s0 = LoweringState::start(env);
    assert(s0.code =~= Seq::<Placed>::empty());
    let s1 = s0.push(constant);
    let compare = Instr::IntCompare {
        pred: IntPredicate::EQ,
        ty,
        lhs: constant,
        rhs: Operand::ConstInt { ty, bits: 0 },
    };
    let extend = Instr::Cast {
        op: CastOp::ZeroExtend,
        from: IrType::I1,
        to: IrType::I32,
        value: Operand::Value { id: 0 },
    };
    let s2 = s1.pop().emit_truth(compare);
    let s3 = s2.pop().emit(Instr::Return { value: Some(Operand::Value { id: 1 }) });
    let ops1 = seq![operator, Operator::End];
    let ops2 = seq![Operator::End];
    assert(ops.drop_first() =~= ops1);
    assert(ops1.drop_first() =~= ops2);
    lemma_step_constant(s0, env, first, constant);
    lemma_step_eqz(s1, env, operator);
    assert(s1.step(env, operator) == s2.go());
    lemma_step_end(s2, env);
    assert(s2.step(env, Operator::End) == s3.go());
    lemma_run_none(s3, env, ops2.drop_first());
    lemma_run_first(s2, env, ops2);
    lemma_run_first(s1, env, ops1);
    lemma_run_first(s0, env, ops);
    lemma_compiled(c, f);
    let code = s3.code;
    assert(code =~= seq![
        Placed { block: 0, instr: compare },
        Placed { block: 0, instr: extend },
        Placed { block: 0, instr: Instr::Return { value: Some(Operand::Value { id: 1 }) } },
    ]);
    assert(next_in_block(code, 0, 0) == Some(0int));
    assert(next_in_block(code, 0, 1) == Some(1int));
    assert(next_in_block(code, 0, 2) == Some(2int));
    reveal_with_fuel(Machine::run_from, 4);
}

/// A comparison replaces the two topmost operands by the truth value of
/// its predicate.
pub proof fn lemma_step_compare(s: LoweringState, env: LoweringEnv, op: Operator)
    requires
        shape_of(op) is IntCompare,
        s.stack.len() >= 2,
    ensures
        s.step(env, op) == s.pop().pop().emit_truth(
            Instr::IntCompare {
                pred: shape_of(op)->IntCompare_pred,
                ty: shape_of(op)->IntCompare_ty,
                lhs: s.top(1),
                rhs: s.top(0),
            },
        ).go(),
{
    reveal(LoweringState::step);
}

/// A function that pushes two constants, compares them and ends returns
/// exactly 1 where the predicate holds of the constants and exactly 0 where
/// it does not.
pub proof fn law_comparison_function(
    c: CompilerView,
    f: FunctionView,
    first: Operator,
    second: Operator,
    operator: Operator,
    ty: IrType,
    a: u64,
    b: u64,
    globals: Seq<u64>,
    fuel: nat,
)
    requires
        f.params.len() == 0,
        f.locals.len() == 0,
        f.results.len() == 1,
        f.is_numeric(),
        f.operators == seq![first, second, operator, Operator::End],
        shape_of(first) == (Shape::Const { value: Operand::ConstInt { ty, bits: a } }),
        shape_of(second) == (Shape::Const { value: Operand::ConstInt { ty, bits: b } }),
        shape_of(operator) is IntCompare,
        shape_of(operator)->IntCompare_ty == ty,
        is_operand_type(ty),
        fits(ty, a),
        fits(ty, b),
        fuel >= 3,
    ensures
        c.compile_function(f).1 is Ok,
        Machine::start(Seq::empty(), globals).run_from(
            c.compile_function(f).0.functions.last().code,
            0,
            0,
            fuel,
        ) == (Outcome::Returned {
            value: Some(
                if int_compare(shape_of(operator)->IntCompare_pred, ty, a, b) == Some(true) {
                    1u64
                } else {
                    0u64
                },
            ),
        }),
{
    let pred = shape_of(operator)->IntCompare_pred;
    let env = c.declare(f).env(f);
    let ops = f.operators;
    let x = Operand::ConstInt { ty, bits: a };
    let y = Operand::ConstInt { ty, bits: b };
    let s0 = LoweringState::start(env);
    assert(s0.code =~= Seq::<Placed>::empty());
    let s1 = s0.push(x);
    let s2 = s1.push(y);
    let compare = Instr::IntCompare { pred, ty, lhs: x, rhs: y };
    let extend = Instr::Cast {
        op: CastOp::ZeroExtend,
        from: IrType::I1,
        to: IrType::I32,
        value: Operand::Value { id: 0 },
    };
    let s3 = s2.pop().pop().emit_truth(compare);
    let s4 = s3.pop().emit(Instr::Return { value: Some(Operand::Value { id: 1 }) });
    let ops1 = seq![second, operator, Operator::End];
    let ops2 = seq![operator, Operator::End];
    let ops3 = seq![Operator::End];
    assert(ops.drop_first() =~= ops1);
    assert(ops1.drop_first() =~= ops2);
    assert(ops2.drop_first() =~= ops3);
    lemma_step_constant(s0, env, first, x);
    lemma_step_constant(s1, env, second, y);
    lemma_step_compare(s2, env, operator);
    assert(s2.step(env, operator) == s3.go());
    lemma_step_end(s3, env);
    assert(s3.step(env, Operator::End) == s4.go());
    lemma_run_none(s4, env, ops3.drop_first());
    lemma_run_first(s3, env, ops3);
    lemma_run_first(s2, env, ops2);
    lemma_run_first(s1, env, ops1);
    lemma_run_first(s0, env, ops);
    lemma_compiled(c, f);
    let code = s4.code;
    assert(code =~= seq![
        Placed { block: 0, instr: compare },
        Placed { block: 0, instr: extend },
        Placed { block: 0, instr: Instr::Return { value: Some(Operand::Value { id: 1 }) } },
    ]);
    assert(next_in_block(code, 0, 0) == Some(0int));
    assert(next_in_block(code, 0, 1) == Some(1int));
    assert(next_in_block(code, 0, 2) == Some(2int));
    reveal_with_fuel(Machine::run_from, 4);
}

/// What a run does depends only on the instructions that it runs.
pub proof fn lemma_run_same_code(m: Machine, one: Seq<Placed>, other: Seq<Placed>, from: int, to: int)
    requires
        forall|i: int| from <= i < to ==> one[i] == other[i],
    ensures
        m.run(one, from, to) == m.run(other, from, to),
    decreases to - from,
{
    if from < to {
        match m.execute(from, one[from].instr) {
            Some(next) => {
                lemma_run_same_code(next, one, other, from + 1, to);
            },
            None => {},
        }
    }
}

/// A function that pushes a constant, rotates it one way by a constant
/// amount and the other way by the same amount, and ends returns the
/// constant, whatever the amount: rotating by 0 or by the width too.
#[verifier::rlimit(50)]
pub proof fn law_rotation_function(
    c: CompilerView,
    f: FunctionView,
    value: Operator,
    amount: Operator,
    there: Operator,
    back: Operator,
    ty: IrType,
    x: u64,
    n: u64,
    globals: Seq<u64>,
    fuel: nat,
)
    requires
        f.params.len() == 0,
        f.locals.len() == 0,
        f.results.len() == 1,
        f.is_numeric(),
        f.operators == seq![value, amount, there, amount, back, Operator::End],
        shape_of(value) == (Shape::Const { value: Operand::ConstInt { ty, bits: x } }),
        shape_of(amount) == (Shape::Const { value: Operand::ConstInt { ty, bits: n } }),
        shape_of(there) is Rotate,
        shape_of(back) is Rotate,
        shape_of(there)->Rotate_ty == ty,
        shape_of(back)->Rotate_ty == ty,
        shape_of(there)->left != shape_of(back)->left,
        is_operand_type(ty),
        fits(ty, x),
        fits(ty, n),
        fuel >= 13,
    ensures
        c.compile_function(f).1 is Ok,
        Machine::start(Seq::empty(), globals).run_from(
            c.compile_function(f).0.functions.last().code,
            0,
            0,
            fuel,
        ) == (Outcome::Returned { value: Some(x) }),
{
    let env = c.declare(f).env(f);
    let ops = f.operators;
    let left = shape_of(there)->left;
    let cx = Operand::ConstInt { ty, bits: x };
    let cn = Operand::ConstInt { ty, bits: n };
    let s0 = LoweringState::start(env);
    assert(s0.code =~= Seq::<Placed>::empty());
    let s1 = s0.push(cx);
    let s2 = s1.push(cn);
    let s3 = s2.rotate(left, ty).state;
    let s4 = s3.push(cn);
    let s5 = s4.rotate(!left, ty).state;
    let s6 = s5.pop().emit(Instr::Return { value: Some(s5.top(0)) });
    let ops1 = seq![amount, there, amount, back, Operator::End];
    let ops2 = seq![there, amount, back, Operator::End];
    let ops3 = seq![amount, back, Operator::End];
    let ops4 = seq![back, Operator::End];
    let ops5 = seq![Operator::End];
    assert(ops.drop_first() =~= ops1);
    assert(ops1.drop_first() =~= ops2);
    assert(ops2.drop_first() =~= ops3);
    assert(ops3.drop_first() =~= ops4);
    assert(ops4.drop_first() =~= ops5);
    lemma_step_constant(s0, env, value, cx);
    lemma_step_constant(s1, env, amount, cn);
    lemma_step_rotate(s2, env, there);
    assert(s2.step(env, there) == s3.go());
    lemma_step_constant(s3, env, amount, cn);
    lemma_step_rotate(s4, env, back);
    assert(s4.step(env, back) == s5.go());
    lemma_step_end(s5, env);
    assert(s5.step(env, Operator::End) == s6.go());
    lemma_run_none(s6, env, ops5.drop_first());
    lemma_run_first(s5, env, ops5);
    lemma_run_first(s4, env, ops4);
    lemma_run_first(s3, env, ops3);
    lemma_run_first(s2, env, ops2);
    lemma_run_first(s1, env, ops1);
    lemma_run_first(s0, env, ops);
    lemma_compiled(c, f);
    let code = s6.code;
    let m0 = Machine::start(Seq::empty(), globals);
    // the first rotation
    assert(s3.code.len() == 6 && s5.code.len() == 12 && s6.code.len() == 13);
    lemma_rotation_value(s2, env, left, ty, m0, x, n);
    let turned = rotated(left, ty, x, n);
    let m1 = m0.run(s3.code, 0, 6)->0;
    assert(m0.run(s3.code, 0, 6) is Some);
    assert(s3.top(0) == Operand::Value { id: 5 });
    assert(m1.operand_value(Operand::Value { id: 5 }) == Some(turned));
    assert forall|i: int| 0 <= i < 6 implies s3.code[i] == code[i] by {}
    lemma_run_same_code(m0, s3.code, code, 0, 6);
    // the second rotation
    assert(s4.top(1) == Operand::Value { id: 5 });
    lemma_rotation_value(s4, env, !left, ty, m1, turned, n);
    lemma_rotations_cancel(left, ty, x, n);
    let m2 = m1.run(s5.code, 6, 12)->0;
    assert(m1.run(s5.code, 6, 12) is Some);
    assert(s5.top(0) == Operand::Value { id: 11 });
    assert(m2.operand_value(Operand::Value { id: 11 }) == Some(x));
    assert forall|i: int| 6 <= i < 12 implies s5.code[i] == code[i] by {}
    lemma_run_same_code(m1, s5.code, code, 6, 12);
    lemma_run_split(m0, code, 0, 6, 12);
    assert(m0.run(code, 0, 12) == Some(m2));
    // all of it stands in the entry block, and the return follows
    assert forall|i: int| 0 <= i < 12 implies (#[trigger] code[i]).block == 0 by {}
    law_straight_line_run(m0, code, 0, 0, 12, (fuel - 12) as nat, m2);
    assert(code[12] == Placed {
        block: 0,
        instr: Instr::Return { value: Some(Operand::Value { id: 11 }) },
    });
    assert(next_in_block(code, 0, 12) == Some(12int));
    reveal_with_fuel(Machine::run_from, 2);
}

/// Whether the instruction stores to the cell that the instruction at the
/// position `cell` has reserved.
pub open spec fn writes_cell(instr: Instr, cell: int) -> bool {
    instr matches Instr::Store { ptr: Operand::Value { id }, .. } && id == cell
}

/// Whether the lowering that leads from `s` to `t` keeps what is emitted
/// and emits no store to the cell `cell`.
pub open spec fn keeps_cell(s: LoweringState, t: LoweringState, cell: int) -> bool {
    &&& s.code.len() <= t.code.len()
    &&& forall|i: int| 0 <= i < s.code.len() ==> #[trigger] t.code[i] == s.code[i]
    &&& forall|i: int| s.code.len() <= i < t.code.len() ==> !writes_cell((#[trigger] t.code[i]).instr, cell)
}

proof fn lemma_keeps_numeric(s: LoweringState, env: LoweringEnv, shape: Shape, cell: int)
    requires
        ({
            ||| shape is Const
            ||| shape is IntBinary
            ||| shape is Shift
            ||| shape is IntCompare
            ||| shape is IntEqz
            ||| shape is Rotate
            ||| shape is FloatBinary
            ||| shape is FloatCompare
            ||| shape is FloatNeg
            ||| shape is Cast
            ||| shape is SignExtend8
            ||| shape is UnaryIntrinsic
            ||| shape is BinaryIntrinsic
            ||| shape is Drop
            ||| shape is Select
            ||| shape is RefNull
            ||| shape is RefIsNull
            ||| shape is MemorySize
            ||| shape is MemoryGrow
            ||| shape is Unsupported
        }),
    ensures
        keeps_cell(s, s.apply(env, shape).state, cell),
{
}

proof fn lemma_keeps_control(s: LoweringState, env: LoweringEnv, shape: Shape, cell: int)
    requires
        ({
            ||| shape is Return
            ||| shape is Block
            ||| shape is Loop
            ||| shape is If
            ||| shape is Else
            ||| shape is End
            ||| shape is Br
            ||| shape is BrIf
            ||| shape is Unreachable
        }),
    ensures
        keeps_cell(s, s.apply(env, shape).state, cell),
{
}

proof fn lemma_keeps_cells(s: LoweringState, env: LoweringEnv, shape: Shape, index: u32)
    requires
        env.params.len() <= index < env.params.len() + env.locals.len(),
        s.apply(env, shape).state.code.len() <= usize::MAX,
        shape != (Shape::LocalSet { index }),
        shape != (Shape::LocalTee { index }),
        ({
            ||| shape is LocalGet
            ||| shape is LocalSet
            ||| shape is LocalTee
            ||| shape is GlobalGet
            ||| shape is GlobalSet
        }),
    ensures
        keeps_cell(s, s.apply(env, shape).state, index - env.params.len()),
{
}

proof fn lemma_keeps_simple(s: LoweringState, env: LoweringEnv, shape: Shape, index: u32)
    requires
        env.params.len() <= index < env.params.len() + env.locals.len(),
        env.locals.len() <= s.code.len(),
        s.apply(env, shape).state.code.len() <= usize::MAX,
        shape != (Shape::LocalSet { index }),
        shape != (Shape::LocalTee { index }),
        !(shape is Load || shape is LoadExtend || shape is Store || shape is StoreTruncate
            || shape is MemoryCopy || shape is MemoryFill || shape is Call),
    ensures
        keeps_cell(s, s.apply(env, shape).state, index - env.params.len()),
{
    let cell = index - env.params.len();
    if shape is LocalGet || shape is LocalSet || shape is LocalTee || shape is GlobalGet
        || shape is GlobalSet {
        lemma_keeps_cells(s, env, shape, index);
    } else if shape is Return || shape is Block || shape is Loop || shape is If || shape is Else
        || shape is End || shape is Br || shape is BrIf || shape is Unreachable {
        lemma_keeps_control(s, env, shape, cell);
    } else {
        lemma_keeps_numeric(s, env, shape, cell);
    }
}

proof fn lemma_keeps_access(
    s: LoweringState,
    memory: u32,
    base: Operand,
    offset: u64,
    size: u64,
    cell: int,
)
    requires
        0 <= cell < s.code.len(),
        s.checked_address(memory, base, offset, size).0.code.len() <= usize::MAX,
    ensures
        keeps_cell(s, s.checked_address(memory, base, offset, size).0, cell),
        s.checked_address(memory, base, offset, size).1 matches Operand::Value { id } && id
            >= s.code.len(),
{
}

proof fn lemma_keeps_range(s: LoweringState, memory: u32, start: Operand, len: Operand, cell: int)
    requires
        0 <= cell < s.code.len(),
    ensures
        keeps_cell(s, s.checked_range(memory, start, len), cell),
        s.checked_range(memory, start, len).code.len() == s.code.len() + 6,
{
}

/// Keeping composes.
proof fn lemma_keeps_then(s: LoweringState, t: LoweringState, u: LoweringState, cell: int)
    requires
        keeps_cell(s, t, cell),
        keeps_cell(t, u, cell),
    ensures
        keeps_cell(s, u, cell),
{
    assert forall|i: int| 0 <= i < s.code.len() implies #[trigger] u.code[i] == s.code[i] by {
        assert(u.code[i] == t.code[i]);
    }
}

proof fn lemma_keeps_memory(s: LoweringState, env: LoweringEnv, shape: Shape, index: u32)
    requires
        env.params.len() <= index < env.params.len() + env.locals.len(),
        env.locals.len() <= s.code.len(),
        s.apply(env, shape).state.code.len() <= usize::MAX,
        shape is Load || shape is LoadExtend || shape is Store || shape is StoreTruncate
            || shape is MemoryCopy || shape is MemoryFill,
    ensures
        keeps_cell(s, s.apply(env, shape).state, index - env.params.len()),
{
    let cell = index - env.params.len();
    let memory = env.memory->0;
    let t = s.apply(env, shape).state;
    if s.apply(env, shape).result is Ok {
        match shape {
            Shape::Load { ty, offset } => {
                lemma_keeps_access(s.pop(), memory, s.top(0), offset, ty.byte_size() as u64, cell);
                let a = s.pop().checked_address(memory, s.top(0), offset, ty.byte_size() as u64).0;
                assert(keeps_cell(a, t, cell));
                lemma_keeps_then(s.pop(), a, t, cell);
            },
            Shape::LoadExtend { from, to, signed, offset } => {
                lemma_keeps_access(s.pop(), memory, s.top(0), offset, from.byte_size() as u64, cell);
                let a = s.pop().checked_address(memory, s.top(0), offset, from.byte_size() as u64).0;
                assert(keeps_cell(a, t, cell));
                lemma_keeps_then(s.pop(), a, t, cell);
            },
            Shape::Store { ty, offset } => {
                lemma_keeps_access(
                    s.pop().pop(),
                    memory,
                    s.top(1),
                    offset,
                    ty.byte_size() as u64,
                    cell,
                );
                let a = s.pop().pop().checked_address(
                    memory,
                    s.top(1),
                    offset,
                    ty.byte_size() as u64,
                ).0;
                assert(keeps_cell(a, t, cell));
                lemma_keeps_then(s.pop().pop(), a, t, cell);
            },
            Shape::StoreTruncate { from, to, offset } => {
                lemma_keeps_access(
                    s.pop().pop(),
                    memory,
                    s.top(1),
                    offset,
                    to.byte_size() as u64,
                    cell,
                );
                let a = s.pop().pop().checked_address(
                    memory,
                    s.top(1),
                    offset,
                    to.byte_size() as u64,
                ).0;
                assert(keeps_cell(a, t, cell));
                lemma_keeps_then(s.pop().pop(), a, t, cell);
            },
            Shape::MemoryCopy => {
                let s0 = s.pop().pop().pop();
                let s1 = s0.checked_range(memory, s.top(2), s.top(0));
                let s2 = s1.checked_range(memory, s.top(1), s.top(0));
                lemma_keeps_range(s0, memory, s.top(2), s.top(0), cell);
                lemma_keeps_range(s1, memory, s.top(1), s.top(0), cell);
                lemma_keeps_then(s0, s1, s2, cell);
                assert(keeps_cell(s2, t, cell));
                lemma_keeps_then(s0, s2, t, cell);
            },
            _ => {
                let s0 = s.pop().pop().pop();
                let s1 = s0.checked_range(memory, s.top(2), s.top(0));
                lemma_keeps_range(s0, memory, s.top(2), s.top(0), cell);
                assert(keeps_cell(s1, t, cell));
                lemma_keeps_then(s0, s1, t, cell);
            },
        }
    }
}

proof fn lemma_keeps_call(s: LoweringState, env: LoweringEnv, function_index: u32, cell: int)
    ensures
        keeps_cell(s, s.call(env, function_index).state, cell),
{
}

/// The lowering of an operator that is no `local.set` and no `local.tee` of
/// a local keeps what is emitted and emits no store to the cell of that
/// local.
pub proof fn lemma_step_keeps_cell(s: LoweringState, env: LoweringEnv, op: Operator, index: u32)
    requires
        env.params.len() <= index < env.params.len() + env.locals.len(),
        env.locals.len() <= s.code.len(),
        s.step(env, op).state.code.len() <= usize::MAX,
        op != (Operator::LocalSet { local_index: index }),
        op != (Operator::LocalTee { local_index: index }),
    ensures
        keeps_cell(s, s.step(env, op).state, index - env.params.len()),
{
    reveal(LoweringState::step);
    let shape = shape_of(op);
    if shape is Load || shape is LoadExtend || shape is Store || shape is StoreTruncate
        || shape is MemoryCopy || shape is MemoryFill {
        lemma_keeps_memory(s, env, shape, index);
    } else if shape is Call {
        lemma_keeps_call(s, env, shape->function_index, index - env.params.len());
    } else {
        lemma_keeps_simple(s, env, shape, index);
    }
}

/// The lowering of operators none of which is a `local.set` or a
/// `local.tee` of a local keeps what is emitted and emits no store to the
/// cell of that local.
pub proof fn lemma_run_keeps_cell(s: LoweringState, env: LoweringEnv, ops: Seq<Operator>, index: u32)
    requires
        env.params.len() <= index < env.params.len() + env.locals.len(),
        env.locals.len() <= s.code.len(),
        s.run(env, ops).state.code.len() <= usize::MAX,
        forall|k: int|
            0 <= k < ops.len() ==> #[trigger] ops[k] != (Operator::LocalSet { local_index: index })
                && ops[k] != (Operator::LocalTee { local_index: index }),
    ensures
        keeps_cell(s, s.run(env, ops).state, index - env.params.len()),
    decreases ops.len(),
{
    if ops.len() > 0 {
        let first = s.step(env, ops[0]);
        lemma_step_grows(s, env, ops[0]);
        if first.result == Ok::<Flow, CompileError>(Flow::Continue) {
            lemma_run_grows(first.state, env, ops.drop_first());
            lemma_step_keeps_cell(s, env, ops[0], index);
            assert forall|k: int| 0 <= k < ops.drop_first().len() implies #[trigger] ops.drop_first()[k]
                != (Operator::LocalSet { local_index: index }) && ops.drop_first()[k] != (
            Operator::LocalTee { local_index: index }) by {
                assert(ops.drop_first()[k] == ops[k + 1]);
            }
            lemma_run_keeps_cell(first.state, env, ops.drop_first(), index);
            lemma_keeps_then(s, first.state, s.run(env, ops).state, index - env.params.len());
        } else {
            lemma_step_keeps_cell(s, env, ops[0], index);
        }
    }
}

/// Only a store to it changes what a reserved cell holds.
pub proof fn lemma_cell_is_kept(m: Machine, code: Seq<Placed>, from: int, to: int, cell: int)
    requires
        0 <= cell < from <= to <= code.len(),
        forall|i: int| from <= i < to ==> !writes_cell((#[trigger] code[i]).instr, cell),
        m.run(code, from, to) is Some,
    ensures
        m.run(code, from, to)->0.cell_value(
            Operand::Value { id: cell as usize },
        ) == m.cell_value(Operand::Value { id: cell as usize }) || cell > usize::MAX,
    decreases to - from,
{
    if from < to {
        assert(!writes_cell(code[from].instr, cell));
        let next = m.execute(from, code[from].instr)->0;
        lemma_cell_is_kept(next, code, from + 1, to, cell);
    }
}

/// A read of a local observes the value last stored to it: after
/// `local.set` of a declared local, any operators that are no `local.set`
/// and no `local.tee` of that local, and `local.get` of it, the value `v`
/// that was on top of the stack at first is on top.  The operators in between
/// are such that the machine runs what is emitted for them, one instruction
/// after the other.
pub proof fn law_local_get_observes_last_set(
    s: LoweringState,
    env: LoweringEnv,
    index: u32,
    between: Seq<Operator>,
    m: Machine,
    v: u64,
)
    requires
        env.params.len() <= index < env.params.len() + env.locals.len(),
        env.locals.len() <= s.code.len(),
        s.stack.len() >= 1,
        s.defines(s.top(0)),
        m.operand_value(s.top(0)) == Some(v),
        m.can_store(env.local_cell(index)),
        forall|k: int|
            0 <= k < between.len() ==> #[trigger] between[k] != (Operator::LocalSet {
                local_index: index,
            }) && between[k] != (Operator::LocalTee { local_index: index }),
        ({
            let set = s.step(env, Operator::LocalSet { local_index: index }).state;
            let before = set.run(env, between);
            let get = before.state.step(env, Operator::LocalGet { local_index: index }).state;
            &&& before.result == Ok::<Flow, CompileError>(Flow::Continue)
            &&& get.code.len() <= usize::MAX
            &&& m.run(get.code, s.code.len() as int, get.code.len() as int) is Some
        }),
    ensures
        ({
            let set = s.step(env, Operator::LocalSet { local_index: index }).state;
            let before = set.run(env, between).state;
            let get = before.step(env, Operator::LocalGet { local_index: index });
            &&& set.stack == s.stack.drop_last()
            &&& get.result == Ok::<Flow, CompileError>(Flow::Continue)
            &&& get.state.stack == before.stack.push(get.state.top(0))
            &&& m.run(get.state.code, s.code.len() as int, get.state.code.len() as int)->0.operand_value(
                get.state.top(0),
            ) == Some(v)
        }),
{
    let cell = index - env.params.len();
    let set_op = Operator::LocalSet { local_index: index };
    let get_op = Operator::LocalGet { local_index: index };
    let s1 = s.step(env, set_op).state;
    let s2 = s1.run(env, between).state;
    let s3 = s2.step(env, get_op).state;
    let at = s.code.len() as int;
    let store = Instr::Store { ty: env.local_type(index), ptr: env.local_cell(index), value: s.top(0) };
    let load = Instr::Load { ty: env.local_type(index), ptr: env.local_cell(index) };
    assert(s.step(env, set_op) == s.pop().emit(store).go() && s2.step(env, get_op)
        == s2.emit_value(load).go()) by {
        reveal(LoweringState::step);
        lemma_run_grows(s1, env, between);
        lemma_step_grows(s2, env, get_op);
    }
    lemma_run_grows(s.pop().emit(store), env, between);
    lemma_run_keeps_cell(s1, env, between, index);
    let code = s3.code;
    let end = s2.code.len() as int;
    assert(s3.code.len() == end + 1);
    assert(code[at] == Placed { block: s.cursor, instr: store }) by {
        assert(s2.code[at] == s1.code[at]);
    }
    assert(code[end].instr == load);
    assert(s3.top(0) == Operand::Value { id: end as usize });
    // the store
    lemma_run_split(m, code, at, at + 1, end + 1);
    let m1 = m.run(code, at, at + 1)->0;
    assert(m.run(code, at, at + 1) == m.execute(at, store)) by {
        reveal_with_fuel(Machine::run, 2);
    }
    assert(m1.cell_value(env.local_cell(index)) == Some(v));
    // what lies between
    lemma_run_split(m1, code, at + 1, end, end + 1);
    let m2 = m1.run(code, at + 1, end)->0;
    assert forall|i: int| at + 1 <= i < end implies !writes_cell((#[trigger] code[i]).instr, cell) by {
        assert(code[i] == s2.code[i]);
    }
    lemma_cell_is_kept(m1, code, at + 1, end, cell);
    assert(m2.cell_value(env.local_cell(index)) == Some(v));
    // the load
    assert(m2.run(code, end, end + 1) == m2.execute(end, load)) by {
        reveal_with_fuel(Machine::run, 2);
    }
    let m3 = m2.define(end, v);
    assert(m2.execute(end, load) == Some(m3));
    assert(m.run(code, at, end + 1) == Some(m3));
    assert(m3.operand_value(Operand::Value { id: end as usize }) == Some(v));
}

/// `local.set` pops its operand and stores it to the cell of the local.
pub proof fn lemma_step_local_set(s: LoweringState, env: LoweringEnv, index: u32)
    requires
        env.params.len() <= index < env.params.len() + env.locals.len(),
        s.stack.len() >= 1,
    ensures
        s.step(env, Operator::LocalSet { local_index: index }) == s.pop().emit(
            Instr::Store {
                ty: env.local_type(index),
                ptr: env.local_cell(index),
                value: s.top(0),
            },
        ).go(),
{
    reveal(LoweringState::step);
}

/// `local.get` of a declared local pushes what is loaded from its cell.
pub proof fn lemma_step_local_get(s: LoweringState, env: LoweringEnv, index: u32)
    requires
        env.params.len() <= index < env.params.len() + env.locals.len(),
    ensures
        s.step(env, Operator::LocalGet { local_index: index }) == s.emit_value(
            Instr::Load { ty: env.local_type(index), ptr: env.local_cell(index) },
        ).go(),
{
    reveal(LoweringState::step);
}

/// A function that pushes a constant, sets a declared local to it, gets the
/// local and ends returns the constant.
#[verifier::rlimit(50)]
pub proof fn law_local_function(
    c: CompilerView,
    f: FunctionView,
    first: Operator,
    constant: Operand,
    index: u32,
    v: u64,
    globals: Seq<u64>,
    fuel: nat,
)
    requires
        f.params.len() == 0,
        index < f.locals.len(),
        2 * f.locals.len() + 3 <= usize::MAX,
        f.results.len() == 1,
        f.is_numeric(),
        f.operators == seq![
            first,
            Operator::LocalSet { local_index: index },
            Operator::LocalGet { local_index: index },
            Operator::End,
        ],
        shape_of(first) == (Shape::Const { value: constant }),
        constant is ConstInt,
        constant->ConstInt_bits == v,
        fuel >= 2 * f.locals.len() + 3,
    ensures
        c.compile_function(f).1 is Ok,
        Machine::start(Seq::empty(), globals).run_from(
            c.compile_function(f).0.functions.last().code,
            0,
            0,
            fuel,
        ) == (Outcome::Returned { value: Some(v) }),
{
    let env = c.declare(f).env(f);
    let ops = f.operators;
    let set_op = Operator::LocalSet { local_index: index };
    let get_op = Operator::LocalGet { local_index: index };
    let cells = 2 * f.locals.len() as int;
    let s0 = LoweringState::start(env);
    assert(s0.code.len() == cells);
    let s1 = s0.push(constant);
    let store = Instr::Store { ty: env.local_type(index), ptr: env.local_cell(index), value: constant };
    let load = Instr::Load { ty: env.local_type(index), ptr: env.local_cell(index) };
    let s2 = s1.pop().emit(store);
    let s3 = s2.emit_value(load);
    let s4 = s3.pop().emit(Instr::Return { value: Some(s3.top(0)) });
    let ops1 = seq![set_op, get_op, Operator::End];
    let ops2 = seq![get_op, Operator::End];
    let ops3 = seq![Operator::End];
    assert(ops.drop_first() =~= ops1);
    assert(ops1.drop_first() =~= ops2);
    assert(ops2.drop_first() =~= ops3);
    lemma_step_constant(s0, env, first, constant);
    lemma_step_local_set(s1, env, index);
    lemma_step_local_get(s2, env, index);
    lemma_step_end(s3, env);
    lemma_run_none(s4, env, ops3.drop_first());
    lemma_run_first(s3, env, ops3);
    lemma_run_first(s2, env, ops2);
    lemma_run_first(s1, env, ops1);
    lemma_run_first(s0, env, ops);
    lemma_compiled(c, f);
    let code = s4.code;
    let m0 = Machine::start(Seq::empty(), globals);
    // the cells of the locals are reserved and zeroed
    law_locals_start_at_zero(env, Seq::empty(), globals);
    let m1 = m0.run(s0.code, 0, cells)->0;
    assert(m1.can_store(env.local_cell(index)));
    assert forall|i: int| 0 <= i < cells implies s0.code[i] == code[i] by {
        assert(s3.code[i] == s0.code[i]);
    }
    lemma_run_same_code(m0, s0.code, code, 0, cells);
    // the store and the load
    law_local_set_then_get(s1, env, index, m1, v);
    let m2 = m1.run(s3.code, cells, cells + 2)->0;
    assert(m1.run(s3.code, cells, cells + 2) is Some);
    assert(s3.top(0) == Operand::Value { id: (cells + 1) as usize });
    assert(m2.operand_value(s3.top(0)) == Some(v));
    assert forall|i: int| cells <= i < cells + 2 implies s3.code[i] == code[i] by {}
    lemma_run_same_code(m1, s3.code, code, cells, cells + 2);
    lemma_run_split(m0, code, 0, cells, cells + 2);
    assert(m0.run(code, 0, cells + 2) == Some(m2));
    // all of it stands in the entry block, and the return follows
    assert forall|i: int| 0 <= i < cells + 2 implies (#[trigger] code[i]).block == 0 by {
        if i < cells {
            assert(code[i] == s0.code[i]);
        }
    }
    law_straight_line_run(m0, code, 0, 0, cells + 2, (fuel - (cells + 2)) as nat, m2);
    assert(code[cells + 2] == Placed { block: 0, instr: Instr::Return { value: Some(s3.top(0)) } });
    assert(next_in_block(code, 0, cells + 2) == Some(cells + 2));
    reveal_with_fuel(Machine::run_from, 2);
}

/// Whether the functions `functions` are declared in the module `c` from
/// the position `base` on, in their order: each with its name, its
/// parameters and its result.
pub open spec fn declared_in(c: CompilerView, base: int, functions: Seq<FunctionView>) -> bool {
    &&& c.functions.len() == base + functions.len()
    &&& forall|j: int|
        0 <= j < functions.len() ==> {
            let declared = #[trigger] c.functions[base + j];
            &&& declared.name == functions[j].declaration().name
            &&& declared.params == functions[j].declaration().params
            &&& declared.result == functions[j].declaration().result
        }
}

/// The lowering of a body changes no declaration.
pub proof fn lemma_body_keeps_declarations(
    c: CompilerView,
    base: int,
    functions: Seq<FunctionView>,
    at: int,
)
    requires
        0 <= base,
        0 <= at < functions.len(),
        declared_in(c, base, functions),
    ensures
        declared_in(c.lower_body(base + at, functions[at]).0, base, functions),
{
    let after = c.lower_body(base + at, functions[at]).0;
    assert forall|j: int| 0 <= j < functions.len() implies {
        let declared = #[trigger] after.functions[base + j];
        &&& declared.name == functions[j].declaration().name
        &&& declared.params == functions[j].declaration().params
        &&& declared.result == functions[j].declaration().result
    } by {
        assert(c.functions[base + j].name == functions[j].declaration().name);
        if j != at {
            assert(after.functions[base + j] == c.functions[base + j]);
        }
    }
}

/// Every function of a module is declared before the body of any is
/// lowered, and stays declared: so the body of each function is lowered in
/// an environment that holds every function of the module at its position,
/// with its parameters and its result, whether its body is lowered already,
/// is lowered later or is the one being lowered.  With
/// `law_call_resolves_by_position` this says what a call in a module leads
/// to.
pub proof fn law_module_declares_every_function(
    c: CompilerView,
    functions: Seq<FunctionView>,
    at: int,
)
    requires
        0 <= at <= functions.len(),
    ensures
        declared_in(c.declare_all(functions), c.functions.len() as int, functions),
        forall|v: CompilerView|
            #![trigger v.lower_bodies(c.functions.len() as int, functions, at)]
            declared_in(v, c.functions.len() as int, functions) ==> declared_in(
                v.lower_bodies(c.functions.len() as int, functions, at).0,
                c.functions.len() as int,
                functions,
            ),
        forall|v: CompilerView|
            #![trigger v.env(functions[at])]
            at < functions.len() && declared_in(v, c.functions.len() as int, functions) ==> v.env(
                functions[at],
            ).functions == v.functions,
{
    let base = c.functions.len() as int;
    assert forall|v: CompilerView| declared_in(v, base, functions) implies declared_in(
        #[trigger] v.lower_bodies(base, functions, at).0,
        base,
        functions,
    ) by {
        lemma_bodies_keep_declarations(v, base, functions, at);
    }
}

proof fn lemma_bodies_keep_declarations(
    c: CompilerView,
    base: int,
    functions: Seq<FunctionView>,
    at: int,
)
    requires
        0 <= base,
        0 <= at <= functions.len(),
        declared_in(c, base, functions),
    ensures
        declared_in(c.lower_bodies(base, functions, at).0, base, functions),
    decreases functions.len() - at,
{
    if at < functions.len() {
        lemma_body_keeps_declarations(c, base, functions, at);
        let (next, result) = c.lower_body(base + at, functions[at]);
        if result is Ok {
            lemma_bodies_keep_declarations(next, base, functions, at + 1);
        }
    }
}

} // verus!
