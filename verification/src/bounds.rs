use crate::ir::{CastOp, Instr, IntBinOp, IntPredicate, IrType, Operand, Placed};
use crate::lowering::{LoweringEnv, LoweringState};
use crate::machine::{next_in_block, Machine, Outcome};
use crate::wellformed::{
    lemma_address_prefix_well_formed, lemma_pop3_well_formed, lemma_pop_well_formed,
    lemma_range_prefix_well_formed, lemma_range_well_formed, operand_ok,
};
use vstd::prelude::*;

verus! {

/// No instruction of well-formed code stands in a block that does not exist
/// yet.
proof fn lemma_fresh_block_is_empty(
    env: LoweringEnv,
    blocks: int,
    code: Seq<Placed>,
    block: usize,
    from: int,
    to: int,
)
    requires
        0 <= from <= to <= code.len(),
        forall|i: int| from <= i < to ==> (#[trigger] code[i]).block != block,
    ensures
        next_in_block(code, block, from) == next_in_block(code, block, to),
    decreases to - from,
{
    if from < to {
        assert(code[from].block != block);
        lemma_fresh_block_is_empty(env, blocks, code, block, from + 1, to);
    }
}

/// Where the condition of a bounds check holds, the run ends in a trap.
/// The check is emitted in the state `s`; `m` is the machine at the
/// insertion point, on which `out_of_bounds` has the value 1.
proof fn lemma_guard_traps(
    s: LoweringState,
    env: LoweringEnv,
    out_of_bounds: Operand,
    m: Machine,
    rest: Seq<Placed>,
    fuel: nat,
)
    requires
        s.well_formed(env),
        s.blocks.len() + 2 <= usize::MAX,
        m.operand_value(out_of_bounds) == Some(1u64),
        fuel >= 2,
    ensures
        m.run_from(s.guard(out_of_bounds).code + rest, s.cursor, s.code.len() as int, fuel)
            == Outcome::Trapped,
{
    let t = s.guard(out_of_bounds);
    let code = t.code + rest;
    let at = s.code.len() as int;
    let trap = s.next_block();
    assert(code[at] == Placed {
        block: s.cursor,
        instr: Instr::Branch { cond: out_of_bounds, if_true: trap, if_false: (trap + 1) as usize },
    });
    assert(code[at + 1] == Placed { block: trap, instr: Instr::Trap });
    assert(next_in_block(code, s.cursor, at) == Some(at));
    assert forall|i: int| 0 <= i < at + 1 implies (#[trigger] code[i]).block != trap by {
        if i < at {
            assert(code[i] == s.code[i]);
        }
    }
    lemma_fresh_block_is_empty(env, s.blocks.len() as int, code, trap, 0, at + 1);
    assert(next_in_block(code, trap, at + 1) == Some(at + 1));
    reveal_with_fuel(Machine::run_from, 3);
}

/// Where the condition of a bounds check does not hold, the run goes on
/// behind the check, in the block of the access.
proof fn lemma_guard_passes(
    s: LoweringState,
    env: LoweringEnv,
    out_of_bounds: Operand,
    m: Machine,
    rest: Seq<Placed>,
    fuel: nat,
)
    requires
        s.well_formed(env),
        s.blocks.len() + 2 <= usize::MAX,
        m.operand_value(out_of_bounds) == Some(0u64),
        fuel >= 1,
    ensures
        m.run_from(s.guard(out_of_bounds).code + rest, s.cursor, s.code.len() as int, fuel)
            == m.run_from(
            s.guard(out_of_bounds).code + rest,
            s.guard(out_of_bounds).cursor,
            s.code.len() as int + 2,
            (fuel - 1) as nat,
        ),
{
    let t = s.guard(out_of_bounds);
    let code = t.code + rest;
    let at = s.code.len() as int;
    let trap = s.next_block();
    let ok = (trap + 1) as usize;
    assert(code[at] == Placed {
        block: s.cursor,
        instr: Instr::Branch { cond: out_of_bounds, if_true: trap, if_false: ok },
    });
    assert(code[at + 1] == Placed { block: trap, instr: Instr::Trap });
    assert(next_in_block(code, s.cursor, at) == Some(at));
    assert forall|i: int| 0 <= i < at + 2 implies (#[trigger] code[i]).block != ok by {
        if i < at {
            assert(code[i] == s.code[i]);
        }
    }
    lemma_fresh_block_is_empty(env, s.blocks.len() as int, code, ok, 0, at + 2);
    reveal_with_fuel(Machine::run_from, 2);
}

/// The bounds check of a load or a store is exact.  `a` is the value of the
/// 32-bit base, and `rest` is what is emitted behind the computation of the
/// address.  Where the `size` bytes at
/// `a + offset` do not all lie within the `memory` bytes of the memory, the
/// run ends in a trap before the address is computed.  Where they do, the
/// run reaches the computation of the address, which is outside the integer
/// part of the machine.
#[verifier::rlimit(50)]
pub proof fn law_access_is_bounds_checked(
    s: LoweringState,
    env: LoweringEnv,
    memory: u32,
    base: Operand,
    offset: u64,
    size: u64,
    m: Machine,
    a: u64,
    rest: Seq<Placed>,
    fuel: nat,
)
    requires
        s.well_formed(env),
        s.code.len() + 6 <= usize::MAX,
        s.blocks.len() + 2 <= usize::MAX,
        operand_ok(env, s.code.len() as int, base),
        m.operand_value(base) == Some(a),
        a < 0x1_0000_0000,
        fuel >= 5,
    ensures
        m.run_from(
            s.checked_address(memory, base, offset, size).0.code + rest,
            s.cursor,
            s.code.len() as int,
            fuel,
        ) == if a + offset + size > memory {
            Outcome::Trapped
        } else {
            Outcome::Stuck
        },
{
    let (t, ptr) = s.checked_address(memory, base, offset, size);
    let code = t.code + rest;
    let at = s.code.len() as int;
    let widen = Instr::Cast {
        op: CastOp::ZeroExtend,
        from: IrType::I32,
        to: IrType::I64,
        value: base,
    };
    let wide = Operand::Value { id: s.next_id() };
    let s1 = s.emit(widen);
    let m1 = m.define(at, a);
    assert(m.execute(at, widen) == Some(m1));
    let sum = Instr::IntBinary {
        op: IntBinOp::Add,
        ty: IrType::I64,
        lhs: wide,
        rhs: Operand::ConstInt { ty: IrType::I64, bits: offset },
    };
    let (s2, address) = if offset > 0 {
        (s1.emit(sum), Operand::Value { id: s1.next_id() })
    } else {
        (s1, wide)
    };
    let ea = ((a + offset) % 0x1_0000_0000_0000_0000) as u64;
    let m2 = if offset > 0 {
        m1.define(at + 1, ea)
    } else {
        m1
    };
    if offset > 0 {
        assert(m1.execute(at + 1, sum) == Some(m2));
    }
    assert(m2.operand_value(address) == Some(ea));
    let checked = size <= memory && offset <= memory - size;
    let limit = (memory - size) as u64;
    let compare = Instr::IntCompare {
        pred: IntPredicate::UGT,
        ty: IrType::I64,
        lhs: address,
        rhs: Operand::ConstInt { ty: IrType::I64, bits: limit },
    };
    let (s3, out_of_bounds) = if checked {
        (s2.emit(compare), Operand::Value { id: s2.next_id() })
    } else {
        (s2, Operand::ConstInt { ty: IrType::I1, bits: 1 })
    };
    let exceeds: u64 = if a + offset + size > memory {
        1
    } else {
        0
    };
    let m3 = if checked {
        m2.define(s2.code.len() as int, exceeds)
    } else {
        m2
    };
    if checked {
        assert(ea == a + offset);
        assert(m2.execute(s2.code.len() as int, compare) == Some(m3));
    }
    assert(m3.operand_value(out_of_bounds) == Some(exceeds));
    lemma_address_prefix_well_formed(s, env, memory, base, offset, size);
    let access = Instr::ElementPtr { base: Operand::Memory, index: address };
    let ok = s3.guard(out_of_bounds).cursor;
    let behind = seq![Placed { block: ok, instr: access }] + rest;
    assert(code =~= s3.guard(out_of_bounds).code + behind);
    assert(code[at] == Placed { block: s.cursor, instr: widen });
    assert(next_in_block(code, s.cursor, at) == Some(at));
    let steps = s3.code.len() - s.code.len();
    // the instructions before the branch run one after the other
    assert(m.run_from(code, s.cursor, at, fuel) == m3.run_from(
        code,
        s.cursor,
        s3.code.len() as int,
        (fuel - steps) as nat,
    )) by {
        reveal_with_fuel(Machine::run_from, 4);
        if offset > 0 {
            assert(code[at + 1] == Placed { block: s.cursor, instr: sum });
            assert(next_in_block(code, s.cursor, at + 1) == Some(at + 1));
        }
        if checked {
            assert(code[s2.code.len() as int] == Placed { block: s.cursor, instr: compare });
            assert(next_in_block(code, s.cursor, s2.code.len() as int) == Some(
                s2.code.len() as int,
            ));
        }
    }
    if exceeds == 1 {
        lemma_guard_traps(s3, env, out_of_bounds, m3, behind, (fuel - steps) as nat);
    } else {
        lemma_guard_passes(s3, env, out_of_bounds, m3, behind, (fuel - steps) as nat);
        let position = s3.code.len() as int + 2;
        assert(code[position] == Placed { block: ok, instr: access });
        assert(next_in_block(code, ok, position) == Some(position));
        assert(m3.execute(position, access) is None);
        reveal_with_fuel(Machine::run_from, 2);
    }
}

/// A load traps exactly where it reaches outside the memory.  `a` is the
/// value of the address on top of the stack.
pub proof fn law_load_is_bounds_checked(
    s: LoweringState,
    env: LoweringEnv,
    ty: IrType,
    offset: u64,
    m: Machine,
    a: u64,
    fuel: nat,
)
    requires
        s.well_formed(env),
        s.code.len() + 7 <= usize::MAX,
        s.blocks.len() + 2 <= usize::MAX,
        s.stack.len() >= 1,
        env.memory is Some,
        m.operand_value(s.top(0)) == Some(a),
        a < 0x1_0000_0000,
        fuel >= 5,
    ensures
        m.run_from(s.load(env, ty, offset).state.code, s.cursor, s.code.len() as int, fuel)
            == if a + offset + ty.byte_size() > env.memory->0 {
            Outcome::Trapped
        } else {
            Outcome::Stuck
        },
{
    let size = ty.byte_size() as u64;
    let (t, ptr) = s.pop().checked_address(env.memory->0, s.top(0), offset, size);
    let rest = seq![Placed { block: t.cursor, instr: Instr::Load { ty, ptr } }];
    assert(s.load(env, ty, offset).state.code =~= t.code + rest);
    assert(operand_ok(env, s.code.len() as int, s.stack[s.stack.len() - 1]));
    lemma_pop_well_formed(s, env);
    law_access_is_bounds_checked(s.pop(), env, env.memory->0, s.top(0), offset, size, m, a, rest, fuel);
}

/// A store traps exactly where it reaches outside the memory.  `a` is the
/// value of the address, which lies below the value to store.
pub proof fn law_store_is_bounds_checked(
    s: LoweringState,
    env: LoweringEnv,
    ty: IrType,
    offset: u64,
    m: Machine,
    a: u64,
    fuel: nat,
)
    requires
        s.well_formed(env),
        s.code.len() + 7 <= usize::MAX,
        s.blocks.len() + 2 <= usize::MAX,
        s.stack.len() >= 2,
        env.memory is Some,
        m.operand_value(s.top(1)) == Some(a),
        a < 0x1_0000_0000,
        fuel >= 5,
    ensures
        m.run_from(s.store(env, ty, offset).state.code, s.cursor, s.code.len() as int, fuel)
            == if a + offset + ty.byte_size() > env.memory->0 {
            Outcome::Trapped
        } else {
            Outcome::Stuck
        },
{
    let size = ty.byte_size() as u64;
    let (t, ptr) = s.pop().pop().checked_address(env.memory->0, s.top(1), offset, size);
    let rest = seq![Placed { block: t.cursor, instr: Instr::Store { ty, ptr, value: s.top(0) } }];
    assert(s.store(env, ty, offset).state.code =~= t.code + rest);
    assert(operand_ok(env, s.code.len() as int, s.stack[s.stack.len() - 2]));
    lemma_pop_well_formed(s, env);
    lemma_pop_well_formed(s.pop(), env);
    law_access_is_bounds_checked(
        s.pop().pop(),
        env,
        env.memory->0,
        s.top(1),
        offset,
        size,
        m,
        a,
        rest,
        fuel,
    );
}

/// A load of a part of an integer traps exactly where it reaches outside
/// the memory.  `a` is the value of the address on top of the stack.
pub proof fn law_load_extend_is_bounds_checked(
    s: LoweringState,
    env: LoweringEnv,
    from: IrType,
    to: IrType,
    signed: bool,
    offset: u64,
    m: Machine,
    a: u64,
    fuel: nat,
)
    requires
        s.well_formed(env),
        s.code.len() + 8 <= usize::MAX,
        s.blocks.len() + 2 <= usize::MAX,
        s.stack.len() >= 1,
        env.memory is Some,
        m.operand_value(s.top(0)) == Some(a),
        a < 0x1_0000_0000,
        fuel >= 5,
    ensures
        m.run_from(
            s.load_extend(env, from, to, signed, offset).state.code,
            s.cursor,
            s.code.len() as int,
            fuel,
        ) == if a + offset + from.byte_size() > env.memory->0 {
            Outcome::Trapped
        } else {
            Outcome::Stuck
        },
{
    let size = from.byte_size() as u64;
    let (t, ptr) = s.pop().checked_address(env.memory->0, s.top(0), offset, size);
    let rest = seq![
        Placed { block: t.cursor, instr: Instr::Load { ty: from, ptr } },
        Placed {
            block: t.cursor,
            instr: Instr::Cast {
                op: if signed {
                    CastOp::SignExtend
                } else {
                    CastOp::ZeroExtend
                },
                from,
                to,
                value: Operand::Value { id: t.next_id() },
            },
        },
    ];
    assert(s.load_extend(env, from, to, signed, offset).state.code =~= t.code + rest);
    assert(operand_ok(env, s.code.len() as int, s.stack[s.stack.len() - 1]));
    lemma_pop_well_formed(s, env);
    law_access_is_bounds_checked(s.pop(), env, env.memory->0, s.top(0), offset, size, m, a, rest, fuel);
}

/// A store of a part of an integer traps exactly where it reaches outside
/// the memory.  `a` is the value of the address, which lies below the value
/// to store.
pub proof fn law_store_truncate_is_bounds_checked(
    s: LoweringState,
    env: LoweringEnv,
    from: IrType,
    to: IrType,
    offset: u64,
    m: Machine,
    a: u64,
    fuel: nat,
)
    requires
        s.well_formed(env),
        s.code.len() + 8 <= usize::MAX,
        s.blocks.len() + 2 <= usize::MAX,
        s.stack.len() >= 2,
        env.memory is Some,
        m.operand_value(s.top(1)) == Some(a),
        a < 0x1_0000_0000,
        fuel >= 5,
    ensures
        m.run_from(
            s.store_truncate(env, from, to, offset).state.code,
            s.cursor,
            s.code.len() as int,
            fuel,
        ) == if a + offset + to.byte_size() > env.memory->0 {
            Outcome::Trapped
        } else {
            Outcome::Stuck
        },
{
    let size = to.byte_size() as u64;
    let (t, ptr) = s.pop().pop().checked_address(env.memory->0, s.top(1), offset, size);
    let rest = seq![
        Placed {
            block: t.cursor,
            instr: Instr::Cast { op: CastOp::Truncate, from, to, value: s.top(0) },
        },
        Placed {
            block: t.cursor,
            instr: Instr::Store { ty: to, ptr, value: Operand::Value { id: t.next_id() } },
        },
    ];
    assert(s.store_truncate(env, from, to, offset).state.code =~= t.code + rest);
    assert(operand_ok(env, s.code.len() as int, s.stack[s.stack.len() - 2]));
    lemma_pop_well_formed(s, env);
    lemma_pop_well_formed(s.pop(), env);
    law_access_is_bounds_checked(
        s.pop().pop(),
        env,
        env.memory->0,
        s.top(1),
        offset,
        size,
        m,
        a,
        rest,
        fuel,
    );
}

/// The machine after the check of a region has run: `a` is the start of
/// the region and `n` its length.
pub open spec fn after_range_check(m: Machine, at: int, memory: u32, a: u64, n: u64) -> Machine {
    m.define(at, a).define(at + 1, n).define(at + 2, (a + n) as u64).define(
        at + 3,
        if a + n > memory {
            1
        } else {
            0
        },
    )
}

/// The check of a region is exact.  `a` is the value of the 32-bit start
/// and `n` that of the 32-bit length; `rest` is what is emitted behind the
/// check.  Where `a + n` exceeds the memory the run ends in a trap, else it
/// goes on behind the check.
#[verifier::rlimit(50)]
pub proof fn lemma_range_is_bounds_checked(
    s: LoweringState,
    env: LoweringEnv,
    memory: u32,
    start: Operand,
    len: Operand,
    m: Machine,
    a: u64,
    n: u64,
    rest: Seq<Placed>,
    fuel: nat,
)
    requires
        s.well_formed(env),
        s.code.len() + 6 <= usize::MAX,
        s.blocks.len() + 2 <= usize::MAX,
        operand_ok(env, s.code.len() as int, start),
        operand_ok(env, s.code.len() as int, len),
        m.operand_value(start) == Some(a),
        m.operand_value(len) == Some(n),
        a < 0x1_0000_0000,
        n < 0x1_0000_0000,
        fuel >= 6,
    ensures
        m.run_from(
            s.checked_range(memory, start, len).code + rest,
            s.cursor,
            s.code.len() as int,
            fuel,
        ) == if a + n > memory {
            Outcome::Trapped
        } else {
            after_range_check(m, s.code.len() as int, memory, a, n).run_from(
                s.checked_range(memory, start, len).code + rest,
                s.checked_range(memory, start, len).cursor,
                s.code.len() as int + 6,
                (fuel - 5) as nat,
            )
        },
{
    let t = s.checked_range(memory, start, len);
    let code = t.code + rest;
    let at = s.code.len() as int;
    let first = s.next_id();
    let wide_start = Operand::Value { id: first };
    let wide_len = Operand::Value { id: (first + 1) as usize };
    let end = Operand::Value { id: (first + 2) as usize };
    let out_of_bounds = Operand::Value { id: (first + 3) as usize };
    let i0 = Instr::Cast { op: CastOp::ZeroExtend, from: IrType::I32, to: IrType::I64, value: start };
    let i1 = Instr::Cast { op: CastOp::ZeroExtend, from: IrType::I32, to: IrType::I64, value: len };
    let i2 = Instr::IntBinary { op: IntBinOp::Add, ty: IrType::I64, lhs: wide_start, rhs: wide_len };
    let i3 = Instr::IntCompare {
        pred: IntPredicate::UGT,
        ty: IrType::I64,
        lhs: end,
        rhs: Operand::ConstInt { ty: IrType::I64, bits: memory as u64 },
    };
    let exceeds: u64 = if a + n > memory {
        1
    } else {
        0
    };
    let m1 = m.define(at, a);
    let m2 = m1.define(at + 1, n);
    let m3 = m2.define(at + 2, (a + n) as u64);
    let m4 = m3.define(at + 3, exceeds);
    assert(m.execute(at, i0) == Some(m1));
    assert(m1.execute(at + 1, i1) == Some(m2));
    assert(m2.execute(at + 2, i2) == Some(m3));
    assert(m3.execute(at + 3, i3) == Some(m4));
    let s4 = s.emit(i0).emit(i1).emit(i2).emit(i3);
    lemma_range_prefix_well_formed(s, env, memory, start, len);
    assert(code =~= s4.guard(out_of_bounds).code + rest);
    assert(code[at] == Placed { block: s.cursor, instr: i0 });
    assert(code[at + 1] == Placed { block: s.cursor, instr: i1 });
    assert(code[at + 2] == Placed { block: s.cursor, instr: i2 });
    assert(code[at + 3] == Placed { block: s.cursor, instr: i3 });
    assert(next_in_block(code, s.cursor, at) == Some(at));
    assert(next_in_block(code, s.cursor, at + 1) == Some(at + 1));
    assert(next_in_block(code, s.cursor, at + 2) == Some(at + 2));
    assert(next_in_block(code, s.cursor, at + 3) == Some(at + 3));
    assert(m.run_from(code, s.cursor, at, fuel) == m4.run_from(
        code,
        s.cursor,
        at + 4,
        (fuel - 4) as nat,
    )) by {
        reveal_with_fuel(Machine::run_from, 2);
        assert(m3.run_from(code, s.cursor, at + 3, (fuel - 3) as nat) == m4.run_from(
            code,
            s.cursor,
            at + 4,
            (fuel - 4) as nat,
        ));
        assert(m2.run_from(code, s.cursor, at + 2, (fuel - 2) as nat) == m4.run_from(
            code,
            s.cursor,
            at + 4,
            (fuel - 4) as nat,
        ));
        assert(m1.run_from(code, s.cursor, at + 1, (fuel - 1) as nat) == m4.run_from(
            code,
            s.cursor,
            at + 4,
            (fuel - 4) as nat,
        ));
    }
    if exceeds == 1 {
        lemma_guard_traps(s4, env, out_of_bounds, m4, rest, (fuel - 4) as nat);
    } else {
        lemma_guard_passes(s4, env, out_of_bounds, m4, rest, (fuel - 4) as nat);
    }
}

/// A copy traps exactly where the destination or the source reaches
/// outside the memory.  `d`, `a` and `n` are the values of the destination,
/// the source and the length.
#[verifier::rlimit(50)]
pub proof fn law_copy_is_bounds_checked(
    s: LoweringState,
    env: LoweringEnv,
    m: Machine,
    d: u64,
    a: u64,
    n: u64,
    fuel: nat,
)
    requires
        s.well_formed(env),
        s.code.len() + 15 <= usize::MAX,
        s.blocks.len() + 4 <= usize::MAX,
        s.stack.len() >= 3,
        env.memory is Some,
        m.operand_value(s.top(2)) == Some(d),
        m.operand_value(s.top(1)) == Some(a),
        m.operand_value(s.top(0)) == Some(n),
        d < 0x1_0000_0000,
        a < 0x1_0000_0000,
        n < 0x1_0000_0000,
        fuel >= 12,
    ensures
        m.run_from(s.memory_copy(env).state.code, s.cursor, s.code.len() as int, fuel) == if d
            + n > env.memory->0 || a + n > env.memory->0 {
            Outcome::Trapped
        } else {
            Outcome::Stuck
        },
{
    let memory = env.memory->0;
    let len = s.top(0);
    let s0 = s.pop().pop().pop();
    let s1 = s0.checked_range(memory, s.top(2), len);
    let s2 = s1.checked_range(memory, s.top(1), len);
    let at = s.code.len() as int;
    let to = Instr::ElementPtr { base: Operand::Memory, index: Operand::Value { id: s0.next_id() } };
    let from = Instr::ElementPtr {
        base: Operand::Memory,
        index: Operand::Value { id: s1.next_id() },
    };
    let copy = Instr::MemoryMove {
        dest: Operand::Value { id: s2.next_id() },
        src: Operand::Value { id: (s2.next_id() + 1) as usize },
        len,
    };
    let code = s.memory_copy(env).state.code;
    let tail = seq![
        Placed { block: s2.cursor, instr: to },
        Placed { block: s2.cursor, instr: from },
        Placed { block: s2.cursor, instr: copy },
    ];
    lemma_pop3_well_formed(s, env);
    lemma_range_well_formed(s0, env, memory, s.top(2), len);
    let rest1 = s2.code.skip(s1.code.len() as int) + tail;
    assert(code =~= s1.code + rest1);
    assert(code =~= s2.code + tail);
    lemma_range_is_bounds_checked(s0, env, memory, s.top(2), len, m, d, n, rest1, fuel);
    if d + n <= memory {
        let m1 = after_range_check(m, at, memory, d, n);
        lemma_range_is_bounds_checked(
            s1,
            env,
            memory,
            s.top(1),
            len,
            m1,
            a,
            n,
            tail,
            (fuel - 5) as nat,
        );
        if a + n <= memory {
            let m2 = after_range_check(m1, at + 6, memory, a, n);
            let position = at + 12;
            assert(code[position] == Placed { block: s2.cursor, instr: to });
            assert(next_in_block(code, s2.cursor, position) == Some(position));
            assert(m2.execute(position, to) is None);
            reveal_with_fuel(Machine::run_from, 2);
        }
    }
}

/// A fill traps exactly where the destination reaches outside the memory.
/// `d` and `n` are the values of the destination and the length.
#[verifier::rlimit(50)]
pub proof fn law_fill_is_bounds_checked(
    s: LoweringState,
    env: LoweringEnv,
    m: Machine,
    d: u64,
    n: u64,
    fuel: nat,
)
    requires
        s.well_formed(env),
        s.code.len() + 9 <= usize::MAX,
        s.blocks.len() + 2 <= usize::MAX,
        s.stack.len() >= 3,
        env.memory is Some,
        m.operand_value(s.top(2)) == Some(d),
        m.operand_value(s.top(0)) == Some(n),
        d < 0x1_0000_0000,
        n < 0x1_0000_0000,
        fuel >= 7,
    ensures
        m.run_from(s.memory_fill(env).state.code, s.cursor, s.code.len() as int, fuel) == if d
            + n > env.memory->0 {
            Outcome::Trapped
        } else {
            Outcome::Stuck
        },
{
    let memory = env.memory->0;
    let len = s.top(0);
    let s0 = s.pop().pop().pop();
    let s1 = s0.checked_range(memory, s.top(2), len);
    let at = s.code.len() as int;
    let to = Instr::ElementPtr { base: Operand::Memory, index: Operand::Value { id: s0.next_id() } };
    let byte = Instr::Cast {
        op: CastOp::Truncate,
        from: IrType::I32,
        to: IrType::I8,
        value: s.top(1),
    };
    let fill = Instr::MemorySet {
        dest: Operand::Value { id: s1.next_id() },
        value: Operand::Value { id: (s1.next_id() + 1) as usize },
        len,
    };
    let code = s.memory_fill(env).state.code;
    let tail = seq![
        Placed { block: s1.cursor, instr: to },
        Placed { block: s1.cursor, instr: byte },
        Placed { block: s1.cursor, instr: fill },
    ];
    lemma_pop3_well_formed(s, env);
    assert(code =~= s1.code + tail);
    lemma_range_is_bounds_checked(s0, env, memory, s.top(2), len, m, d, n, tail, fuel);
    if d + n <= memory {
        let m1 = after_range_check(m, at, memory, d, n);
        let position = at + 6;
        assert(code[position] == Placed { block: s1.cursor, instr: to });
        assert(next_in_block(code, s1.cursor, position) == Some(position));
        assert(m1.execute(position, to) is None);
        reveal_with_fuel(Machine::run_from, 2);
    }
}

} // verus!
