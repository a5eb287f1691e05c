use crate::control::{branch_target_at, get_branch_target, ControlBlock, ControlBlockType};
use crate::error::{CompileError, StructuralError};
use crate::ir::{
    BinaryIntrinsic, BlockKind, Callee, CastOp, FloatBinOp, FloatPredicate, GlobalSlot, Instr,
    IntBinOp, IntPredicate, IrFunction, IrFunctionView, IrType, Operand, Placed, UnaryIntrinsic,
};
use crate::shape::{classify, shape_of, Shape};
use crate::wasm_parser::{Function, Operator, ValType};
use vstd::prelude::*;

verus! {

/// The number of bytes of a page of linear memory.
pub const PAGE_SIZE: u32 = 65536;

/// Whether lowering goes on with the next operator.
#[derive(Clone, Copy, Debug, PartialEq, Eq, Structural)]
pub enum Flow {
    Continue,
    /// The function has returned: the operators that follow are not lowered.
    Stop,
}

/// The mathematical model of the lowering of one function, at some point
/// between two operators.
pub struct LoweringState {
    /// The blocks appended so far; a block is named by its position.
    pub blocks: Seq<BlockKind>,
    /// The instructions emitted so far.
    pub code: Seq<Placed>,
    /// The block at whose end the next instruction is emitted.
    pub cursor: usize,
    /// The operand stack, the top last.
    pub stack: Seq<Operand>,
    /// The control stack, the innermost frame last.
    pub frames: Seq<ControlBlock>,
}

/// What the lowering of one operator leads to: the new state, and whether
/// lowering goes on.  A failure leaves the state as it was.
pub struct Step {
    pub state: LoweringState,
    pub result: Result<Flow, CompileError>,
}

/// The surroundings of a function that its lowering reads.
pub struct LoweringEnv {
    pub params: Seq<ValType>,
    /// The types of the declared locals.
    pub locals: Seq<ValType>,
    pub results: Seq<ValType>,
    /// The size of linear memory in bytes, where the module has one.
    pub memory: Option<u32>,
    pub globals: Seq<GlobalSlot>,
    /// Whether the one recognized import is present.
    pub putchar: bool,
    /// The functions of the module in their order, this one included.  All
    /// are declared before the body of any is lowered.
    pub functions: Seq<IrFunctionView>,
}

/// The failure of an operator that finds too few operands.
pub open spec fn underflow() -> CompileError {
    CompileError::StackUnderflow
}

/// The failure on a malformed function.
pub open spec fn structural(e: StructuralError) -> CompileError {
    CompileError::StructuralError(e)
}

impl LoweringState {
    /// The step that fails and leaves the state as it is.
    pub open spec fn fail(self, e: CompileError) -> Step {
        Step { state: self, result: Err(e) }
    }

    /// The step that ends in this state and goes on.
    pub open spec fn go(self) -> Step {
        Step { state: self, result: Ok(Flow::Continue) }
    }

    /// The position that the next instruction gets.
    pub open spec fn next_id(self) -> usize {
        self.code.len() as usize
    }

    /// The position that the next block gets.
    pub open spec fn next_block(self) -> usize {
        self.blocks.len() as usize
    }

    /// Emits `instr` at the cursor.
    pub open spec fn emit(self, instr: Instr) -> LoweringState {
        LoweringState { code: self.code.push(Placed { block: self.cursor, instr }), ..self }
    }

    /// Pushes `value` on the operand stack.
    pub open spec fn push(self, value: Operand) -> LoweringState {
        LoweringState { stack: self.stack.push(value), ..self }
    }

    /// Emits `instr` at the cursor and pushes its result.
    pub open spec fn emit_value(self, instr: Instr) -> LoweringState {
        self.emit(instr).push(Operand::Value { id: self.next_id() })
    }

    /// Whether `operand` can be read at the insertion point: a result must
    /// be that of an instruction emitted already.
    pub open spec fn defines(self, operand: Operand) -> bool {
        operand matches Operand::Value { id } ==> id < self.code.len()
    }

    /// The operand `k` places below the top of the stack.
    pub open spec fn top(self, k: int) -> Operand {
        self.stack[self.stack.len() - 1 - k]
    }

    /// Pops the top of the operand stack.
    pub open spec fn pop(self) -> LoweringState {
        LoweringState { stack: self.stack.drop_last(), ..self }
    }

    /// Appends a block of the kind `kind`.
    pub open spec fn append_block(self, kind: BlockKind) -> LoweringState {
        LoweringState { blocks: self.blocks.push(kind), ..self }
    }

    /// Moves the cursor to the end of the block `block`.
    pub open spec fn position_at(self, block: usize) -> LoweringState {
        LoweringState { cursor: block, ..self }
    }

    /// Opens the frame `frame`.
    pub open spec fn push_frame(self, frame: ControlBlock) -> LoweringState {
        LoweringState { frames: self.frames.push(frame), ..self }
    }

    /// Closes the innermost frame.
    pub open spec fn pop_frame(self) -> LoweringState {
        LoweringState { frames: self.frames.drop_last(), ..self }
    }

    /// Emits `first`, which yields an `I1`, and pushes that truth value
    /// zero-extended to 32 bits.
    pub open spec fn emit_truth(self, first: Instr) -> LoweringState {
        self.emit(first).emit_value(
            Instr::Cast {
                op: CastOp::ZeroExtend,
                from: IrType::I1,
                to: IrType::I32,
                value: Operand::Value { id: self.next_id() },
            },
        )
    }

    /// The instruction that tells whether the 32-bit `value` is not zero.
    pub open spec fn is_nonzero(value: Operand) -> Instr {
        Instr::IntCompare {
            pred: IntPredicate::NE,
            ty: IrType::I32,
            lhs: value,
            rhs: Operand::ConstInt { ty: IrType::I32, bits: 0 },
        }
    }

    /// A constant is pushed; nothing is emitted.
    pub open spec fn constant(self, value: Operand) -> Step {
        self.push(value).go()
    }

    /// The two topmost operands are replaced by the result of one instruction on
    /// them, the lower operand on the left.
    pub open spec fn int_binary(self, op: IntBinOp, ty: IrType) -> Step {
        if self.stack.len() < 2 {
            self.fail(underflow())
        } else {
            self.pop().pop().emit_value(
                Instr::IntBinary { op, ty, lhs: self.top(1), rhs: self.top(0) },
            ).go()
        }
    }

    /// The two topmost operands are replaced by the truth value of their
    /// comparison.
    pub open spec fn int_compare(self, pred: IntPredicate, ty: IrType) -> Step {
        if self.stack.len() < 2 {
            self.fail(underflow())
        } else {
            self.pop().pop().emit_truth(
                Instr::IntCompare { pred, ty, lhs: self.top(1), rhs: self.top(0) },
            ).go()
        }
    }

    /// The topmost operand is replaced by the truth value of its comparison
    /// with zero.
    pub open spec fn int_eqz(self, ty: IrType) -> Step {
        if self.stack.len() < 1 {
            self.fail(underflow())
        } else {
            self.pop().emit_truth(
                Instr::IntCompare {
                    pred: IntPredicate::EQ,
                    ty,
                    lhs: self.top(0),
                    rhs: Operand::ConstInt { ty, bits: 0 },
                },
            ).go()
        }
    }

    /// The constant that masks a shift amount at the type `ty`: the width
    /// less one.
    pub open spec fn amount_mask(ty: IrType) -> Operand {
        Operand::ConstInt {
            ty,
            bits: if ty.int_bits() > 0 {
                (ty.int_bits() - 1) as u64
            } else {
                0
            },
        }
    }

    /// A shift takes its amount modulo the width: the amount is masked, then
    /// the value is shifted by it.
    pub open spec fn shift(self, op: IntBinOp, ty: IrType) -> Step {
        if self.stack.len() < 2 {
            self.fail(underflow())
        } else {
            self.pop().pop().emit(
                Instr::IntBinary {
                    op: IntBinOp::And,
                    ty,
                    lhs: self.top(0),
                    rhs: Self::amount_mask(ty),
                },
            ).emit_value(
                Instr::IntBinary {
                    op,
                    ty,
                    lhs: self.top(1),
                    rhs: Operand::Value { id: self.next_id() },
                },
            ).go()
        }
    }

    /// A rotation is two shifts and an or: the amount is reduced modulo the
    /// width, the value is shifted by it one way and by the rest of the
    /// width, masked, the other way.
    pub open spec fn rotate(self, left: bool, ty: IrType) -> Step {
        if self.stack.len() < 2 {
            self.fail(underflow())
        } else {
            let amount = self.top(0);
            let value = self.top(1);
            let width = Operand::ConstInt { ty, bits: ty.int_bits() as u64 };
            let first = self.next_id();
            let masked = Operand::Value { id: first };
            let near = Operand::Value { id: (first + 1) as usize };
            let rest = Operand::Value { id: (first + 2) as usize };
            let opposite = Operand::Value { id: (first + 3) as usize };
            let far = Operand::Value { id: (first + 4) as usize };
            let (toward, back) = if left {
                (IntBinOp::Shl, IntBinOp::LShr)
            } else {
                (IntBinOp::LShr, IntBinOp::Shl)
            };
            self.pop().pop().emit(
                Instr::IntBinary { op: IntBinOp::URem, ty, lhs: amount, rhs: width },
            ).emit(Instr::IntBinary { op: toward, ty, lhs: value, rhs: masked }).emit(
                Instr::IntBinary { op: IntBinOp::Sub, ty, lhs: width, rhs: masked },
            ).emit(
                Instr::IntBinary { op: IntBinOp::And, ty, lhs: rest, rhs: Self::amount_mask(ty) },
            ).emit(Instr::IntBinary { op: back, ty, lhs: value, rhs: opposite }).emit_value(
                Instr::IntBinary { op: IntBinOp::Or, ty, lhs: near, rhs: far },
            ).go()
        }
    }

    /// As `int_binary`, for a floating-point operation.
    pub open spec fn float_binary(self, op: FloatBinOp, ty: IrType) -> Step {
        if self.stack.len() < 2 {
            self.fail(underflow())
        } else {
            self.pop().pop().emit_value(
                Instr::FloatBinary { op, ty, lhs: self.top(1), rhs: self.top(0) },
            ).go()
        }
    }

    /// As `int_compare`, for a floating-point predicate.
    pub open spec fn float_compare(self, pred: FloatPredicate, ty: IrType) -> Step {
        if self.stack.len() < 2 {
            self.fail(underflow())
        } else {
            self.pop().pop().emit_truth(
                Instr::FloatCompare { pred, ty, lhs: self.top(1), rhs: self.top(0) },
            ).go()
        }
    }

    /// The step of an operator that pops one operand and pushes the result
    /// of one instruction on it.
    pub open spec fn unary(self, instr: Instr) -> Step {
        if self.stack.len() < 1 {
            self.fail(underflow())
        } else {
            self.pop().emit_value(instr).go()
        }
    }

    /// The topmost operand is replaced by its negation.
    pub open spec fn float_neg(self, ty: IrType) -> Step {
        self.unary(Instr::FloatNeg { ty, value: self.top(0) })
    }

    /// The topmost operand is replaced by its conversion.
    pub open spec fn cast(self, op: CastOp, from: IrType, to: IrType) -> Step {
        self.unary(Instr::Cast { op, from, to, value: self.top(0) })
    }

    /// The topmost operand is replaced by the result of an intrinsic on it.
    pub open spec fn unary_intrinsic(self, op: UnaryIntrinsic, ty: IrType) -> Step {
        self.unary(Instr::UnaryIntrinsic { op, ty, value: self.top(0) })
    }

    /// The two topmost operands are replaced by the result of an intrinsic on
    /// them.
    pub open spec fn binary_intrinsic(self, op: BinaryIntrinsic, ty: IrType) -> Step {
        if self.stack.len() < 2 {
            self.fail(underflow())
        } else {
            self.pop().pop().emit_value(
                Instr::BinaryIntrinsic { op, ty, lhs: self.top(1), rhs: self.top(0) },
            ).go()
        }
    }

    /// The low 8 bits are masked out, truncated to 8 bits and sign-extended
    /// back to 32.
    pub open spec fn sign_extend_8(self) -> Step {
        if self.stack.len() < 1 {
            self.fail(underflow())
        } else {
            let first = self.next_id();
            self.pop().emit(
                Instr::IntBinary {
                    op: IntBinOp::And,
                    ty: IrType::I32,
                    lhs: self.top(0),
                    rhs: Operand::ConstInt { ty: IrType::I32, bits: 0xFF },
                },
            ).emit(
                Instr::Cast {
                    op: CastOp::Truncate,
                    from: IrType::I32,
                    to: IrType::I8,
                    value: Operand::Value { id: first },
                },
            ).emit_value(
                Instr::Cast {
                    op: CastOp::SignExtend,
                    from: IrType::I8,
                    to: IrType::I32,
                    value: Operand::Value { id: (first + 1) as usize },
                },
            ).go()
        }
    }

    /// The topmost operand is dropped.
    pub open spec fn drop_top(self) -> Step {
        if self.stack.len() < 1 {
            self.fail(underflow())
        } else {
            self.pop().go()
        }
    }

    /// The condition is on top, above the two values; the result is the
    /// upper value where the condition is not zero, else the lower one.
    pub open spec fn select(self) -> Step {
        if self.stack.len() < 3 {
            self.fail(underflow())
        } else {
            self.pop().pop().pop().emit(Self::is_nonzero(self.top(0))).emit_value(
                Instr::Select {
                    cond: Operand::Value { id: self.next_id() },
                    if_true: self.top(1),
                    if_false: self.top(2),
                },
            ).go()
        }
    }

    /// The null reference is pushed; nothing is emitted.
    pub open spec fn ref_null(self) -> Step {
        self.push(Operand::NullPtr).go()
    }

    /// The topmost operand is replaced by the truth value of its comparison
    /// with the null reference.
    pub open spec fn ref_is_null(self) -> Step {
        if self.stack.len() < 1 {
            self.fail(underflow())
        } else {
            self.pop().emit_truth(
                Instr::IntCompare {
                    pred: IntPredicate::EQ,
                    ty: IrType::Ptr,
                    lhs: self.top(0),
                    rhs: Operand::NullPtr,
                },
            ).go()
        }
    }

    /// Appends the two blocks of a bounds check and branches: where
    /// `out_of_bounds` holds, control reaches a block that traps, else it
    /// goes on in the other block, at which the cursor is left.
    pub open spec fn guard(self, out_of_bounds: Operand) -> LoweringState {
        let trap = self.next_block();
        let ok = (trap + 1) as usize;
        self.append_block(BlockKind::OutOfBounds).append_block(BlockKind::InBounds).emit(
            Instr::Branch { cond: out_of_bounds, if_true: trap, if_false: ok },
        ).position_at(trap).emit(Instr::Trap).position_at(ok)
    }

    /// Computes the address of an access of `size` bytes at the 32-bit
    /// `base` plus `offset`, in a memory of `memory` bytes.  The effective
    /// address is the zero-extended base, plus the offset where that is not
    /// zero.  The access takes place only where it lies inside the memory:
    /// where `offset + size` exceeds the memory no base is in bounds, else
    /// the effective address is compared with `memory - size`.
    pub open spec fn checked_address(self, memory: u32, base: Operand, offset: u64, size: u64) -> (
        LoweringState,
        Operand,
    ) {
        let wide = Operand::Value { id: self.next_id() };
        let s1 = self.emit(
            Instr::Cast { op: CastOp::ZeroExtend, from: IrType::I32, to: IrType::I64, value: base },
        );
        let (s2, address) = if offset > 0 {
            (
                s1.emit(
                    Instr::IntBinary {
                        op: IntBinOp::Add,
                        ty: IrType::I64,
                        lhs: wide,
                        rhs: Operand::ConstInt { ty: IrType::I64, bits: offset },
                    },
                ),
                Operand::Value { id: s1.next_id() },
            )
        } else {
            (s1, wide)
        };
        let (s3, out_of_bounds) = if size <= memory && offset <= memory - size {
            (
                s2.emit(
                    Instr::IntCompare {
                        pred: IntPredicate::UGT,
                        ty: IrType::I64,
                        lhs: address,
                        rhs: Operand::ConstInt { ty: IrType::I64, bits: (memory - size) as u64 },
                    },
                ),
                Operand::Value { id: s2.next_id() },
            )
        } else {
            (s2, Operand::ConstInt { ty: IrType::I1, bits: 1 })
        };
        let s4 = s3.guard(out_of_bounds);
        (
            s4.emit(Instr::ElementPtr { base: Operand::Memory, index: address }),
            Operand::Value { id: s4.next_id() },
        )
    }

    /// Checks the region of the 32-bit length `len` at the 32-bit `start`
    /// against a memory of `memory` bytes: control goes on only where
    /// `start + len`, computed in 64 bits, does not exceed the memory.  The
    /// first instruction emitted yields the zero-extended start.
    pub open spec fn checked_range(self, memory: u32, start: Operand, len: Operand) -> LoweringState {
        let first = self.next_id();
        let wide_start = Operand::Value { id: first };
        let wide_len = Operand::Value { id: (first + 1) as usize };
        let end = Operand::Value { id: (first + 2) as usize };
        let out_of_bounds = Operand::Value { id: (first + 3) as usize };
        self.emit(
            Instr::Cast { op: CastOp::ZeroExtend, from: IrType::I32, to: IrType::I64, value: start },
        ).emit(
            Instr::Cast { op: CastOp::ZeroExtend, from: IrType::I32, to: IrType::I64, value: len },
        ).emit(
            Instr::IntBinary { op: IntBinOp::Add, ty: IrType::I64, lhs: wide_start, rhs: wide_len },
        ).emit(
            Instr::IntCompare {
                pred: IntPredicate::UGT,
                ty: IrType::I64,
                lhs: end,
                rhs: Operand::ConstInt { ty: IrType::I64, bits: memory as u64 },
            },
        ).guard(out_of_bounds)
    }

    /// Pops the address and pushes the value loaded from it, after the bounds
    /// check.
    pub open spec fn load(self, env: LoweringEnv, ty: IrType, offset: u64) -> Step {
        if self.stack.len() < 1 {
            self.fail(underflow())
        } else if env.memory is None {
            self.fail(structural(StructuralError::NoMemory))
        } else {
            let (s, ptr) = self.pop().checked_address(
                env.memory->0,
                self.top(0),
                offset,
                ty.byte_size() as u64,
            );
            s.emit_value(Instr::Load { ty, ptr }).go()
        }
    }

    /// Pops the address, loads an integer of the type `from` from it, after
    /// the bounds check, and pushes it extended to `to`.
    pub open spec fn load_extend(
        self,
        env: LoweringEnv,
        from: IrType,
        to: IrType,
        signed: bool,
        offset: u64,
    ) -> Step {
        if self.stack.len() < 1 {
            self.fail(underflow())
        } else if env.memory is None {
            self.fail(structural(StructuralError::NoMemory))
        } else {
            let (s, ptr) = self.pop().checked_address(
                env.memory->0,
                self.top(0),
                offset,
                from.byte_size() as u64,
            );
            s.emit(Instr::Load { ty: from, ptr }).emit_value(
                Instr::Cast {
                    op: if signed {
                        CastOp::SignExtend
                    } else {
                        CastOp::ZeroExtend
                    },
                    from,
                    to,
                    value: Operand::Value { id: s.next_id() },
                },
            ).go()
        }
    }

    /// The value is on top, above the address.
    pub open spec fn store(self, env: LoweringEnv, ty: IrType, offset: u64) -> Step {
        if self.stack.len() < 2 {
            self.fail(underflow())
        } else if env.memory is None {
            self.fail(structural(StructuralError::NoMemory))
        } else {
            let (s, ptr) = self.pop().pop().checked_address(
                env.memory->0,
                self.top(1),
                offset,
                ty.byte_size() as u64,
            );
            s.emit(Instr::Store { ty, ptr, value: self.top(0) }).go()
        }
    }

    /// As `store`, of the low bits of the value as an integer of the type
    /// `to`.
    pub open spec fn store_truncate(
        self,
        env: LoweringEnv,
        from: IrType,
        to: IrType,
        offset: u64,
    ) -> Step {
        if self.stack.len() < 2 {
            self.fail(underflow())
        } else if env.memory is None {
            self.fail(structural(StructuralError::NoMemory))
        } else {
            let (s, ptr) = self.pop().pop().checked_address(
                env.memory->0,
                self.top(1),
                offset,
                to.byte_size() as u64,
            );
            s.emit(Instr::Cast { op: CastOp::Truncate, from, to, value: self.top(0) }).emit(
                Instr::Store { ty: to, ptr, value: Operand::Value { id: s.next_id() } },
            ).go()
        }
    }

    /// The size of the memory in pages is known when the module is lowered.
    pub open spec fn memory_size(self, env: LoweringEnv) -> Step {
        if env.memory is None {
            self.fail(structural(StructuralError::NoMemory))
        } else {
            self.push(
                Operand::ConstInt { ty: IrType::I32, bits: (env.memory->0 / PAGE_SIZE) as u64 },
            ).go()
        }
    }

    /// Growing the memory always fails: the result is -1.
    pub open spec fn memory_grow(self) -> Step {
        if self.stack.len() < 1 {
            self.fail(underflow())
        } else {
            self.pop().push(Operand::ConstInt { ty: IrType::I32, bits: 0xFFFF_FFFF }).go()
        }
    }

    /// The length is on top, above the source, above the destination.  Both
    /// regions are checked before either address is computed.
    pub open spec fn memory_copy(self, env: LoweringEnv) -> Step {
        if self.stack.len() < 3 {
            self.fail(underflow())
        } else if env.memory is None {
            self.fail(structural(StructuralError::NoMemory))
        } else {
            let len = self.top(0);
            let s0 = self.pop().pop().pop();
            let s1 = s0.checked_range(env.memory->0, self.top(2), len);
            let s2 = s1.checked_range(env.memory->0, self.top(1), len);
            s2.emit(
                Instr::ElementPtr {
                    base: Operand::Memory,
                    index: Operand::Value { id: s0.next_id() },
                },
            ).emit(
                Instr::ElementPtr {
                    base: Operand::Memory,
                    index: Operand::Value { id: s1.next_id() },
                },
            ).emit(
                Instr::MemoryMove {
                    dest: Operand::Value { id: s2.next_id() },
                    src: Operand::Value { id: (s2.next_id() + 1) as usize },
                    len,
                },
            ).go()
        }
    }

    /// The length is on top, above the byte, above the destination.
    pub open spec fn memory_fill(self, env: LoweringEnv) -> Step {
        if self.stack.len() < 3 {
            self.fail(underflow())
        } else if env.memory is None {
            self.fail(structural(StructuralError::NoMemory))
        } else {
            let len = self.top(0);
            let s0 = self.pop().pop().pop();
            let s1 = s0.checked_range(env.memory->0, self.top(2), len);
            s1.emit(
                Instr::ElementPtr {
                    base: Operand::Memory,
                    index: Operand::Value { id: s0.next_id() },
                },
            ).emit(
                Instr::Cast {
                    op: CastOp::Truncate,
                    from: IrType::I32,
                    to: IrType::I8,
                    value: self.top(1),
                },
            ).emit(
                Instr::MemorySet {
                    dest: Operand::Value { id: s1.next_id() },
                    value: Operand::Value { id: (s1.next_id() + 1) as usize },
                    len,
                },
            ).go()
        }
    }

    /// A parameter is read directly; a declared local is loaded from its
    /// cell.
    pub open spec fn local_get(self, env: LoweringEnv, index: u32) -> Step {
        if index >= env.params.len() + env.locals.len() {
            self.fail(structural(StructuralError::InvalidLocalIndex { index }))
        } else if index < env.params.len() {
            self.push(Operand::Param { index: index as usize }).go()
        } else {
            self.emit_value(
                Instr::Load { ty: env.local_type(index), ptr: env.local_cell(index) },
            ).go()
        }
    }

    /// Pops a value and stores it to the cell of a declared local.
    pub open spec fn local_set(self, env: LoweringEnv, index: u32) -> Step {
        if self.stack.len() < 1 {
            self.fail(underflow())
        } else if index >= env.params.len() + env.locals.len() {
            self.fail(structural(StructuralError::InvalidLocalIndex { index }))
        } else if index < env.params.len() {
            self.fail(structural(StructuralError::LocalNotAssignable { index }))
        } else {
            self.pop().emit(
                Instr::Store {
                    ty: env.local_type(index),
                    ptr: env.local_cell(index),
                    value: self.top(0),
                },
            ).go()
        }
    }

    /// As `local_set`, but the value stays on the stack.
    pub open spec fn local_tee(self, env: LoweringEnv, index: u32) -> Step {
        if self.stack.len() < 1 {
            self.fail(underflow())
        } else if index >= env.params.len() + env.locals.len() {
            self.fail(structural(StructuralError::InvalidLocalIndex { index }))
        } else if index < env.params.len() {
            self.fail(structural(StructuralError::LocalNotAssignable { index }))
        } else {
            self.emit(
                Instr::Store {
                    ty: env.local_type(index),
                    ptr: env.local_cell(index),
                    value: self.top(0),
                },
            ).go()
        }
    }

    /// Pushes the value loaded from the cell of a global.
    pub open spec fn global_get(self, env: LoweringEnv, index: u32) -> Step {
        if index >= env.globals.len() {
            self.fail(structural(StructuralError::InvalidGlobalIndex { index }))
        } else {
            self.emit_value(
                Instr::Load {
                    ty: env.globals[index as int].ty,
                    ptr: Operand::Global { index: index as usize },
                },
            ).go()
        }
    }

    /// Pops a value and stores it to the cell of a global.
    pub open spec fn global_set(self, env: LoweringEnv, index: u32) -> Step {
        if self.stack.len() < 1 {
            self.fail(underflow())
        } else if index >= env.globals.len() {
            self.fail(structural(StructuralError::InvalidGlobalIndex { index }))
        } else {
            self.pop().emit(
                Instr::Store {
                    ty: env.globals[index as int].ty,
                    ptr: Operand::Global { index: index as usize },
                    value: self.top(0),
                },
            ).go()
        }
    }

    /// Emits the return of the function: of the top of the stack where the
    /// function has a result, of nothing else.
    pub open spec fn emit_return(self, env: LoweringEnv, flow: Flow) -> Step {
        if env.results.len() == 0 {
            Step { state: self.emit(Instr::Return { value: None }), result: Ok(flow) }
        } else if self.stack.len() < 1 {
            self.fail(underflow())
        } else {
            Step {
                state: self.pop().emit(Instr::Return { value: Some(self.top(0)) }),
                result: Ok(flow),
            }
        }
    }

    /// Jumps into a fresh region and opens a frame with a fresh exit.
    pub open spec fn block(self) -> Step {
        let body = self.next_block();
        let end = (body + 1) as usize;
        self.append_block(BlockKind::Block).append_block(BlockKind::BlockEnd).emit(
            Instr::Jump { target: body },
        ).position_at(body).push_frame(
            ControlBlock {
                block_type: ControlBlockType::Block,
                end_block: end,
                continue_block: None,
            },
        ).go()
    }

    /// Jumps into a fresh header and opens a frame that continues there.
    pub open spec fn loop_(self) -> Step {
        let header = self.next_block();
        let end = (header + 1) as usize;
        self.append_block(BlockKind::LoopHeader).append_block(BlockKind::LoopEnd).emit(
            Instr::Jump { target: header },
        ).position_at(header).push_frame(
            ControlBlock {
                block_type: ControlBlockType::Loop,
                end_block: end,
                continue_block: Some(header),
            },
        ).go()
    }

    /// Pops the condition and branches to the then-region where it is not
    /// zero, else to the else-region; goes on in the then-region.
    pub open spec fn if_(self) -> Step {
        if self.stack.len() < 1 {
            self.fail(underflow())
        } else {
            let then_block = self.next_block();
            let else_block = (then_block + 1) as usize;
            let merge_block = (then_block + 2) as usize;
            self.pop().append_block(BlockKind::IfThen).append_block(
                BlockKind::IfElse,
            ).append_block(BlockKind::IfMerge).emit(Self::is_nonzero(self.top(0))).emit(
                Instr::Branch {
                    cond: Operand::Value { id: self.next_id() },
                    if_true: then_block,
                    if_false: else_block,
                },
            ).push_frame(
                ControlBlock {
                    block_type: ControlBlockType::If,
                    end_block: merge_block,
                    continue_block: Some(else_block),
                },
            ).position_at(then_block).go()
        }
    }

    /// Inside an if, jumps to its merge block and goes on in its
    /// else-region; anywhere else it does nothing.
    pub open spec fn else_(self) -> Step {
        if self.frames.len() > 0 && self.frames.last().block_type == ControlBlockType::If {
            let frame = self.frames.last();
            let s = self.emit(Instr::Jump { target: frame.end_block });
            match frame.continue_block {
                Some(else_block) => s.position_at(else_block).go(),
                None => s.go(),
            }
        } else {
            self.go()
        }
    }

    /// Closes the innermost frame and goes on at its end; with no frame
    /// open, this is the return of the function.
    pub open spec fn end(self, env: LoweringEnv) -> Step {
        if self.frames.len() > 0 {
            let frame = self.frames.last();
            self.pop_frame().emit(Instr::Jump { target: frame.end_block }).position_at(
                frame.end_block,
            ).go()
        } else {
            self.emit_return(env, Flow::Continue)
        }
    }

    /// Jumps to the target of the frame `depth` below the innermost, and
    /// goes on in a fresh block that nothing leads to.
    pub open spec fn br(self, depth: u32) -> Step {
        match branch_target_at(self.frames, depth) {
            None => self.fail(structural(StructuralError::InvalidBranchDepth { depth })),
            Some(target) => self.emit(Instr::Jump { target }).append_block(
                BlockKind::AfterBranch,
            ).position_at(self.next_block()).go(),
        }
    }

    /// Pops the condition and branches to the target of the frame `depth`
    /// below the innermost where it is not zero; else goes on in a fresh
    /// block.
    pub open spec fn br_if(self, depth: u32) -> Step {
        if self.stack.len() < 1 {
            self.fail(underflow())
        } else {
            match branch_target_at(self.frames, depth) {
                None => self.fail(structural(StructuralError::InvalidBranchDepth { depth })),
                Some(target) => self.pop().append_block(BlockKind::BranchContinue).emit(
                    Self::is_nonzero(self.top(0)),
                ).emit(
                    Instr::Branch {
                        cond: Operand::Value { id: self.next_id() },
                        if_true: target,
                        if_false: self.next_block(),
                    },
                ).position_at(self.next_block()).go(),
            }
        }
    }

    /// Marks the point as unreachable and goes on in a fresh block that
    /// nothing leads to.
    pub open spec fn unreachable(self) -> Step {
        self.emit(Instr::Unreachable).append_block(BlockKind::AfterUnreachable).position_at(
            self.next_block(),
        ).go()
    }

    /// Stages `args` as the arguments of the call that follows.
    pub open spec fn emit_args(self, args: Seq<Operand>) -> LoweringState {
        LoweringState {
            code: self.code + args.map_values(
                |a: Operand| Placed { block: self.cursor, instr: Instr::CallArg { value: a } },
            ),
            ..self
        }
    }

    /// Calls `callee`, whose `argc` arguments are the topmost operands, the
    /// last one on top, and pushes the result where there is one.
    pub open spec fn call_with(self, callee: Callee, argc: usize, has_result: bool) -> Step {
        if self.stack.len() < argc {
            self.fail(underflow())
        } else {
            let kept = self.stack.len() - argc;
            let staged = LoweringState { stack: self.stack.take(kept), ..self }.emit_args(
                self.stack.skip(kept),
            );
            let called = staged.emit(Instr::Call { callee, argc, has_result });
            if has_result {
                called.push(Operand::Value { id: staged.next_id() }).go()
            } else {
                called.go()
            }
        }
    }

    /// Index 0 is the recognized import where it is present; the functions
    /// of the module follow in their order.  So a call of the index `i`
    /// leads to the function at position `i`, less one where the import is
    /// present, whether that function is lowered already or not; an index
    /// beyond the last function names no function.
    pub open spec fn call(self, env: LoweringEnv, function_index: u32) -> Step {
        if env.putchar && function_index == 0 {
            self.call_with(Callee::Putchar, 1, true)
        } else {
            let index = env.local_index(function_index);
            if index < env.functions.len() {
                self.call_with(
                    Callee::Function { index: index as usize },
                    env.functions[index as int].params.len() as usize,
                    env.functions[index as int].result is Some,
                )
            } else {
                self.fail(CompileError::UnknownFunction { index })
            }
        }
    }

    /// The lowering of an operator of the given shape.
    pub open spec fn apply(self, env: LoweringEnv, shape: Shape) -> Step {
        match shape {
            Shape::Const { value } => self.constant(value),
            Shape::IntBinary { op, ty } => self.int_binary(op, ty),
            Shape::Shift { op, ty } => self.shift(op, ty),
            Shape::IntCompare { pred, ty } => self.int_compare(pred, ty),
            Shape::IntEqz { ty } => self.int_eqz(ty),
            Shape::Rotate { left, ty } => self.rotate(left, ty),
            Shape::FloatBinary { op, ty } => self.float_binary(op, ty),
            Shape::FloatCompare { pred, ty } => self.float_compare(pred, ty),
            Shape::FloatNeg { ty } => self.float_neg(ty),
            Shape::Cast { op, from, to } => self.cast(op, from, to),
            Shape::SignExtend8 => self.sign_extend_8(),
            Shape::UnaryIntrinsic { op, ty } => self.unary_intrinsic(op, ty),
            Shape::BinaryIntrinsic { op, ty } => self.binary_intrinsic(op, ty),
            Shape::LocalGet { index } => self.local_get(env, index),
            Shape::LocalSet { index } => self.local_set(env, index),
            Shape::LocalTee { index } => self.local_tee(env, index),
            Shape::GlobalGet { index } => self.global_get(env, index),
            Shape::GlobalSet { index } => self.global_set(env, index),
            Shape::Load { ty, offset } => self.load(env, ty, offset),
            Shape::LoadExtend { from, to, signed, offset } => self.load_extend(
                env,
                from,
                to,
                signed,
                offset,
            ),
            Shape::Store { ty, offset } => self.store(env, ty, offset),
            Shape::StoreTruncate { from, to, offset } => self.store_truncate(
                env,
                from,
                to,
                offset,
            ),
            Shape::MemorySize => self.memory_size(env),
            Shape::MemoryGrow => self.memory_grow(),
            Shape::MemoryCopy => self.memory_copy(env),
            Shape::MemoryFill => self.memory_fill(env),
            Shape::Call { function_index } => self.call(env, function_index),
            Shape::Return => self.emit_return(env, Flow::Stop),
            Shape::Drop => self.drop_top(),
            Shape::Select => self.select(),
            Shape::Block => self.block(),
            Shape::Loop => self.loop_(),
            Shape::If => self.if_(),
            Shape::Else => self.else_(),
            Shape::End => self.end(env),
            Shape::Br { depth } => self.br(depth),
            Shape::BrIf { depth } => self.br_if(depth),
            Shape::RefNull => self.ref_null(),
            Shape::RefIsNull => self.ref_is_null(),
            Shape::Unreachable => self.unreachable(),
            Shape::Unsupported { opcode } => self.fail(
                CompileError::UnsupportedOperator { opcode },
            ),
        }
    }

    /// The lowering of one operator: that of an operator of its shape.  The
    /// definition is opaque; `reveal` it where it is needed.
    #[verifier::opaque]
    pub open spec fn step(self, env: LoweringEnv, op: Operator) -> Step {
        self.apply(env, shape_of(op))
    }

    /// The lowering of a sequence of operators, one after the other, up to
    /// the first that fails or returns from the function.
    pub open spec fn run(self, env: LoweringEnv, ops: Seq<Operator>) -> Step
        decreases ops.len(),
    {
        if ops.len() == 0 {
            self.go()
        } else {
            let first = self.step(env, ops[0]);
            if first.result == Ok::<Flow, CompileError>(Flow::Continue) {
                first.state.run(env, ops.drop_first())
            } else {
                first
            }
        }
    }

    /// The state in which the lowering of a function begins: the entry
    /// block, and two empty stacks.  In the entry block one cell is reserved
    /// for each declared local, in the order of the locals; then the zero of
    /// its type is stored to each cell.
    pub open spec fn start(env: LoweringEnv) -> LoweringState {
        LoweringState {
            blocks: seq![BlockKind::Entry],
            code: env.locals.map_values(
                |ty: ValType| Placed { block: 0, instr: Instr::Alloca { ty: ty.ir_type() } },
            ) + Seq::new(env.locals.len(), |i: int| env.zeroing(i)),
            cursor: 0,
            stack: Seq::empty(),
            frames: Seq::empty(),
        }
    }
}

impl LoweringEnv {
    /// The type of the declared local with the index `index`, which counts
    /// the parameters too.
    pub open spec fn local_type(self, index: u32) -> IrType {
        self.locals[index - self.params.len()].ir_type()
    }

    /// The cell of the declared local with the index `index`: the cells are
    /// the first instructions of the function, in the order of the locals.
    pub open spec fn local_cell(self, index: u32) -> Operand {
        Operand::Value { id: (index - self.params.len()) as usize }
    }

    /// The instruction that stores the zero of its type to the cell of the
    /// declared local at position `i` among the declared locals.
    pub open spec fn zeroing(self, i: int) -> Placed {
        Placed {
            block: 0,
            instr: Instr::Store {
                ty: self.locals[i].ir_type(),
                ptr: Operand::Value { id: i as usize },
                value: self.locals[i].ir_type().zero(),
            },
        }
    }

    /// The index of a call among the functions of the module, the imported
    /// one left out.
    pub open spec fn local_index(self, function_index: u32) -> u32 {
        if self.putchar {
            (function_index - 1) as u32
        } else {
            function_index
        }
    }
}

/// The lowering of one function in progress: the blocks and instructions
/// emitted so far, the insertion point, and the two stacks.
#[derive(Debug)]
pub struct FunctionLowering {
    pub blocks: Vec<BlockKind>,
    pub code: Vec<Placed>,
    pub cursor: usize,
    pub value_stack: Vec<Operand>,
    pub control_stack: Vec<ControlBlock>,
}

impl View for FunctionLowering {
    type V = LoweringState;

    open spec fn view(&self) -> LoweringState {
        LoweringState {
            blocks: self.blocks@,
            code: self.code@,
            cursor: self.cursor,
            stack: self.value_stack@,
            frames: self.control_stack@,
        }
    }
}

impl FunctionLowering {
    fn emit(&mut self, instr: Instr) -> (id: usize)
        ensures
            final(self)@ == old(self)@.emit(instr),
            id == old(self)@.next_id(),
            id == old(self)@.code.len(),
    {
        let id = self.code.len();
        self.code.push(Placed { block: self.cursor, instr });
        id
    }

    fn push(&mut self, value: Operand)
        ensures
            final(self)@ == old(self)@.push(value),
    {
        self.value_stack.push(value);
    }

    fn emit_value(&mut self, instr: Instr)
        ensures
            final(self)@ == old(self)@.emit_value(instr),
    {
        let id = self.emit(instr);
        self.push(Operand::Value { id });
    }

    fn pop(&mut self) -> (value: Operand)
        requires
            old(self).value_stack.len() > 0,
        ensures
            final(self)@ == old(self)@.pop(),
            value == old(self)@.top(0),
    {
        self.value_stack.pop().unwrap()
    }

    fn emit_truth(&mut self, first: Instr)
        ensures
            final(self)@ == old(self)@.emit_truth(first),
    {
        let id = self.emit(first);
        self.emit_value(
            Instr::Cast {
                op: CastOp::ZeroExtend,
                from: IrType::I1,
                to: IrType::I32,
                value: Operand::Value { id },
            },
        );
    }

    fn is_nonzero(value: Operand) -> (instr: Instr)
        ensures
            instr == LoweringState::is_nonzero(value),
    {
        Instr::IntCompare {
            pred: IntPredicate::NE,
            ty: IrType::I32,
            lhs: value,
            rhs: Operand::ConstInt { ty: IrType::I32, bits: 0 },
        }
    }

    fn lower_int_binary(&mut self, op: IntBinOp, ty: IrType) -> (r: Result<Flow, CompileError>)
        ensures
            (Step { state: final(self)@, result: r }) == old(self)@.int_binary(op, ty),
    {
        if self.value_stack.len() < 2 {
            return Err(CompileError::StackUnderflow);
        }
        let rhs = self.pop();
        let lhs = self.pop();
        self.emit_value(Instr::IntBinary { op, ty, lhs, rhs });
        Ok(Flow::Continue)
    }

    fn lower_shift(&mut self, op: IntBinOp, ty: IrType) -> (r: Result<Flow, CompileError>)
        ensures
            (Step { state: final(self)@, result: r }) == old(self)@.shift(op, ty),
    {
        if self.value_stack.len() < 2 {
            return Err(CompileError::StackUnderflow);
        }
        let amount = self.pop();
        let value = self.pop();
        let masked = self.emit(
            Instr::IntBinary { op: IntBinOp::And, ty, lhs: amount, rhs: amount_mask(ty) },
        );
        self.emit_value(
            Instr::IntBinary { op, ty, lhs: value, rhs: Operand::Value { id: masked } },
        );
        Ok(Flow::Continue)
    }

    fn lower_int_compare(&mut self, pred: IntPredicate, ty: IrType) -> (r: Result<
        Flow,
        CompileError,
    >)
        ensures
            (Step { state: final(self)@, result: r }) == old(self)@.int_compare(pred, ty),
    {
        if self.value_stack.len() < 2 {
            return Err(CompileError::StackUnderflow);
        }
        let rhs = self.pop();
        let lhs = self.pop();
        self.emit_truth(Instr::IntCompare { pred, ty, lhs, rhs });
        Ok(Flow::Continue)
    }

    fn lower_int_eqz(&mut self, ty: IrType) -> (r: Result<Flow, CompileError>)
        ensures
            (Step { state: final(self)@, result: r }) == old(self)@.int_eqz(ty),
    {
        if self.value_stack.len() < 1 {
            return Err(CompileError::StackUnderflow);
        }
        let value = self.pop();
        self.emit_truth(
            Instr::IntCompare {
                pred: IntPredicate::EQ,
                ty,
                lhs: value,
                rhs: Operand::ConstInt { ty, bits: 0 },
            },
        );
        Ok(Flow::Continue)
    }

    fn lower_rotate(&mut self, left: bool, ty: IrType) -> (r: Result<Flow, CompileError>)
        ensures
            (Step { state: final(self)@, result: r }) == old(self)@.rotate(left, ty),
    {
        if self.value_stack.len() < 2 {
            return Err(CompileError::StackUnderflow);
        }
        let amount = self.pop();
        let value = self.pop();
        let width = Operand::ConstInt { ty, bits: int_width(ty) };
        let (toward, back) = if left {
            (IntBinOp::Shl, IntBinOp::LShr)
        } else {
            (IntBinOp::LShr, IntBinOp::Shl)
        };
        let masked = self.emit(
            Instr::IntBinary { op: IntBinOp::URem, ty, lhs: amount, rhs: width },
        );
        let masked = Operand::Value { id: masked };
        let near = self.emit(Instr::IntBinary { op: toward, ty, lhs: value, rhs: masked });
        let rest = self.emit(Instr::IntBinary { op: IntBinOp::Sub, ty, lhs: width, rhs: masked });
        let opposite = self.emit(
            Instr::IntBinary {
                op: IntBinOp::And,
                ty,
                lhs: Operand::Value { id: rest },
                rhs: amount_mask(ty),
            },
        );
        let far = self.emit(
            Instr::IntBinary { op: back, ty, lhs: value, rhs: Operand::Value { id: opposite } },
        );
        self.emit_value(
            Instr::IntBinary {
                op: IntBinOp::Or,
                ty,
                lhs: Operand::Value { id: near },
                rhs: Operand::Value { id: far },
            },
        );
        Ok(Flow::Continue)
    }

    fn lower_float_binary(&mut self, op: FloatBinOp, ty: IrType) -> (r: Result<
        Flow,
        CompileError,
    >)
        ensures
            (Step { state: final(self)@, result: r }) == old(self)@.float_binary(op, ty),
    {
        if self.value_stack.len() < 2 {
            return Err(CompileError::StackUnderflow);
        }
        let rhs = self.pop();
        let lhs = self.pop();
        self.emit_value(Instr::FloatBinary { op, ty, lhs, rhs });
        Ok(Flow::Continue)
    }

    fn lower_float_compare(&mut self, pred: FloatPredicate, ty: IrType) -> (r: Result<
        Flow,
        CompileError,
    >)
        ensures
            (Step { state: final(self)@, result: r }) == old(self)@.float_compare(pred, ty),
    {
        if self.value_stack.len() < 2 {
            return Err(CompileError::StackUnderflow);
        }
        let rhs = self.pop();
        let lhs = self.pop();
        self.emit_truth(Instr::FloatCompare { pred, ty, lhs, rhs });
        Ok(Flow::Continue)
    }

    fn lower_float_neg(&mut self, ty: IrType) -> (r: Result<Flow, CompileError>)
        ensures
            (Step { state: final(self)@, result: r }) == old(self)@.float_neg(ty),
    {
        if self.value_stack.len() < 1 {
            return Err(CompileError::StackUnderflow);
        }
        let value = self.pop();
        self.emit_value(Instr::FloatNeg { ty, value });
        Ok(Flow::Continue)
    }

    fn lower_cast(&mut self, op: CastOp, from: IrType, to: IrType) -> (r: Result<
        Flow,
        CompileError,
    >)
        ensures
            (Step { state: final(self)@, result: r }) == old(self)@.cast(op, from, to),
    {
        if self.value_stack.len() < 1 {
            return Err(CompileError::StackUnderflow);
        }
        let value = self.pop();
        self.emit_value(Instr::Cast { op, from, to, value });
        Ok(Flow::Continue)
    }

    fn lower_unary_intrinsic(&mut self, op: UnaryIntrinsic, ty: IrType) -> (r: Result<
        Flow,
        CompileError,
    >)
        ensures
            (Step { state: final(self)@, result: r }) == old(self)@.unary_intrinsic(op, ty),
    {
        if self.value_stack.len() < 1 {
            return Err(CompileError::StackUnderflow);
        }
        let value = self.pop();
        self.emit_value(Instr::UnaryIntrinsic { op, ty, value });
        Ok(Flow::Continue)
    }

    fn lower_binary_intrinsic(&mut self, op: BinaryIntrinsic, ty: IrType) -> (r: Result<
        Flow,
        CompileError,
    >)
        ensures
            (Step { state: final(self)@, result: r }) == old(self)@.binary_intrinsic(op, ty),
    {
        if self.value_stack.len() < 2 {
            return Err(CompileError::StackUnderflow);
        }
        let rhs = self.pop();
        let lhs = self.pop();
        self.emit_value(Instr::BinaryIntrinsic { op, ty, lhs, rhs });
        Ok(Flow::Continue)
    }

    fn lower_sign_extend_8(&mut self) -> (r: Result<Flow, CompileError>)
        ensures
            (Step { state: final(self)@, result: r }) == old(self)@.sign_extend_8(),
    {
        if self.value_stack.len() < 1 {
            return Err(CompileError::StackUnderflow);
        }
        let value = self.pop();
        let masked = self.emit(
            Instr::IntBinary {
                op: IntBinOp::And,
                ty: IrType::I32,
                lhs: value,
                rhs: Operand::ConstInt { ty: IrType::I32, bits: 0xFF },
            },
        );
        let low = self.emit(
            Instr::Cast {
                op: CastOp::Truncate,
                from: IrType::I32,
                to: IrType::I8,
                value: Operand::Value { id: masked },
            },
        );
        self.emit_value(
            Instr::Cast {
                op: CastOp::SignExtend,
                from: IrType::I8,
                to: IrType::I32,
                value: Operand::Value { id: low },
            },
        );
        Ok(Flow::Continue)
    }

    fn lower_drop(&mut self) -> (r: Result<Flow, CompileError>)
        ensures
            (Step { state: final(self)@, result: r }) == old(self)@.drop_top(),
    {
        if self.value_stack.len() < 1 {
            return Err(CompileError::StackUnderflow);
        }
        let _ = self.pop();
        Ok(Flow::Continue)
    }

    fn lower_select(&mut self) -> (r: Result<Flow, CompileError>)
        ensures
            (Step { state: final(self)@, result: r }) == old(self)@.select(),
    {
        if self.value_stack.len() < 3 {
            return Err(CompileError::StackUnderflow);
        }
        let condition = self.pop();
        let upper = self.pop();
        let lower = self.pop();
        let cond = self.emit(Self::is_nonzero(condition));
        self.emit_value(
            Instr::Select { cond: Operand::Value { id: cond }, if_true: upper, if_false: lower },
        );
        Ok(Flow::Continue)
    }

    fn lower_ref_is_null(&mut self) -> (r: Result<Flow, CompileError>)
        ensures
            (Step { state: final(self)@, result: r }) == old(self)@.ref_is_null(),
    {
        if self.value_stack.len() < 1 {
            return Err(CompileError::StackUnderflow);
        }
        let value = self.pop();
        self.emit_truth(
            Instr::IntCompare {
                pred: IntPredicate::EQ,
                ty: IrType::Ptr,
                lhs: value,
                rhs: Operand::NullPtr,
            },
        );
        Ok(Flow::Continue)
    }

    fn append_block(&mut self, kind: BlockKind) -> (block: usize)
        ensures
            final(self)@ == old(self)@.append_block(kind),
            block == old(self)@.next_block(),
            block == old(self)@.blocks.len(),
    {
        let block = self.blocks.len();
        self.blocks.push(kind);
        block
    }

    fn position_at(&mut self, block: usize)
        ensures
            final(self)@ == old(self)@.position_at(block),
    {
        self.cursor = block;
    }

    fn guard(&mut self, out_of_bounds: Operand)
        ensures
            final(self)@ == old(self)@.guard(out_of_bounds),
    {
        let trap = self.append_block(BlockKind::OutOfBounds);
        let ok = self.append_block(BlockKind::InBounds);
        self.emit(Instr::Branch { cond: out_of_bounds, if_true: trap, if_false: ok });
        self.position_at(trap);
        self.emit(Instr::Trap);
        self.position_at(ok);
    }

    fn checked_address(&mut self, memory: u32, base: Operand, offset: u64, size: u64) -> (ptr:
        Operand)
        ensures
            (final(self)@, ptr) == old(self)@.checked_address(memory, base, offset, size),
    {
        let wide = self.emit(
            Instr::Cast { op: CastOp::ZeroExtend, from: IrType::I32, to: IrType::I64, value: base },
        );
        let wide = Operand::Value { id: wide };
        let address = if offset > 0 {
            let sum = self.emit(
                Instr::IntBinary {
                    op: IntBinOp::Add,
                    ty: IrType::I64,
                    lhs: wide,
                    rhs: Operand::ConstInt { ty: IrType::I64, bits: offset },
                },
            );
            Operand::Value { id: sum }
        } else {
            wide
        };
        let memory_bytes: u64 = memory as u64;
        let out_of_bounds = if size <= memory_bytes && offset <= memory_bytes - size {
            let exceeds = self.emit(
                Instr::IntCompare {
                    pred: IntPredicate::UGT,
                    ty: IrType::I64,
                    lhs: address,
                    rhs: Operand::ConstInt { ty: IrType::I64, bits: memory_bytes - size },
                },
            );
            Operand::Value { id: exceeds }
        } else {
            Operand::ConstInt { ty: IrType::I1, bits: 1 }
        };
        self.guard(out_of_bounds);
        let ptr = self.emit(Instr::ElementPtr { base: Operand::Memory, index: address });
        Operand::Value { id: ptr }
    }

    fn checked_range(&mut self, memory: u32, start: Operand, len: Operand) -> (wide_start: Operand)
        ensures
            final(self)@ == old(self)@.checked_range(memory, start, len),
            wide_start == (Operand::Value { id: old(self)@.next_id() }),
            final(self)@.code.len() == old(self)@.code.len() + 6,
    {
        let wide_start = self.emit(
            Instr::Cast { op: CastOp::ZeroExtend, from: IrType::I32, to: IrType::I64, value: start },
        );
        let wide_start = Operand::Value { id: wide_start };
        let wide_len = self.emit(
            Instr::Cast { op: CastOp::ZeroExtend, from: IrType::I32, to: IrType::I64, value: len },
        );
        let end = self.emit(
            Instr::IntBinary {
                op: IntBinOp::Add,
                ty: IrType::I64,
                lhs: wide_start,
                rhs: Operand::Value { id: wide_len },
            },
        );
        let exceeds = self.emit(
            Instr::IntCompare {
                pred: IntPredicate::UGT,
                ty: IrType::I64,
                lhs: Operand::Value { id: end },
                rhs: Operand::ConstInt { ty: IrType::I64, bits: memory as u64 },
            },
        );
        self.guard(Operand::Value { id: exceeds });
        wide_start
    }

    fn lower_load(&mut self, env: &Env, ty: IrType, offset: u64) -> (r: Result<Flow, CompileError>)
        ensures
            (Step { state: final(self)@, result: r }) == old(self)@.load(env@, ty, offset),
    {
        if self.value_stack.len() < 1 {
            return Err(CompileError::StackUnderflow);
        }
        let memory = match env.memory {
            Some(bytes) => bytes,
            None => {
                return Err(CompileError::StructuralError(StructuralError::NoMemory));
            },
        };
        let base = self.pop();
        let ptr = self.checked_address(memory, base, offset, ty.size_in_bytes());
        self.emit_value(Instr::Load { ty, ptr });
        Ok(Flow::Continue)
    }

    fn lower_load_extend(
        &mut self,
        env: &Env,
        from: IrType,
        to: IrType,
        signed: bool,
        offset: u64,
    ) -> (r: Result<Flow, CompileError>)
        ensures
            (Step { state: final(self)@, result: r }) == old(self)@.load_extend(
                env@,
                from,
                to,
                signed,
                offset,
            ),
    {
        if self.value_stack.len() < 1 {
            return Err(CompileError::StackUnderflow);
        }
        let memory = match env.memory {
            Some(bytes) => bytes,
            None => {
                return Err(CompileError::StructuralError(StructuralError::NoMemory));
            },
        };
        let base = self.pop();
        let ptr = self.checked_address(memory, base, offset, from.size_in_bytes());
        let loaded = self.emit(Instr::Load { ty: from, ptr });
        let op = if signed {
            CastOp::SignExtend
        } else {
            CastOp::ZeroExtend
        };
        self.emit_value(Instr::Cast { op, from, to, value: Operand::Value { id: loaded } });
        Ok(Flow::Continue)
    }

    fn lower_store(&mut self, env: &Env, ty: IrType, offset: u64) -> (r: Result<Flow, CompileError>)
        ensures
            (Step { state: final(self)@, result: r }) == old(self)@.store(env@, ty, offset),
    {
        if self.value_stack.len() < 2 {
            return Err(CompileError::StackUnderflow);
        }
        let memory = match env.memory {
            Some(bytes) => bytes,
            None => {
                return Err(CompileError::StructuralError(StructuralError::NoMemory));
            },
        };
        let value = self.pop();
        let base = self.pop();
        let ptr = self.checked_address(memory, base, offset, ty.size_in_bytes());
        self.emit(Instr::Store { ty, ptr, value });
        Ok(Flow::Continue)
    }

    fn lower_store_truncate(&mut self, env: &Env, from: IrType, to: IrType, offset: u64) -> (r:
        Result<Flow, CompileError>)
        ensures
            (Step { state: final(self)@, result: r }) == old(self)@.store_truncate(
                env@,
                from,
                to,
                offset,
            ),
    {
        if self.value_stack.len() < 2 {
            return Err(CompileError::StackUnderflow);
        }
        let memory = match env.memory {
            Some(bytes) => bytes,
            None => {
                return Err(CompileError::StructuralError(StructuralError::NoMemory));
            },
        };
        let value = self.pop();
        let base = self.pop();
        let ptr = self.checked_address(memory, base, offset, to.size_in_bytes());
        let low = self.emit(Instr::Cast { op: CastOp::Truncate, from, to, value });
        self.emit(Instr::Store { ty: to, ptr, value: Operand::Value { id: low } });
        Ok(Flow::Continue)
    }

    fn lower_memory_size(&mut self, env: &Env) -> (r: Result<Flow, CompileError>)
        ensures
            (Step { state: final(self)@, result: r }) == old(self)@.memory_size(env@),
    {
        let memory = match env.memory {
            Some(bytes) => bytes,
            None => {
                return Err(CompileError::StructuralError(StructuralError::NoMemory));
            },
        };
        self.push(Operand::ConstInt { ty: IrType::I32, bits: (memory / PAGE_SIZE) as u64 });
        Ok(Flow::Continue)
    }

    fn lower_memory_grow(&mut self) -> (r: Result<Flow, CompileError>)
        ensures
            (Step { state: final(self)@, result: r }) == old(self)@.memory_grow(),
    {
        if self.value_stack.len() < 1 {
            return Err(CompileError::StackUnderflow);
        }
        let _ = self.pop();
        self.push(Operand::ConstInt { ty: IrType::I32, bits: 0xFFFF_FFFF });
        Ok(Flow::Continue)
    }

    fn lower_memory_copy(&mut self, env: &Env) -> (r: Result<Flow, CompileError>)
        ensures
            (Step { state: final(self)@, result: r }) == old(self)@.memory_copy(env@),
    {
        if self.value_stack.len() < 3 {
            return Err(CompileError::StackUnderflow);
        }
        let memory = match env.memory {
            Some(bytes) => bytes,
            None => {
                return Err(CompileError::StructuralError(StructuralError::NoMemory));
            },
        };
        let len = self.pop();
        let src = self.pop();
        let dest = self.pop();
        let wide_dest = self.checked_range(memory, dest, len);
        let wide_src = self.checked_range(memory, src, len);
        let dest = self.emit(Instr::ElementPtr { base: Operand::Memory, index: wide_dest });
        let src = self.emit(Instr::ElementPtr { base: Operand::Memory, index: wide_src });
        self.emit(
            Instr::MemoryMove {
                dest: Operand::Value { id: dest },
                src: Operand::Value { id: src },
                len,
            },
        );
        Ok(Flow::Continue)
    }

    fn lower_memory_fill(&mut self, env: &Env) -> (r: Result<Flow, CompileError>)
        ensures
            (Step { state: final(self)@, result: r }) == old(self)@.memory_fill(env@),
    {
        if self.value_stack.len() < 3 {
            return Err(CompileError::StackUnderflow);
        }
        let memory = match env.memory {
            Some(bytes) => bytes,
            None => {
                return Err(CompileError::StructuralError(StructuralError::NoMemory));
            },
        };
        let len = self.pop();
        let value = self.pop();
        let dest = self.pop();
        let wide_dest = self.checked_range(memory, dest, len);
        let dest = self.emit(Instr::ElementPtr { base: Operand::Memory, index: wide_dest });
        let byte = self.emit(
            Instr::Cast { op: CastOp::Truncate, from: IrType::I32, to: IrType::I8, value },
        );
        self.emit(
            Instr::MemorySet {
                dest: Operand::Value { id: dest },
                value: Operand::Value { id: byte },
                len,
            },
        );
        Ok(Flow::Continue)
    }

    fn lower_local_get(&mut self, env: &Env, index: u32) -> (r: Result<Flow, CompileError>)
        ensures
            (Step { state: final(self)@, result: r }) == old(self)@.local_get(env@, index),
    {
        let at = index as usize;
        let params = env.params.len();
        if at < params {
            self.push(Operand::Param { index: at });
            return Ok(Flow::Continue);
        }
        let declared = at - params;
        if declared >= env.locals.len() {
            return Err(
                CompileError::StructuralError(StructuralError::InvalidLocalIndex { index }),
            );
        }
        let ty = env.locals[declared].to_ir_type();
        self.emit_value(Instr::Load { ty, ptr: Operand::Value { id: declared } });
        Ok(Flow::Continue)
    }

    fn lower_local_store(&mut self, env: &Env, index: u32, keep: bool) -> (r: Result<
        Flow,
        CompileError,
    >)
        ensures
            (Step { state: final(self)@, result: r }) == if keep {
                old(self)@.local_tee(env@, index)
            } else {
                old(self)@.local_set(env@, index)
            },
    {
        if self.value_stack.len() < 1 {
            return Err(CompileError::StackUnderflow);
        }
        let at = index as usize;
        let params = env.params.len();
        if at < params {
            return Err(
                CompileError::StructuralError(StructuralError::LocalNotAssignable { index }),
            );
        }
        let declared = at - params;
        if declared >= env.locals.len() {
            return Err(
                CompileError::StructuralError(StructuralError::InvalidLocalIndex { index }),
            );
        }
        let ty = env.locals[declared].to_ir_type();
        let value = if keep {
            self.value_stack[self.value_stack.len() - 1]
        } else {
            self.pop()
        };
        self.emit(Instr::Store { ty, ptr: Operand::Value { id: declared }, value });
        Ok(Flow::Continue)
    }

    fn lower_global_get(&mut self, env: &Env, index: u32) -> (r: Result<Flow, CompileError>)
        ensures
            (Step { state: final(self)@, result: r }) == old(self)@.global_get(env@, index),
    {
        let at = index as usize;
        if at >= env.globals.len() {
            return Err(
                CompileError::StructuralError(StructuralError::InvalidGlobalIndex { index }),
            );
        }
        let ty = env.globals[at].ty;
        self.emit_value(Instr::Load { ty, ptr: Operand::Global { index: at } });
        Ok(Flow::Continue)
    }

    fn lower_global_set(&mut self, env: &Env, index: u32) -> (r: Result<Flow, CompileError>)
        ensures
            (Step { state: final(self)@, result: r }) == old(self)@.global_set(env@, index),
    {
        if self.value_stack.len() < 1 {
            return Err(CompileError::StackUnderflow);
        }
        let at = index as usize;
        if at >= env.globals.len() {
            return Err(
                CompileError::StructuralError(StructuralError::InvalidGlobalIndex { index }),
            );
        }
        let ty = env.globals[at].ty;
        let value = self.pop();
        self.emit(Instr::Store { ty, ptr: Operand::Global { index: at }, value });
        Ok(Flow::Continue)
    }

    fn lower_return(&mut self, env: &Env, flow: Flow) -> (r: Result<Flow, CompileError>)
        ensures
            (Step { state: final(self)@, result: r }) == old(self)@.emit_return(env@, flow),
    {
        if env.results.len() == 0 {
            self.emit(Instr::Return { value: None });
            return Ok(flow);
        }
        if self.value_stack.len() < 1 {
            return Err(CompileError::StackUnderflow);
        }
        let value = self.pop();
        self.emit(Instr::Return { value: Some(value) });
        Ok(flow)
    }

    fn lower_block(&mut self) -> (r: Result<Flow, CompileError>)
        ensures
            (Step { state: final(self)@, result: r }) == old(self)@.block(),
    {
        let body = self.append_block(BlockKind::Block);
        let end = self.append_block(BlockKind::BlockEnd);
        self.emit(Instr::Jump { target: body });
        self.position_at(body);
        self.control_stack.push(
            ControlBlock {
                block_type: ControlBlockType::Block,
                end_block: end,
                continue_block: None,
            },
        );
        Ok(Flow::Continue)
    }

    fn lower_loop(&mut self) -> (r: Result<Flow, CompileError>)
        ensures
            (Step { state: final(self)@, result: r }) == old(self)@.loop_(),
    {
        let header = self.append_block(BlockKind::LoopHeader);
        let end = self.append_block(BlockKind::LoopEnd);
        self.emit(Instr::Jump { target: header });
        self.position_at(header);
        self.control_stack.push(
            ControlBlock {
                block_type: ControlBlockType::Loop,
                end_block: end,
                continue_block: Some(header),
            },
        );
        Ok(Flow::Continue)
    }

    fn lower_if(&mut self) -> (r: Result<Flow, CompileError>)
        ensures
            (Step { state: final(self)@, result: r }) == old(self)@.if_(),
    {
        if self.value_stack.len() < 1 {
            return Err(CompileError::StackUnderflow);
        }
        let condition = self.pop();
        let then_block = self.append_block(BlockKind::IfThen);
        let else_block = self.append_block(BlockKind::IfElse);
        let merge_block = self.append_block(BlockKind::IfMerge);
        let cond = self.emit(Self::is_nonzero(condition));
        self.emit(
            Instr::Branch {
                cond: Operand::Value { id: cond },
                if_true: then_block,
                if_false: else_block,
            },
        );
        self.control_stack.push(
            ControlBlock {
                block_type: ControlBlockType::If,
                end_block: merge_block,
                continue_block: Some(else_block),
            },
        );
        self.position_at(then_block);
        Ok(Flow::Continue)
    }

    fn lower_else(&mut self) -> (r: Result<Flow, CompileError>)
        ensures
            (Step { state: final(self)@, result: r }) == old(self)@.else_(),
    {
        let open = self.control_stack.len();
        if open == 0 {
            return Ok(Flow::Continue);
        }
        let frame = self.control_stack[open - 1];
        match frame.block_type {
            ControlBlockType::If => {
                self.emit(Instr::Jump { target: frame.end_block });
                match frame.continue_block {
                    Some(else_block) => {
                        self.position_at(else_block);
                    },
                    None => {},
                }
            },
            _ => {},
        }
        Ok(Flow::Continue)
    }

    fn lower_end(&mut self, env: &Env) -> (r: Result<Flow, CompileError>)
        ensures
            (Step { state: final(self)@, result: r }) == old(self)@.end(env@),
    {
        match self.control_stack.pop() {
            Some(frame) => {
                self.emit(Instr::Jump { target: frame.end_block });
                self.position_at(frame.end_block);
                Ok(Flow::Continue)
            },
            None => self.lower_return(env, Flow::Continue),
        }
    }

    fn lower_br(&mut self, depth: u32) -> (r: Result<Flow, CompileError>)
        ensures
            (Step { state: final(self)@, result: r }) == old(self)@.br(depth),
    {
        let target = match get_branch_target(&self.control_stack, depth) {
            Some(target) => target,
            None => {
                return Err(
                    CompileError::StructuralError(StructuralError::InvalidBranchDepth { depth }),
                );
            },
        };
        self.emit(Instr::Jump { target });
        let after = self.append_block(BlockKind::AfterBranch);
        self.position_at(after);
        Ok(Flow::Continue)
    }

    fn lower_br_if(&mut self, depth: u32) -> (r: Result<Flow, CompileError>)
        ensures
            (Step { state: final(self)@, result: r }) == old(self)@.br_if(depth),
    {
        if self.value_stack.len() < 1 {
            return Err(CompileError::StackUnderflow);
        }
        let target = match get_branch_target(&self.control_stack, depth) {
            Some(target) => target,
            None => {
                return Err(
                    CompileError::StructuralError(StructuralError::InvalidBranchDepth { depth }),
                );
            },
        };
        let condition = self.pop();
        let fallthrough = self.append_block(BlockKind::BranchContinue);
        let cond = self.emit(Self::is_nonzero(condition));
        self.emit(
            Instr::Branch { cond: Operand::Value { id: cond }, if_true: target, if_false: fallthrough },
        );
        self.position_at(fallthrough);
        Ok(Flow::Continue)
    }

    fn lower_unreachable(&mut self) -> (r: Result<Flow, CompileError>)
        ensures
            (Step { state: final(self)@, result: r }) == old(self)@.unreachable(),
    {
        self.emit(Instr::Unreachable);
        let after = self.append_block(BlockKind::AfterUnreachable);
        self.position_at(after);
        Ok(Flow::Continue)
    }

    fn lower_call_with(&mut self, callee: Callee, argc: usize, has_result: bool) -> (r: Result<
        Flow,
        CompileError,
    >)
        ensures
            (Step { state: final(self)@, result: r }) == old(self)@.call_with(
                callee,
                argc,
                has_result,
            ),
    {
        let depth = self.value_stack.len();
        if depth < argc {
            return Err(CompileError::StackUnderflow);
        }
        let kept = depth - argc;
        let ghost before = self@;
        let mut at = kept;
        while at < depth
            invariant
                kept <= at <= depth,
                depth == before.stack.len(),
                self@.stack == before.stack,
                self@.blocks == before.blocks,
                self@.cursor == before.cursor,
                self@.frames == before.frames,
                self@.code == before.code + before.stack.subrange(kept as int, at as int).map_values(
                    |a: Operand| Placed { block: before.cursor, instr: Instr::CallArg { value: a } },
                ),
            decreases depth - at,
        {
            let value = self.value_stack[at];
            self.emit(Instr::CallArg { value });
            at = at + 1;
        }
        assert(before.stack.subrange(kept as int, depth as int) == before.stack.skip(kept as int));
        self.value_stack.truncate(kept);
        let result = self.emit(Instr::Call { callee, argc, has_result });
        if has_result {
            self.push(Operand::Value { id: result });
        }
        Ok(Flow::Continue)
    }

    fn lower_call(&mut self, env: &Env, function_index: u32) -> (r: Result<Flow, CompileError>)
        ensures
            (Step { state: final(self)@, result: r }) == old(self)@.call(env@, function_index),
    {
        if env.putchar && function_index == 0 {
            return self.lower_call_with(Callee::Putchar, 1, true);
        }
        let index = if env.putchar {
            function_index - 1
        } else {
            function_index
        };
        let at = index as usize;
        if at < env.functions.len() {
            let argc = env.functions[at].params.len();
            let has_result = env.functions[at].result.is_some();
            self.lower_call_with(Callee::Function { index: at }, argc, has_result)
        } else {
            Err(CompileError::UnknownFunction { index })
        }
    }

    /// Lowers an operator of the given shape.
    pub fn lower_shape(&mut self, env: &Env, shape: Shape) -> (r: Result<Flow, CompileError>)
        ensures
            (Step { state: final(self)@, result: r }) == old(self)@.apply(env@, shape),
    {
        match shape {
            Shape::Const { value } => {
                self.push(value);
                Ok(Flow::Continue)
            },
            Shape::IntBinary { op, ty } => self.lower_int_binary(op, ty),
            Shape::Shift { op, ty } => self.lower_shift(op, ty),
            Shape::IntCompare { pred, ty } => self.lower_int_compare(pred, ty),
            Shape::IntEqz { ty } => self.lower_int_eqz(ty),
            Shape::Rotate { left, ty } => self.lower_rotate(left, ty),
            Shape::FloatBinary { op, ty } => self.lower_float_binary(op, ty),
            Shape::FloatCompare { pred, ty } => self.lower_float_compare(pred, ty),
            Shape::FloatNeg { ty } => self.lower_float_neg(ty),
            Shape::Cast { op, from, to } => self.lower_cast(op, from, to),
            Shape::SignExtend8 => self.lower_sign_extend_8(),
            Shape::UnaryIntrinsic { op, ty } => self.lower_unary_intrinsic(op, ty),
            Shape::BinaryIntrinsic { op, ty } => self.lower_binary_intrinsic(op, ty),
            Shape::LocalGet { index } => self.lower_local_get(env, index),
            Shape::LocalSet { index } => self.lower_local_store(env, index, false),
            Shape::LocalTee { index } => self.lower_local_store(env, index, true),
            Shape::GlobalGet { index } => self.lower_global_get(env, index),
            Shape::GlobalSet { index } => self.lower_global_set(env, index),
            Shape::Load { ty, offset } => self.lower_load(env, ty, offset),
            Shape::LoadExtend { from, to, signed, offset } => self.lower_load_extend(
                env,
                from,
                to,
                signed,
                offset,
            ),
            Shape::Store { ty, offset } => self.lower_store(env, ty, offset),
            Shape::StoreTruncate { from, to, offset } => self.lower_store_truncate(
                env,
                from,
                to,
                offset,
            ),
            Shape::MemorySize => self.lower_memory_size(env),
            Shape::MemoryGrow => self.lower_memory_grow(),
            Shape::MemoryCopy => self.lower_memory_copy(env),
            Shape::MemoryFill => self.lower_memory_fill(env),
            Shape::Call { function_index } => self.lower_call(env, function_index),
            Shape::Return => self.lower_return(env, Flow::Stop),
            Shape::Drop => self.lower_drop(),
            Shape::Select => self.lower_select(),
            Shape::Block => self.lower_block(),
            Shape::Loop => self.lower_loop(),
            Shape::If => self.lower_if(),
            Shape::Else => self.lower_else(),
            Shape::End => self.lower_end(env),
            Shape::Br { depth } => self.lower_br(depth),
            Shape::BrIf { depth } => self.lower_br_if(depth),
            Shape::RefNull => {
                self.push(Operand::NullPtr);
                Ok(Flow::Continue)
            },
            Shape::RefIsNull => self.lower_ref_is_null(),
            Shape::Unreachable => self.lower_unreachable(),
            Shape::Unsupported { opcode } => Err(CompileError::UnsupportedOperator { opcode }),
        }
    }

    /// Lowers one operator: emits the instructions that stand for it and
    /// updates the two stacks.  A failure leaves the lowering as it was.
    pub fn lower_operator(&mut self, env: &Env, op: Operator) -> (r: Result<Flow, CompileError>)
        ensures
            (Step { state: final(self)@, result: r }) == old(self)@.step(env@, op),
    {
        proof {
            reveal(LoweringState::step);
        }
        self.lower_shape(env, classify(op))
    }

    /// Begins the lowering of a function: appends the entry block, reserves
    /// in it one cell for each declared local, and stores the zero of its
    /// type to each cell.
    pub fn begin(env: &Env) -> (lowering: FunctionLowering)
        ensures
            lowering@ == LoweringState::start(env@),
    {
        let mut lowering = FunctionLowering {
            blocks: Vec::new(),
            code: Vec::new(),
            cursor: 0,
            value_stack: Vec::new(),
            control_stack: Vec::new(),
        };
        lowering.blocks.push(BlockKind::Entry);
        let mut at: usize = 0;
        while at < env.locals.len()
            invariant
                at <= env.locals.len(),
                lowering.blocks@ == seq![BlockKind::Entry],
                lowering.cursor == 0,
                lowering.value_stack@ == Seq::<Operand>::empty(),
                lowering.control_stack@ == Seq::<ControlBlock>::empty(),
                lowering.code@ == env.locals@.take(at as int).map_values(
                    |ty: ValType| Placed { block: 0, instr: Instr::Alloca { ty: ty.ir_type() } },
                ),
            decreases env.locals.len() - at,
        {
            let ty = env.locals[at].to_ir_type();
            lowering.code.push(Placed { block: 0, instr: Instr::Alloca { ty } });
            at = at + 1;
        }
        assert(env.locals@.take(at as int) == env.locals@);
        let ghost cells = lowering.code@;
        at = 0;
        while at < env.locals.len()
            invariant
                at <= env.locals.len(),
                lowering.blocks@ == seq![BlockKind::Entry],
                lowering.cursor == 0,
                lowering.value_stack@ == Seq::<Operand>::empty(),
                lowering.control_stack@ == Seq::<ControlBlock>::empty(),
                lowering.code@ == cells + Seq::new(at as nat, |i: int| env@.zeroing(i)),
            decreases env.locals.len() - at,
        {
            let ty = env.locals[at].to_ir_type();
            lowering.code.push(
                Placed {
                    block: 0,
                    instr: Instr::Store { ty, ptr: Operand::Value { id: at }, value: ty.zero_value() },
                },
            );
            at = at + 1;
        }
        lowering
    }

    /// Lowers the operators `ops` one after the other, up to the first that
    /// fails or returns from the function.
    pub fn lower_operators(&mut self, env: &Env, ops: &Vec<Operator>) -> (r: Result<
        Flow,
        CompileError,
    >)
        ensures
            (Step { state: final(self)@, result: r }) == old(self)@.run(env@, ops@),
    {
        let mut at: usize = 0;
        assert(ops@.skip(0) == ops@);
        while at < ops.len()
            invariant
                at <= ops.len(),
                old(self)@.run(env@, ops@) == self@.run(env@, ops@.skip(at as int)),
            decreases ops.len() - at,
        {
            assert(ops@.skip(at as int).drop_first() == ops@.skip(at as int + 1));
            match self.lower_operator(env, ops[at]) {
                Ok(Flow::Continue) => {},
                other => {
                    return other;
                },
            }
            at = at + 1;
        }
        Ok(Flow::Continue)
    }
}

/// The surroundings of a function that its lowering reads.
pub struct Env<'a> {
    pub params: &'a Vec<ValType>,
    /// The types of the declared locals.
    pub locals: &'a Vec<ValType>,
    pub results: &'a Vec<ValType>,
    /// The size of linear memory in bytes, where the module has one.
    pub memory: Option<u32>,
    pub globals: &'a Vec<GlobalSlot>,
    /// Whether the one recognized import is present.
    pub putchar: bool,
    /// The functions of the module in their order, the one that is lowered
    /// included.
    pub functions: &'a Vec<IrFunction>,
}

impl<'a> View for Env<'a> {
    type V = LoweringEnv;

    open spec fn view(&self) -> LoweringEnv {
        LoweringEnv {
            params: self.params@,
            locals: self.locals@,
            results: self.results@,
            memory: self.memory,
            globals: self.globals@,
            putchar: self.putchar,
            functions: self.functions@.map_values(|f: IrFunction| f@),
        }
    }
}

fn amount_mask(ty: IrType) -> (mask: Operand)
    ensures
        mask == LoweringState::amount_mask(ty),
{
    let bits = int_width(ty);
    Operand::ConstInt {
        ty,
        bits: if bits > 0 {
            bits - 1
        } else {
            0
        },
    }
}

fn int_width(ty: IrType) -> (bits: u64)
    ensures
        bits == ty.int_bits(),
{
    match ty {
        IrType::I1 => 1,
        IrType::I8 => 8,
        IrType::I16 => 16,
        IrType::I32 => 32,
        IrType::I64 => 64,
        _ => 0,
    }
}

} // verus!
