use crate::ir::{CastOp, IntBinOp, IntPredicate, IrType};
use vstd::prelude::*;

verus! {

/// The number of values of an integer type: 2 to the power of its width.
/// For the other types it is 1.
pub open spec fn modulus(ty: IrType) -> int {
    match ty {
        IrType::I1 => 2,
        IrType::I8 => 0x100,
        IrType::I16 => 0x1_0000,
        IrType::I32 => 0x1_0000_0000,
        IrType::I64 => 0x1_0000_0000_0000_0000,
        _ => 1,
    }
}

/// Whether `v` is the bit pattern of a value of the integer type `ty`.
pub open spec fn fits(ty: IrType, v: u64) -> bool {
    ty.is_int() && v < modulus(ty)
}

/// The bit pattern that stands for the integer `x` in the type `ty`: `x`
/// modulo 2 to the power of the width.
pub open spec fn wrap(ty: IrType, x: int) -> u64 {
    (x % modulus(ty)) as u64
}

/// The integer that the bit pattern `v` stands for when it is read as a
/// two's-complement number of the type `ty`.
pub open spec fn signed_value(ty: IrType, v: u64) -> int {
    if 2 * v >= modulus(ty) {
        v - modulus(ty)
    } else {
        v as int
    }
}

/// The magnitude of `x`.
pub open spec fn abs(x: int) -> int {
    if x < 0 {
        -x
    } else {
        x
    }
}

/// The quotient of `x` by `y`, rounded toward zero.
pub open spec fn truncated_quotient(x: int, y: int) -> int {
    if (x < 0) != (y < 0) {
        -(abs(x) / abs(y))
    } else {
        abs(x) / abs(y)
    }
}

/// The remainder that belongs to the quotient rounded toward zero: it has
/// the sign of `x`.
pub open spec fn truncated_remainder(x: int, y: int) -> int {
    if x < 0 {
        -(abs(x) % abs(y))
    } else {
        abs(x) % abs(y)
    }
}

/// Whether the binary operations are modeled at the type `ty`: at the two
/// widths that operands have.
pub open spec fn is_operand_type(ty: IrType) -> bool {
    ty == IrType::I32 || ty == IrType::I64
}

/// The pattern of `v` shifted right by `amount` places, the vacated bits
/// filled with the sign bit of `v`.
pub open spec fn sign_filling_shift(ty: IrType, v: u64, amount: u64) -> u64 {
    let mask = (modulus(ty) - 1) as u64;
    if 2 * v >= modulus(ty) {
        (v >> amount) | (mask ^ (mask >> amount))
    } else {
        v >> amount
    }
}

/// The result of the integer operation `op` at the type `ty` on the bit
/// patterns `a` and `b`.  There is none where an operand is no pattern of
/// the type, and where the operation is left to the backend: a division by
/// zero, the signed division of the least value by -1, and a shift by the
/// width or more.
pub open spec fn int_binary(op: IntBinOp, ty: IrType, a: u64, b: u64) -> Option<u64> {
    if !is_operand_type(ty) || !fits(ty, a) || !fits(ty, b) {
        None
    } else {
        let bits = ty.int_bits() as u64;
        let mask = (modulus(ty) - 1) as u64;
        match op {
            IntBinOp::Add => Some(wrap(ty, a + b)),
            IntBinOp::Sub => Some(wrap(ty, a - b)),
            IntBinOp::Mul => Some(wrap(ty, a * b)),
            IntBinOp::UDiv => if b == 0 {
                None
            } else {
                Some(a / b)
            },
            IntBinOp::URem => if b == 0 {
                None
            } else {
                Some(a % b)
            },
            IntBinOp::SDiv => if b == 0 || (2 * a == modulus(ty) && b == mask) {
                None
            } else {
                Some(wrap(ty, truncated_quotient(signed_value(ty, a), signed_value(ty, b))))
            },
            IntBinOp::SRem => if b == 0 || (2 * a == modulus(ty) && b == mask) {
                None
            } else {
                Some(wrap(ty, truncated_remainder(signed_value(ty, a), signed_value(ty, b))))
            },
            IntBinOp::And => Some(a & b),
            IntBinOp::Or => Some(a | b),
            IntBinOp::Xor => Some(a ^ b),
            IntBinOp::Shl => if b >= bits {
                None
            } else {
                Some((a << b) & mask)
            },
            IntBinOp::LShr => if b >= bits {
                None
            } else {
                Some(a >> b)
            },
            IntBinOp::AShr => if b >= bits {
                None
            } else {
                Some(sign_filling_shift(ty, a, b))
            },
        }
    }
}

/// Whether the predicate `pred` holds of the bit patterns `a` and `b` at the
/// type `ty`.  There is no answer where an operand is no pattern of the
/// type.
pub open spec fn int_compare(pred: IntPredicate, ty: IrType, a: u64, b: u64) -> Option<bool> {
    if !is_operand_type(ty) || !fits(ty, a) || !fits(ty, b) {
        None
    } else {
        let x = signed_value(ty, a);
        let y = signed_value(ty, b);
        Some(
            match pred {
                IntPredicate::EQ => a == b,
                IntPredicate::NE => a != b,
                IntPredicate::UGT => a > b,
                IntPredicate::UGE => a >= b,
                IntPredicate::ULT => a < b,
                IntPredicate::ULE => a <= b,
                IntPredicate::SGT => x > y,
                IntPredicate::SGE => x >= y,
                IntPredicate::SLT => x < y,
                IntPredicate::SLE => x <= y,
            },
        )
    }
}

/// The result of the conversion `op` of the bit pattern `v` from the
/// integer type `from` to the integer type `to`.  There is none for the
/// conversions that involve a floating-point type, nor where `v` is no
/// pattern of `from`, nor where `to` is the wider type of a truncation or
/// the narrower one of an extension.
pub open spec fn int_cast(op: CastOp, from: IrType, to: IrType, v: u64) -> Option<u64> {
    if !fits(from, v) || !to.is_int() {
        None
    } else {
        match op {
            CastOp::Truncate => if modulus(to) <= modulus(from) {
                Some(wrap(to, v as int))
            } else {
                None
            },
            CastOp::ZeroExtend => if modulus(from) <= modulus(to) {
                Some(v)
            } else {
                None
            },
            CastOp::SignExtend => if modulus(from) <= modulus(to) {
                Some(wrap(to, signed_value(from, v)))
            } else {
                None
            },
            _ => None,
        }
    }
}

fn modulus_of(ty: IrType) -> (m: u128)
    ensures
        m == modulus(ty),
{
    match ty {
        IrType::I1 => 2,
        IrType::I8 => 0x100,
        IrType::I16 => 0x1_0000,
        IrType::I32 => 0x1_0000_0000,
        IrType::I64 => 0x1_0000_0000_0000_0000,
        _ => 1,
    }
}

fn fits_in(ty: IrType, v: u64) -> (b: bool)
    ensures
        b == fits(ty, v),
{
    ty.is_int_type() && (v as u128) < modulus_of(ty)
}

/// The magnitude of the signed reading of `v`, and whether it is negative.
fn magnitude(ty: IrType, v: u64) -> (r: (u128, bool))
    requires
        fits(ty, v),
    ensures
        r.0 == abs(signed_value(ty, v)),
        r.1 == (signed_value(ty, v) < 0),
        2 * r.0 <= modulus(ty),
{
    let m = modulus_of(ty);
    let wide = v as u128;
    if 2 * wide >= m {
        (m - wide, true)
    } else {
        (wide, false)
    }
}

/// The pattern of the integer of magnitude `magnitude`, negated where
/// `negative` holds.
fn pattern_of(ty: IrType, magnitude: u128, negative: bool) -> (v: u64)
    requires
        is_operand_type(ty),
        magnitude < modulus(ty),
    ensures
        v == wrap(
            ty,
            if negative {
                -(magnitude as int)
            } else {
                magnitude as int
            },
        ),
{
    let m = modulus_of(ty);
    if negative && magnitude > 0 {
        (m - magnitude) as u64
    } else {
        magnitude as u64
    }
}

/// Computes the integer operation `op` at the type `ty`.
pub fn eval_int_binary(op: IntBinOp, ty: IrType, a: u64, b: u64) -> (r: Option<u64>)
    ensures
        r == int_binary(op, ty, a, b),
{
    let operand_type = match ty {
        IrType::I32 | IrType::I64 => true,
        _ => false,
    };
    if !operand_type || !fits_in(ty, a) || !fits_in(ty, b) {
        return None;
    }
    let m = modulus_of(ty);
    let mask: u64 = (m - 1) as u64;
    let bits: u64 = match ty {
        IrType::I32 => 32,
        _ => 64,
    };
    match op {
        IntBinOp::Add => Some(((a as u128 + b as u128) % m) as u64),
        IntBinOp::Sub => Some(((a as u128 + m - b as u128) % m) as u64),
        IntBinOp::Mul => {
            assert(a as u128 * b as u128 <= u128::MAX) by (nonlinear_arith)
                requires
                    a <= u64::MAX,
                    b <= u64::MAX,
            ;
            Some(((a as u128 * b as u128) % m) as u64)
        },
        IntBinOp::UDiv => if b == 0 {
            None
        } else {
            Some(a / b)
        },
        IntBinOp::URem => if b == 0 {
            None
        } else {
            Some(a % b)
        },
        IntBinOp::SDiv => {
            if b == 0 || (2 * (a as u128) == m && b == mask) {
                return None;
            }
            let (x, x_negative) = magnitude(ty, a);
            let (y, y_negative) = magnitude(ty, b);
            let quotient = x / y;
            assert(quotient <= x) by (nonlinear_arith)
                requires
                    quotient == x / y,
                    y > 0,
            ;
            Some(pattern_of(ty, quotient, x_negative != y_negative))
        },
        IntBinOp::SRem => {
            if b == 0 || (2 * (a as u128) == m && b == mask) {
                return None;
            }
            let (x, x_negative) = magnitude(ty, a);
            let (y, _) = magnitude(ty, b);
            let remainder = x % y;
            Some(pattern_of(ty, remainder, x_negative))
        },
        IntBinOp::And => Some(a & b),
        IntBinOp::Or => Some(a | b),
        IntBinOp::Xor => Some(a ^ b),
        IntBinOp::Shl => if b >= bits {
            None
        } else {
            Some((a << b) & mask)
        },
        IntBinOp::LShr => if b >= bits {
            None
        } else {
            Some(a >> b)
        },
        IntBinOp::AShr => {
            if b >= bits {
                None
            } else if 2 * (a as u128) >= m {
                Some((a >> b) | (mask ^ (mask >> b)))
            } else {
                Some(a >> b)
            }
        },
    }
}

/// Decides the predicate `pred` at the type `ty`.
pub fn eval_int_compare(pred: IntPredicate, ty: IrType, a: u64, b: u64) -> (r: Option<bool>)
    ensures
        r == int_compare(pred, ty, a, b),
{
    let operand_type = match ty {
        IrType::I32 | IrType::I64 => true,
        _ => false,
    };
    if !operand_type || !fits_in(ty, a) || !fits_in(ty, b) {
        return None;
    }
    let (x, x_negative) = magnitude(ty, a);
    let (y, y_negative) = magnitude(ty, b);
    // Whether the signed reading of `a` is less than that of `b`.
    let less = if x_negative != y_negative {
        x_negative
    } else if x_negative {
        x > y
    } else {
        x < y
    };
    Some(
        match pred {
            IntPredicate::EQ => a == b,
            IntPredicate::NE => a != b,
            IntPredicate::UGT => a > b,
            IntPredicate::UGE => a >= b,
            IntPredicate::ULT => a < b,
            IntPredicate::ULE => a <= b,
            IntPredicate::SGT => !less && a != b,
            IntPredicate::SGE => !less,
            IntPredicate::SLT => less,
            IntPredicate::SLE => less || a == b,
        },
    )
}

/// Computes the conversion `op` between two integer types.
pub fn eval_int_cast(op: CastOp, from: IrType, to: IrType, v: u64) -> (r: Option<u64>)
    ensures
        r == int_cast(op, from, to, v),
{
    if !fits_in(from, v) || !to.is_int_type() {
        return None;
    }
    let m_from = modulus_of(from);
    let m_to = modulus_of(to);
    match op {
        CastOp::Truncate => if m_to <= m_from {
            Some(((v as u128) % m_to) as u64)
        } else {
            None
        },
        CastOp::ZeroExtend => if m_from <= m_to {
            Some(v)
        } else {
            None
        },
        CastOp::SignExtend => if m_from <= m_to {
            if 2 * (v as u128) >= m_from {
                Some((v as u128 + (m_to - m_from)) as u64)
            } else {
                Some(v)
            }
        } else {
            None
        },
        _ => None,
    }
}

} // verus!
