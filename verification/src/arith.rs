//! Checked scalar arithmetic for the integer kinds.
//!
//! Every operation is saturation-free: it reports `RangeExceeded` when the
//! exact mathematical result does not fit the kind, and `DivisionByZero`
//! when divide or remainder meets a zero divisor; otherwise it returns the
//! exact result.

use vstd::prelude::*;

use vstd::arithmetic::div_mod::lemma_small_mod;

use crate::ast::Operator;
use crate::omnia_types::{
    in_kind_range, is_integer_kind, CompilerError, OmniaByte, OmniaInt, OmniaLong, OmniaUByte,
    OmniaUInt, OmniaULong, Type, ValueView,
};

verus! {

/// Quotient under truncating (round-toward-zero) division, the division the
/// runtime performs; ghost `/` alone is Euclidean.
pub open spec fn trunc_div(a: int, d: int) -> int
    recommends
        d != 0,
{
    if a == 0 {
        0
    } else if a > 0 && d > 0 {
        a / d
    } else if a < 0 && d < 0 {
        (a * -1) / (d * -1)
    } else if a < 0 {
        ((a * -1) / d) * -1
    } else {
        (a / (d * -1)) * -1
    }
}

/// Remainder paired with [`trunc_div`]: it carries the dividend's sign, as
/// the runtime's `%` does.
pub open spec fn trunc_rem(a: int, d: int) -> int
    recommends
        d != 0,
{
    if a == 0 {
        0
    } else if a > 0 && d > 0 {
        a % d
    } else if a < 0 && d < 0 {
        ((a * -1) % (d * -1)) * -1
    } else if a < 0 {
        ((a * -1) % d) * -1
    } else {
        a % (d * -1)
    }
}

/// The operators that denote binary arithmetic.
pub open spec fn is_arith_op(op: Operator) -> bool {
    ||| op == Operator::PLUS
    ||| op == Operator::MINUS
    ||| op == Operator::MULTIPLY
    ||| op == Operator::DIVIDE
    ||| op == Operator::REM
}

/// The result of producing the mathematical value `i` in kind `k`: the value
/// itself when representable, `RangeExceeded` otherwise.
pub open spec fn range_checked(k: Type, i: int, op: Operator) -> Result<ValueView, CompilerError>
    recommends
        is_integer_kind(k),
{
    if in_kind_range(k, i) {
        Ok(ValueView::of_kind(k, i))
    } else {
        Err(CompilerError::RangeExceeded { operator: op, kind: k })
    }
}

/// The checked result of one arithmetic operation in kind `k` over the
/// mathematical operand values `a` and `b`.  `INC` and `DEC` never denote a
/// binary operation.
pub open spec fn checked_int_op(op: Operator, k: Type, a: int, b: int) -> Result<
    ValueView,
    CompilerError,
>
    recommends
        is_integer_kind(k),
{
    match op {
        Operator::PLUS => range_checked(k, a + b, op),
        Operator::MINUS => range_checked(k, a - b, op),
        Operator::MULTIPLY => range_checked(k, a * b, op),
        Operator::DIVIDE => if b == 0 {
            Err(CompilerError::DivisionByZero { operator: op, kind: k })
        } else {
            range_checked(k, trunc_div(a, b), op)
        },
        Operator::REM => if b == 0 {
            Err(CompilerError::DivisionByZero { operator: op, kind: k })
        } else {
            range_checked(k, trunc_rem(a, b), op)
        },
        _ => Err(CompilerError::UnsupportedOperator { operator: op, left: k, right: k }),
    }
}

/// The exact mathematical result of an arithmetic operator, before any
/// range check.
pub open spec fn exact_int_op(op: Operator, a: int, b: int) -> int
    recommends
        is_arith_op(op),
        (op == Operator::DIVIDE || op == Operator::REM) ==> b != 0,
{
    match op {
        Operator::PLUS => a + b,
        Operator::MINUS => a - b,
        Operator::MULTIPLY => a * b,
        Operator::DIVIDE => trunc_div(a, b),
        Operator::REM => trunc_rem(a, b),
        _ => 0,
    }
}

/// Law: a checked arithmetic operation fails with `DivisionByZero` exactly
/// when the operator is divide or remainder and the divisor is zero, fails
/// with `RangeExceeded` exactly when the exact mathematical result is not
/// representable in the kind, and otherwise returns exactly that result.
pub proof fn lemma_checked_arithmetic_exact(op: Operator, k: Type, a: int, b: int)
    requires
        is_arith_op(op),
        is_integer_kind(k),
    ensures
        ((op == Operator::DIVIDE || op == Operator::REM) && b == 0) ==> checked_int_op(
            op,
            k,
            a,
            b,
        ) == Err::<ValueView, CompilerError>(
            (CompilerError::DivisionByZero { operator: op, kind: k }),
        ),
        !((op == Operator::DIVIDE || op == Operator::REM) && b == 0) ==> checked_int_op(
            op,
            k,
            a,
            b,
        ) == (if in_kind_range(k, exact_int_op(op, a, b)) {
            Ok::<ValueView, CompilerError>(ValueView::of_kind(k, exact_int_op(op, a, b)))
        } else {
            Err::<ValueView, CompilerError>(
                (CompilerError::RangeExceeded { operator: op, kind: k }),
            )
        }),
{
}

/// A truncating remainder always fits the kind of its operands.
pub proof fn lemma_trunc_rem_in_range(k: Type, a: int, b: int)
    requires
        is_integer_kind(k),
        in_kind_range(k, a),
        in_kind_range(k, b),
        b != 0,
    ensures
        in_kind_range(k, trunc_rem(a, b)),
{
    if a == 0 {
    } else if a > 0 && b > 0 {
        assert(0 <= a % b < b);
    } else if a < 0 && b < 0 {
        assert(0 <= (a * -1) % (b * -1) < (b * -1));
    } else if a < 0 {
        assert(0 <= (a * -1) % b < b);
    } else {
        assert(0 <= a % (b * -1) < (b * -1));
    }
}

pub open spec fn byte_result_view(r: Result<OmniaByte, CompilerError>) -> Result<
    ValueView,
    CompilerError,
> {
    match r {
        Ok(v) => Ok(ValueView::Byte(v.value as int)),
        Err(e) => Err(e),
    }
}

pub open spec fn int_result_view(r: Result<OmniaInt, CompilerError>) -> Result<
    ValueView,
    CompilerError,
> {
    match r {
        Ok(v) => Ok(ValueView::Int(v.value as int)),
        Err(e) => Err(e),
    }
}

pub open spec fn long_result_view(r: Result<OmniaLong, CompilerError>) -> Result<
    ValueView,
    CompilerError,
> {
    match r {
        Ok(v) => Ok(ValueView::Long(v.value as int)),
        Err(e) => Err(e),
    }
}

pub open spec fn ubyte_result_view(r: Result<OmniaUByte, CompilerError>) -> Result<
    ValueView,
    CompilerError,
> {
    match r {
        Ok(v) => Ok(ValueView::UByte(v.value as int)),
        Err(e) => Err(e),
    }
}

pub open spec fn uint_result_view(r: Result<OmniaUInt, CompilerError>) -> Result<
    ValueView,
    CompilerError,
> {
    match r {
        Ok(v) => Ok(ValueView::UInt(v.value as int)),
        Err(e) => Err(e),
    }
}

pub open spec fn ulong_result_view(r: Result<OmniaULong, CompilerError>) -> Result<
    ValueView,
    CompilerError,
> {
    match r {
        Ok(v) => Ok(ValueView::ULong(v.value as int)),
        Err(e) => Err(e),
    }
}

pub fn add_int(l: &OmniaInt, r: &OmniaInt) -> (res: Result<OmniaInt, CompilerError>)
    ensures
        int_result_view(res) == checked_int_op(
            Operator::PLUS,
            Type::INT,
            l.value as int,
            r.value as int,
        ),
{
    match l.value.checked_add(r.value) {
        Some(v) => Ok(OmniaInt::new(v)),
        None => Err(CompilerError::RangeExceeded { operator: Operator::PLUS, kind: Type::INT }),
    }
}

pub fn sub_int(l: &OmniaInt, r: &OmniaInt) -> (res: Result<OmniaInt, CompilerError>)
    ensures
        int_result_view(res) == checked_int_op(
            Operator::MINUS,
            Type::INT,
            l.value as int,
            r.value as int,
        ),
{
    match l.value.checked_sub(r.value) {
        Some(v) => Ok(OmniaInt::new(v)),
        None => Err(CompilerError::RangeExceeded { operator: Operator::MINUS, kind: Type::INT }),
    }
}

pub fn mul_int(l: &OmniaInt, r: &OmniaInt) -> (res: Result<OmniaInt, CompilerError>)
    ensures
        int_result_view(res) == checked_int_op(
            Operator::MULTIPLY,
            Type::INT,
            l.value as int,
            r.value as int,
        ),
{
    match l.value.checked_mul(r.value) {
        Some(v) => Ok(OmniaInt::new(v)),
        None => Err(
            CompilerError::RangeExceeded { operator: Operator::MULTIPLY, kind: Type::INT },
        ),
    }
}

pub fn div_int(l: &OmniaInt, r: &OmniaInt) -> (res: Result<OmniaInt, CompilerError>)
    ensures
        int_result_view(res) == checked_int_op(
            Operator::DIVIDE,
            Type::INT,
            l.value as int,
            r.value as int,
        ),
{
    if r.value == 0 {
        Err(CompilerError::DivisionByZero { operator: Operator::DIVIDE, kind: Type::INT })
    } else {
        match l.value.checked_div(r.value) {
            Some(v) => Ok(OmniaInt::new(v)),
            None => Err(
                CompilerError::RangeExceeded { operator: Operator::DIVIDE, kind: Type::INT },
            ),
        }
    }
}

pub fn rem_int(l: &OmniaInt, r: &OmniaInt) -> (res: Result<OmniaInt, CompilerError>)
    ensures
        int_result_view(res) == checked_int_op(
            Operator::REM,
            Type::INT,
            l.value as int,
            r.value as int,
        ),
{
    if r.value == 0 {
        Err(CompilerError::DivisionByZero { operator: Operator::REM, kind: Type::INT })
    } else if l.value == i32::MIN && r.value == -1 {
        Ok(OmniaInt::new(0))
    } else {
        proof {
            lemma_trunc_rem_in_range(Type::INT, l.value as int, r.value as int);
        }
        match l.value.checked_rem(r.value) {
            Some(v) => Ok(OmniaInt::new(v)),
            None => Err(CompilerError::RangeExceeded { operator: Operator::REM, kind: Type::INT }),
        }
    }
}

pub fn add_byte(l: &OmniaByte, r: &OmniaByte) -> (res: Result<OmniaByte, CompilerError>)
    ensures
        byte_result_view(res) == checked_int_op(
            Operator::PLUS,
            Type::BYTE,
            l.value as int,
            r.value as int,
        ),
{
    match l.value.checked_add(r.value) {
        Some(v) => Ok(OmniaByte::new(v)),
        None => Err(CompilerError::RangeExceeded { operator: Operator::PLUS, kind: Type::BYTE }),
    }
}

pub fn sub_byte(l: &OmniaByte, r: &OmniaByte) -> (res: Result<OmniaByte, CompilerError>)
    ensures
        byte_result_view(res) == checked_int_op(
            Operator::MINUS,
            Type::BYTE,
            l.value as int,
            r.value as int,
        ),
{
    match l.value.checked_sub(r.value) {
        Some(v) => Ok(OmniaByte::new(v)),
        None => Err(CompilerError::RangeExceeded { operator: Operator::MINUS, kind: Type::BYTE }),
    }
}

pub fn mul_byte(l: &OmniaByte, r: &OmniaByte) -> (res: Result<OmniaByte, CompilerError>)
    ensures
        byte_result_view(res) == checked_int_op(
            Operator::MULTIPLY,
            Type::BYTE,
            l.value as int,
            r.value as int,
        ),
{
    match l.value.checked_mul(r.value) {
        Some(v) => Ok(OmniaByte::new(v)),
        None => Err(CompilerError::RangeExceeded { operator: Operator::MULTIPLY, kind: Type::BYTE }),
    }
}

pub fn div_byte(l: &OmniaByte, r: &OmniaByte) -> (res: Result<OmniaByte, CompilerError>)
    ensures
        byte_result_view(res) == checked_int_op(
            Operator::DIVIDE,
            Type::BYTE,
            l.value as int,
            r.value as int,
        ),
{
    if r.value == 0 {
        Err(CompilerError::DivisionByZero { operator: Operator::DIVIDE, kind: Type::BYTE })
    } else {
        match l.value.checked_div(r.value) {
            Some(v) => Ok(OmniaByte::new(v)),
            None => Err(
                CompilerError::RangeExceeded { operator: Operator::DIVIDE, kind: Type::BYTE },
            ),
        }
    }
}

pub fn rem_byte(l: &OmniaByte, r: &OmniaByte) -> (res: Result<OmniaByte, CompilerError>)
    ensures
        byte_result_view(res) == checked_int_op(
            Operator::REM,
            Type::BYTE,
            l.value as int,
            r.value as int,
        ),
{
    if r.value == 0 {
        Err(CompilerError::DivisionByZero { operator: Operator::REM, kind: Type::BYTE })
    } else if l.value == i8::MIN && r.value == -1 {
        Ok(OmniaByte::new(0))
    } else {
        proof {
            lemma_trunc_rem_in_range(Type::BYTE, l.value as int, r.value as int);
        }
        match l.value.checked_rem(r.value) {
            Some(v) => Ok(OmniaByte::new(v)),
            None => Err(CompilerError::RangeExceeded { operator: Operator::REM, kind: Type::BYTE }),
        }
    }
}

pub fn add_long(l: &OmniaLong, r: &OmniaLong) -> (res: Result<OmniaLong, CompilerError>)
    ensures
        long_result_view(res) == checked_int_op(
            Operator::PLUS,
            Type::LONG,
            l.value as int,
            r.value as int,
        ),
{
    match l.value.checked_add(r.value) {
        Some(v) => Ok(OmniaLong::new(v)),
        None => Err(CompilerError::RangeExceeded { operator: Operator::PLUS, kind: Type::LONG }),
    }
}

pub fn sub_long(l: &OmniaLong, r: &OmniaLong) -> (res: Result<OmniaLong, CompilerError>)
    ensures
        long_result_view(res) == checked_int_op(
            Operator::MINUS,
            Type::LONG,
            l.value as int,
            r.value as int,
        ),
{
    match l.value.checked_sub(r.value) {
        Some(v) => Ok(OmniaLong::new(v)),
        None => Err(CompilerError::RangeExceeded { operator: Operator::MINUS, kind: Type::LONG }),
    }
}

pub fn mul_long(l: &OmniaLong, r: &OmniaLong) -> (res: Result<OmniaLong, CompilerError>)
    ensures
        long_result_view(res) == checked_int_op(
            Operator::MULTIPLY,
            Type::LONG,
            l.value as int,
            r.value as int,
        ),
{
    match l.value.checked_mul(r.value) {
        Some(v) => Ok(OmniaLong::new(v)),
        None => Err(CompilerError::RangeExceeded { operator: Operator::MULTIPLY, kind: Type::LONG }),
    }
}

pub fn div_long(l: &OmniaLong, r: &OmniaLong) -> (res: Result<OmniaLong, CompilerError>)
    ensures
        long_result_view(res) == checked_int_op(
            Operator::DIVIDE,
            Type::LONG,
            l.value as int,
            r.value as int,
        ),
{
    if r.value == 0 {
        Err(CompilerError::DivisionByZero { operator: Operator::DIVIDE, kind: Type::LONG })
    } else {
        match l.value.checked_div(r.value) {
            Some(v) => Ok(OmniaLong::new(v)),
            None => Err(
                CompilerError::RangeExceeded { operator: Operator::DIVIDE, kind: Type::LONG },
            ),
        }
    }
}

pub fn rem_long(l: &OmniaLong, r: &OmniaLong) -> (res: Result<OmniaLong, CompilerError>)
    ensures
        long_result_view(res) == checked_int_op(
            Operator::REM,
            Type::LONG,
            l.value as int,
            r.value as int,
        ),
{
    if r.value == 0 {
        Err(CompilerError::DivisionByZero { operator: Operator::REM, kind: Type::LONG })
    } else if l.value == i64::MIN && r.value == -1 {
        Ok(OmniaLong::new(0))
    } else {
        proof {
            lemma_trunc_rem_in_range(Type::LONG, l.value as int, r.value as int);
        }
        match l.value.checked_rem(r.value) {
            Some(v) => Ok(OmniaLong::new(v)),
            None => Err(CompilerError::RangeExceeded { operator: Operator::REM, kind: Type::LONG }),
        }
    }
}

pub fn add_uint(l: &OmniaUInt, r: &OmniaUInt) -> (res: Result<OmniaUInt, CompilerError>)
    ensures
        uint_result_view(res) == checked_int_op(
            Operator::PLUS,
            Type::UINT,
            l.value as int,
            r.value as int,
        ),
{
    match l.value.checked_add(r.value) {
        Some(v) => Ok(OmniaUInt::new(v)),
        None => Err(CompilerError::RangeExceeded { operator: Operator::PLUS, kind: Type::UINT }),
    }
}

pub fn sub_uint(l: &OmniaUInt, r: &OmniaUInt) -> (res: Result<OmniaUInt, CompilerError>)
    ensures
        uint_result_view(res) == checked_int_op(
            Operator::MINUS,
            Type::UINT,
            l.value as int,
            r.value as int,
        ),
{
    match l.value.checked_sub(r.value) {
        Some(v) => Ok(OmniaUInt::new(v)),
        None => Err(CompilerError::RangeExceeded { operator: Operator::MINUS, kind: Type::UINT }),
    }
}

pub fn mul_uint(l: &OmniaUInt, r: &OmniaUInt) -> (res: Result<OmniaUInt, CompilerError>)
    ensures
        uint_result_view(res) == checked_int_op(
            Operator::MULTIPLY,
            Type::UINT,
            l.value as int,
            r.value as int,
        ),
{
    match l.value.checked_mul(r.value) {
        Some(v) => Ok(OmniaUInt::new(v)),
        None => Err(CompilerError::RangeExceeded { operator: Operator::MULTIPLY, kind: Type::UINT }),
    }
}

pub fn div_uint(l: &OmniaUInt, r: &OmniaUInt) -> (res: Result<OmniaUInt, CompilerError>)
    ensures
        uint_result_view(res) == checked_int_op(
            Operator::DIVIDE,
            Type::UINT,
            l.value as int,
            r.value as int,
        ),
{
    if r.value == 0 {
        Err(CompilerError::DivisionByZero { operator: Operator::DIVIDE, kind: Type::UINT })
    } else {
        match l.value.checked_div(r.value) {
            Some(v) => Ok(OmniaUInt::new(v)),
            None => Err(
                CompilerError::RangeExceeded { operator: Operator::DIVIDE, kind: Type::UINT },
            ),
        }
    }
}

pub fn rem_uint(l: &OmniaUInt, r: &OmniaUInt) -> (res: Result<OmniaUInt, CompilerError>)
    ensures
        uint_result_view(res) == checked_int_op(
            Operator::REM,
            Type::UINT,
            l.value as int,
            r.value as int,
        ),
{
    if r.value == 0 {
        Err(CompilerError::DivisionByZero { operator: Operator::REM, kind: Type::UINT })
    } else {
        proof {
            if l.value == 0 {
                lemma_small_mod(0, r.value as nat);
            }
            lemma_trunc_rem_in_range(Type::UINT, l.value as int, r.value as int);
            assert(trunc_rem(l.value as int, r.value as int) == (l.value as int) % (
            r.value as int));
        }
        match l.value.checked_rem(r.value) {
            Some(v) => Ok(OmniaUInt::new(v)),
            None => Err(CompilerError::RangeExceeded { operator: Operator::REM, kind: Type::UINT }),
        }
    }
}

pub fn add_ubyte(l: &OmniaUByte, r: &OmniaUByte) -> (res: Result<OmniaUByte, CompilerError>)
    ensures
        ubyte_result_view(res) == checked_int_op(
            Operator::PLUS,
            Type::UBYTE,
            l.value as int,
            r.value as int,
        ),
{
    match l.value.checked_add(r.value) {
        Some(v) => Ok(OmniaUByte::new(v)),
        None => Err(CompilerError::RangeExceeded { operator: Operator::PLUS, kind: Type::UBYTE }),
    }
}

pub fn sub_ubyte(l: &OmniaUByte, r: &OmniaUByte) -> (res: Result<OmniaUByte, CompilerError>)
    ensures
        ubyte_result_view(res) == checked_int_op(
            Operator::MINUS,
            Type::UBYTE,
            l.value as int,
            r.value as int,
        ),
{
    match l.value.checked_sub(r.value) {
        Some(v) => Ok(OmniaUByte::new(v)),
        None => Err(CompilerError::RangeExceeded { operator: Operator::MINUS, kind: Type::UBYTE }),
    }
}

pub fn mul_ubyte(l: &OmniaUByte, r: &OmniaUByte) -> (res: Result<OmniaUByte, CompilerError>)
    ensures
        ubyte_result_view(res) == checked_int_op(
            Operator::MULTIPLY,
            Type::UBYTE,
            l.value as int,
            r.value as int,
        ),
{
    match l.value.checked_mul(r.value) {
        Some(v) => Ok(OmniaUByte::new(v)),
        None => Err(CompilerError::RangeExceeded { operator: Operator::MULTIPLY, kind: Type::UBYTE }),
    }
}

pub fn div_ubyte(l: &OmniaUByte, r: &OmniaUByte) -> (res: Result<OmniaUByte, CompilerError>)
    ensures
        ubyte_result_view(res) == checked_int_op(
            Operator::DIVIDE,
            Type::UBYTE,
            l.value as int,
            r.value as int,
        ),
{
    if r.value == 0 {
        Err(CompilerError::DivisionByZero { operator: Operator::DIVIDE, kind: Type::UBYTE })
    } else {
        match l.value.checked_div(r.value) {
            Some(v) => Ok(OmniaUByte::new(v)),
            None => Err(
                CompilerError::RangeExceeded { operator: Operator::DIVIDE, kind: Type::UBYTE },
            ),
        }
    }
}

pub fn rem_ubyte(l: &OmniaUByte, r: &OmniaUByte) -> (res: Result<OmniaUByte, CompilerError>)
    ensures
        ubyte_result_view(res) == checked_int_op(
            Operator::REM,
            Type::UBYTE,
            l.value as int,
            r.value as int,
        ),
{
    if r.value == 0 {
        Err(CompilerError::DivisionByZero { operator: Operator::REM, kind: Type::UBYTE })
    } else {
        proof {
            if l.value == 0 {
                lemma_small_mod(0, r.value as nat);
            }
            lemma_trunc_rem_in_range(Type::UBYTE, l.value as int, r.value as int);
            assert(trunc_rem(l.value as int, r.value as int) == (l.value as int) % (
            r.value as int));
        }
        match l.value.checked_rem(r.value) {
            Some(v) => Ok(OmniaUByte::new(v)),
            None => Err(CompilerError::RangeExceeded { operator: Operator::REM, kind: Type::UBYTE }),
        }
    }
}

pub fn add_ulong(l: &OmniaULong, r: &OmniaULong) -> (res: Result<OmniaULong, CompilerError>)
    ensures
        ulong_result_view(res) == checked_int_op(
            Operator::PLUS,
            Type::ULONG,
            l.value as int,
            r.value as int,
        ),
{
    match l.value.checked_add(r.value) {
        Some(v) => Ok(OmniaULong::new(v)),
        None => Err(CompilerError::RangeExceeded { operator: Operator::PLUS, kind: Type::ULONG }),
    }
}

pub fn sub_ulong(l: &OmniaULong, r: &OmniaULong) -> (res: Result<OmniaULong, CompilerError>)
    ensures
        ulong_result_view(res) == checked_int_op(
            Operator::MINUS,
            Type::ULONG,
            l.value as int,
            r.value as int,
        ),
{
    match l.value.checked_sub(r.value) {
        Some(v) => Ok(OmniaULong::new(v)),
        None => Err(CompilerError::RangeExceeded { operator: Operator::MINUS, kind: Type::ULONG }),
    }
}

pub fn mul_ulong(l: &OmniaULong, r: &OmniaULong) -> (res: Result<OmniaULong, CompilerError>)
    ensures
        ulong_result_view(res) == checked_int_op(
            Operator::MULTIPLY,
            Type::ULONG,
            l.value as int,
            r.value as int,
        ),
{
    match l.value.checked_mul(r.value) {
        Some(v) => Ok(OmniaULong::new(v)),
        None => Err(CompilerError::RangeExceeded { operator: Operator::MULTIPLY, kind: Type::ULONG }),
    }
}

pub fn div_ulong(l: &OmniaULong, r: &OmniaULong) -> (res: Result<OmniaULong, CompilerError>)
    ensures
        ulong_result_view(res) == checked_int_op(
            Operator::DIVIDE,
            Type::ULONG,
            l.value as int,
            r.value as int,
        ),
{
    if r.value == 0 {
        Err(CompilerError::DivisionByZero { operator: Operator::DIVIDE, kind: Type::ULONG })
    } else {
        match l.value.checked_div(r.value) {
            Some(v) => Ok(OmniaULong::new(v)),
            None => Err(
                CompilerError::RangeExceeded { operator: Operator::DIVIDE, kind: Type::ULONG },
            ),
        }
    }
}

pub fn rem_ulong(l: &OmniaULong, r: &OmniaULong) -> (res: Result<OmniaULong, CompilerError>)
    ensures
        ulong_result_view(res) == checked_int_op(
            Operator::REM,
            Type::ULONG,
            l.value as int,
            r.value as int,
        ),
{
    if r.value == 0 {
        Err(CompilerError::DivisionByZero { operator: Operator::REM, kind: Type::ULONG })
    } else {
        proof {
            if l.value == 0 {
                lemma_small_mod(0, r.value as nat);
            }
            lemma_trunc_rem_in_range(Type::ULONG, l.value as int, r.value as int);
            assert(trunc_rem(l.value as int, r.value as int) == (l.value as int) % (
            r.value as int));
        }
        match l.value.checked_rem(r.value) {
            Some(v) => Ok(OmniaULong::new(v)),
            None => Err(CompilerError::RangeExceeded { operator: Operator::REM, kind: Type::ULONG }),
        }
    }
}

} // verus!
