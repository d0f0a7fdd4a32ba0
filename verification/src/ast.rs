//! Expression nodes and the binary-expression evaluator.
//!
//! Dispatch is driven entirely by the left operand's concrete kind: the
//! right operand is converted into the left operand's representation (never
//! the reverse), a text operand on either side turns `PLUS` into
//! concatenation, and every remaining pairing is a typed coercion error.
//! The whole rule table is the one spec function [`spec_eval_binary`], and
//! every executable dispatch function is proved against it.

use vstd::prelude::*;

use crate::arith::{
    add_byte, add_int, add_long, add_ubyte, add_uint, add_ulong, checked_int_op, div_byte,
    div_int, div_long, div_ubyte, div_uint, div_ulong, mul_byte, mul_int, mul_long, mul_ubyte,
    mul_uint, mul_ulong, rem_byte, rem_int, rem_long, rem_ubyte, rem_uint, rem_ulong, sub_byte,
    sub_int, sub_long, sub_ubyte, sub_uint, sub_ulong,
};
use crate::omnia_types::{
    in_kind_range, is_integer_kind, is_signed_kind, is_unsigned_kind, push_char, CompilerError,
    OmniaBool, OmniaByte, OmniaChar, OmniaChararr, OmniaInt, OmniaLong, OmniaUByte, OmniaUInt,
    OmniaULong, Type, Value, ValueView,
};

verus! {

/// Binary operators.  `INC` and `DEC` are reserved for unary use and are
/// invalid on a binary node.
#[derive(Clone, Copy, PartialEq, Eq, Structural, Debug)]
pub enum Operator {
    PLUS,
    DIVIDE,
    MULTIPLY,
    MINUS,
    REM,
    INC,
    DEC,
}

/// Two integer kinds coerce into one another only within one signedness
/// family: signed and unsigned kinds never silently cross.
pub open spec fn same_family(a: Type, b: Type) -> bool {
    (is_signed_kind(a) && is_signed_kind(b)) || (is_unsigned_kind(a) && is_unsigned_kind(b))
}

/// The kinds a text left operand accepts on its right-hand side.
pub open spec fn renderable_with_text(k: Type) -> bool {
    is_integer_kind(k) || k == Type::CHAR || k == Type::CHARARR
}

/// Appending one operand's rendering to a text operand: legal only for
/// `PLUS`; the text always comes first, the rendering of the other operand
/// is appended after it, whichever side the text stood on.  `left` and
/// `right` name the two operand kinds for the error report.
pub open spec fn spec_append_to_text(
    op: Operator,
    text: Seq<char>,
    v: ValueView,
    left: Type,
    right: Type,
) -> Result<ValueView, CompilerError> {
    if op == Operator::PLUS {
        Ok(ValueView::Chararr(text + v.render()))
    } else {
        Err((CompilerError::UnsupportedOperator { operator: op, left, right }))
    }
}

/// The complete coercion and dispatch table for one binary operation over
/// two already-evaluated values.
pub open spec fn spec_eval_binary(op: Operator, l: ValueView, r: ValueView) -> Result<
    ValueView,
    CompilerError,
> {
    let lk = l.kind();
    let rk = r.kind();
    if is_integer_kind(lk) {
        if rk == Type::CHARARR {
            spec_append_to_text(op, r.text_of(), l, lk, rk)
        } else if is_integer_kind(rk) && same_family(lk, rk) {
            if in_kind_range(lk, r.int_value()) {
                checked_int_op(op, lk, l.int_value(), r.int_value())
            } else {
                Err((CompilerError::RangeExceeded { operator: op, kind: lk }))
            }
        } else {
            Err((CompilerError::UnsupportedCoercion { operator: op, left: lk, right: rk }))
        }
    } else if lk == Type::CHARARR {
        if renderable_with_text(rk) {
            spec_append_to_text(op, l.text_of(), r, lk, rk)
        } else {
            Err((CompilerError::UnsupportedCoercion { operator: op, left: lk, right: rk }))
        }
    } else {
        if rk == Type::CHARARR {
            spec_append_to_text(op, r.text_of(), l, lk, rk)
        } else {
            Err((CompilerError::UnsupportedCoercion { operator: op, left: lk, right: rk }))
        }
    }
}

/// The view of an evaluation result.
pub open spec fn res_view(r: Result<Value, CompilerError>) -> Result<ValueView, CompilerError> {
    match r {
        Ok(v) => Ok(v@),
        Err(e) => Err(e),
    }
}

/// Concatenation of a text operand with a `int` operand: the text comes
/// first, the rendered number is appended after it; legal only for `PLUS`.
pub fn append_int_to_string(op: Operator, l: &OmniaInt, r: &OmniaChararr) -> (res: Result<
    Value,
    CompilerError,
>)
    ensures
        res_view(res) == spec_append_to_text(
            op,
            r.value@,
            ValueView::Int(l.value as int),
            Type::INT,
            Type::CHARARR,
        ),
{
    match op {
        Operator::PLUS => {
            let mut val: String = r.get_as_string();
            let rendered: String = l.get_as_string();
            val.append(rendered.as_str());
            Ok(Value::Chararr(OmniaChararr::new(val)))
        },
        _ => Err(
            CompilerError::UnsupportedOperator { operator: op, left: Type::INT, right: Type::CHARARR },
        ),
    }
}

/// Concatenation of a text operand with a `byte` operand: the text comes
/// first, the rendered number is appended after it; legal only for `PLUS`.
pub fn append_byte_to_string(op: Operator, l: &OmniaByte, r: &OmniaChararr) -> (res: Result<
    Value,
    CompilerError,
>)
    ensures
        res_view(res) == spec_append_to_text(
            op,
            r.value@,
            ValueView::Byte(l.value as int),
            Type::BYTE,
            Type::CHARARR,
        ),
{
    match op {
        Operator::PLUS => {
            let mut val: String = r.get_as_string();
            let rendered: String = l.get_as_string();
            val.append(rendered.as_str());
            Ok(Value::Chararr(OmniaChararr::new(val)))
        },
        _ => Err(
            CompilerError::UnsupportedOperator { operator: op, left: Type::BYTE, right: Type::CHARARR },
        ),
    }
}

/// Concatenation of a text operand with a `long` operand: the text comes
/// first, the rendered number is appended after it; legal only for `PLUS`.
pub fn append_long_to_string(op: Operator, l: &OmniaLong, r: &OmniaChararr) -> (res: Result<
    Value,
    CompilerError,
>)
    ensures
        res_view(res) == spec_append_to_text(
            op,
            r.value@,
            ValueView::Long(l.value as int),
            Type::LONG,
            Type::CHARARR,
        ),
{
    match op {
        Operator::PLUS => {
            let mut val: String = r.get_as_string();
            let rendered: String = l.get_as_string();
            val.append(rendered.as_str());
            Ok(Value::Chararr(OmniaChararr::new(val)))
        },
        _ => Err(
            CompilerError::UnsupportedOperator { operator: op, left: Type::LONG, right: Type::CHARARR },
        ),
    }
}

/// Concatenation of a text operand with a `uint` operand: the text comes
/// first, the rendered number is appended after it; legal only for `PLUS`.
pub fn append_uint_to_string(op: Operator, l: &OmniaUInt, r: &OmniaChararr) -> (res: Result<
    Value,
    CompilerError,
>)
    ensures
        res_view(res) == spec_append_to_text(
            op,
            r.value@,
            ValueView::UInt(l.value as int),
            Type::UINT,
            Type::CHARARR,
        ),
{
    match op {
        Operator::PLUS => {
            let mut val: String = r.get_as_string();
            let rendered: String = l.get_as_string();
            val.append(rendered.as_str());
            Ok(Value::Chararr(OmniaChararr::new(val)))
        },
        _ => Err(
            CompilerError::UnsupportedOperator { operator: op, left: Type::UINT, right: Type::CHARARR },
        ),
    }
}

/// Concatenation of a text operand with a `ubyte` operand: the text comes
/// first, the rendered number is appended after it; legal only for `PLUS`.
pub fn append_ubyte_to_string(op: Operator, l: &OmniaUByte, r: &OmniaChararr) -> (res: Result<
    Value,
    CompilerError,
>)
    ensures
        res_view(res) == spec_append_to_text(
            op,
            r.value@,
            ValueView::UByte(l.value as int),
            Type::UBYTE,
            Type::CHARARR,
        ),
{
    match op {
        Operator::PLUS => {
            let mut val: String = r.get_as_string();
            let rendered: String = l.get_as_string();
            val.append(rendered.as_str());
            Ok(Value::Chararr(OmniaChararr::new(val)))
        },
        _ => Err(
            CompilerError::UnsupportedOperator { operator: op, left: Type::UBYTE, right: Type::CHARARR },
        ),
    }
}

/// Concatenation of a text operand with a `ulong` operand: the text comes
/// first, the rendered number is appended after it; legal only for `PLUS`.
pub fn append_ulong_to_string(op: Operator, l: &OmniaULong, r: &OmniaChararr) -> (res: Result<
    Value,
    CompilerError,
>)
    ensures
        res_view(res) == spec_append_to_text(
            op,
            r.value@,
            ValueView::ULong(l.value as int),
            Type::ULONG,
            Type::CHARARR,
        ),
{
    match op {
        Operator::PLUS => {
            let mut val: String = r.get_as_string();
            let rendered: String = l.get_as_string();
            val.append(rendered.as_str());
            Ok(Value::Chararr(OmniaChararr::new(val)))
        },
        _ => Err(
            CompilerError::UnsupportedOperator { operator: op, left: Type::ULONG, right: Type::CHARARR },
        ),
    }
}

/// One checked operation over two `int` operands.
pub fn prepare_calc_int(op: Operator, l: &OmniaInt, r: &OmniaInt) -> (res: Result<Value, CompilerError>)
    ensures
        res_view(res) == checked_int_op(op, Type::INT, l.value as int, r.value as int),
{
    match op {
        Operator::PLUS => match add_int(l, r) {
            Ok(v) => Ok(Value::Int(v)),
            Err(e) => Err(e),
        },
        Operator::MINUS => match sub_int(l, r) {
            Ok(v) => Ok(Value::Int(v)),
            Err(e) => Err(e),
        },
        Operator::MULTIPLY => match mul_int(l, r) {
            Ok(v) => Ok(Value::Int(v)),
            Err(e) => Err(e),
        },
        Operator::DIVIDE => match div_int(l, r) {
            Ok(v) => Ok(Value::Int(v)),
            Err(e) => Err(e),
        },
        Operator::REM => match rem_int(l, r) {
            Ok(v) => Ok(Value::Int(v)),
            Err(e) => Err(e),
        },
        _ => Err(CompilerError::UnsupportedOperator { operator: op, left: Type::INT, right: Type::INT }),
    }
}

/// One checked operation over two `byte` operands.
pub fn prepare_calc_byte(op: Operator, l: &OmniaByte, r: &OmniaByte) -> (res: Result<Value, CompilerError>)
    ensures
        res_view(res) == checked_int_op(op, Type::BYTE, l.value as int, r.value as int),
{
    match op {
        Operator::PLUS => match add_byte(l, r) {
            Ok(v) => Ok(Value::Byte(v)),
            Err(e) => Err(e),
        },
        Operator::MINUS => match sub_byte(l, r) {
            Ok(v) => Ok(Value::Byte(v)),
            Err(e) => Err(e),
        },
        Operator::MULTIPLY => match mul_byte(l, r) {
            Ok(v) => Ok(Value::Byte(v)),
            Err(e) => Err(e),
        },
        Operator::DIVIDE => match div_byte(l, r) {
            Ok(v) => Ok(Value::Byte(v)),
            Err(e) => Err(e),
        },
        Operator::REM => match rem_byte(l, r) {
            Ok(v) => Ok(Value::Byte(v)),
            Err(e) => Err(e),
        },
        _ => Err(CompilerError::UnsupportedOperator { operator: op, left: Type::BYTE, right: Type::BYTE }),
    }
}

/// One checked operation over two `long` operands.
pub fn prepare_calc_long(op: Operator, l: &OmniaLong, r: &OmniaLong) -> (res: Result<Value, CompilerError>)
    ensures
        res_view(res) == checked_int_op(op, Type::LONG, l.value as int, r.value as int),
{
    match op {
        Operator::PLUS => match add_long(l, r) {
            Ok(v) => Ok(Value::Long(v)),
            Err(e) => Err(e),
        },
        Operator::MINUS => match sub_long(l, r) {
            Ok(v) => Ok(Value::Long(v)),
            Err(e) => Err(e),
        },
        Operator::MULTIPLY => match mul_long(l, r) {
            Ok(v) => Ok(Value::Long(v)),
            Err(e) => Err(e),
        },
        Operator::DIVIDE => match div_long(l, r) {
            Ok(v) => Ok(Value::Long(v)),
            Err(e) => Err(e),
        },
        Operator::REM => match rem_long(l, r) {
            Ok(v) => Ok(Value::Long(v)),
            Err(e) => Err(e),
        },
        _ => Err(CompilerError::UnsupportedOperator { operator: op, left: Type::LONG, right: Type::LONG }),
    }
}

/// One checked operation over two `uint` operands.
pub fn prepare_calc_uint(op: Operator, l: &OmniaUInt, r: &OmniaUInt) -> (res: Result<Value, CompilerError>)
    ensures
        res_view(res) == checked_int_op(op, Type::UINT, l.value as int, r.value as int),
{
    match op {
        Operator::PLUS => match add_uint(l, r) {
            Ok(v) => Ok(Value::UInt(v)),
            Err(e) => Err(e),
        },
        Operator::MINUS => match sub_uint(l, r) {
            Ok(v) => Ok(Value::UInt(v)),
            Err(e) => Err(e),
        },
        Operator::MULTIPLY => match mul_uint(l, r) {
            Ok(v) => Ok(Value::UInt(v)),
            Err(e) => Err(e),
        },
        Operator::DIVIDE => match div_uint(l, r) {
            Ok(v) => Ok(Value::UInt(v)),
            Err(e) => Err(e),
        },
        Operator::REM => match rem_uint(l, r) {
            Ok(v) => Ok(Value::UInt(v)),
            Err(e) => Err(e),
        },
        _ => Err(CompilerError::UnsupportedOperator { operator: op, left: Type::UINT, right: Type::UINT }),
    }
}

/// One checked operation over two `ubyte` operands.
pub fn prepare_calc_ubyte(op: Operator, l: &OmniaUByte, r: &OmniaUByte) -> (res: Result<Value, CompilerError>)
    ensures
        res_view(res) == checked_int_op(op, Type::UBYTE, l.value as int, r.value as int),
{
    match op {
        Operator::PLUS => match add_ubyte(l, r) {
            Ok(v) => Ok(Value::UByte(v)),
            Err(e) => Err(e),
        },
        Operator::MINUS => match sub_ubyte(l, r) {
            Ok(v) => Ok(Value::UByte(v)),
            Err(e) => Err(e),
        },
        Operator::MULTIPLY => match mul_ubyte(l, r) {
            Ok(v) => Ok(Value::UByte(v)),
            Err(e) => Err(e),
        },
        Operator::DIVIDE => match div_ubyte(l, r) {
            Ok(v) => Ok(Value::UByte(v)),
            Err(e) => Err(e),
        },
        Operator::REM => match rem_ubyte(l, r) {
            Ok(v) => Ok(Value::UByte(v)),
            Err(e) => Err(e),
        },
        _ => Err(CompilerError::UnsupportedOperator { operator: op, left: Type::UBYTE, right: Type::UBYTE }),
    }
}

/// One checked operation over two `ulong` operands.
pub fn prepare_calc_ulong(op: Operator, l: &OmniaULong, r: &OmniaULong) -> (res: Result<Value, CompilerError>)
    ensures
        res_view(res) == checked_int_op(op, Type::ULONG, l.value as int, r.value as int),
{
    match op {
        Operator::PLUS => match add_ulong(l, r) {
            Ok(v) => Ok(Value::ULong(v)),
            Err(e) => Err(e),
        },
        Operator::MINUS => match sub_ulong(l, r) {
            Ok(v) => Ok(Value::ULong(v)),
            Err(e) => Err(e),
        },
        Operator::MULTIPLY => match mul_ulong(l, r) {
            Ok(v) => Ok(Value::ULong(v)),
            Err(e) => Err(e),
        },
        Operator::DIVIDE => match div_ulong(l, r) {
            Ok(v) => Ok(Value::ULong(v)),
            Err(e) => Err(e),
        },
        Operator::REM => match rem_ulong(l, r) {
            Ok(v) => Ok(Value::ULong(v)),
            Err(e) => Err(e),
        },
        _ => Err(CompilerError::UnsupportedOperator { operator: op, left: Type::ULONG, right: Type::ULONG }),
    }
}

/// Dispatch for a `int` left operand: a right operand of the same
/// signedness family is converted into the `int` representation before
/// the checked operation, and a text right operand turns `PLUS` into
/// concatenation.
pub fn prepare_calc_l_int(op: Operator, l: &OmniaInt, r: &Value) -> (res: Result<
    Value,
    CompilerError,
>)
    ensures
        res_view(res) == spec_eval_binary(op, ValueView::Int(l.value as int), r@),
{
    match r {
        Value::Byte(x) => prepare_calc_int(op, l, &OmniaInt::new(x.value as i32)),
        Value::Int(x) => prepare_calc_int(op, l, x),
        Value::Long(x) => {
            if x.value >= i32::MIN as i64 && x.value <= i32::MAX as i64 {
                prepare_calc_int(op, l, &OmniaInt::new(x.value as i32))
            } else {
                Err(CompilerError::RangeExceeded { operator: op, kind: Type::INT })
            }
        },
        Value::Chararr(s) => append_int_to_string(op, l, s),
        Value::UByte(_) => Err(
            CompilerError::UnsupportedCoercion { operator: op, left: Type::INT, right: Type::UBYTE },
        ),
        Value::UInt(_) => Err(
            CompilerError::UnsupportedCoercion { operator: op, left: Type::INT, right: Type::UINT },
        ),
        Value::ULong(_) => Err(
            CompilerError::UnsupportedCoercion { operator: op, left: Type::INT, right: Type::ULONG },
        ),
        Value::Char(_) => Err(
            CompilerError::UnsupportedCoercion { operator: op, left: Type::INT, right: Type::CHAR },
        ),
        Value::Bool(_) => Err(
            CompilerError::UnsupportedCoercion { operator: op, left: Type::INT, right: Type::BOOL },
        ),
    }
}

/// Dispatch for a `byte` left operand: a right operand of the same
/// signedness family is converted into the `byte` representation before
/// the checked operation, and a text right operand turns `PLUS` into
/// concatenation.
pub fn prepare_calc_l_byte(op: Operator, l: &OmniaByte, r: &Value) -> (res: Result<
    Value,
    CompilerError,
>)
    ensures
        res_view(res) == spec_eval_binary(op, ValueView::Byte(l.value as int), r@),
{
    match r {
        Value::Byte(x) => prepare_calc_byte(op, l, x),
        Value::Int(x) => {
            if x.value >= i8::MIN as i32 && x.value <= i8::MAX as i32 {
                prepare_calc_byte(op, l, &OmniaByte::new(x.value as i8))
            } else {
                Err(CompilerError::RangeExceeded { operator: op, kind: Type::BYTE })
            }
        },
        Value::Long(x) => {
            if x.value >= i8::MIN as i64 && x.value <= i8::MAX as i64 {
                prepare_calc_byte(op, l, &OmniaByte::new(x.value as i8))
            } else {
                Err(CompilerError::RangeExceeded { operator: op, kind: Type::BYTE })
            }
        },
        Value::Chararr(s) => append_byte_to_string(op, l, s),
        Value::UByte(_) => Err(
            CompilerError::UnsupportedCoercion { operator: op, left: Type::BYTE, right: Type::UBYTE },
        ),
        Value::UInt(_) => Err(
            CompilerError::UnsupportedCoercion { operator: op, left: Type::BYTE, right: Type::UINT },
        ),
        Value::ULong(_) => Err(
            CompilerError::UnsupportedCoercion { operator: op, left: Type::BYTE, right: Type::ULONG },
        ),
        Value::Char(_) => Err(
            CompilerError::UnsupportedCoercion { operator: op, left: Type::BYTE, right: Type::CHAR },
        ),
        Value::Bool(_) => Err(
            CompilerError::UnsupportedCoercion { operator: op, left: Type::BYTE, right: Type::BOOL },
        ),
    }
}

/// Dispatch for a `long` left operand: a right operand of the same
/// signedness family is converted into the `long` representation before
/// the checked operation, and a text right operand turns `PLUS` into
/// concatenation.
pub fn prepare_calc_l_long(op: Operator, l: &OmniaLong, r: &Value) -> (res: Result<
    Value,
    CompilerError,
>)
    ensures
        res_view(res) == spec_eval_binary(op, ValueView::Long(l.value as int), r@),
{
    match r {
        Value::Byte(x) => prepare_calc_long(op, l, &OmniaLong::new(x.value as i64)),
        Value::Int(x) => prepare_calc_long(op, l, &OmniaLong::new(x.value as i64)),
        Value::Long(x) => prepare_calc_long(op, l, x),
        Value::Chararr(s) => append_long_to_string(op, l, s),
        Value::UByte(_) => Err(
            CompilerError::UnsupportedCoercion { operator: op, left: Type::LONG, right: Type::UBYTE },
        ),
        Value::UInt(_) => Err(
            CompilerError::UnsupportedCoercion { operator: op, left: Type::LONG, right: Type::UINT },
        ),
        Value::ULong(_) => Err(
            CompilerError::UnsupportedCoercion { operator: op, left: Type::LONG, right: Type::ULONG },
        ),
        Value::Char(_) => Err(
            CompilerError::UnsupportedCoercion { operator: op, left: Type::LONG, right: Type::CHAR },
        ),
        Value::Bool(_) => Err(
            CompilerError::UnsupportedCoercion { operator: op, left: Type::LONG, right: Type::BOOL },
        ),
    }
}

/// Dispatch for a `uint` left operand: a right operand of the same
/// signedness family is converted into the `uint` representation before
/// the checked operation, and a text right operand turns `PLUS` into
/// concatenation.
pub fn prepare_calc_l_uint(op: Operator, l: &OmniaUInt, r: &Value) -> (res: Result<
    Value,
    CompilerError,
>)
    ensures
        res_view(res) == spec_eval_binary(op, ValueView::UInt(l.value as int), r@),
{
    match r {
        Value::UByte(x) => prepare_calc_uint(op, l, &OmniaUInt::new(x.value as u32)),
        Value::UInt(x) => prepare_calc_uint(op, l, x),
        Value::ULong(x) => {
            if x.value <= u32::MAX as u64 {
                prepare_calc_uint(op, l, &OmniaUInt::new(x.value as u32))
            } else {
                Err(CompilerError::RangeExceeded { operator: op, kind: Type::UINT })
            }
        },
        Value::Chararr(s) => append_uint_to_string(op, l, s),
        Value::Byte(_) => Err(
            CompilerError::UnsupportedCoercion { operator: op, left: Type::UINT, right: Type::BYTE },
        ),
        Value::Int(_) => Err(
            CompilerError::UnsupportedCoercion { operator: op, left: Type::UINT, right: Type::INT },
        ),
        Value::Long(_) => Err(
            CompilerError::UnsupportedCoercion { operator: op, left: Type::UINT, right: Type::LONG },
        ),
        Value::Char(_) => Err(
            CompilerError::UnsupportedCoercion { operator: op, left: Type::UINT, right: Type::CHAR },
        ),
        Value::Bool(_) => Err(
            CompilerError::UnsupportedCoercion { operator: op, left: Type::UINT, right: Type::BOOL },
        ),
    }
}

/// Dispatch for a `ubyte` left operand: a right operand of the same
/// signedness family is converted into the `ubyte` representation before
/// the checked operation, and a text right operand turns `PLUS` into
/// concatenation.
pub fn prepare_calc_l_ubyte(op: Operator, l: &OmniaUByte, r: &Value) -> (res: Result<
    Value,
    CompilerError,
>)
    ensures
        res_view(res) == spec_eval_binary(op, ValueView::UByte(l.value as int), r@),
{
    match r {
        Value::UByte(x) => prepare_calc_ubyte(op, l, x),
        Value::UInt(x) => {
            if x.value <= u8::MAX as u32 {
                prepare_calc_ubyte(op, l, &OmniaUByte::new(x.value as u8))
            } else {
                Err(CompilerError::RangeExceeded { operator: op, kind: Type::UBYTE })
            }
        },
        Value::ULong(x) => {
            if x.value <= u8::MAX as u64 {
                prepare_calc_ubyte(op, l, &OmniaUByte::new(x.value as u8))
            } else {
                Err(CompilerError::RangeExceeded { operator: op, kind: Type::UBYTE })
            }
        },
        Value::Chararr(s) => append_ubyte_to_string(op, l, s),
        Value::Byte(_) => Err(
            CompilerError::UnsupportedCoercion { operator: op, left: Type::UBYTE, right: Type::BYTE },
        ),
        Value::Int(_) => Err(
            CompilerError::UnsupportedCoercion { operator: op, left: Type::UBYTE, right: Type::INT },
        ),
        Value::Long(_) => Err(
            CompilerError::UnsupportedCoercion { operator: op, left: Type::UBYTE, right: Type::LONG },
        ),
        Value::Char(_) => Err(
            CompilerError::UnsupportedCoercion { operator: op, left: Type::UBYTE, right: Type::CHAR },
        ),
        Value::Bool(_) => Err(
            CompilerError::UnsupportedCoercion { operator: op, left: Type::UBYTE, right: Type::BOOL },
        ),
    }
}

/// Dispatch for a `ulong` left operand: a right operand of the same
/// signedness family is converted into the `ulong` representation before
/// the checked operation, and a text right operand turns `PLUS` into
/// concatenation.
pub fn prepare_calc_l_ulong(op: Operator, l: &OmniaULong, r: &Value) -> (res: Result<
    Value,
    CompilerError,
>)
    ensures
        res_view(res) == spec_eval_binary(op, ValueView::ULong(l.value as int), r@),
{
    match r {
        Value::UByte(x) => prepare_calc_ulong(op, l, &OmniaULong::new(x.value as u64)),
        Value::UInt(x) => prepare_calc_ulong(op, l, &OmniaULong::new(x.value as u64)),
        Value::ULong(x) => prepare_calc_ulong(op, l, x),
        Value::Chararr(s) => append_ulong_to_string(op, l, s),
        Value::Byte(_) => Err(
            CompilerError::UnsupportedCoercion { operator: op, left: Type::ULONG, right: Type::BYTE },
        ),
        Value::Int(_) => Err(
            CompilerError::UnsupportedCoercion { operator: op, left: Type::ULONG, right: Type::INT },
        ),
        Value::Long(_) => Err(
            CompilerError::UnsupportedCoercion { operator: op, left: Type::ULONG, right: Type::LONG },
        ),
        Value::Char(_) => Err(
            CompilerError::UnsupportedCoercion { operator: op, left: Type::ULONG, right: Type::CHAR },
        ),
        Value::Bool(_) => Err(
            CompilerError::UnsupportedCoercion { operator: op, left: Type::ULONG, right: Type::BOOL },
        ),
    }
}

/// Dispatch for a text left operand: any integer, char, or text right
/// operand is rendered and appended after the left operand's text, for
/// `PLUS` alone; a bool right operand has no defined conversion.
pub fn prepare_calc_l_string(op: Operator, l: &OmniaChararr, r: &Value) -> (res: Result<
    Value,
    CompilerError,
>)
    ensures
        res_view(res) == spec_eval_binary(op, ValueView::Chararr(l.value@), r@),
{
    match r {
        Value::Bool(_) => Err(
            CompilerError::UnsupportedCoercion {
                operator: op,
                left: Type::CHARARR,
                right: Type::BOOL,
            },
        ),
        _ => {
            match op {
                Operator::PLUS => {
                    let mut val: String = l.get_as_string();
                    let rendered: String = r.get_as_string();
                    val.append(rendered.as_str());
                    Ok(Value::Chararr(OmniaChararr::new(val)))
                },
                _ => {
                    let tag = r.get_type();
                    Err(
                        CompilerError::UnsupportedOperator {
                            operator: op,
                            left: Type::CHARARR,
                            right: *tag.get_right(),
                        },
                    )
                },
            }
        },
    }
}

/// Dispatch for a `char` left operand: only a text right operand is
/// accepted, and only for `PLUS`; the char is appended after the text.
pub fn prepare_calc_l_char(op: Operator, l: &OmniaChar, r: &Value) -> (res: Result<
    Value,
    CompilerError,
>)
    ensures
        res_view(res) == spec_eval_binary(op, ValueView::Char(l.value), r@),
{
    match r {
        Value::Chararr(s) => {
            match op {
                Operator::PLUS => {
                    let mut val: String = s.get_as_string();
                    push_char(&mut val, l.value);
                    proof {
                        assert(val@ =~= s.value@ + seq![l.value]);
                    }
                    Ok(Value::Chararr(OmniaChararr::new(val)))
                },
                _ => Err(
                    CompilerError::UnsupportedOperator {
                        operator: op,
                        left: Type::CHAR,
                        right: Type::CHARARR,
                    },
                ),
            }
        },
        _ => {
            let tag = r.get_type();
            Err(
                CompilerError::UnsupportedCoercion {
                    operator: op,
                    left: Type::CHAR,
                    right: *tag.get_right(),
                },
            )
        },
    }
}

/// Dispatch for a `bool` left operand: only a text right operand is
/// accepted, and only for `PLUS`; the bool's rendering is appended after
/// the text.
pub fn prepare_calc_l_bool(op: Operator, l: &OmniaBool, r: &Value) -> (res: Result<
    Value,
    CompilerError,
>)
    ensures
        res_view(res) == spec_eval_binary(op, ValueView::Bool(l.value), r@),
{
    match r {
        Value::Chararr(s) => {
            match op {
                Operator::PLUS => {
                    let mut val: String = s.get_as_string();
                    let rendered: String = l.get_as_string();
                    val.append(rendered.as_str());
                    Ok(Value::Chararr(OmniaChararr::new(val)))
                },
                _ => Err(
                    CompilerError::UnsupportedOperator {
                        operator: op,
                        left: Type::BOOL,
                        right: Type::CHARARR,
                    },
                ),
            }
        },
        _ => {
            let tag = r.get_type();
            Err(
                CompilerError::UnsupportedCoercion {
                    operator: op,
                    left: Type::BOOL,
                    right: *tag.get_right(),
                },
            )
        },
    }
}

/// One binary operation over two already-evaluated values, dispatched by the
/// left operand's concrete kind.
pub fn eval_binary(op: Operator, l: &Value, r: &Value) -> (res: Result<Value, CompilerError>)
    ensures
        res_view(res) == spec_eval_binary(op, l@, r@),
{
    match l {
        Value::Byte(x) => prepare_calc_l_byte(op, x, r),
        Value::Int(x) => prepare_calc_l_int(op, x, r),
        Value::Long(x) => prepare_calc_l_long(op, x, r),
        Value::UByte(x) => prepare_calc_l_ubyte(op, x, r),
        Value::UInt(x) => prepare_calc_l_uint(op, x, r),
        Value::ULong(x) => prepare_calc_l_ulong(op, x, r),
        Value::Chararr(s) => prepare_calc_l_string(op, s, r),
        Value::Char(c) => prepare_calc_l_char(op, c, r),
        Value::Bool(b) => prepare_calc_l_bool(op, b, r),
    }
}

/// An expression: a literal value, or a binary node owning its two
/// sub-expressions.  Each node exclusively owns its children, so the tree
/// has no sharing and no cycles.
pub enum Expr {
    Literal(Value),
    Binary(Box<BinaryExpression>),
}

/// A binary expression node: two child expressions and one operator.
pub struct BinaryExpression {
    pub left: Expr,
    pub right: Expr,
    pub operator: Operator,
}

/// The mathematical result of evaluating an expression: the spec-level
/// mirror of [`Expr::calc`].
pub open spec fn spec_eval(e: Expr) -> Result<ValueView, CompilerError>
    decreases e,
{
    match e {
        Expr::Literal(v) => Ok(v@),
        Expr::Binary(b) => spec_eval_node(*b),
    }
}

/// The mathematical result of evaluating a binary node: left child first,
/// then the right child, then the dispatch table over the two values.
pub open spec fn spec_eval_node(b: BinaryExpression) -> Result<ValueView, CompilerError>
    decreases b,
{
    match spec_eval(b.left) {
        Err(e) => Err(e),
        Ok(lv) => match spec_eval(b.right) {
            Err(e) => Err(e),
            Ok(rv) => spec_eval_binary(b.operator, lv, rv),
        },
    }
}

impl Expr {
    /// Evaluates the expression to a fresh value or a typed error.  The
    /// result is a pure function of the tree, so repeated evaluations of the
    /// same tree agree.
    pub fn calc(&self) -> (res: Result<Value, CompilerError>)
        ensures
            res_view(res) == spec_eval(*self),
        decreases *self,
    {
        match self {
            Expr::Literal(v) => Ok(v.clone()),
            Expr::Binary(b) => b.calc(),
        }
    }
}

impl BinaryExpression {
    pub fn new(left: Expr, right: Expr, operator: Operator) -> (res: BinaryExpression)
        ensures
            res.left == left,
            res.right == right,
            res.operator == operator,
    {
        BinaryExpression { left, right, operator }
    }

    /// Evaluates this node: reduces the left child, then the right child,
    /// then performs the dispatched operation on the two values.
    pub fn calc(&self) -> (res: Result<Value, CompilerError>)
        ensures
            res_view(res) == spec_eval_node(*self),
        decreases *self,
    {
        let lv = match self.left.calc() {
            Ok(v) => v,
            Err(e) => {
                return Err(e);
            },
        };
        let rv = match self.right.calc() {
            Ok(v) => v,
            Err(e) => {
                return Err(e);
            },
        };
        eval_binary(self.operator, &lv, &rv)
    }
}

/// Law: text concatenation is associative in rendering.  Concatenating
/// three text values groups either way to the same evaluation result.
pub proof fn lemma_concat_associative(a: Seq<char>, b: Seq<char>, c: Seq<char>)
    ensures
        ({
            let ab = spec_eval_binary(
                Operator::PLUS,
                ValueView::Chararr(a),
                ValueView::Chararr(b),
            );
            let bc = spec_eval_binary(
                Operator::PLUS,
                ValueView::Chararr(b),
                ValueView::Chararr(c),
            );
            &&& ab matches Ok(abv) && spec_eval_binary(
                Operator::PLUS,
                abv,
                ValueView::Chararr(c),
            ) == Ok::<ValueView, CompilerError>(ValueView::Chararr(a + b + c))
            &&& bc matches Ok(bcv) && spec_eval_binary(
                Operator::PLUS,
                ValueView::Chararr(a),
                bcv,
            ) == Ok::<ValueView, CompilerError>(ValueView::Chararr(a + b + c))
        }),
{
    assert(a + (b + c) =~= a + b + c);
}

/// Law: the text-first rule is uniform in argument order.  For a numeric or
/// char value `v` and a text value `t`, `PLUS` yields the text followed by
/// `v`'s rendering whichever side the text stood on; the pair is therefore
/// not commutative in which value contributes the prefix, but the two
/// orders evaluate to the same result.
pub proof fn lemma_text_append_uniform(v: ValueView, t: Seq<char>)
    requires
        is_integer_kind(v.kind()) || v.kind() == Type::CHAR,
    ensures
        spec_eval_binary(Operator::PLUS, v, ValueView::Chararr(t)) == Ok::<
            ValueView,
            CompilerError,
        >(ValueView::Chararr(t + v.render())),
        spec_eval_binary(Operator::PLUS, ValueView::Chararr(t), v) == Ok::<
            ValueView,
            CompilerError,
        >(ValueView::Chararr(t + v.render())),
{
}

/// Law: only `PLUS` may pair a numeric or char value with a text value; any
/// other operator on such a pair is an `UnsupportedOperator` error naming
/// the two operand kinds in order.
pub proof fn lemma_non_add_with_text(op: Operator, v: ValueView, t: Seq<char>)
    requires
        op != Operator::PLUS,
        is_integer_kind(v.kind()) || v.kind() == Type::CHAR,
    ensures
        spec_eval_binary(op, v, ValueView::Chararr(t)) == Err::<ValueView, CompilerError>(
            (CompilerError::UnsupportedOperator {
                operator: op,
                left: v.kind(),
                right: Type::CHARARR,
            }),
        ),
        spec_eval_binary(op, ValueView::Chararr(t), v) == Err::<ValueView, CompilerError>(
            (CompilerError::UnsupportedOperator {
                operator: op,
                left: Type::CHARARR,
                right: v.kind(),
            }),
        ),
{
}

/// Law: promotion is left-driven and asymmetric.  With an `int` on the left
/// and a `long` on the right the operation is computed in int's 32-bit
/// range and overflows there, while the mirrored operand order computes in
/// long's 64-bit range and succeeds on the same values.
pub proof fn lemma_promotion_asymmetry(a: int, b: int)
    requires
        in_kind_range(Type::INT, a),
        in_kind_range(Type::INT, b),
    ensures
        !in_kind_range(Type::INT, a + b) ==> spec_eval_binary(
            Operator::PLUS,
            ValueView::Int(a),
            ValueView::Long(b),
        ) == Err::<ValueView, CompilerError>(
            (CompilerError::RangeExceeded { operator: Operator::PLUS, kind: Type::INT }),
        ),
        spec_eval_binary(Operator::PLUS, ValueView::Long(a), ValueView::Int(b)) == Ok::<
            ValueView,
            CompilerError,
        >(ValueView::Long(a + b)),
{
}

/// A unary expression node: one child expression and one operator.  Its
/// evaluation is not part of this core: the unary operator family has no
/// defined semantics here.
pub struct UnaryExpression {
    pub left: Expr,
    pub operation: Operator,
}

impl UnaryExpression {
    pub fn new(left: Expr, operation: Operator) -> (res: UnaryExpression)
        ensures
            res.left == left,
            res.operation == operation,
    {
        UnaryExpression { left, operation }
    }
}

} // verus!
