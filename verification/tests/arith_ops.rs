use omnia::arith::{
    add_byte, add_int, add_long, add_ubyte, add_uint, add_ulong, div_byte, div_int, div_long,
    div_uint, div_ulong, mul_byte, mul_int, mul_long, mul_uint, mul_ulong, rem_byte, rem_int,
    rem_long, rem_ubyte, rem_uint, rem_ulong, sub_byte, sub_int, sub_long, sub_ubyte, sub_uint,
    sub_ulong,
};
use omnia::ast::Operator;
use omnia::omnia_types::{
    CompilerError, OmniaByte, OmniaInt, OmniaLong, OmniaUByte, OmniaUInt, OmniaULong, Type,
};

#[test]
fn add_int_exact_result() {
    let r = add_int(&OmniaInt::new(5), &OmniaInt::new(3)).unwrap();
    assert_eq!(r.get_value_as(), 8);
}

#[test]
fn add_int_overflow_is_range_exceeded() {
    let r = add_int(&OmniaInt::new(i32::MAX), &OmniaInt::new(1));
    assert_eq!(
        r.unwrap_err(),
        CompilerError::RangeExceeded { operator: Operator::PLUS, kind: Type::INT }
    );
}

#[test]
fn sub_int_underflow_is_range_exceeded() {
    let r = sub_int(&OmniaInt::new(i32::MIN), &OmniaInt::new(1));
    assert_eq!(
        r.unwrap_err(),
        CompilerError::RangeExceeded { operator: Operator::MINUS, kind: Type::INT }
    );
}

#[test]
fn mul_int_exact_and_overflow() {
    assert_eq!(mul_int(&OmniaInt::new(-6), &OmniaInt::new(7)).unwrap().get_value_as(), -42);
    let r = mul_int(&OmniaInt::new(65536), &OmniaInt::new(65536));
    assert_eq!(
        r.unwrap_err(),
        CompilerError::RangeExceeded { operator: Operator::MULTIPLY, kind: Type::INT }
    );
}

#[test]
fn div_int_truncates_toward_zero() {
    assert_eq!(div_int(&OmniaInt::new(7), &OmniaInt::new(2)).unwrap().get_value_as(), 3);
    assert_eq!(div_int(&OmniaInt::new(-7), &OmniaInt::new(2)).unwrap().get_value_as(), -3);
    assert_eq!(div_int(&OmniaInt::new(7), &OmniaInt::new(-2)).unwrap().get_value_as(), -3);
    assert_eq!(div_int(&OmniaInt::new(-7), &OmniaInt::new(-2)).unwrap().get_value_as(), 3);
}

#[test]
fn div_int_by_zero_is_division_by_zero() {
    let r = div_int(&OmniaInt::new(1), &OmniaInt::new(0));
    assert_eq!(
        r.unwrap_err(),
        CompilerError::DivisionByZero { operator: Operator::DIVIDE, kind: Type::INT }
    );
}

#[test]
fn div_int_min_by_minus_one_is_range_exceeded() {
    let r = div_int(&OmniaInt::new(i32::MIN), &OmniaInt::new(-1));
    assert_eq!(
        r.unwrap_err(),
        CompilerError::RangeExceeded { operator: Operator::DIVIDE, kind: Type::INT }
    );
}

#[test]
fn rem_int_carries_dividend_sign() {
    assert_eq!(rem_int(&OmniaInt::new(7), &OmniaInt::new(2)).unwrap().get_value_as(), 1);
    assert_eq!(rem_int(&OmniaInt::new(-7), &OmniaInt::new(2)).unwrap().get_value_as(), -1);
    assert_eq!(rem_int(&OmniaInt::new(7), &OmniaInt::new(-2)).unwrap().get_value_as(), 1);
    assert_eq!(rem_int(&OmniaInt::new(-7), &OmniaInt::new(-2)).unwrap().get_value_as(), -1);
}

#[test]
fn rem_int_by_zero_is_division_by_zero() {
    let r = rem_int(&OmniaInt::new(1), &OmniaInt::new(0));
    assert_eq!(
        r.unwrap_err(),
        CompilerError::DivisionByZero { operator: Operator::REM, kind: Type::INT }
    );
}

#[test]
fn rem_int_min_by_minus_one_is_zero() {
    // The exact mathematical remainder is 0, which is representable, so the
    // operation succeeds.
    assert_eq!(rem_int(&OmniaInt::new(i32::MIN), &OmniaInt::new(-1)).unwrap().get_value_as(), 0);
}

#[test]
fn byte_ops_work_in_byte_range() {
    assert_eq!(add_byte(&OmniaByte::new(100), &OmniaByte::new(27)).unwrap().get_value_as(), 127);
    assert_eq!(
        add_byte(&OmniaByte::new(100), &OmniaByte::new(28)).unwrap_err(),
        CompilerError::RangeExceeded { operator: Operator::PLUS, kind: Type::BYTE }
    );
    assert_eq!(sub_byte(&OmniaByte::new(-100), &OmniaByte::new(28)).unwrap().get_value_as(), -128);
    assert_eq!(mul_byte(&OmniaByte::new(-4), &OmniaByte::new(5)).unwrap().get_value_as(), -20);
    assert_eq!(div_byte(&OmniaByte::new(-128), &OmniaByte::new(2)).unwrap().get_value_as(), -64);
    assert_eq!(rem_byte(&OmniaByte::new(-128), &OmniaByte::new(-1)).unwrap().get_value_as(), 0);
}

#[test]
fn long_ops_work_in_long_range() {
    assert_eq!(
        add_long(&OmniaLong::new(1i64 << 40), &OmniaLong::new(1)).unwrap().get_value_as(),
        (1i64 << 40) + 1
    );
    assert_eq!(
        add_long(&OmniaLong::new(i64::MAX), &OmniaLong::new(1)).unwrap_err(),
        CompilerError::RangeExceeded { operator: Operator::PLUS, kind: Type::LONG }
    );
    assert_eq!(
        mul_long(&OmniaLong::new(i64::MAX), &OmniaLong::new(2)).unwrap_err(),
        CompilerError::RangeExceeded { operator: Operator::MULTIPLY, kind: Type::LONG }
    );
    assert_eq!(sub_long(&OmniaLong::new(-5), &OmniaLong::new(5)).unwrap().get_value_as(), -10);
    assert_eq!(div_long(&OmniaLong::new(-9), &OmniaLong::new(4)).unwrap().get_value_as(), -2);
    assert_eq!(rem_long(&OmniaLong::new(-9), &OmniaLong::new(4)).unwrap().get_value_as(), -1);
}

#[test]
fn add_ubyte_overflow_is_range_exceeded() {
    let r = add_ubyte(&OmniaUByte::new(200), &OmniaUByte::new(100));
    assert_eq!(
        r.unwrap_err(),
        CompilerError::RangeExceeded { operator: Operator::PLUS, kind: Type::UBYTE }
    );
    assert_eq!(add_ubyte(&OmniaUByte::new(200), &OmniaUByte::new(55)).unwrap().get_value_as(), 255);
}

#[test]
fn sub_unsigned_below_zero_is_range_exceeded() {
    assert_eq!(
        sub_ubyte(&OmniaUByte::new(3), &OmniaUByte::new(5)).unwrap_err(),
        CompilerError::RangeExceeded { operator: Operator::MINUS, kind: Type::UBYTE }
    );
    assert_eq!(
        sub_uint(&OmniaUInt::new(3), &OmniaUInt::new(5)).unwrap_err(),
        CompilerError::RangeExceeded { operator: Operator::MINUS, kind: Type::UINT }
    );
    assert_eq!(
        sub_ulong(&OmniaULong::new(3), &OmniaULong::new(5)).unwrap_err(),
        CompilerError::RangeExceeded { operator: Operator::MINUS, kind: Type::ULONG }
    );
}

#[test]
fn uint_ops_exact() {
    assert_eq!(
        add_uint(&OmniaUInt::new(4000000000), &OmniaUInt::new(294967295)).unwrap().get_value_as(),
        4294967295u32
    );
    assert_eq!(
        add_uint(&OmniaUInt::new(4000000000), &OmniaUInt::new(294967296)).unwrap_err(),
        CompilerError::RangeExceeded { operator: Operator::PLUS, kind: Type::UINT }
    );
    assert_eq!(mul_uint(&OmniaUInt::new(1000), &OmniaUInt::new(1000)).unwrap().get_value_as(), 1000000u32);
    assert_eq!(div_uint(&OmniaUInt::new(17), &OmniaUInt::new(5)).unwrap().get_value_as(), 3u32);
    assert_eq!(rem_uint(&OmniaUInt::new(17), &OmniaUInt::new(5)).unwrap().get_value_as(), 2u32);
    assert_eq!(
        div_uint(&OmniaUInt::new(17), &OmniaUInt::new(0)).unwrap_err(),
        CompilerError::DivisionByZero { operator: Operator::DIVIDE, kind: Type::UINT }
    );
    assert_eq!(
        rem_uint(&OmniaUInt::new(17), &OmniaUInt::new(0)).unwrap_err(),
        CompilerError::DivisionByZero { operator: Operator::REM, kind: Type::UINT }
    );
}

#[test]
fn ulong_ops_exact() {
    assert_eq!(
        add_ulong(&OmniaULong::new(u64::MAX), &OmniaULong::new(1)).unwrap_err(),
        CompilerError::RangeExceeded { operator: Operator::PLUS, kind: Type::ULONG }
    );
    assert_eq!(
        mul_ulong(&OmniaULong::new(1u64 << 32), &OmniaULong::new(1u64 << 32)).unwrap_err(),
        CompilerError::RangeExceeded { operator: Operator::MULTIPLY, kind: Type::ULONG }
    );
    assert_eq!(
        div_ulong(&OmniaULong::new(u64::MAX), &OmniaULong::new(2)).unwrap().get_value_as(),
        u64::MAX / 2
    );
    assert_eq!(rem_ulong(&OmniaULong::new(10), &OmniaULong::new(4)).unwrap().get_value_as(), 2u64);
}

#[test]
fn zero_dividend_remainder_is_zero() {
    assert_eq!(rem_uint(&OmniaUInt::new(0), &OmniaUInt::new(9)).unwrap().get_value_as(), 0u32);
    assert_eq!(rem_int(&OmniaInt::new(0), &OmniaInt::new(-9)).unwrap().get_value_as(), 0);
}
