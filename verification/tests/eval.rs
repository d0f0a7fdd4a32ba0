use omnia::ast::{eval_binary, BinaryExpression, Expr, Operator, UnaryExpression};
use omnia::omnia_types::{
    CompilerError, OmniaBool, OmniaChar, OmniaChararr, OmniaInt, OmniaLong, OmniaUByte,
    OmniaUInt, Type, Value,
};

fn int_lit(v: i32) -> Expr {
    Expr::Literal(Value::Int(OmniaInt::new(v)))
}

fn long_lit(v: i64) -> Expr {
    Expr::Literal(Value::Long(OmniaLong::new(v)))
}

fn ubyte_lit(v: u8) -> Expr {
    Expr::Literal(Value::UByte(OmniaUByte::new(v)))
}

fn text_lit(s: &str) -> Expr {
    Expr::Literal(Value::Chararr(OmniaChararr::get_from(s)))
}

fn bin(op: Operator, l: Expr, r: Expr) -> Expr {
    Expr::Binary(Box::new(BinaryExpression::new(l, r, op)))
}

fn calc_text(e: &Expr) -> String {
    match e.calc().unwrap() {
        Value::Chararr(s) => s.get_as_string(),
        other => panic!("expected text, got {:?}", other),
    }
}

#[test]
fn add_int_literals() {
    let e = bin(Operator::PLUS, int_lit(5), int_lit(3));
    assert_eq!(e.calc().unwrap(), Value::Int(OmniaInt::new(8)));
}

#[test]
fn add_int_overflow_tree() {
    let e = bin(Operator::PLUS, int_lit(2147483647), int_lit(1));
    assert_eq!(
        e.calc().unwrap_err(),
        CompilerError::RangeExceeded { operator: Operator::PLUS, kind: Type::INT }
    );
}

#[test]
fn add_ubyte_overflow_tree() {
    let e = bin(Operator::PLUS, ubyte_lit(200), ubyte_lit(100));
    assert_eq!(
        e.calc().unwrap_err(),
        CompilerError::RangeExceeded { operator: Operator::PLUS, kind: Type::UBYTE }
    );
}

#[test]
fn divide_int_by_zero_tree() {
    let e = bin(Operator::DIVIDE, int_lit(1), int_lit(0));
    assert_eq!(
        e.calc().unwrap_err(),
        CompilerError::DivisionByZero { operator: Operator::DIVIDE, kind: Type::INT }
    );
}

#[test]
fn int_plus_text_renders_text_first() {
    let e = bin(Operator::PLUS, int_lit(5), text_lit("x"));
    assert_eq!(calc_text(&e), "x5");
}

#[test]
fn text_plus_int_renders_text_first_too() {
    let e = bin(Operator::PLUS, text_lit("x"), int_lit(5));
    assert_eq!(calc_text(&e), "x5");
}

#[test]
fn multiply_text_by_int_is_unsupported_operator() {
    let e = bin(Operator::MULTIPLY, text_lit("x"), int_lit(2));
    assert_eq!(
        e.calc().unwrap_err(),
        CompilerError::UnsupportedOperator {
            operator: Operator::MULTIPLY,
            left: Type::CHARARR,
            right: Type::INT,
        }
    );
}

#[test]
fn subtract_int_text_is_unsupported_operator() {
    let e = bin(Operator::MINUS, int_lit(5), text_lit("x"));
    assert_eq!(
        e.calc().unwrap_err(),
        CompilerError::UnsupportedOperator {
            operator: Operator::MINUS,
            left: Type::INT,
            right: Type::CHARARR,
        }
    );
}

#[test]
fn text_concat_is_associative_in_rendering() {
    let grouped_left = bin(
        Operator::PLUS,
        bin(Operator::PLUS, text_lit("a"), text_lit("b")),
        text_lit("c"),
    );
    let grouped_right = bin(
        Operator::PLUS,
        text_lit("a"),
        bin(Operator::PLUS, text_lit("b"), text_lit("c")),
    );
    assert_eq!(calc_text(&grouped_left), "abc");
    assert_eq!(calc_text(&grouped_right), "abc");
    assert_eq!(grouped_left.calc().unwrap(), grouped_right.calc().unwrap());
}

#[test]
fn text_concat_not_commutative() {
    let ab = bin(Operator::PLUS, text_lit("a"), text_lit("b"));
    let ba = bin(Operator::PLUS, text_lit("b"), text_lit("a"));
    assert_eq!(calc_text(&ab), "ab");
    assert_eq!(calc_text(&ba), "ba");
}

#[test]
fn promotion_asymmetry_int_long() {
    // Left int: the sum is computed in int's 32-bit range and overflows.
    let narrow = bin(Operator::PLUS, int_lit(i32::MAX), long_lit(1));
    assert_eq!(
        narrow.calc().unwrap_err(),
        CompilerError::RangeExceeded { operator: Operator::PLUS, kind: Type::INT }
    );
    // Left long: the same values widen into long's 64-bit range and succeed.
    let wide = bin(Operator::PLUS, long_lit(i32::MAX as i64), int_lit(1));
    assert_eq!(wide.calc().unwrap(), Value::Long(OmniaLong::new(i32::MAX as i64 + 1)));
}

#[test]
fn int_plus_small_long_computes_in_int() {
    let e = bin(Operator::PLUS, int_lit(5), long_lit(7));
    assert_eq!(e.calc().unwrap(), Value::Int(OmniaInt::new(12)));
}

#[test]
fn int_plus_huge_long_is_range_exceeded() {
    let e = bin(Operator::PLUS, int_lit(0), long_lit(1i64 << 40));
    assert_eq!(
        e.calc().unwrap_err(),
        CompilerError::RangeExceeded { operator: Operator::PLUS, kind: Type::INT }
    );
}

#[test]
fn signed_and_unsigned_never_cross() {
    let e = bin(
        Operator::PLUS,
        int_lit(1),
        Expr::Literal(Value::UInt(OmniaUInt::new(1))),
    );
    assert_eq!(
        e.calc().unwrap_err(),
        CompilerError::UnsupportedCoercion {
            operator: Operator::PLUS,
            left: Type::INT,
            right: Type::UINT,
        }
    );
    let f = bin(
        Operator::PLUS,
        ubyte_lit(1),
        Expr::Literal(Value::Byte(omnia::omnia_types::OmniaByte::new(1))),
    );
    assert_eq!(
        f.calc().unwrap_err(),
        CompilerError::UnsupportedCoercion {
            operator: Operator::PLUS,
            left: Type::UBYTE,
            right: Type::BYTE,
        }
    );
}

#[test]
fn text_plus_char_appends_char() {
    let e = bin(
        Operator::PLUS,
        text_lit("ab"),
        Expr::Literal(Value::Char(OmniaChar::new('c'))),
    );
    assert_eq!(calc_text(&e), "abc");
}

#[test]
fn char_plus_text_puts_text_first() {
    let e = bin(
        Operator::PLUS,
        Expr::Literal(Value::Char(OmniaChar::new('c'))),
        text_lit("ab"),
    );
    assert_eq!(calc_text(&e), "abc");
}

#[test]
fn char_plus_char_is_unsupported_coercion() {
    let e = bin(
        Operator::PLUS,
        Expr::Literal(Value::Char(OmniaChar::new('a'))),
        Expr::Literal(Value::Char(OmniaChar::new('b'))),
    );
    assert_eq!(
        e.calc().unwrap_err(),
        CompilerError::UnsupportedCoercion {
            operator: Operator::PLUS,
            left: Type::CHAR,
            right: Type::CHAR,
        }
    );
}

#[test]
fn bool_plus_text_appends_rendering() {
    let e = bin(
        Operator::PLUS,
        Expr::Literal(Value::Bool(OmniaBool::new(true))),
        text_lit("x"),
    );
    assert_eq!(calc_text(&e), "xtrue");
}

#[test]
fn text_plus_bool_is_unsupported_coercion() {
    let e = bin(
        Operator::PLUS,
        text_lit("x"),
        Expr::Literal(Value::Bool(OmniaBool::new(true))),
    );
    assert_eq!(
        e.calc().unwrap_err(),
        CompilerError::UnsupportedCoercion {
            operator: Operator::PLUS,
            left: Type::CHARARR,
            right: Type::BOOL,
        }
    );
}

#[test]
fn increment_on_binary_node_is_unsupported_operator() {
    let e = bin(Operator::INC, int_lit(1), int_lit(2));
    assert_eq!(
        e.calc().unwrap_err(),
        CompilerError::UnsupportedOperator {
            operator: Operator::INC,
            left: Type::INT,
            right: Type::INT,
        }
    );
}

#[test]
fn nested_arithmetic_tree() {
    // (2 * 3) + (20 / 4) - 1 evaluated as (((2*3) + (20/4)) - 1)
    let e = bin(
        Operator::MINUS,
        bin(
            Operator::PLUS,
            bin(Operator::MULTIPLY, int_lit(2), int_lit(3)),
            bin(Operator::DIVIDE, int_lit(20), int_lit(4)),
        ),
        int_lit(1),
    );
    assert_eq!(e.calc().unwrap(), Value::Int(OmniaInt::new(10)));
}

#[test]
fn error_propagates_from_left_child() {
    let e = bin(
        Operator::PLUS,
        bin(Operator::DIVIDE, int_lit(1), int_lit(0)),
        int_lit(1),
    );
    assert_eq!(
        e.calc().unwrap_err(),
        CompilerError::DivisionByZero { operator: Operator::DIVIDE, kind: Type::INT }
    );
}

#[test]
fn error_propagates_from_right_child() {
    let e = bin(
        Operator::PLUS,
        int_lit(1),
        bin(Operator::PLUS, int_lit(i32::MAX), int_lit(1)),
    );
    assert_eq!(
        e.calc().unwrap_err(),
        CompilerError::RangeExceeded { operator: Operator::PLUS, kind: Type::INT }
    );
}

#[test]
fn repeated_evaluation_is_idempotent() {
    let e = bin(
        Operator::PLUS,
        bin(Operator::MULTIPLY, int_lit(6), int_lit(7)),
        text_lit("answer: "),
    );
    let first = e.calc();
    let second = e.calc();
    assert_eq!(first, second);
    assert_eq!(calc_text(&e), "answer: 42");
}

#[test]
fn eval_binary_direct_call() {
    let l = Value::Int(OmniaInt::new(9));
    let r = Value::Int(OmniaInt::new(4));
    assert_eq!(
        eval_binary(Operator::REM, &l, &r).unwrap(),
        Value::Int(OmniaInt::new(1))
    );
}

#[test]
fn unary_expression_holds_its_parts() {
    let u = UnaryExpression::new(int_lit(1), Operator::INC);
    assert!(matches!(u.operation, Operator::INC));
    assert!(matches!(u.left, Expr::Literal(Value::Int(_))));
}

#[test]
fn concat_renders_negative_numbers() {
    let e = bin(Operator::PLUS, int_lit(-7), text_lit("x"));
    assert_eq!(calc_text(&e), "x-7");
}

#[test]
fn concat_renders_ulong_max() {
    let e = bin(
        Operator::PLUS,
        Expr::Literal(Value::ULong(omnia::omnia_types::OmniaULong::new(u64::MAX))),
        text_lit("n="),
    );
    assert_eq!(calc_text(&e), "n=18446744073709551615");
}

#[test]
fn concat_renders_byte_after_text() {
    let e = bin(
        Operator::PLUS,
        text_lit("b="),
        Expr::Literal(Value::Byte(omnia::omnia_types::OmniaByte::new(-128))),
    );
    assert_eq!(calc_text(&e), "b=-128");
}

#[test]
fn text_plus_text_keeps_order() {
    let e = bin(Operator::PLUS, text_lit("left"), text_lit("right"));
    assert_eq!(calc_text(&e), "leftright");
}
