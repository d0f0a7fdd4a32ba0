//! Type tags, classified tag pairs, and the typed error taxonomy.

use std::hash::{DefaultHasher, Hash, Hasher};

use vstd::prelude::*;

use crate::ast::Operator;
use crate::render::{i64_to_string, spec_int_string, u64_to_string};

verus! {

/// Concrete runtime kinds, plus the three classification-only markers
/// (`ANYNUM`, `STRLIKE`, `OTHER`) that describe the coarse capability bucket
/// a concrete kind belongs to.  The markers are never stored on their own;
/// they appear only as the left half of a classified tag pair.
#[derive(Clone, Copy, PartialEq, Eq, Structural, Debug, Hash)]
pub enum Type {
    DECIMAL,
    OMNI,
    CHAR,
    CHARARR,
    BOOL,
    BYTE,
    UBYTE,
    INT,
    UINT,
    LONG,
    ULONG,
    NULL,
    ANYNUM,
    STRLIKE,
    OTHER,
}

/// The lexer's vocabulary of token kinds, as far as this crate consumes it:
/// one keyword token per declarable type, plus the ordinary source tokens
/// that do not denote a type and therefore never resolve to a kind.
#[derive(Clone, Copy, PartialEq, Eq, Structural, Debug)]
pub enum TokenType {
    DECIMALKW,
    OMNIKW,
    CHARKW,
    BOOLKW,
    BYTEKW,
    UBYTEKW,
    INTKW,
    UINTKW,
    LONGKW,
    ULONGKW,
    NULLKW,
    CHARARRKW,
    IDENT,
    NUMBER,
    STRING,
    EOF,
}

/// Typed evaluation and resolution errors.  Every variant carries the
/// operator and the kind(s) involved, so a caller can produce a precise
/// diagnostic; none of them aborts the process.
#[derive(PartialEq, Eq, Debug)]
pub enum CompilerError {
    /// A token does not map to a known value kind.
    TypeError(String),
    /// A checked integer operation's mathematical result does not fit the
    /// named kind's range; also raised when a right operand cannot be
    /// converted into the left operand's kind.
    RangeExceeded { operator: Operator, kind: Type },
    /// Divide or remainder with a zero divisor.
    DivisionByZero { operator: Operator, kind: Type },
    /// A decimal operation produced NaN or an infinity for a reason other
    /// than a zero divisor.  Never raised by the integer evaluator here; the
    /// floating-point layer reports it.
    NonFiniteResult { operator: Operator, kind: Type },
    /// The right operand's kind has no defined conversion into the left
    /// operand's kind for the given operator.
    UnsupportedCoercion { operator: Operator, left: Type, right: Type },
    /// The operator is invalid for the resolved kind pair, e.g. anything but
    /// `PLUS` against a char-array operand.
    UnsupportedOperator { operator: Operator, left: Type, right: Type },
}

/// The kind a type-keyword token declares, or `None` for a token that does
/// not denote a value type.
pub open spec fn token_kind(t: TokenType) -> Option<Type> {
    match t {
        TokenType::DECIMALKW => Some(Type::DECIMAL),
        TokenType::OMNIKW => Some(Type::OMNI),
        TokenType::CHARKW => Some(Type::CHAR),
        TokenType::BOOLKW => Some(Type::BOOL),
        TokenType::BYTEKW => Some(Type::BYTE),
        TokenType::UBYTEKW => Some(Type::UBYTE),
        TokenType::INTKW => Some(Type::INT),
        TokenType::UINTKW => Some(Type::UINT),
        TokenType::LONGKW => Some(Type::LONG),
        TokenType::ULONGKW => Some(Type::ULONG),
        TokenType::NULLKW => Some(Type::NULL),
        TokenType::CHARARRKW => Some(Type::CHARARR),
        _ => None,
    }
}

/// The canonical classification of a concrete kind: the left half of its
/// classified tag pair.  The markers themselves have no classification of
/// their own and fall to `OTHER`.
pub open spec fn classification_of(k: Type) -> Type {
    match k {
        Type::DECIMAL => Type::ANYNUM,
        Type::OMNI => Type::ANYNUM,
        Type::BYTE => Type::ANYNUM,
        Type::UBYTE => Type::ANYNUM,
        Type::INT => Type::ANYNUM,
        Type::UINT => Type::ANYNUM,
        Type::LONG => Type::ANYNUM,
        Type::ULONG => Type::ANYNUM,
        Type::CHAR => Type::STRLIKE,
        Type::CHARARR => Type::STRLIKE,
        _ => Type::OTHER,
    }
}

/// The canonical lowercase rendering of a concrete kind.  The
/// classification-only markers must never be surfaced to end users, so they
/// all render as `"Deprecated"`.
pub open spec fn spec_type_name(k: Type) -> Seq<char> {
    match k {
        Type::DECIMAL => "decimal"@,
        Type::OMNI => "omni"@,
        Type::CHAR => "char"@,
        Type::CHARARR => "char[]"@,
        Type::BOOL => "bool"@,
        Type::BYTE => "byte"@,
        Type::UBYTE => "ubyte"@,
        Type::INT => "int"@,
        Type::UINT => "uint"@,
        Type::LONG => "long"@,
        Type::ULONG => "ulong"@,
        Type::NULL => "null"@,
        _ => "Deprecated"@,
    }
}

impl Type {
    /// Resolves a lexer token to the concrete kind it declares.  Exactly the
    /// type-keyword tokens succeed; every other token is a `TypeError`.
    pub fn from_token_type(t: &TokenType) -> (res: Result<Type, CompilerError>)
        ensures
            match res {
                Ok(k) => token_kind(*t) == Some(k),
                Err(e) => {
                    &&& token_kind(*t) is None
                    &&& e matches CompilerError::TypeError(m)
                        && m@ == "Unexpected token type for type"@
                },
            },
    {
        match t {
            TokenType::DECIMALKW => Ok(Type::DECIMAL),
            TokenType::OMNIKW => Ok(Type::OMNI),
            TokenType::CHARKW => Ok(Type::CHAR),
            TokenType::BOOLKW => Ok(Type::BOOL),
            TokenType::BYTEKW => Ok(Type::BYTE),
            TokenType::UBYTEKW => Ok(Type::UBYTE),
            TokenType::INTKW => Ok(Type::INT),
            TokenType::UINTKW => Ok(Type::UINT),
            TokenType::LONGKW => Ok(Type::LONG),
            TokenType::ULONGKW => Ok(Type::ULONG),
            TokenType::NULLKW => Ok(Type::NULL),
            TokenType::CHARARRKW => Ok(Type::CHARARR),
            _ => Err(CompilerError::TypeError(String::from_str(
                "Unexpected token type for type",
            ))),
        }
    }

    /// The canonical display rendering of this kind (`"int"`, `"char[]"`,
    /// ...); the classification markers render as `"Deprecated"`.
    pub fn display_name(&self) -> (res: String)
        ensures
            res@ == spec_type_name(*self),
    {
        match self {
            Type::DECIMAL => String::from_str("decimal"),
            Type::OMNI => String::from_str("omni"),
            Type::CHAR => String::from_str("char"),
            Type::CHARARR => String::from_str("char[]"),
            Type::BOOL => String::from_str("bool"),
            Type::BYTE => String::from_str("byte"),
            Type::UBYTE => String::from_str("ubyte"),
            Type::INT => String::from_str("int"),
            Type::UINT => String::from_str("uint"),
            Type::LONG => String::from_str("long"),
            Type::ULONG => String::from_str("ulong"),
            Type::NULL => String::from_str("null"),
            _ => String::from_str("Deprecated"),
        }
    }
}

/// The classification markers and concrete kinds of the numeric family.
pub open spec fn is_signed_kind(k: Type) -> bool {
    k == Type::BYTE || k == Type::INT || k == Type::LONG
}

pub open spec fn is_unsigned_kind(k: Type) -> bool {
    k == Type::UBYTE || k == Type::UINT || k == Type::ULONG
}

/// The integer kinds: the numeric kinds this evaluator computes in.
pub open spec fn is_integer_kind(k: Type) -> bool {
    is_signed_kind(k) || is_unsigned_kind(k)
}

/// The smallest value representable in an integer kind.
pub open spec fn kind_min(k: Type) -> int {
    match k {
        Type::BYTE => i8::MIN as int,
        Type::INT => i32::MIN as int,
        Type::LONG => i64::MIN as int,
        _ => 0,
    }
}

/// The largest value representable in an integer kind.
pub open spec fn kind_max(k: Type) -> int {
    match k {
        Type::BYTE => i8::MAX as int,
        Type::INT => i32::MAX as int,
        Type::LONG => i64::MAX as int,
        Type::UBYTE => u8::MAX as int,
        Type::UINT => u32::MAX as int,
        Type::ULONG => u64::MAX as int,
        _ => 0,
    }
}

/// Whether a mathematical integer is representable in an integer kind.
pub open spec fn in_kind_range(k: Type, i: int) -> bool {
    kind_min(k) <= i <= kind_max(k)
}

/// An ordered pair.  A classified tag is a `Pair<Type, Type>` whose left
/// half is the classification and whose right half is the concrete kind.
#[derive(Clone, Copy, PartialEq, Eq, Structural, Debug)]
pub struct Pair<T, S> {
    pub left: T,
    pub right: S,
}

impl Pair<Type, Type> {
    pub fn new(left: Type, right: Type) -> (res: Pair<Type, Type>)
        ensures
            res.left == left,
            res.right == right,
    {
        Pair { left, right }
    }

    pub fn get_right(&self) -> (res: &Type)
        ensures
            *res == self.right,
    {
        &self.right
    }

    pub fn get_left(&self) -> (res: &Type)
        ensures
            *res == self.left,
    {
        &self.left
    }
}

/// The mathematical value of a runtime value: each numeric kind as the
/// unbounded integer it holds, text as its character sequence.  This is the
/// view type every evaluator contract speaks of.
pub ghost enum ValueView {
    Char(char),
    Chararr(Seq<char>),
    Bool(bool),
    Byte(int),
    UByte(int),
    Int(int),
    UInt(int),
    Long(int),
    ULong(int),
}

impl ValueView {
    /// The concrete kind this view belongs to.
    pub open spec fn kind(self) -> Type {
        match self {
            ValueView::Char(_) => Type::CHAR,
            ValueView::Chararr(_) => Type::CHARARR,
            ValueView::Bool(_) => Type::BOOL,
            ValueView::Byte(_) => Type::BYTE,
            ValueView::UByte(_) => Type::UBYTE,
            ValueView::Int(_) => Type::INT,
            ValueView::UInt(_) => Type::UINT,
            ValueView::Long(_) => Type::LONG,
            ValueView::ULong(_) => Type::ULONG,
        }
    }

    /// The mathematical integer held by a numeric view.
    pub open spec fn int_value(self) -> int
        recommends
            is_integer_kind(self.kind()),
    {
        match self {
            ValueView::Byte(i) => i,
            ValueView::UByte(i) => i,
            ValueView::Int(i) => i,
            ValueView::UInt(i) => i,
            ValueView::Long(i) => i,
            ValueView::ULong(i) => i,
            _ => 0,
        }
    }

    /// A numeric view of the given integer kind holding the given value.
    pub open spec fn of_kind(k: Type, i: int) -> ValueView
        recommends
            is_integer_kind(k),
    {
        match k {
            Type::BYTE => ValueView::Byte(i),
            Type::UBYTE => ValueView::UByte(i),
            Type::INT => ValueView::Int(i),
            Type::UINT => ValueView::UInt(i),
            Type::LONG => ValueView::Long(i),
            _ => ValueView::ULong(i),
        }
    }

    /// The character sequence of a text view.
    pub open spec fn text_of(self) -> Seq<char>
        recommends
            self.kind() == Type::CHARARR,
    {
        match self {
            ValueView::Chararr(s) => s,
            _ => Seq::empty(),
        }
    }

    /// The canonical string rendering of a value, as used both by the
    /// per-kind `get_as_string` operations and by string concatenation.
    pub open spec fn render(self) -> Seq<char> {
        match self {
            ValueView::Char(c) => seq![c],
            ValueView::Chararr(s) => s,
            ValueView::Bool(b) => if b {
                "true"@
            } else {
                "false"@
            },
            ValueView::Byte(i) => spec_int_string(i),
            ValueView::UByte(i) => spec_int_string(i),
            ValueView::Int(i) => spec_int_string(i),
            ValueView::UInt(i) => spec_int_string(i),
            ValueView::Long(i) => spec_int_string(i),
            ValueView::ULong(i) => spec_int_string(i),
        }
    }

    /// A view is well formed when its payload is representable in its kind.
    pub open spec fn wf(self) -> bool {
        is_integer_kind(self.kind()) ==> in_kind_range(self.kind(), self.int_value())
    }
}

/// A stable hash-derived 32-bit reading of a text value; used only for the
/// diagnostic `get_as_int32` capability, never for an authoritative
/// conversion.
pub uninterp spec fn chararr_hash(s: Seq<char>) -> i32;

/// Relies on std's `DefaultHasher`, whose `new` constructor uses fixed keys:
/// the finished hash depends on the hashed characters alone.
#[verifier::external_body]
fn hash_text_as_int32(s: &String) -> (res: i32)
    ensures
        res == chararr_hash(s@),
{
    let mut hasher = DefaultHasher::new();
    s.hash(&mut hasher);
    hasher.finish() as i32
}

/// Relies on `String::push`: appends exactly the given character.
#[verifier::external_body]
pub(crate) fn push_char(s: &mut String, c: char)
    ensures
        final(s)@ == old(s)@.push(c),
{
    s.push(c);
}

/// A single character value (the `char` kind).
#[derive(Clone, Copy, PartialEq, Eq, Structural, Debug)]
pub struct OmniaChar {
    pub value: char,
}

impl OmniaChar {
    pub fn new(value: char) -> (res: OmniaChar)
        ensures
            res.value == value,
    {
        OmniaChar { value }
    }

    pub fn get_value_as(&self) -> (res: char)
        ensures
            res == self.value,
    {
        self.value
    }

    pub fn get_as_int32(&self) -> (res: i32)
        ensures
            res == self.value as u32 as i32,
    {
        (self.value as u32) as i32
    }

    pub fn get_as_string(&self) -> (res: String)
        ensures
            res@ == seq![self.value],
    {
        let mut s: String = String::new();
        push_char(&mut s, self.value);
        proof {
            assert(s@ =~= seq![self.value]);
        }
        s
    }

    pub fn get_type(&self) -> (res: Pair<Type, Type>)
        ensures
            res.left == Type::STRLIKE,
            res.right == Type::CHAR,
    {
        Pair::new(Type::STRLIKE, Type::CHAR)
    }
}

/// An owned text value (the `char[]` kind).
#[derive(PartialEq, Eq, Debug)]
pub struct OmniaChararr {
    pub value: String,
}

impl Clone for OmniaChararr {
    fn clone(&self) -> (res: Self)
        ensures
            res.value@ == self.value@,
    {
        OmniaChararr { value: self.value.clone() }
    }
}

impl OmniaChararr {
    pub fn new(value: String) -> (res: OmniaChararr)
        ensures
            res.value@ == value@,
    {
        OmniaChararr { value }
    }

    pub fn get_value_as(&self) -> (res: String)
        ensures
            res@ == self.value@,
    {
        self.value.clone()
    }

    pub fn get_from(value: &str) -> (res: OmniaChararr)
        ensures
            res.value@ == value@,
    {
        OmniaChararr { value: String::from_str(value) }
    }

    /// A stable hash-derived reading, not a parse.
    pub fn get_as_int32(&self) -> (res: i32)
        ensures
            res == chararr_hash(self.value@),
    {
        hash_text_as_int32(&self.value)
    }

    pub fn get_as_string(&self) -> (res: String)
        ensures
            res@ == self.value@,
    {
        self.value.clone()
    }

    pub fn get_type(&self) -> (res: Pair<Type, Type>)
        ensures
            res.left == Type::STRLIKE,
            res.right == Type::CHARARR,
    {
        Pair::new(Type::STRLIKE, Type::CHARARR)
    }
}

/// A boolean value.
#[derive(Clone, Copy, PartialEq, Eq, Structural, Debug)]
pub struct OmniaBool {
    pub value: bool,
}

impl OmniaBool {
    pub fn new(value: bool) -> (res: OmniaBool)
        ensures
            res.value == value,
    {
        OmniaBool { value }
    }

    pub fn get_value_as(&self) -> (res: bool)
        ensures
            res == self.value,
    {
        self.value
    }

    pub fn get_as_int32(&self) -> (res: i32)
        ensures
            res == if self.value {
                1int
            } else {
                0int
            },
    {
        if self.value {
            1
        } else {
            0
        }
    }

    pub fn get_as_string(&self) -> (res: String)
        ensures
            res@ == ValueView::Bool(self.value).render(),
    {
        if self.value {
            String::from_str("true")
        } else {
            String::from_str("false")
        }
    }

    pub fn get_type(&self) -> (res: Pair<Type, Type>)
        ensures
            res.left == Type::OTHER,
            res.right == Type::BOOL,
    {
        Pair::new(Type::OTHER, Type::BOOL)
    }
}

/// A signed 8-bit value (the `byte` kind).
#[derive(Clone, Copy, PartialEq, Eq, Structural, Debug)]
pub struct OmniaByte {
    pub value: i8,
}

impl OmniaByte {
    pub fn new(value: i8) -> (res: OmniaByte)
        ensures
            res.value == value,
    {
        OmniaByte { value }
    }

    pub fn get_value_as(&self) -> (res: i8)
        ensures
            res == self.value,
    {
        self.value
    }

    pub fn get_as_int32(&self) -> (res: i32)
        ensures
            res == self.value as int,
    {
        self.value as i32
    }

    pub fn get_as_string(&self) -> (res: String)
        ensures
            res@ == spec_int_string(self.value as int),
    {
        i64_to_string(self.value as i64)
    }

    pub fn get_type(&self) -> (res: Pair<Type, Type>)
        ensures
            res.left == Type::ANYNUM,
            res.right == Type::BYTE,
    {
        Pair::new(Type::ANYNUM, Type::BYTE)
    }
}

/// An unsigned 8-bit value (the `ubyte` kind).
#[derive(Clone, Copy, PartialEq, Eq, Structural, Debug)]
pub struct OmniaUByte {
    pub value: u8,
}

impl OmniaUByte {
    pub fn new(value: u8) -> (res: OmniaUByte)
        ensures
            res.value == value,
    {
        OmniaUByte { value }
    }

    pub fn get_value_as(&self) -> (res: u8)
        ensures
            res == self.value,
    {
        self.value
    }

    pub fn get_as_int32(&self) -> (res: i32)
        ensures
            res == self.value as int,
    {
        self.value as i32
    }

    pub fn get_as_string(&self) -> (res: String)
        ensures
            res@ == spec_int_string(self.value as int),
    {
        u64_to_string(self.value as u64)
    }

    pub fn get_type(&self) -> (res: Pair<Type, Type>)
        ensures
            res.left == Type::ANYNUM,
            res.right == Type::UBYTE,
    {
        Pair::new(Type::ANYNUM, Type::UBYTE)
    }
}

/// A signed 32-bit value (the `int` kind).
#[derive(Clone, Copy, PartialEq, Eq, Structural, Debug)]
pub struct OmniaInt {
    pub value: i32,
}

impl OmniaInt {
    pub fn new(value: i32) -> (res: OmniaInt)
        ensures
            res.value == value,
    {
        OmniaInt { value }
    }

    pub fn get_value_as(&self) -> (res: i32)
        ensures
            res == self.value,
    {
        self.value
    }

    pub fn get_as_int32(&self) -> (res: i32)
        ensures
            res == self.value,
    {
        self.value
    }

    pub fn get_as_string(&self) -> (res: String)
        ensures
            res@ == spec_int_string(self.value as int),
    {
        i64_to_string(self.value as i64)
    }

    pub fn get_type(&self) -> (res: Pair<Type, Type>)
        ensures
            res.left == Type::ANYNUM,
            res.right == Type::INT,
    {
        Pair::new(Type::ANYNUM, Type::INT)
    }
}

/// An unsigned 32-bit value (the `uint` kind).
#[derive(Clone, Copy, PartialEq, Eq, Structural, Debug)]
pub struct OmniaUInt {
    pub value: u32,
}

impl OmniaUInt {
    pub fn new(value: u32) -> (res: OmniaUInt)
        ensures
            res.value == value,
    {
        OmniaUInt { value }
    }

    pub fn get_value_as(&self) -> (res: u32)
        ensures
            res == self.value,
    {
        self.value
    }

    /// A narrowing reinterpretation: the low 32 bits, as in an `as` cast.
    pub fn get_as_int32(&self) -> (res: i32)
        ensures
            res == self.value as i32,
    {
        #[verifier::truncate] (self.value as i32)
    }

    pub fn get_as_string(&self) -> (res: String)
        ensures
            res@ == spec_int_string(self.value as int),
    {
        u64_to_string(self.value as u64)
    }

    pub fn get_type(&self) -> (res: Pair<Type, Type>)
        ensures
            res.left == Type::ANYNUM,
            res.right == Type::UINT,
    {
        Pair::new(Type::ANYNUM, Type::UINT)
    }
}

/// A signed 64-bit value (the `long` kind).
#[derive(Clone, Copy, PartialEq, Eq, Structural, Debug)]
pub struct OmniaLong {
    pub value: i64,
}

impl OmniaLong {
    pub fn new(value: i64) -> (res: OmniaLong)
        ensures
            res.value == value,
    {
        OmniaLong { value }
    }

    pub fn get_value_as(&self) -> (res: i64)
        ensures
            res == self.value,
    {
        self.value
    }

    /// A narrowing reinterpretation: the low 32 bits, as in an `as` cast.
    pub fn get_as_int32(&self) -> (res: i32)
        ensures
            res == self.value as i32,
    {
        #[verifier::truncate] (self.value as i32)
    }

    pub fn get_as_string(&self) -> (res: String)
        ensures
            res@ == spec_int_string(self.value as int),
    {
        i64_to_string(self.value)
    }

    pub fn get_type(&self) -> (res: Pair<Type, Type>)
        ensures
            res.left == Type::ANYNUM,
            res.right == Type::LONG,
    {
        Pair::new(Type::ANYNUM, Type::LONG)
    }
}

/// An unsigned 64-bit value (the `ulong` kind).
#[derive(Clone, Copy, PartialEq, Eq, Structural, Debug)]
pub struct OmniaULong {
    pub value: u64,
}

impl OmniaULong {
    pub fn new(value: u64) -> (res: OmniaULong)
        ensures
            res.value == value,
    {
        OmniaULong { value }
    }

    pub fn get_value_as(&self) -> (res: u64)
        ensures
            res == self.value,
    {
        self.value
    }

    /// A narrowing reinterpretation: the low 32 bits, as in an `as` cast.
    pub fn get_as_int32(&self) -> (res: i32)
        ensures
            res == self.value as i32,
    {
        #[verifier::truncate] (self.value as i32)
    }

    pub fn get_as_string(&self) -> (res: String)
        ensures
            res@ == spec_int_string(self.value as int),
    {
        u64_to_string(self.value)
    }

    pub fn get_type(&self) -> (res: Pair<Type, Type>)
        ensures
            res.left == Type::ANYNUM,
            res.right == Type::ULONG,
    {
        Pair::new(Type::ANYNUM, Type::ULONG)
    }
}

/// A runtime value: the closed sum over every concrete kind the evaluator
/// handles.  Dispatch is by exhaustive pattern matching, so every kind pair
/// is covered at compile time and no downcast can fail at run time.
#[derive(PartialEq, Eq, Debug)]
pub enum Value {
    Char(OmniaChar),
    Chararr(OmniaChararr),
    Bool(OmniaBool),
    Byte(OmniaByte),
    UByte(OmniaUByte),
    Int(OmniaInt),
    UInt(OmniaUInt),
    Long(OmniaLong),
    ULong(OmniaULong),
}

impl View for Value {
    type V = ValueView;

    open spec fn view(&self) -> ValueView {
        match self {
            Value::Char(c) => ValueView::Char(c.value),
            Value::Chararr(s) => ValueView::Chararr(s.value@),
            Value::Bool(b) => ValueView::Bool(b.value),
            Value::Byte(x) => ValueView::Byte(x.value as int),
            Value::UByte(x) => ValueView::UByte(x.value as int),
            Value::Int(x) => ValueView::Int(x.value as int),
            Value::UInt(x) => ValueView::UInt(x.value as int),
            Value::Long(x) => ValueView::Long(x.value as int),
            Value::ULong(x) => ValueView::ULong(x.value as int),
        }
    }
}

impl Clone for Value {
    fn clone(&self) -> (res: Self)
        ensures
            res@ == self@,
    {
        match self {
            Value::Char(c) => Value::Char(*c),
            Value::Chararr(s) => Value::Chararr(s.clone()),
            Value::Bool(b) => Value::Bool(*b),
            Value::Byte(x) => Value::Byte(*x),
            Value::UByte(x) => Value::UByte(*x),
            Value::Int(x) => Value::Int(*x),
            Value::UInt(x) => Value::UInt(*x),
            Value::Long(x) => Value::Long(*x),
            Value::ULong(x) => Value::ULong(*x),
        }
    }
}

impl Value {
    /// The classified tag of this value: its classification paired with its
    /// concrete kind, always in canonical agreement.
    pub fn get_type(&self) -> (res: Pair<Type, Type>)
        ensures
            res.right == self@.kind(),
            res.left == classification_of(self@.kind()),
    {
        match self {
            Value::Char(c) => c.get_type(),
            Value::Chararr(s) => s.get_type(),
            Value::Bool(b) => b.get_type(),
            Value::Byte(x) => x.get_type(),
            Value::UByte(x) => x.get_type(),
            Value::Int(x) => x.get_type(),
            Value::UInt(x) => x.get_type(),
            Value::Long(x) => x.get_type(),
            Value::ULong(x) => x.get_type(),
        }
    }

    /// The canonical string rendering of this value.
    pub fn get_as_string(&self) -> (res: String)
        ensures
            res@ == self@.render(),
    {
        match self {
            Value::Char(c) => c.get_as_string(),
            Value::Chararr(s) => s.get_as_string(),
            Value::Bool(b) => b.get_as_string(),
            Value::Byte(x) => x.get_as_string(),
            Value::UByte(x) => x.get_as_string(),
            Value::Int(x) => x.get_as_string(),
            Value::UInt(x) => x.get_as_string(),
            Value::Long(x) => x.get_as_string(),
            Value::ULong(x) => x.get_as_string(),
        }
    }
}

} // verus!
