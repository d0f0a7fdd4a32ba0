//! Runtime value model and binary-expression evaluator of the Omnia language.
//!
//! Every runtime value is a tagged unit carrying a coarse classification
//! (numeric / string-like / other) together with a concrete kind (byte, int,
//! long, char, char-array, bool, and the unsigned variants).  Binary
//! arithmetic and concatenation expressions over these values are evaluated
//! with explicit overflow and range checking and explicit left-operand-driven
//! coercion rules; every failure is reported as a typed error, never as a
//! panic.

pub mod arith;
pub mod ast;
pub mod omnia_types;
pub mod render;
