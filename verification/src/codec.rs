//! The word codec: how a raw 16-bit cell is read as an operand, and the
//! modular arithmetic the engine performs on 15-bit words.

use vstd::prelude::*;

verus! {

/// A fatal condition that stops the interpreter.
#[derive(Clone, Copy, Debug, PartialEq, Eq, Structural)]
pub enum VmError {
    /// An operand cell holds a value of 32776 or more.
    IllegalWord,
    /// A destination operand is a literal where a register is required.
    ExpectedRegister,
    /// The cell at the instruction pointer is no known opcode.
    UnknownOpcode,
    /// `pop` or `ret` on an empty stack.
    StackUnderflow,
    /// `mod` with a zero divisor.
    DivisionByZero,
    /// A memory access outside the loaded image.
    OutOfBounds,
}

/// An operand cell, classified: either a literal number or a reference to
/// one of the eight registers.
#[derive(Clone, Copy, Debug, PartialEq, Eq, Structural)]
pub enum Value {
    Number(u16),
    Register(usize),
}

/// A cell below 32768 is a literal word.
pub open spec fn is_literal(w: u16) -> bool {
    w < 32768
}

/// A cell in `[32768, 32776)` names a register.
pub open spec fn is_register_ref(w: u16) -> bool {
    32768 <= w && w < 32776
}

/// The register named by a register-reference cell.
pub open spec fn register_index(w: u16) -> usize {
    (w - 32768) as usize
}

/// Classify a raw cell: literal, register reference, or illegal.
pub open spec fn classify(w: u16) -> Result<Value, VmError> {
    if is_literal(w) {
        Ok(Value::Number(w))
    } else if is_register_ref(w) {
        Ok(Value::Register(register_index(w)))
    } else {
        Err(VmError::IllegalWord)
    }
}

/// Addition of words, reduced into the 15-bit range.
pub open spec fn word_add(a: u16, b: u16) -> u16 {
    ((a + b) % 32768) as u16
}

/// Multiplication of words, reduced into the 15-bit range.
pub open spec fn word_mul(a: u16, b: u16) -> u16 {
    ((a * b) % 32768) as u16
}

/// Remainder of words; meaningful only for a non-zero divisor, which the
/// engine checks before it stores the result.
pub open spec fn word_mod(a: u16, b: u16) -> u16 {
    a % b
}

/// Bitwise and, reduced into the 15-bit range.
pub open spec fn word_and(a: u16, b: u16) -> u16 {
    (a & b) % 32768
}

/// Bitwise or, reduced into the 15-bit range.
pub open spec fn word_or(a: u16, b: u16) -> u16 {
    (a | b) % 32768
}

/// Bitwise complement, reduced into the 15-bit range.
pub open spec fn word_not(a: u16) -> u16 {
    (!a) % 32768
}

/// Reduce a 32-bit intermediate into the 15-bit word range.
pub fn modulo(number: u32) -> (r: u16)
    ensures
        r == (number % 32768) as u16,
{
    (number % 32768) as u16
}

} // verus!
