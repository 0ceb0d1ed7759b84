//! The values that instructions work on.

use crate::field::Field;
use crate::field::Group;
use crate::field::Scalar;
use vstd::prelude::*;

verus! {

/// How a value is known to a program: as a constant, as a public input, or as
/// a private one.
#[derive(Clone, Copy, Debug, PartialEq, Eq, Hash, Structural)]
pub enum Mode {
    Constant,
    Public,
    Private,
}

/// A value with its mode.
#[derive(Clone, Copy, Debug, PartialEq, Eq, Hash)]
pub enum Literal {
    Boolean(Mode, bool),
    Field(Mode, Field),
    Group(Mode, Group),
    I8(Mode, i8),
    I16(Mode, i16),
    I32(Mode, i32),
    I64(Mode, i64),
    I128(Mode, i128),
    Scalar(Mode, Scalar),
    U8(Mode, u8),
    U16(Mode, u16),
    U32(Mode, u32),
    U64(Mode, u64),
    U128(Mode, u128),
}

/// The mode of what is computed from two values: a constant where both are
/// constants, else private. The rule is this library's own, on plain values:
/// no circuit is built here, and nothing holds the rule against a library of
/// circuits.
pub open spec fn spec_output_mode(first: Mode, second: Mode) -> Mode {
    if first == Mode::Constant && second == Mode::Constant {
        Mode::Constant
    } else {
        Mode::Private
    }
}

/// Returns the mode of what is computed from two values.
pub fn output_mode(first: Mode, second: Mode) -> (r: Mode)
    ensures
        r == spec_output_mode(first, second),
{
    match (first, second) {
        (Mode::Constant, Mode::Constant) => Mode::Constant,
        _ => Mode::Private,
    }
}

/// Whether two values are equal, as a boolean with its mode; `None` where
/// the two are of different types, or of a type that is not compared. The
/// comparison is made on the plain values, and the mode follows this
/// library's own rule.
pub open spec fn spec_is_equal(first: Literal, second: Literal) -> Option<Literal> {
    match (first, second) {
        (Literal::Field(m, a), Literal::Field(n, b)) => Some(
            Literal::Boolean(spec_output_mode(m, n), a@ == b@),
        ),
        (Literal::Group(m, a), Literal::Group(n, b)) => Some(
            Literal::Boolean(spec_output_mode(m, n), a@ == b@),
        ),
        (Literal::I8(m, a), Literal::I8(n, b)) => Some(
            Literal::Boolean(spec_output_mode(m, n), a == b),
        ),
        (Literal::I16(m, a), Literal::I16(n, b)) => Some(
            Literal::Boolean(spec_output_mode(m, n), a == b),
        ),
        (Literal::I32(m, a), Literal::I32(n, b)) => Some(
            Literal::Boolean(spec_output_mode(m, n), a == b),
        ),
        (Literal::I64(m, a), Literal::I64(n, b)) => Some(
            Literal::Boolean(spec_output_mode(m, n), a == b),
        ),
        (Literal::I128(m, a), Literal::I128(n, b)) => Some(
            Literal::Boolean(spec_output_mode(m, n), a == b),
        ),
        (Literal::Scalar(m, a), Literal::Scalar(n, b)) => Some(
            Literal::Boolean(spec_output_mode(m, n), a@ == b@),
        ),
        (Literal::U8(m, a), Literal::U8(n, b)) => Some(
            Literal::Boolean(spec_output_mode(m, n), a == b),
        ),
        (Literal::U16(m, a), Literal::U16(n, b)) => Some(
            Literal::Boolean(spec_output_mode(m, n), a == b),
        ),
        (Literal::U32(m, a), Literal::U32(n, b)) => Some(
            Literal::Boolean(spec_output_mode(m, n), a == b),
        ),
        (Literal::U64(m, a), Literal::U64(n, b)) => Some(
            Literal::Boolean(spec_output_mode(m, n), a == b),
        ),
        (Literal::U128(m, a), Literal::U128(n, b)) => Some(
            Literal::Boolean(spec_output_mode(m, n), a == b),
        ),
        _ => None,
    }
}

impl Literal {
    /// Returns whether the value is equal to another of its type, as a
    /// boolean with its mode; `None` where the two cannot be compared.
    pub fn is_equal(&self, other: &Literal) -> (r: Option<Literal>)
        ensures
            r == spec_is_equal(*self, *other),
    {
        match (*self, *other) {
            (Literal::Field(m, a), Literal::Field(n, b)) => Some(
                Literal::Boolean(output_mode(m, n), a.same(&b)),
            ),
            (Literal::Group(m, a), Literal::Group(n, b)) => Some(
                Literal::Boolean(output_mode(m, n), a.to_x_coordinate().same(&b.to_x_coordinate())),
            ),
            (Literal::I8(m, a), Literal::I8(n, b)) => Some(
                Literal::Boolean(output_mode(m, n), a == b),
            ),
            (Literal::I16(m, a), Literal::I16(n, b)) => Some(
                Literal::Boolean(output_mode(m, n), a == b),
            ),
            (Literal::I32(m, a), Literal::I32(n, b)) => Some(
                Literal::Boolean(output_mode(m, n), a == b),
            ),
            (Literal::I64(m, a), Literal::I64(n, b)) => Some(
                Literal::Boolean(output_mode(m, n), a == b),
            ),
            (Literal::I128(m, a), Literal::I128(n, b)) => Some(
                Literal::Boolean(output_mode(m, n), a == b),
            ),
            (Literal::Scalar(m, a), Literal::Scalar(n, b)) => Some(
                Literal::Boolean(output_mode(m, n), a.same(&b)),
            ),
            (Literal::U8(m, a), Literal::U8(n, b)) => Some(
                Literal::Boolean(output_mode(m, n), a == b),
            ),
            (Literal::U16(m, a), Literal::U16(n, b)) => Some(
                Literal::Boolean(output_mode(m, n), a == b),
            ),
            (Literal::U32(m, a), Literal::U32(n, b)) => Some(
                Literal::Boolean(output_mode(m, n), a == b),
            ),
            (Literal::U64(m, a), Literal::U64(n, b)) => Some(
                Literal::Boolean(output_mode(m, n), a == b),
            ),
            (Literal::U128(m, a), Literal::U128(n, b)) => Some(
                Literal::Boolean(output_mode(m, n), a == b),
            ),
            _ => None,
        }
    }
}

} // verus!
