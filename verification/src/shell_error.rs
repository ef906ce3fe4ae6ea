use crate::bits::rotate::{Direction, Narrowed};
use crate::span::Span;
use crate::value::Type;
use vstd::prelude::*;

verus! {

/// What can go wrong in a command, each with the place it is blamed on.
#[derive(Clone, Debug, PartialEq, Eq)]
#[allow(inconsistent_fields)]
pub enum ShellError {
    /// A value in the input is not of a type the command works on.
    UnsupportedInput { input_type: Type, span: Span },
    /// The text given for the size of number is none of `1`, `2`, `4`, `8`, `auto`.
    InvalidNumberBytes { span: Span },
    /// Rotating `val` by `bits` gave a number above the largest signed 64 bit number.
    RotateOverflow { val: Narrowed, bits: u32, direction: Direction, span: Span },
    /// Shifting `val` left by `bits` was refused.
    ShiftLeftOverflow { val: i64, bits: u32, span: Span },
    /// The command `name` has been replaced by `replacement`.
    DeprecatedCommand { name: String, replacement: String, span: Span },
}

impl ShellError {
    /// The place the error is blamed on.
    pub open spec fn span_spec(&self) -> Span {
        match *self {
            ShellError::UnsupportedInput { span, .. } => span,
            ShellError::InvalidNumberBytes { span } => span,
            ShellError::RotateOverflow { span, .. } => span,
            ShellError::ShiftLeftOverflow { span, .. } => span,
            ShellError::DeprecatedCommand { span, .. } => span,
        }
    }

    #[verifier::when_used_as_spec(span_spec)]
    pub fn span(&self) -> (span: Span)
        ensures
            span == self.span_spec(),
    {
        match self {
            ShellError::UnsupportedInput { span, .. } => *span,
            ShellError::InvalidNumberBytes { span } => *span,
            ShellError::RotateOverflow { span, .. } => *span,
            ShellError::ShiftLeftOverflow { span, .. } => *span,
            ShellError::DeprecatedCommand { span, .. } => *span,
        }
    }
}

} // verus!
