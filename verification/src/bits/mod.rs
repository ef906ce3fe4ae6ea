pub mod laws;
pub mod prim_int;
pub mod rotate;
pub mod rotate_left;
pub mod rotate_right;
pub mod shift_left;

use crate::bits::rotate::ConcreteWidth;
use crate::shell_error::ShellError;
use crate::span::Spanned;
use crate::text::same_text;
use vstd::prelude::*;

verus! {

/// The size of number that a command was asked to work in.
#[derive(Clone, Copy, Debug, PartialEq, Eq, Structural)]
pub enum NumberBytes {
    One,
    Two,
    Four,
    Eight,
    /// The smallest size that holds the number at hand.
    Auto,
    /// The size asked for is none that exists.
    Invalid,
}

/// The size that a text names.
pub open spec fn number_bytes_of(text: Seq<char>) -> NumberBytes {
    if text == "1"@ {
        NumberBytes::One
    } else if text == "2"@ {
        NumberBytes::Two
    } else if text == "4"@ {
        NumberBytes::Four
    } else if text == "8"@ {
        NumberBytes::Eight
    } else if text == "auto"@ {
        NumberBytes::Auto
    } else {
        NumberBytes::Invalid
    }
}

/// The size asked for: `Auto` where nothing was said.
pub open spec fn get_number_bytes_spec(number_bytes: Option<Spanned<String>>) -> NumberBytes {
    match number_bytes {
        None => NumberBytes::Auto,
        Some(size) => number_bytes_of(size.item@),
    }
}

/// Reads the size of number from the text of the flag, if it was given.
pub fn get_number_bytes(number_bytes: &Option<Spanned<String>>) -> (size: NumberBytes)
    ensures
        size == get_number_bytes_spec(*number_bytes),
{
    match number_bytes {
        None => NumberBytes::Auto,
        Some(size) => {
            let text = size.item.as_str();
            if same_text(text, "1") {
                NumberBytes::One
            } else if same_text(text, "2") {
                NumberBytes::Two
            } else if same_text(text, "4") {
                NumberBytes::Four
            } else if same_text(text, "8") {
                NumberBytes::Eight
            } else if same_text(text, "auto") {
                NumberBytes::Auto
            } else {
                NumberBytes::Invalid
            }
        },
    }
}

/// The size asked for, or the error that blames the text of the flag where it
/// names no size.
pub open spec fn resolve_static_spec(number_bytes: Option<Spanned<String>>) -> Result<
    NumberBytes,
    ShellError,
> {
    match number_bytes {
        None => Ok(NumberBytes::Auto),
        Some(size) => match number_bytes_of(size.item@) {
            NumberBytes::Invalid => Err(ShellError::InvalidNumberBytes { span: size.span }),
            known => Ok(known),
        },
    }
}

/// Settles the size of number before any value is looked at.
pub fn resolve_static(number_bytes: &Option<Spanned<String>>) -> (size: Result<
    NumberBytes,
    ShellError,
>)
    ensures
        size == resolve_static_spec(*number_bytes),
        size matches Ok(known) ==> known != NumberBytes::Invalid,
{
    let bytes_len = get_number_bytes(number_bytes);
    match bytes_len {
        NumberBytes::Invalid => match number_bytes {
            Some(val) => Err(ShellError::InvalidNumberBytes { span: val.span }),
            None => Ok(NumberBytes::Auto),
        },
        known => Ok(known),
    }
}

/// The narrowest signed width that holds `value`.
pub open spec fn smallest_signed(value: i64) -> ConcreteWidth {
    if ConcreteWidth::I8.holds(value) {
        ConcreteWidth::I8
    } else if ConcreteWidth::I16.holds(value) {
        ConcreteWidth::I16
    } else if ConcreteWidth::I32.holds(value) {
        ConcreteWidth::I32
    } else {
        ConcreteWidth::I64
    }
}

/// The narrowest unsigned width that holds `value`; the widest for a
/// negative number, which none holds.
pub open spec fn smallest_unsigned(value: i64) -> ConcreteWidth {
    if ConcreteWidth::U8.holds(value) {
        ConcreteWidth::U8
    } else if ConcreteWidth::U16.holds(value) {
        ConcreteWidth::U16
    } else if ConcreteWidth::U32.holds(value) {
        ConcreteWidth::U32
    } else {
        ConcreteWidth::U64
    }
}

/// The width in which `value` is rotated: signed where that was asked for or
/// `value` is negative, of the size asked for, and for `Auto` the narrowest
/// that holds `value`. `Invalid` gives none.
pub open spec fn resolve_dynamic_spec(width: NumberBytes, value: i64, treat_signed: bool) -> Option<
    ConcreteWidth,
> {
    if treat_signed || value < 0 {
        match width {
            NumberBytes::One => Some(ConcreteWidth::I8),
            NumberBytes::Two => Some(ConcreteWidth::I16),
            NumberBytes::Four => Some(ConcreteWidth::I32),
            NumberBytes::Eight => Some(ConcreteWidth::I64),
            NumberBytes::Auto => Some(smallest_signed(value)),
            NumberBytes::Invalid => None,
        }
    } else {
        match width {
            NumberBytes::One => Some(ConcreteWidth::U8),
            NumberBytes::Two => Some(ConcreteWidth::U16),
            NumberBytes::Four => Some(ConcreteWidth::U32),
            NumberBytes::Eight => Some(ConcreteWidth::U64),
            NumberBytes::Auto => Some(smallest_unsigned(value)),
            NumberBytes::Invalid => None,
        }
    }
}

/// Chooses the width in which `value` is rotated.
#[verifier::when_used_as_spec(resolve_dynamic_spec)]
pub fn resolve_dynamic(width: NumberBytes, value: i64, treat_signed: bool) -> (chosen: Option<
    ConcreteWidth,
>)
    ensures
        chosen == resolve_dynamic_spec(width, value, treat_signed),
{
    if treat_signed || value < 0 {
        match width {
            NumberBytes::One => Some(ConcreteWidth::I8),
            NumberBytes::Two => Some(ConcreteWidth::I16),
            NumberBytes::Four => Some(ConcreteWidth::I32),
            NumberBytes::Eight => Some(ConcreteWidth::I64),
            NumberBytes::Auto => {
                if value <= 0x7F && value >= -0x80 {
                    Some(ConcreteWidth::I8)
                } else if value <= 0x7FFF && value >= -0x8000 {
                    Some(ConcreteWidth::I16)
                } else if value <= 0x7FFFFFFF && value >= -0x8000_0000 {
                    Some(ConcreteWidth::I32)
                } else {
                    Some(ConcreteWidth::I64)
                }
            },
            NumberBytes::Invalid => None,
        }
    } else {
        match width {
            NumberBytes::One => Some(ConcreteWidth::U8),
            NumberBytes::Two => Some(ConcreteWidth::U16),
            NumberBytes::Four => Some(ConcreteWidth::U32),
            NumberBytes::Eight => Some(ConcreteWidth::U64),
            NumberBytes::Auto => {
                if value <= 0xFF {
                    Some(ConcreteWidth::U8)
                } else if value <= 0xFFFF {
                    Some(ConcreteWidth::U16)
                } else if value <= 0xFFFFFFFF {
                    Some(ConcreteWidth::U32)
                } else {
                    Some(ConcreteWidth::U64)
                }
            },
            NumberBytes::Invalid => None,
        }
    }
}

/// With `Auto` the width chosen holds the number, is signed exactly where that
/// was asked for or the number is negative, and no narrower width of that kind
/// holds the number.
pub proof fn lemma_auto_is_narrowest(value: i64, treat_signed: bool, other: ConcreteWidth)
    requires
        other.is_signed() == (treat_signed || value < 0),
        other.holds(value),
    ensures
        resolve_dynamic_spec(NumberBytes::Auto, value, treat_signed) is Some,
        resolve_dynamic_spec(NumberBytes::Auto, value, treat_signed).unwrap().holds(value),
        resolve_dynamic_spec(NumberBytes::Auto, value, treat_signed).unwrap().is_signed() == (
        treat_signed || value < 0),
        resolve_dynamic_spec(NumberBytes::Auto, value, treat_signed).unwrap().bit_count()
            <= other.bit_count(),
{
}

/// Among numbers that are not negative and not taken as signed, a larger one
/// never gets a narrower width from `Auto`.
pub proof fn lemma_auto_width_monotonic(v1: i64, v2: i64)
    requires
        0 <= v1 <= v2,
    ensures
        resolve_dynamic_spec(NumberBytes::Auto, v1, false).unwrap().bit_count()
            <= resolve_dynamic_spec(NumberBytes::Auto, v2, false).unwrap().bit_count(),
{
}

} // verus!
