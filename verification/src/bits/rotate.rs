use crate::bits::prim_int::{
    mask, rotate_left_i16, rotate_left_i32, rotate_left_i64, rotate_left_i8, rotate_left_u16,
    rotate_left_u32, rotate_left_u64, rotate_left_u8, rotate_right_i16, rotate_right_i32,
    rotate_right_i64, rotate_right_i8, rotate_right_u16, rotate_right_u32, rotate_right_u64,
    rotate_right_u8, rotl, rotr,
};
use crate::bits::{resolve_dynamic, resolve_dynamic_spec, NumberBytes};
use crate::shell_error::ShellError;
use crate::span::Span;
use crate::value::Value;
use vstd::prelude::*;

verus! {

/// The way the bits move.
#[derive(Clone, Copy, Debug, PartialEq, Eq, Structural)]
pub enum Direction {
    Left,
    Right,
}

/// The width a rotation is done in, and how its bits are read as a number.
#[derive(Clone, Copy, Debug, PartialEq, Eq, Structural)]
pub enum ConcreteWidth {
    I8,
    I16,
    I32,
    I64,
    U8,
    U16,
    U32,
    U64,
}

/// An integer of one of the eight fixed widths.
#[derive(Clone, Copy, Debug, PartialEq, Eq)]
pub enum Narrowed {
    I8(i8),
    I16(i16),
    I32(i32),
    I64(i64),
    U8(u8),
    U16(u16),
    U32(u32),
    U64(u64),
}

/// The rotation of the low `bits` bits of `p` by `n` places.
pub open spec fn rot(p: u64, bits: u32, n: u32, direction: Direction) -> u64 {
    match direction {
        Direction::Left => rotl(p, bits, n),
        Direction::Right => rotr(p, bits, n),
    }
}

/// The low `bits` bits of `value` in two's complement.
pub open spec fn low_bits(value: i64, bits: u32) -> u64 {
    (value as u64) & mask(bits)
}

/// The number that a pattern of `bits` bits stands for: read in two's
/// complement where `signed`, as a plain binary number where not.
pub open spec fn from_bits(p: u64, bits: u32, signed: bool) -> int {
    if signed && p > (mask(bits) >> 1) {
        p - mask(bits) - 1
    } else {
        p as int
    }
}

impl ConcreteWidth {
    pub open spec fn spec_bit_count(&self) -> u32 {
        match *self {
            ConcreteWidth::I8 | ConcreteWidth::U8 => 8,
            ConcreteWidth::I16 | ConcreteWidth::U16 => 16,
            ConcreteWidth::I32 | ConcreteWidth::U32 => 32,
            ConcreteWidth::I64 | ConcreteWidth::U64 => 64,
        }
    }

    pub open spec fn spec_is_signed(&self) -> bool {
        match *self {
            ConcreteWidth::I8 | ConcreteWidth::I16 | ConcreteWidth::I32 | ConcreteWidth::I64 => true,
            _ => false,
        }
    }

    /// Whether `value` is one of the numbers of this width.
    pub open spec fn holds(&self, value: i64) -> bool {
        match *self {
            ConcreteWidth::I8 => -0x80 <= value <= 0x7f,
            ConcreteWidth::I16 => -0x8000 <= value <= 0x7fff,
            ConcreteWidth::I32 => -0x8000_0000 <= value <= 0x7fff_ffff,
            ConcreteWidth::I64 => true,
            ConcreteWidth::U8 => 0 <= value <= 0xff,
            ConcreteWidth::U16 => 0 <= value <= 0xffff,
            ConcreteWidth::U32 => 0 <= value <= 0xffff_ffff,
            ConcreteWidth::U64 => 0 <= value,
        }
    }

    /// The number of bits.
    #[verifier::when_used_as_spec(spec_bit_count)]
    pub fn bit_count(&self) -> (bits: u32)
        ensures
            bits == self.spec_bit_count(),
    {
        match self {
            ConcreteWidth::I8 | ConcreteWidth::U8 => 8,
            ConcreteWidth::I16 | ConcreteWidth::U16 => 16,
            ConcreteWidth::I32 | ConcreteWidth::U32 => 32,
            ConcreteWidth::I64 | ConcreteWidth::U64 => 64,
        }
    }

    /// Whether the top bit is a sign.
    #[verifier::when_used_as_spec(spec_is_signed)]
    pub fn is_signed(&self) -> (signed: bool)
        ensures
            signed == self.spec_is_signed(),
    {
        match self {
            ConcreteWidth::I8 | ConcreteWidth::I16 | ConcreteWidth::I32 | ConcreteWidth::I64 => true,
            _ => false,
        }
    }
}

impl Narrowed {
    pub open spec fn spec_width(&self) -> ConcreteWidth {
        match *self {
            Narrowed::I8(_) => ConcreteWidth::I8,
            Narrowed::I16(_) => ConcreteWidth::I16,
            Narrowed::I32(_) => ConcreteWidth::I32,
            Narrowed::I64(_) => ConcreteWidth::I64,
            Narrowed::U8(_) => ConcreteWidth::U8,
            Narrowed::U16(_) => ConcreteWidth::U16,
            Narrowed::U32(_) => ConcreteWidth::U32,
            Narrowed::U64(_) => ConcreteWidth::U64,
        }
    }

    /// The bits of the integer, with zeros above its width.
    pub open spec fn pattern(&self) -> u64 {
        match *self {
            Narrowed::I8(v) => (v as u8) as u64,
            Narrowed::I16(v) => (v as u16) as u64,
            Narrowed::I32(v) => (v as u32) as u64,
            Narrowed::I64(v) => v as u64,
            Narrowed::U8(v) => v as u64,
            Narrowed::U16(v) => v as u64,
            Narrowed::U32(v) => v as u64,
            Narrowed::U64(v) => v,
        }
    }

    /// The number that the integer is.
    pub open spec fn value(&self) -> int {
        match *self {
            Narrowed::I8(v) => v as int,
            Narrowed::I16(v) => v as int,
            Narrowed::I32(v) => v as int,
            Narrowed::I64(v) => v as int,
            Narrowed::U8(v) => v as int,
            Narrowed::U16(v) => v as int,
            Narrowed::U32(v) => v as int,
            Narrowed::U64(v) => v as int,
        }
    }

    #[verifier::when_used_as_spec(spec_width)]
    pub fn width(&self) -> (width: ConcreteWidth)
        ensures
            width == self.spec_width(),
    {
        match self {
            Narrowed::I8(_) => ConcreteWidth::I8,
            Narrowed::I16(_) => ConcreteWidth::I16,
            Narrowed::I32(_) => ConcreteWidth::I32,
            Narrowed::I64(_) => ConcreteWidth::I64,
            Narrowed::U8(_) => ConcreteWidth::U8,
            Narrowed::U16(_) => ConcreteWidth::U16,
            Narrowed::U32(_) => ConcreteWidth::U32,
            Narrowed::U64(_) => ConcreteWidth::U64,
        }
    }

    /// The bits of the integer moved round by `bits` places within its width.
    pub fn rotate(self, bits: u32, direction: Direction) -> (rotated: Narrowed)
        ensures
            rotated.width() == self.width(),
            rotated.pattern() == rot(self.pattern(), self.width().bit_count(), bits, direction),
    {
        match direction {
            Direction::Left => match self {
                Narrowed::I8(v) => Narrowed::I8(rotate_left_i8(v, bits)),
                Narrowed::I16(v) => Narrowed::I16(rotate_left_i16(v, bits)),
                Narrowed::I32(v) => Narrowed::I32(rotate_left_i32(v, bits)),
                Narrowed::I64(v) => Narrowed::I64(rotate_left_i64(v, bits)),
                Narrowed::U8(v) => Narrowed::U8(rotate_left_u8(v, bits)),
                Narrowed::U16(v) => Narrowed::U16(rotate_left_u16(v, bits)),
                Narrowed::U32(v) => Narrowed::U32(rotate_left_u32(v, bits)),
                Narrowed::U64(v) => Narrowed::U64(rotate_left_u64(v, bits)),
            },
            Direction::Right => match self {
                Narrowed::I8(v) => Narrowed::I8(rotate_right_i8(v, bits)),
                Narrowed::I16(v) => Narrowed::I16(rotate_right_i16(v, bits)),
                Narrowed::I32(v) => Narrowed::I32(rotate_right_i32(v, bits)),
                Narrowed::I64(v) => Narrowed::I64(rotate_right_i64(v, bits)),
                Narrowed::U8(v) => Narrowed::U8(rotate_right_u8(v, bits)),
                Narrowed::U16(v) => Narrowed::U16(rotate_right_u16(v, bits)),
                Narrowed::U32(v) => Narrowed::U32(rotate_right_u32(v, bits)),
                Narrowed::U64(v) => Narrowed::U64(rotate_right_u64(v, bits)),
            },
        }
    }

    /// The integer as a signed 64 bit number, where it is one.
    pub fn widen(self) -> (wide: Option<i64>)
        ensures
            wide == (if self.value() <= i64::MAX {
                Some(self.value() as i64)
            } else {
                None
            }),
    {
        match self {
            Narrowed::I8(v) => Some(v as i64),
            Narrowed::I16(v) => Some(v as i64),
            Narrowed::I32(v) => Some(v as i64),
            Narrowed::I64(v) => Some(v),
            Narrowed::U8(v) => Some(v as i64),
            Narrowed::U16(v) => Some(v as i64),
            Narrowed::U32(v) => Some(v as i64),
            Narrowed::U64(v) => if v <= 0x7fff_ffff_ffff_ffff {
                Some(v as i64)
            } else {
                None
            },
        }
    }
}

/// The low bits of `value`, as an integer of the width `width`.
pub open spec fn narrow_spec(value: i64, width: ConcreteWidth) -> Narrowed {
    match width {
        ConcreteWidth::I8 => Narrowed::I8(value as i8),
        ConcreteWidth::I16 => Narrowed::I16(value as i16),
        ConcreteWidth::I32 => Narrowed::I32(value as i32),
        ConcreteWidth::I64 => Narrowed::I64(value),
        ConcreteWidth::U8 => Narrowed::U8(value as u8),
        ConcreteWidth::U16 => Narrowed::U16(value as u16),
        ConcreteWidth::U32 => Narrowed::U32(value as u32),
        ConcreteWidth::U64 => Narrowed::U64(value as u64),
    }
}

/// The low bits of `value`, as an integer of the width `width`: the number
/// itself where the width holds it.
#[verifier::when_used_as_spec(narrow_spec)]
pub fn narrow(value: i64, width: ConcreteWidth) -> (narrowed: Narrowed)
    ensures
        narrowed == narrow_spec(value, width),
        narrowed.width() == width,
        narrowed.pattern() == low_bits(value, width.bit_count()),
        width.holds(value) ==> narrowed.value() == value,
{
    match width {
        ConcreteWidth::I8 => {
            let v = #[verifier::truncate] (value as i8);
            assert((v as u8) as u64 == (value as u64) & mask(8) && (-0x80 <= value <= 0x7f ==> v
                == value)) by (bit_vector)
                requires
                    v == value as i8,
            ;
            Narrowed::I8(v)
        },
        ConcreteWidth::I16 => {
            let v = #[verifier::truncate] (value as i16);
            assert((v as u16) as u64 == (value as u64) & mask(16) && (-0x8000 <= value <= 0x7fff
                ==> v == value)) by (bit_vector)
                requires
                    v == value as i16,
            ;
            Narrowed::I16(v)
        },
        ConcreteWidth::I32 => {
            let v = #[verifier::truncate] (value as i32);
            assert((v as u32) as u64 == (value as u64) & mask(32) && (-0x8000_0000 <= value
                <= 0x7fff_ffff ==> v == value)) by (bit_vector)
                requires
                    v == value as i32,
            ;
            Narrowed::I32(v)
        },
        ConcreteWidth::I64 => {
            assert(value as u64 == (value as u64) & mask(64)) by (bit_vector);
            Narrowed::I64(value)
        },
        ConcreteWidth::U8 => {
            let v = #[verifier::truncate] (value as u8);
            assert(v as u64 == (value as u64) & mask(8) && (0 <= value <= 0xff ==> v == value))
                by (bit_vector)
                requires
                    v == value as u8,
            ;
            Narrowed::U8(v)
        },
        ConcreteWidth::U16 => {
            let v = #[verifier::truncate] (value as u16);
            assert(v as u64 == (value as u64) & mask(16) && (0 <= value <= 0xffff ==> v == value))
                by (bit_vector)
                requires
                    v == value as u16,
            ;
            Narrowed::U16(v)
        },
        ConcreteWidth::U32 => {
            let v = #[verifier::truncate] (value as u32);
            assert(v as u64 == (value as u64) & mask(32) && (0 <= value <= 0xffff_ffff ==> v
                == value)) by (bit_vector)
                requires
                    v == value as u32,
            ;
            Narrowed::U32(v)
        },
        ConcreteWidth::U64 => {
            let v = #[verifier::truncate] (value as u64);
            assert(v == (value as u64) & mask(64) && (0 <= value ==> v == value)) by (bit_vector)
                requires
                    v == value as u64,
            ;
            Narrowed::U64(v)
        },
    }
}

/// A rotation whose result is above the largest signed 64 bit number: the
/// integer that was rotated, by how many places, and which way.
#[derive(Clone, Copy, Debug, PartialEq, Eq)]
pub struct Overflow {
    pub val: Narrowed,
    pub bits: u32,
    pub direction: Direction,
}

/// The number that comes of rotating the low bits of `value` by `amount`
/// places within `width`.
pub open spec fn rotated(value: i64, width: ConcreteWidth, amount: u32, direction: Direction) -> int {
    from_bits(
        rot(low_bits(value, width.bit_count()), width.bit_count(), amount, direction),
        width.bit_count(),
        width.is_signed(),
    )
}

/// The rotated number, where a signed 64 bit number can hold it.
pub open spec fn rotate_spec(
    value: i64,
    width: ConcreteWidth,
    amount: u32,
    direction: Direction,
) -> Option<i64> {
    let r = rotated(value, width, amount, direction);
    if r <= i64::MAX {
        Some(r as i64)
    } else {
        None
    }
}

/// The number of an integer is its bits read at its width.
pub proof fn lemma_value_from_pattern(x: Narrowed)
    ensures
        x.value() == from_bits(x.pattern(), x.width().bit_count(), x.width().is_signed()),
        x.pattern() <= mask(x.width().bit_count()),
{
    match x {
        Narrowed::I8(v) => {
            assert(v as int == from_bits((v as u8) as u64, 8, true) && (v as u8) as u64 <= mask(8))
                by (bit_vector);
        },
        Narrowed::I16(v) => {
            assert(v as int == from_bits((v as u16) as u64, 16, true) && (v as u16) as u64 <= mask(
                16,
            )) by (bit_vector);
        },
        Narrowed::I32(v) => {
            assert(v as int == from_bits((v as u32) as u64, 32, true) && (v as u32) as u64 <= mask(
                32,
            )) by (bit_vector);
        },
        Narrowed::I64(v) => {
            assert(v as int == from_bits(v as u64, 64, true) && v as u64 <= mask(64))
                by (bit_vector);
        },
        Narrowed::U8(v) => {
            assert(v as u64 <= mask(8)) by (bit_vector);
        },
        Narrowed::U16(v) => {
            assert(v as u64 <= mask(16)) by (bit_vector);
        },
        Narrowed::U32(v) => {
            assert(v as u64 <= mask(32)) by (bit_vector);
        },
        Narrowed::U64(v) => {
            assert(v <= mask(64)) by (bit_vector);
        },
    }
}

/// Rotates the low bits of `value` by `amount` places within `width` and reads
/// the result as a signed 64 bit number. `amount` may be the width or more: the
/// bits then go round more than once.
pub fn rotate(value: i64, width: ConcreteWidth, amount: u32, direction: Direction) -> (result:
    Result<i64, Overflow>)
    ensures
        result == (match rotate_spec(value, width, amount, direction) {
            Some(r) => Ok::<i64, Overflow>(r),
            None => Err(Overflow { val: narrow_spec(value, width), bits: amount, direction }),
        }),
{
    let val = narrow(value, width);
    let turned = val.rotate(amount, direction);
    proof {
        lemma_value_from_pattern(turned);
    }
    match turned.widen() {
        Some(r) => Ok(r),
        None => Err(Overflow { val, bits: amount, direction }),
    }
}

/// The value that a rotation of `val` leaves at `span`: the rotated number,
/// or the error that says it is too large.
pub open spec fn get_rotate_spec(val: Narrowed, bits: u32, direction: Direction, span: Span) -> Value {
    let width = val.width();
    let r = from_bits(
        rot(val.pattern(), width.bit_count(), bits, direction),
        width.bit_count(),
        width.is_signed(),
    );
    if r <= i64::MAX {
        Value::Int { val: r as i64, span }
    } else {
        Value::Error { error: ShellError::RotateOverflow { val, bits, direction, span } }
    }
}

/// Rotates `val` within its own width by `bits` places and hands the result
/// on as a value at `span`.
pub fn get_rotate(val: Narrowed, bits: u32, direction: Direction, span: Span) -> (out: Value)
    ensures
        out == get_rotate_spec(val, bits, direction, span),
{
    let turned = val.rotate(bits, direction);
    proof {
        lemma_value_from_pattern(turned);
    }
    match turned.widen() {
        Some(val) => Value::Int { val, span },
        None => Value::Error { error: ShellError::RotateOverflow { val, bits, direction, span } },
    }
}

/// What one run of a rotation command was asked to do.
#[derive(Clone, Copy, Debug, PartialEq, Eq)]
pub struct RotationRequest {
    /// By how many places the bits move.
    pub amount: u32,
    pub direction: Direction,
    /// Whether numbers that are not negative are read as signed too.
    pub force_signed: bool,
    pub width: NumberBytes,
}

/// What the command makes of one value of its input. An integer is rotated in
/// the width that the request and the integer itself choose, and stays at its
/// place in the source. Any other value becomes the error that says so, at the
/// place of the value or, where it has none, at `head`.
pub open spec fn apply_spec(value: Value, request: RotationRequest, head: Span) -> Value {
    match value {
        Value::Int { val, span } => match resolve_dynamic_spec(
            request.width,
            val,
            request.force_signed,
        ) {
            Some(width) => match rotate_spec(val, width, request.amount, request.direction) {
                Some(r) => Value::Int { val: r, span },
                None => Value::Error {
                    error: ShellError::RotateOverflow {
                        val: narrow_spec(val, width),
                        bits: request.amount,
                        direction: request.direction,
                        span,
                    },
                },
            },
            None => value,
        },
        _ => Value::Error {
            error: ShellError::UnsupportedInput {
                input_type: value.get_type(),
                span: match value.span() {
                    Some(span) => span,
                    None => head,
                },
            },
        },
    }
}

/// Applies the request to one value.
pub fn apply(value: Value, request: &RotationRequest, head: Span) -> (out: Value)
    ensures
        out == apply_spec(value, *request, head),
{
    match value {
        Value::Int { val, span } => {
            match resolve_dynamic(request.width, val, request.force_signed) {
                Some(width) => get_rotate(
                    narrow(val, width),
                    request.amount,
                    request.direction,
                    span,
                ),
                None => Value::Int { val, span },
            }
        },
        other => {
            let span = match other.span() {
                Some(span) => span,
                None => head,
            };
            Value::Error { error: ShellError::UnsupportedInput { input_type: other.get_type(), span } }
        },
    }
}

} // verus!
