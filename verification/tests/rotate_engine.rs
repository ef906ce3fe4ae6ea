use nu_command::bits::rotate::{
    apply, get_rotate, narrow, rotate, ConcreteWidth, Direction, Narrowed, Overflow,
    RotationRequest,
};
use nu_command::bits::rotate::ConcreteWidth::{I16, I32, I64, I8, U16, U32, U64, U8};
use nu_command::bits::rotate::Direction::{Left, Right};
use nu_command::bits::NumberBytes;
use nu_command::shell_error::ShellError;
use nu_command::span::Span;
use nu_command::value::{Type, Value};

const WIDTHS: [ConcreteWidth; 8] = [
    ConcreteWidth::I8,
    ConcreteWidth::I16,
    ConcreteWidth::I32,
    ConcreteWidth::I64,
    ConcreteWidth::U8,
    ConcreteWidth::U16,
    ConcreteWidth::U32,
    ConcreteWidth::U64,
];

fn samples(width: ConcreteWidth) -> Vec<i64> {
    match width {
        ConcreteWidth::I8 => vec![0, 1, -1, 17, 0x40, 0x7f, -0x80, -0x7f, -86],
        ConcreteWidth::I16 => vec![0, 1, -1, 17, 0x4000, 0x7fff, -0x8000, -0x7fff, 0x1234],
        ConcreteWidth::I32 => vec![0, 1, -1, 17, 0x4000_0000, 0x7fff_ffff, -0x8000_0000, 0x1234_5678],
        ConcreteWidth::I64 => vec![0, 1, -1, 17, i64::MAX, i64::MIN, 0x0123_4567_89ab_cdef],
        ConcreteWidth::U8 => vec![0, 1, 17, 0x80, 0xff, 0xaa],
        ConcreteWidth::U16 => vec![0, 1, 17, 0x8000, 0xffff, 0x1234],
        ConcreteWidth::U32 => vec![0, 1, 17, 0x8000_0000, 0xffff_ffff, 0x1234_5678],
        ConcreteWidth::U64 => vec![0, 1, 17, i64::MAX, 0x4000_0000_0000_0000, 0x0123_4567_89ab_cdef],
    }
}

#[test]
fn rotate_exact_values() {
    assert_eq!(rotate(17, U8, 2, Left), Ok(68));
    assert_eq!(rotate(17, U8, 2, Right), Ok(68));
    assert_eq!(rotate(0x0123_4567_89ab_cdef, I64, 12, Left), Ok(0x3456_789a_bcde_f012));
    assert_eq!(rotate(0x0123_4567_89ab_cdef, I64, 12, Right), Ok(0xdef0_1234_5678_9abc_u64 as i64));
    assert_eq!(rotate(0x1234, U16, 4, Left), Ok(0x2341));
    assert_eq!(rotate(0x1234, U16, 4, Right), Ok(0x4123));
    assert_eq!(rotate(0x1234_5678, U32, 8, Left), Ok(0x3456_7812));
    assert_eq!(rotate(0x1234_5678, U32, 8, Right), Ok(0x7812_3456));
    assert_eq!(rotate(0x1234_5678, I32, 12, Right), Ok(0x6781_2345));
    assert_eq!(rotate(0x6781_2345, I32, 4, Left), Ok(0x7812_3456));
    assert_eq!(rotate(0x7812_3456, I32, 4, Left), Ok(0x8123_4567_u32 as i32 as i64));
    assert_eq!(rotate(-0x7e, I8, 2, Left), Ok(0xa));
    assert_eq!(rotate(0xa, I8, 2, Right), Ok(-0x7e));
    assert_eq!(rotate(-2, I16, 15, Left), Ok(0x7fff));
}

#[test]
fn rotate_calls_each_primitive() {
    // every line fails if the primitive behind it hands its argument back
    assert_eq!(rotate(1, I8, 1, Left), Ok(2));
    assert_eq!(rotate(1, I16, 1, Left), Ok(2));
    assert_eq!(rotate(1, I32, 1, Left), Ok(2));
    assert_eq!(rotate(1, I64, 1, Left), Ok(2));
    assert_eq!(rotate(1, U8, 1, Left), Ok(2));
    assert_eq!(rotate(1, U16, 1, Left), Ok(2));
    assert_eq!(rotate(1, U32, 1, Left), Ok(2));
    assert_eq!(rotate(1, U64, 1, Left), Ok(2));
    assert_eq!(rotate(2, I8, 1, Right), Ok(1));
    assert_eq!(rotate(2, I16, 1, Right), Ok(1));
    assert_eq!(rotate(2, I32, 1, Right), Ok(1));
    assert_eq!(rotate(2, I64, 1, Right), Ok(1));
    assert_eq!(rotate(2, U8, 1, Right), Ok(1));
    assert_eq!(rotate(2, U16, 1, Right), Ok(1));
    assert_eq!(rotate(2, U32, 1, Right), Ok(1));
    assert_eq!(rotate(2, U64, 1, Right), Ok(1));
    // and the bit that leaves at one end comes back at the other, at the right width
    assert_eq!(rotate(1, I8, 1, Right), Ok(-0x80));
    assert_eq!(rotate(1, I16, 1, Right), Ok(-0x8000));
    assert_eq!(rotate(1, I32, 1, Right), Ok(-0x8000_0000));
    assert_eq!(rotate(1, I64, 1, Right), Ok(i64::MIN));
    assert_eq!(rotate(1, U8, 1, Right), Ok(0x80));
    assert_eq!(rotate(1, U16, 1, Right), Ok(0x8000));
    assert_eq!(rotate(1, U32, 1, Right), Ok(0x8000_0000));
    assert_eq!(rotate(-0x80, I8, 1, Left), Ok(1));
    assert_eq!(rotate(-0x8000, I16, 1, Left), Ok(1));
    assert_eq!(rotate(-0x8000_0000, I32, 1, Left), Ok(1));
    assert_eq!(rotate(i64::MIN, I64, 1, Left), Ok(1));
    assert_eq!(rotate(0x80, U8, 1, Left), Ok(1));
    assert_eq!(rotate(0x8000, U16, 1, Left), Ok(1));
    assert_eq!(rotate(0x8000_0000, U32, 1, Left), Ok(1));
}

#[test]
fn rotate_overflows_only_unsigned_at_64_bits() {
    let expected = Err(Overflow { val: Narrowed::U64(1), bits: 1, direction: Right });
    assert_eq!(rotate(1, ConcreteWidth::U64, 1, Right), expected);
    let expected = Err(Overflow { val: Narrowed::U64(1 << 62), bits: 65, direction: Left });
    assert_eq!(rotate(1 << 62, ConcreteWidth::U64, 65, Left), expected);
    for width in WIDTHS {
        if width == ConcreteWidth::U64 {
            continue;
        }
        for value in samples(width) {
            for amount in [0, 1, 7, 8, 31, 63, 64, 1000, u32::MAX] {
                assert!(rotate(value, width, amount, Left).is_ok());
                assert!(rotate(value, width, amount, Right).is_ok());
            }
        }
    }
}

#[test]
fn rotate_left_then_the_rest_comes_round() {
    for width in WIDTHS {
        let bits = width.bit_count();
        for value in samples(width) {
            for amount in [0, 1, 2, 7, 8, 9, 15, 16, 31, 32, 33, 63, 64, 65, 1000, u32::MAX] {
                let back = ((bits as i64 - amount as i64).rem_euclid(bits as i64)) as u32;
                if let Ok(turned) = rotate(value, width, amount, Direction::Left) {
                    let again = rotate(turned, width, back, Direction::Left);
                    assert_eq!(again, Ok(value), "{:?} {} {}", width, value, amount);
                } else {
                    assert_eq!(width, ConcreteWidth::U64);
                }
            }
        }
    }
}

#[test]
fn rotate_left_is_right_by_the_rest() {
    for width in WIDTHS {
        let bits = width.bit_count();
        for value in samples(width) {
            for amount in 0..bits {
                let left = rotate(value, width, amount, Direction::Left);
                let right = rotate(value, width, bits - amount, Direction::Right);
                assert_eq!(left.ok(), right.ok(), "{:?} {} {}", width, value, amount);
                assert_eq!(left.is_err(), right.is_err());
            }
        }
    }
}

#[test]
fn rotate_takes_the_low_bits_of_a_number_too_large() {
    assert_eq!(rotate(0x1ff, U8, 0, Direction::Left), Ok(0xff));
    assert_eq!(rotate(0x100, U8, 3, Direction::Left), Ok(0));
    assert_eq!(rotate(0x180, I8, 0, Direction::Left), Ok(-0x80));
    assert_eq!(rotate(-1, U8, 0, Direction::Left), Ok(0xff));
    assert_eq!(rotate(-1, U16, 5, Direction::Right), Ok(0xffff));
    assert_eq!(rotate(-1, U32, 5, Direction::Right), Ok(0xffff_ffff));
    let expected = Err(Overflow { val: Narrowed::U64(u64::MAX), bits: 5, direction: Direction::Right });
    assert_eq!(rotate(-1, U64, 5, Direction::Right), expected);
}

#[test]
fn narrow_keeps_the_low_bits() {
    assert_eq!(narrow(17, ConcreteWidth::I8), Narrowed::I8(17));
    assert_eq!(narrow(-17, ConcreteWidth::I8), Narrowed::I8(-17));
    assert_eq!(narrow(0x17f, ConcreteWidth::I8), Narrowed::I8(0x7f));
    assert_eq!(narrow(0x180, ConcreteWidth::I8), Narrowed::I8(-0x80));
    assert_eq!(narrow(0x18000, ConcreteWidth::I16), Narrowed::I16(-0x8000));
    assert_eq!(narrow(0x1_8000_0000, ConcreteWidth::I32), Narrowed::I32(-0x8000_0000));
    assert_eq!(narrow(i64::MIN, ConcreteWidth::I64), Narrowed::I64(i64::MIN));
    assert_eq!(narrow(0x1ff, ConcreteWidth::U8), Narrowed::U8(0xff));
    assert_eq!(narrow(0x1_ffff, ConcreteWidth::U16), Narrowed::U16(0xffff));
    assert_eq!(narrow(0x1_ffff_ffff, ConcreteWidth::U32), Narrowed::U32(0xffff_ffff));
    assert_eq!(narrow(-1, ConcreteWidth::U64), Narrowed::U64(u64::MAX));
    for width in WIDTHS {
        for value in samples(width) {
            assert_eq!(narrow(value, width).width(), width);
            assert_eq!(narrow(value, width).widen(), Some(value));
        }
    }
}

#[test]
fn widen_fails_above_the_largest_signed_number() {
    assert_eq!(Narrowed::U64(i64::MAX as u64).widen(), Some(i64::MAX));
    assert_eq!(Narrowed::U64(i64::MAX as u64 + 1).widen(), None);
    assert_eq!(Narrowed::U64(u64::MAX).widen(), None);
    assert_eq!(Narrowed::U32(u32::MAX).widen(), Some(0xffff_ffff));
    assert_eq!(Narrowed::I32(-1).widen(), Some(-1));
    assert_eq!(Narrowed::I8(-128).widen(), Some(-128));
    assert_eq!(Narrowed::U8(255).widen(), Some(255));
    assert_eq!(Narrowed::I16(-3).widen(), Some(-3));
    assert_eq!(Narrowed::U16(65535).widen(), Some(65535));
    assert_eq!(Narrowed::I64(i64::MIN).widen(), Some(i64::MIN));
}

#[test]
fn narrowed_rotates_within_its_width() {
    assert_eq!(Narrowed::U8(0x81).rotate(4, Direction::Left), Narrowed::U8(0x18));
    assert_eq!(Narrowed::I8(-127).rotate(4, Direction::Right), Narrowed::I8(0x18));
    assert_eq!(Narrowed::U16(0x8001).rotate(4, Direction::Left), Narrowed::U16(0x0018));
    assert_eq!(Narrowed::U64(1).rotate(1, Direction::Right), Narrowed::U64(1 << 63));
    assert_eq!(Narrowed::U32(1).rotate(32, Direction::Right), Narrowed::U32(1));
}

#[test]
fn get_rotate_gives_a_value_at_the_span() {
    let at = Span::new(4, 6);
    assert_eq!(
        get_rotate(Narrowed::U8(17), 2, Direction::Left, at),
        Value::Int { val: 68, span: at }
    );
    assert_eq!(
        get_rotate(Narrowed::U64(1), 1, Direction::Right, at),
        Value::Error {
            error: ShellError::RotateOverflow {
                val: Narrowed::U64(1),
                bits: 1,
                direction: Direction::Right,
                span: at,
            },
        }
    );
}

#[test]
fn apply_follows_the_request() {
    let head = Span::new(0, 3);
    let at = Span::new(4, 6);
    let request = RotationRequest {
        amount: 1,
        direction: Direction::Right,
        force_signed: true,
        width: NumberBytes::Two,
    };
    assert_eq!(apply(Value::Int { val: 1, span: at }, &request, head), Value::Int { val: -0x8000, span: at });
    let request = RotationRequest { force_signed: false, ..request };
    assert_eq!(apply(Value::Int { val: 1, span: at }, &request, head), Value::Int { val: 0x8000, span: at });
    let request = RotationRequest { width: NumberBytes::Invalid, ..request };
    assert_eq!(apply(Value::Int { val: 1, span: at }, &request, head), Value::Int { val: 1, span: at });
    assert_eq!(
        apply(Value::Other { ty: "record".to_string(), span: None }, &request, head),
        Value::Error {
            error: ShellError::UnsupportedInput {
                input_type: Type::Other("record".to_string()),
                span: head,
            },
        }
    );
}
