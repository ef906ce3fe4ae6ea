use crate::bits::prim_int::{mask, rotl, rotr};
use crate::bits::rotate::{from_bits, low_bits, rot, rotate_spec, ConcreteWidth, Direction};
use vstd::prelude::*;

verus! {

/// Whether bit number `i` of `p` is set, counted from the lowest.
pub open spec fn bit(p: u64, i: u32) -> bool {
    (p >> i) & 1 == 1
}

proof fn lemma_bits_move_8(p: u64, n: u32, i: u32)
    by (bit_vector)
    requires
        p <= mask(8),
        i < 8,
    ensures
        bit(rotl(p, 8, n), ((i + n) % 8) as u32) == bit(p, i),
        bit(rotr(p, 8, n), i) == bit(p, ((i + n) % 8) as u32),
{
}

proof fn lemma_bits_move_16(p: u64, n: u32, i: u32)
    by (bit_vector)
    requires
        p <= mask(16),
        i < 16,
    ensures
        bit(rotl(p, 16, n), ((i + n) % 16) as u32) == bit(p, i),
        bit(rotr(p, 16, n), i) == bit(p, ((i + n) % 16) as u32),
{
}

proof fn lemma_bits_move_32(p: u64, n: u32, i: u32)
    by (bit_vector)
    requires
        p <= mask(32),
        i < 32,
    ensures
        bit(rotl(p, 32, n), ((i + n) % 32) as u32) == bit(p, i),
        bit(rotr(p, 32, n), i) == bit(p, ((i + n) % 32) as u32),
{
}

proof fn lemma_bits_move_64(p: u64, n: u32, i: u32)
    by (bit_vector)
    requires
        p <= mask(64),
        i < 64,
    ensures
        bit(rotl(p, 64, n), ((i + n) % 64) as u32) == bit(p, i),
        bit(rotr(p, 64, n), i) == bit(p, ((i + n) % 64) as u32),
{
}

/// A rotation moves every bit by the same number of places, round the width:
/// the bit at place `i` is found `n` places higher after a rotation to the
/// left, and the bit found at place `i` after a rotation to the right was `n`
/// places higher, both counted modulo the width.
pub proof fn lemma_rotation_moves_each_bit(p: u64, bits: u32, n: u32, i: u32)
    requires
        bits == 8 || bits == 16 || bits == 32 || bits == 64,
        p <= mask(bits),
        i < bits,
    ensures
        bit(rotl(p, bits, n), ((i + n) % (bits as int)) as u32) == bit(p, i),
        bit(rotr(p, bits, n), i) == bit(p, ((i + n) % (bits as int)) as u32),
{
    if bits == 8 {
        lemma_bits_move_8(p, n, i);
    } else if bits == 16 {
        lemma_bits_move_16(p, n, i);
    } else if bits == 32 {
        lemma_bits_move_32(p, n, i);
    } else {
        lemma_bits_move_64(p, n, i);
    }
}

/// Rotating to the left by `amount` places is rotating to the right by the
/// rest of the width, for every `amount` below the width: both give the same
/// number, or both give none.
pub proof fn lemma_left_is_right_by_the_rest(value: i64, width: ConcreteWidth, amount: u32)
    requires
        amount < width.bit_count(),
    ensures
        rotate_spec(value, width, amount, Direction::Left) == rotate_spec(
            value,
            width,
            (width.bit_count() - amount) as u32,
            Direction::Right,
        ),
{
    let p = low_bits(value, width.bit_count());
    let rest = (width.bit_count() - amount) as u32;
    match width {
        ConcreteWidth::I8 | ConcreteWidth::U8 => {
            assert(rotl(p, 8, amount) == rotr(p, 8, rest)) by (bit_vector)
                requires
                    p == low_bits(value, 8),
                    amount < 8,
                    rest as int == 8 - amount,
            ;
        },
        ConcreteWidth::I16 | ConcreteWidth::U16 => {
            assert(rotl(p, 16, amount) == rotr(p, 16, rest)) by (bit_vector)
                requires
                    p == low_bits(value, 16),
                    amount < 16,
                    rest as int == 16 - amount,
            ;
        },
        ConcreteWidth::I32 | ConcreteWidth::U32 => {
            assert(rotl(p, 32, amount) == rotr(p, 32, rest)) by (bit_vector)
                requires
                    p == low_bits(value, 32),
                    amount < 32,
                    rest as int == 32 - amount,
            ;
        },
        ConcreteWidth::I64 | ConcreteWidth::U64 => {
            assert(rotl(p, 64, amount) == rotr(p, 64, rest)) by (bit_vector)
                requires
                    amount < 64,
                    rest as int == 64 - amount,
            ;
        },
    }
}

proof fn lemma_comes_round_8(value: i64, amount: u32, back: u32, signed: bool, r: i64)
    by (bit_vector)
    requires
        if signed {
            -0x80 <= value <= 0x7f
        } else {
            0 <= value <= 0xff
        },
        ((back + amount) % 8) as u32 == 0,
        r as int == from_bits(rotl(low_bits(value, 8), 8, amount), 8, signed),
    ensures
        from_bits(rotl(low_bits(r, 8), 8, back), 8, signed) == value as int,
{
}

proof fn lemma_comes_round_16(value: i64, amount: u32, back: u32, signed: bool, r: i64)
    by (bit_vector)
    requires
        if signed {
            -0x8000 <= value <= 0x7fff
        } else {
            0 <= value <= 0xffff
        },
        ((back + amount) % 16) as u32 == 0,
        r as int == from_bits(rotl(low_bits(value, 16), 16, amount), 16, signed),
    ensures
        from_bits(rotl(low_bits(r, 16), 16, back), 16, signed) == value as int,
{
}

proof fn lemma_comes_round_32(value: i64, amount: u32, back: u32, signed: bool, r: i64)
    by (bit_vector)
    requires
        if signed {
            -0x8000_0000 <= value <= 0x7fff_ffff
        } else {
            0 <= value <= 0xffff_ffff
        },
        ((back + amount) % 32) as u32 == 0,
        r as int == from_bits(rotl(low_bits(value, 32), 32, amount), 32, signed),
    ensures
        from_bits(rotl(low_bits(r, 32), 32, back), 32, signed) == value as int,
{
}

proof fn lemma_comes_round_64(value: i64, amount: u32, back: u32, signed: bool, r: i64)
    by (bit_vector)
    requires
        if signed {
            -0x8000_0000_0000_0000 <= value <= 0x7fff_ffff_ffff_ffff
        } else {
            0 <= value <= 0x7fff_ffff_ffff_ffff
        },
        ((back + amount) % 64) as u32 == 0,
        r as int == from_bits(rotl(low_bits(value, 64), 64, amount), 64, signed),
    ensures
        from_bits(rotl(low_bits(r, 64), 64, back), 64, signed) == value as int,
{
}

/// What the bits of a width stand for lies within the numbers of that width.
pub proof fn lemma_from_bits_range(p: u64, bits: u32, signed: bool)
    by (bit_vector)
    requires
        bits == 8 || bits == 16 || bits == 32 || bits == 64,
        p <= mask(bits),
    ensures
        signed ==> -((mask(bits) >> 1) + 1) <= from_bits(p, bits, signed) <= (mask(bits) >> 1),
        !signed ==> 0 <= from_bits(p, bits, signed) <= mask(bits),
        -0x8000_0000_0000_0000 <= from_bits(p, bits, signed),
{
}

/// A rotation of the low bits stays within them.
pub proof fn lemma_rot_within(p: u64, bits: u32, n: u32, direction: Direction)
    requires
        bits == 8 || bits == 16 || bits == 32 || bits == 64,
    ensures
        rot(p, bits, n, direction) <= mask(bits),
{
    assert(rotl(p, bits, n) <= mask(bits) && rotr(p, bits, n) <= mask(bits)) by (bit_vector);
}

/// A rotation to the left by `amount` places is undone by a rotation to the
/// left by what `amount` lacks to a multiple of the width: for a number of the
/// width, where the first rotation gives a number, the second gives back the
/// number that was there at first.
pub proof fn lemma_rotate_left_comes_round(value: i64, width: ConcreteWidth, amount: u32)
    requires
        width.holds(value),
        rotate_spec(value, width, amount, Direction::Left) is Some,
    ensures
        rotate_spec(
            rotate_spec(value, width, amount, Direction::Left).unwrap(),
            width,
            ((width.bit_count() - amount) % (width.bit_count() as int)) as u32,
            Direction::Left,
        ) == Some(value),
{
    let bits = width.bit_count();
    let signed = width.is_signed();
    let back = ((bits - amount) % (bits as int)) as u32;
    let r = rotate_spec(value, width, amount, Direction::Left).unwrap();
    let q = rotl(low_bits(value, bits), bits, amount);
    lemma_rot_within(low_bits(value, bits), bits, amount, Direction::Left);
    lemma_from_bits_range(q, bits, signed);
    assert(r as int == from_bits(q, bits, signed));
    assert((back + amount) % (bits as int) == 0);
    if bits == 8 {
        lemma_comes_round_8(value, amount, back, signed, r);
    } else if bits == 16 {
        lemma_comes_round_16(value, amount, back, signed, r);
    } else if bits == 32 {
        lemma_comes_round_32(value, amount, back, signed, r);
    } else {
        lemma_comes_round_64(value, amount, back, signed, r);
    }
}

/// Only the count of places modulo the width matters: the bits go round.
pub proof fn lemma_amount_counts_modulo_width(
    value: i64,
    width: ConcreteWidth,
    amount: u32,
    direction: Direction,
)
    ensures
        rotate_spec(value, width, amount, direction) == rotate_spec(
            value,
            width,
            amount % width.bit_count(),
            direction,
        ),
{
    let bits = width.bit_count();
    assert((amount % bits) % bits == amount % bits);
}

/// A rotation gives no number only in the unsigned width of 64 bits, and
/// there exactly when the top bit of the rotated bits is set.
pub proof fn lemma_overflow_only_unsigned_64(
    value: i64,
    width: ConcreteWidth,
    amount: u32,
    direction: Direction,
)
    ensures
        rotate_spec(value, width, amount, direction) is None <==> width == ConcreteWidth::U64
            && bit(rot(low_bits(value, 64), 64, amount, direction), 63),
{
    let bits = width.bit_count();
    let q = rot(low_bits(value, bits), bits, amount, direction);
    lemma_rot_within(low_bits(value, bits), bits, amount, direction);
    lemma_from_bits_range(q, bits, width.is_signed());
    assert(mask(8) >> 1 == 0x7f && mask(16) >> 1 == 0x7fff && mask(32) >> 1 == 0x7fff_ffff && mask(
        64,
    ) >> 1 == 0x7fff_ffff_ffff_ffff && mask(8) == 0xff && mask(16) == 0xffff && mask(32)
        == 0xffff_ffff) by (bit_vector);
    assert(bit(q, 63) <==> q > 0x7fff_ffff_ffff_ffff) by (bit_vector);
}

} // verus!
