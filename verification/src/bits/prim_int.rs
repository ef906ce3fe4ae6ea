use num_traits::PrimInt;
use vstd::prelude::*;

verus! {

/// The all-ones pattern of the low `bits` bits.
pub open spec fn mask(bits: u32) -> u64 {
    if bits >= 64 {
        0xffff_ffff_ffff_ffffu64
    } else {
        (((1u64 << bits) - 1) as u64)
    }
}

/// The low `bits` bits of `p`, moved `n` places towards the top, with the bits
/// that leave at the top coming back in at the bottom.
pub open spec fn rotl(p: u64, bits: u32, n: u32) -> u64 {
    let k = n % bits;
    ((p << k) | (p >> ((bits - k) as u32))) & mask(bits)
}

/// The low `bits` bits of `p`, moved `n` places towards the bottom, with the
/// bits that leave at the bottom coming back in at the top.
pub open spec fn rotr(p: u64, bits: u32, n: u32) -> u64 {
    let k = n % bits;
    ((p >> k) | (p << ((bits - k) as u32))) & mask(bits)
}

/// `PrimInt::rotate_left` of num_traits on `i8`, which is `i8::rotate_left`: the
/// 8 bits of `v` move `n` places to the left, and those pushed out at the top
/// come back in at the bottom.
#[verifier::external_body]
pub(crate) fn rotate_left_i8(v: i8, n: u32) -> (r: i8)
    ensures
        (r as u8) as u64 == rotl((v as u8) as u64, 8, n),
{
    PrimInt::rotate_left(v, n)
}

/// `PrimInt::rotate_left` of num_traits on `i16`, which is `i16::rotate_left`:
/// the 16 bits of `v` move `n` places to the left, and those pushed out at the
/// top come back in at the bottom.
#[verifier::external_body]
pub(crate) fn rotate_left_i16(v: i16, n: u32) -> (r: i16)
    ensures
        (r as u16) as u64 == rotl((v as u16) as u64, 16, n),
{
    PrimInt::rotate_left(v, n)
}

/// `PrimInt::rotate_left` of num_traits on `i32`, which is `i32::rotate_left`:
/// the 32 bits of `v` move `n` places to the left, and those pushed out at the
/// top come back in at the bottom.
#[verifier::external_body]
pub(crate) fn rotate_left_i32(v: i32, n: u32) -> (r: i32)
    ensures
        (r as u32) as u64 == rotl((v as u32) as u64, 32, n),
{
    PrimInt::rotate_left(v, n)
}

/// `PrimInt::rotate_left` of num_traits on `i64`, which is `i64::rotate_left`:
/// the 64 bits of `v` move `n` places to the left, and those pushed out at the
/// top come back in at the bottom.
#[verifier::external_body]
pub(crate) fn rotate_left_i64(v: i64, n: u32) -> (r: i64)
    ensures
        r as u64 == rotl(v as u64, 64, n),
{
    PrimInt::rotate_left(v, n)
}

/// `PrimInt::rotate_left` of num_traits on `u8`, which is `u8::rotate_left`: the
/// 8 bits of `v` move `n` places to the left, and those pushed out at the top
/// come back in at the bottom.
#[verifier::external_body]
pub(crate) fn rotate_left_u8(v: u8, n: u32) -> (r: u8)
    ensures
        r as u64 == rotl(v as u64, 8, n),
{
    PrimInt::rotate_left(v, n)
}

/// `PrimInt::rotate_left` of num_traits on `u16`, which is `u16::rotate_left`:
/// the 16 bits of `v` move `n` places to the left, and those pushed out at the
/// top come back in at the bottom.
#[verifier::external_body]
pub(crate) fn rotate_left_u16(v: u16, n: u32) -> (r: u16)
    ensures
        r as u64 == rotl(v as u64, 16, n),
{
    PrimInt::rotate_left(v, n)
}

/// `PrimInt::rotate_left` of num_traits on `u32`, which is `u32::rotate_left`:
/// the 32 bits of `v` move `n` places to the left, and those pushed out at the
/// top come back in at the bottom.
#[verifier::external_body]
pub(crate) fn rotate_left_u32(v: u32, n: u32) -> (r: u32)
    ensures
        r as u64 == rotl(v as u64, 32, n),
{
    PrimInt::rotate_left(v, n)
}

/// `PrimInt::rotate_left` of num_traits on `u64`, which is `u64::rotate_left`:
/// the 64 bits of `v` move `n` places to the left, and those pushed out at the
/// top come back in at the bottom.
#[verifier::external_body]
pub(crate) fn rotate_left_u64(v: u64, n: u32) -> (r: u64)
    ensures
        r == rotl(v, 64, n),
{
    PrimInt::rotate_left(v, n)
}

/// `PrimInt::rotate_right` of num_traits on `i8`, which is `i8::rotate_right`:
/// the 8 bits of `v` move `n` places to the right, and those pushed out at the
/// bottom come back in at the top.
#[verifier::external_body]
pub(crate) fn rotate_right_i8(v: i8, n: u32) -> (r: i8)
    ensures
        (r as u8) as u64 == rotr((v as u8) as u64, 8, n),
{
    PrimInt::rotate_right(v, n)
}

/// `PrimInt::rotate_right` of num_traits on `i16`, which is
/// `i16::rotate_right`: the 16 bits of `v` move `n` places to the right, and
/// those pushed out at the bottom come back in at the top.
#[verifier::external_body]
pub(crate) fn rotate_right_i16(v: i16, n: u32) -> (r: i16)
    ensures
        (r as u16) as u64 == rotr((v as u16) as u64, 16, n),
{
    PrimInt::rotate_right(v, n)
}

/// `PrimInt::rotate_right` of num_traits on `i32`, which is
/// `i32::rotate_right`: the 32 bits of `v` move `n` places to the right, and
/// those pushed out at the bottom come back in at the top.
#[verifier::external_body]
pub(crate) fn rotate_right_i32(v: i32, n: u32) -> (r: i32)
    ensures
        (r as u32) as u64 == rotr((v as u32) as u64, 32, n),
{
    PrimInt::rotate_right(v, n)
}

/// `PrimInt::rotate_right` of num_traits on `i64`, which is
/// `i64::rotate_right`: the 64 bits of `v` move `n` places to the right, and
/// those pushed out at the bottom come back in at the top.
#[verifier::external_body]
pub(crate) fn rotate_right_i64(v: i64, n: u32) -> (r: i64)
    ensures
        r as u64 == rotr(v as u64, 64, n),
{
    PrimInt::rotate_right(v, n)
}

/// `PrimInt::rotate_right` of num_traits on `u8`, which is `u8::rotate_right`:
/// the 8 bits of `v` move `n` places to the right, and those pushed out at the
/// bottom come back in at the top.
#[verifier::external_body]
pub(crate) fn rotate_right_u8(v: u8, n: u32) -> (r: u8)
    ensures
        r as u64 == rotr(v as u64, 8, n),
{
    PrimInt::rotate_right(v, n)
}

/// `PrimInt::rotate_right` of num_traits on `u16`, which is
/// `u16::rotate_right`: the 16 bits of `v` move `n` places to the right, and
/// those pushed out at the bottom come back in at the top.
#[verifier::external_body]
pub(crate) fn rotate_right_u16(v: u16, n: u32) -> (r: u16)
    ensures
        r as u64 == rotr(v as u64, 16, n),
{
    PrimInt::rotate_right(v, n)
}

/// `PrimInt::rotate_right` of num_traits on `u32`, which is
/// `u32::rotate_right`: the 32 bits of `v` move `n` places to the right, and
/// those pushed out at the bottom come back in at the top.
#[verifier::external_body]
pub(crate) fn rotate_right_u32(v: u32, n: u32) -> (r: u32)
    ensures
        r as u64 == rotr(v as u64, 32, n),
{
    PrimInt::rotate_right(v, n)
}

/// `PrimInt::rotate_right` of num_traits on `u64`, which is
/// `u64::rotate_right`: the 64 bits of `v` move `n` places to the right, and
/// those pushed out at the bottom come back in at the top.
#[verifier::external_body]
pub(crate) fn rotate_right_u64(v: u64, n: u32) -> (r: u64)
    ensures
        r == rotr(v, 64, n),
{
    PrimInt::rotate_right(v, n)
}

} // verus!
