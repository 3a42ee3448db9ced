//! Conversions between raw bytes and the integers they stand for.
use vstd::prelude::*;

verus! {

/// The two's complement reading of a byte.
pub open spec fn signed(byte: u8) -> i8 {
    if byte < 0x80 {
        byte as i8
    } else {
        (byte - 0x100) as i8
    }
}

/// The byte whose two's complement reading is `value`.
pub open spec fn unsigned(value: i8) -> u8 {
    if value >= 0 {
        value as u8
    } else {
        (value + 0x100) as u8
    }
}

/// The two's complement reading of two bytes, the most significant one first.
pub open spec fn signed_be(high: u8, low: u8) -> i16 {
    let n = high * 0x100 + low;
    if n < 0x8000 {
        n as i16
    } else {
        (n - 0x1_0000) as i16
    }
}

/// What is left of `value` in eight bits of two's complement.
pub open spec fn wrapped(value: int) -> i8 {
    ((value + 0x80) % 0x100 - 0x80) as i8
}

/// The four bytes of `value`, the least significant one first.
pub open spec fn little_endian(value: u32) -> Seq<u8> {
    seq![
        (value % 0x100) as u8,
        (value / 0x100 % 0x100) as u8,
        (value / 0x1_0000 % 0x100) as u8,
        (value / 0x100_0000) as u8,
    ]
}

/// The magnitude bits of an IEEE 754 single: everything but its sign.
pub open spec fn single_magnitude(bits: u32) -> u32 {
    bits % 0x8000_0000
}

/// Whether two bit patterns of IEEE 754 singles stand for equal numbers: a NaN equals nothing, and
/// the two zeros equal each other.
pub open spec fn singles_equal(a: u32, b: u32) -> bool {
    &&& single_magnitude(a) <= 0x7F80_0000
    &&& single_magnitude(b) <= 0x7F80_0000
    &&& a == b || single_magnitude(a) == 0 && single_magnitude(b) == 0
}

pub(crate) fn same_single(a: u32, b: u32) -> (same: bool)
    ensures
        same == singles_equal(a, b),
{
    let p: u32 = a % 0x8000_0000;
    let q: u32 = b % 0x8000_0000;
    p <= 0x7F80_0000 && q <= 0x7F80_0000 && (a == b || (p == 0 && q == 0))
}

pub(crate) fn to_signed(byte: u8) -> (value: i8)
    ensures
        value == signed(byte),
{
    assert(byte < 0x80 ==> byte as i8 == byte) by (bit_vector);
    assert(byte >= 0x80 ==> byte as i8 == byte - 0x100) by (bit_vector);
    #[verifier::truncate]
    (byte as i8)
}

pub(crate) fn to_signed_be(high: u8, low: u8) -> (value: i16)
    ensures
        value == signed_be(high, low),
{
    let n: u16 = (high as u16) << 8 | low as u16;
    let ghost h = high as u16;
    let ghost l = low as u16;
    assert(h << 8 | l == h * 0x100 + l) by (bit_vector)
        requires
            h < 0x100,
            l < 0x100,
    ;
    assert(n < 0x8000 ==> n as i16 == n) by (bit_vector);
    assert(n >= 0x8000 ==> n as i16 == n - 0x1_0000) by (bit_vector);
    #[verifier::truncate]
    (n as i16)
}

pub(crate) fn to_wrapped(value: i16) -> (wrapped_value: i8)
    ensures
        wrapped_value == wrapped(value as int),
{
    assert(value as i8 == (value + 0x80) % 0x100 - 0x80) by (bit_vector);
    #[verifier::truncate]
    (value as i8)
}

pub(crate) fn to_little_endian(value: u32) -> (bytes: [u8; 4])
    ensures
        bytes@ == little_endian(value),
{
    assert(value & 0xff == value % 0x100) by (bit_vector);
    assert((value >> 8) & 0xff == value / 0x100 % 0x100) by (bit_vector);
    assert((value >> 16) & 0xff == value / 0x1_0000 % 0x100) by (bit_vector);
    assert(value >> 24 == value / 0x100_0000) by (bit_vector);
    assert(value >> 24 < 0x100) by (bit_vector);
    [
        (value & 0xff) as u8,
        ((value >> 8) & 0xff) as u8,
        ((value >> 16) & 0xff) as u8,
        (value >> 24) as u8,
    ]
}

/// Every reading agrees with its bytes up to a multiple of their range. As a reading has to fit its
/// type, this leaves exactly one for any bytes, and one byte for any value.
pub proof fn law_readings_agree_with_their_bytes(
    byte: u8,
    value: i8,
    high: u8,
    low: u8,
    wide: int,
)
    ensures
        (byte - signed(byte)) % 0x100 == 0,
        (unsigned(value) - value) % 0x100 == 0,
        (0x100 * high + low - signed_be(high, low)) % 0x1_0000 == 0,
        (wide - wrapped(wide)) % 0x100 == 0,
{
}

/// The four bytes of a value, each weighted by its place, add up to the value.
pub proof fn law_little_endian_adds_up(value: u32)
    ensures
        little_endian(value).len() == 4,
        little_endian(value)[0] + 0x100 * little_endian(value)[1] + 0x1_0000 * little_endian(
            value,
        )[2] + 0x100_0000 * little_endian(value)[3] == value,
{
}

/// Singles compare as numbers: the order of the two is of no account, a number equals itself and
/// no NaN does, and numbers with different bits are equal only as the two zeros.
pub proof fn law_singles_compare_as_numbers(a: u32, b: u32)
    ensures
        singles_equal(a, b) <==> singles_equal(b, a),
        singles_equal(a, a) <==> !(a & 0x7F80_0000 == 0x7F80_0000 && a & 0x007F_FFFF != 0),
        a != b ==> (singles_equal(a, b) <==> a & 0x7FFF_FFFF == 0 && b & 0x7FFF_FFFF == 0),
{
    assert(a % 0x8000_0000 <= 0x7F80_0000 <==> !(a & 0x7F80_0000 == 0x7F80_0000 && a & 0x007F_FFFF
        != 0)) by (bit_vector);
    assert(a & 0x7FFF_FFFF == a % 0x8000_0000) by (bit_vector);
    assert(b & 0x7FFF_FFFF == b % 0x8000_0000) by (bit_vector);
}

} // verus!
