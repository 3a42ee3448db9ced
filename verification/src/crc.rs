//! The CRC-8/MAXIM checksum that protects every serial frame.
use vstd::prelude::*;

verus! {

/// Bit `i` of `byte`, counted from the least significant one.
pub open spec fn bit_of(byte: u8, i: nat) -> bool {
    (byte >> (i as u8)) & 1 == 1
}

/// `byte` with its bits in the opposite order.
pub open spec fn reflect(byte: u8) -> u8 {
    ((byte & 0x01) << 7) | ((byte & 0x02) << 5) | ((byte & 0x04) << 3) | ((byte & 0x08) << 1) | ((
    byte & 0x10) >> 1) | ((byte & 0x20) >> 3) | ((byte & 0x40) >> 5) | ((byte & 0x80) >> 7)
}

/// One step of the polynomial division by `x^8 + x^5 + x^4 + 1`: the remainder `reg` takes in the
/// next bit of the message.
pub open spec fn divide_bit(reg: u8, bit: bool) -> u8 {
    if ((reg & 0x80) == 0x80) != bit {
        (reg << 1) ^ 0x31
    } else {
        reg << 1
    }
}

/// The remainder after the first `n` bits of `byte`, the least significant bit first.
pub open spec fn divide_bits(reg: u8, byte: u8, n: nat) -> u8
    decreases n,
{
    if n == 0 {
        reg
    } else {
        divide_bit(divide_bits(reg, byte, (n - 1) as nat), bit_of(byte, (n - 1) as nat))
    }
}

/// The remainder of a whole message, from the initial value zero.
pub open spec fn remainder(data: Seq<u8>) -> u8
    decreases data.len(),
{
    if data.len() == 0 {
        0
    } else {
        divide_bits(remainder(data.drop_last()), data.last(), 8)
    }
}

/// The CRC-8/MAXIM of a message: polynomial 0x31, initial value zero, bits reflected on the way in
/// and on the way out.
pub open spec fn crc8(data: Seq<u8>) -> u8 {
    reflect(remainder(data))
}

/// One step of the same division on the reflected remainder.
spec fn reflected_step(crc: u8) -> u8 {
    if crc & 1 == 1 {
        (crc >> 1) ^ 0x8C
    } else {
        crc >> 1
    }
}

spec fn reflected_steps(crc: u8, n: nat) -> u8
    decreases n,
{
    if n == 0 {
        crc
    } else {
        reflected_step(reflected_steps(crc, (n - 1) as nat))
    }
}

proof fn lemma_reflected_step(reg: u8, rest: u8)
    ensures
        reflected_step(reflect(reg) ^ rest) == reflect(divide_bit(reg, rest & 1 == 1)) ^ (rest
            >> 1),
{
    assert(reflected_step(reflect(reg) ^ rest) == reflect(divide_bit(reg, rest & 1 == 1)) ^ (rest
        >> 1)) by (bit_vector);
}

proof fn lemma_reflected_steps(reg: u8, byte: u8, n: nat)
    requires
        n <= 8,
    ensures
        reflected_steps(reflect(reg) ^ byte, n) == reflect(divide_bits(reg, byte, n)) ^ (byte >> (
        n as u8)),
    decreases n,
{
    if n == 0 {
        assert(byte >> 0u8 == byte) by (bit_vector);
    } else {
        let m = (n - 1) as nat;
        lemma_reflected_steps(reg, byte, m);
        lemma_reflected_step(divide_bits(reg, byte, m), byte >> (m as u8));
        let k = m as u8;
        let k1 = n as u8;
        assert((byte >> k) >> 1u8 == byte >> k1) by (bit_vector)
            requires
                k1 == k + 1,
                k1 <= 8,
        ;
    }
}

/// The checksum of a longer message from that of a shorter one.
proof fn lemma_crc8_push(data: Seq<u8>, byte: u8)
    ensures
        crc8(data.push(byte)) == reflected_steps(crc8(data) ^ byte, 8),
{
    assert(data.push(byte).drop_last() == data);
    lemma_reflected_steps(remainder(data), byte, 8);
    let crc = reflect(divide_bits(remainder(data), byte, 8));
    assert(crc ^ (byte >> 8u8) == crc) by (bit_vector);
}

/// Calculates the CRC-8/MAXIM checksum.
/// Polynomial 0x31, init 0x00, reflect in/out.
#[must_use]
pub fn crc8_maxim(data: &[u8]) -> (crc: u8)
    ensures
        crc == crc8(data@),
{
    let mut crc: u8 = 0x00;
    assert(reflect(0) == 0) by (bit_vector);
    for i in 0..data.len()
        invariant
            crc == crc8(data@.take(i as int)),
    {
        let byte: u8 = data[i];
        let ghost before = crc;
        assert(data@.take(i + 1) == data@.take(i as int).push(byte));
        proof {
            lemma_crc8_push(data@.take(i as int), byte);
        }
        crc ^= byte;
        for j in 0..8
            invariant
                crc == reflected_steps(before ^ byte, j as nat),
        {
            assert(crc & 1 == 0 || crc & 1 == 1) by (bit_vector);
            if (crc & 0x01) != 0 {
                crc = (crc >> 1) ^ 0x8C;
            } else {
                crc >>= 1;
            }
        }
    }
    assert(data@.take(data.len() as int) == data@);
    crc
}

proof fn lemma_reflected_steps_injective(a: u8, b: u8, n: nat)
    requires
        a != b,
    ensures
        reflected_steps(a, n) != reflected_steps(b, n),
    decreases n,
{
    if n > 0 {
        let m = (n - 1) as nat;
        lemma_reflected_steps_injective(a, b, m);
        let x = reflected_steps(a, m);
        let y = reflected_steps(b, m);
        assert(x != y ==> reflected_step(x) != reflected_step(y)) by (bit_vector);
    }
}

proof fn lemma_reflected_steps_xor(a: u8, b: u8, n: nat)
    ensures
        reflected_steps(a ^ b, n) == reflected_steps(a, n) ^ reflected_steps(b, n),
    decreases n,
{
    if n > 0 {
        let m = (n - 1) as nat;
        lemma_reflected_steps_xor(a, b, m);
        let x = reflected_steps(a, m);
        let y = reflected_steps(b, m);
        assert(reflected_step(x ^ y) == reflected_step(x) ^ reflected_step(y)) by (bit_vector);
    }
}

proof fn lemma_crc8_last(data: Seq<u8>)
    requires
        data.len() > 0,
    ensures
        crc8(data) == reflected_steps(crc8(data.drop_last()) ^ data.last(), 8),
{
    lemma_crc8_push(data.drop_last(), data.last());
    assert(data.drop_last().push(data.last()) == data);
}

/// A message that differs from another in exactly one byte has a different checksum, whatever
/// bits of that byte changed.
pub proof fn law_one_byte_change_is_detected(data: Seq<u8>, i: int, byte: u8)
    requires
        0 <= i < data.len(),
        byte != data[i],
    ensures
        crc8(data.update(i, byte)) != crc8(data),
    decreases data.len(),
{
    let changed = data.update(i, byte);
    lemma_crc8_last(data);
    lemma_crc8_last(changed);
    let x = crc8(data.drop_last());
    let y = crc8(changed.drop_last());
    let last = data.last();
    if i == data.len() - 1 {
        assert(changed.drop_last() == data.drop_last());
        assert(byte != last ==> x ^ byte != x ^ last) by (bit_vector);
        lemma_reflected_steps_injective(x ^ byte, x ^ last, 8);
    } else {
        assert(changed.drop_last() == data.drop_last().update(i, byte));
        law_one_byte_change_is_detected(data.drop_last(), i, byte);
        assert(x != y ==> x ^ last != y ^ last) by (bit_vector);
        lemma_reflected_steps_injective(y ^ last, x ^ last, 8);
    }
}

/// A message followed by its own checksum has the checksum zero.
pub proof fn law_checksum_cancels(data: Seq<u8>)
    ensures
        crc8(data.push(crc8(data))) == 0,
{
    let crc = crc8(data);
    lemma_crc8_push(data, crc);
    assert(crc ^ crc == 0) by (bit_vector);
    lemma_reflected_steps_xor(0, 0, 8);
    assert(0u8 ^ 0u8 == 0) by (bit_vector);
    let z = reflected_steps(0, 8);
    assert(z ^ z == 0) by (bit_vector);
}

/// The bytes of two equally long messages, combined by exclusive or.
pub open spec fn xor_bytes(a: Seq<u8>, b: Seq<u8>) -> Seq<u8> {
    Seq::new(a.len(), |i: int| a[i] ^ b[i])
}

/// The checksum of the difference of two messages is the difference of their checksums. Whether a
/// corruption goes unnoticed therefore depends on the flipped bits alone, never on the message.
pub proof fn law_checksum_is_linear(a: Seq<u8>, b: Seq<u8>)
    requires
        a.len() == b.len(),
    ensures
        crc8(xor_bytes(a, b)) == crc8(a) ^ crc8(b),
    decreases a.len(),
{
    let c = xor_bytes(a, b);
    if a.len() == 0 {
        assert(reflect(0) == 0) by (bit_vector);
        assert(0u8 ^ 0u8 == 0) by (bit_vector);
    } else {
        assert(c.drop_last() == xor_bytes(a.drop_last(), b.drop_last()));
        law_checksum_is_linear(a.drop_last(), b.drop_last());
        lemma_crc8_last(a);
        lemma_crc8_last(b);
        lemma_crc8_last(c);
        let x = crc8(a.drop_last());
        let y = crc8(b.drop_last());
        let p = a.last();
        let q = b.last();
        assert((x ^ y) ^ (p ^ q) == (x ^ p) ^ (y ^ q)) by (bit_vector);
        lemma_reflected_steps_xor(x ^ p, y ^ q, 8);
    }
}

/// Whether the changes in two neighbouring bytes lie within eight bits of each other on the wire,
/// where the least significant bit of a byte comes first: they leave alone the first `k` bits of
/// the earlier byte and all but the first `k` bits of the later one.
pub open spec fn is_short_burst(early: u8, late: u8, k: u8) -> bool {
    k < 8 && early & (0xFFu8 >> (8 - k) as u8) == 0 && late >> k == 0
}

proof fn lemma_short_burst(early: u8, late: u8, k: u8)
    requires
        is_short_burst(early, late, k),
        early != 0 || late != 0,
    ensures
        reflected_steps(early, 8) != late,
{
    let m = (8 - k) as u8;
    assert(reflected_step(
        reflected_step(
            reflected_step(
                reflected_step(
                    reflected_step(reflected_step(reflected_step(reflected_step(early)))),
                ),
            ),
        ),
    ) != late) by (bit_vector)
        requires
            k < 8,
            m == 8 - k,
            early & (0xFFu8 >> m) == 0,
            late >> k == 0,
            early != 0 || late != 0,
    ;
    reveal_with_fuel(reflected_steps, 9);
}

proof fn lemma_crc8_difference(a: Seq<u8>, b: Seq<u8>, tail: Seq<u8>)
    requires
        crc8(a) != crc8(b),
    ensures
        crc8(a + tail) != crc8(b + tail),
    decreases tail.len(),
{
    if tail.len() == 0 {
        assert(a + tail == a && b + tail == b);
    } else {
        let last = tail.last();
        lemma_crc8_difference(a, b, tail.drop_last());
        lemma_crc8_last(a + tail);
        lemma_crc8_last(b + tail);
        assert((a + tail).drop_last() == a + tail.drop_last());
        assert((b + tail).drop_last() == b + tail.drop_last());
        let x = crc8(a + tail.drop_last());
        let y = crc8(b + tail.drop_last());
        assert(x != y ==> x ^ last != y ^ last) by (bit_vector);
        lemma_reflected_steps_injective(x ^ last, y ^ last, 8);
    }
}

/// A burst of flipped bits that spans at most eight bits on the wire changes the checksum, also
/// where it runs across the border of two bytes.
pub proof fn law_short_burst_is_detected(data: Seq<u8>, i: int, early: u8, late: u8, k: u8)
    requires
        0 <= i < data.len() - 1,
        is_short_burst(early, late, k),
        early != 0 || late != 0,
    ensures
        crc8(data.update(i, data[i] ^ early).update(i + 1, data[i + 1] ^ late)) != crc8(data),
{
    let head = data.take(i);
    let tail = data.skip(i + 2);
    let p = data[i];
    let q = data[i + 1];
    let x = crc8(head);
    let changed = data.update(i, p ^ early).update(i + 1, q ^ late);
    let a = head.push(p).push(q);
    let b = head.push(p ^ early).push(q ^ late);
    lemma_crc8_push(head, p);
    lemma_crc8_push(head, p ^ early);
    lemma_crc8_push(head.push(p), q);
    lemma_crc8_push(head.push(p ^ early), q ^ late);
    lemma_reflected_steps_xor(x ^ p, early, 8);
    assert((x ^ p) ^ early == x ^ (p ^ early)) by (bit_vector);
    lemma_short_burst(early, late, k);
    let y = crc8(head.push(p));
    let t = reflected_steps(early, 8);
    assert(t != late ==> y ^ q != (y ^ t) ^ (q ^ late)) by (bit_vector);
    lemma_reflected_steps_injective(y ^ q, (y ^ t) ^ (q ^ late), 8);
    lemma_crc8_difference(b, a, tail);
    assert(a + tail == data);
    assert(b + tail == changed);
}

/// A message is taken in byte by byte: all that counts of the bytes before is their checksum, which
/// is combined with the next byte.
pub proof fn law_checksum_chains(data: Seq<u8>, byte: u8)
    ensures
        crc8(Seq::empty()) == 0,
        crc8(data.push(byte)) == crc8(seq![crc8(data) ^ byte]),
{
    let next = crc8(data) ^ byte;
    assert(reflect(0) == 0) by (bit_vector);
    assert(0u8 ^ next == next) by (bit_vector);
    lemma_crc8_push(data, byte);
    lemma_crc8_push(Seq::empty(), next);
    assert(Seq::<u8>::empty().push(next) == seq![next]);
}

/// The checksum of a byte is put together from those of its bits, which are the remainders that
/// the polynomial 0x31 leaves of the powers from `x^15` down to `x^8`, least significant bit of the
/// byte first, with the bits of each remainder in the opposite order.
pub proof fn law_checksum_of_a_byte(byte: u8)
    ensures
        crc8(seq![byte]) == (if byte & 0x01 != 0 {
            0x5Eu8
        } else {
            0
        }) ^ (if byte & 0x02 != 0 {
            0xBCu8
        } else {
            0
        }) ^ (if byte & 0x04 != 0 {
            0x61u8
        } else {
            0
        }) ^ (if byte & 0x08 != 0 {
            0xC2u8
        } else {
            0
        }) ^ (if byte & 0x10 != 0 {
            0x9Du8
        } else {
            0
        }) ^ (if byte & 0x20 != 0 {
            0x23u8
        } else {
            0
        }) ^ (if byte & 0x40 != 0 {
            0x46u8
        } else {
            0
        }) ^ (if byte & 0x80 != 0 {
            0x8Cu8
        } else {
            0
        }),
{
    lemma_crc8_push(Seq::empty(), byte);
    assert(Seq::<u8>::empty().push(byte) == seq![byte]);
    assert(reflect(0) ^ byte == byte) by (bit_vector);
    assert(reflected_step(
        reflected_step(
            reflected_step(
                reflected_step(
                    reflected_step(reflected_step(reflected_step(reflected_step(byte)))),
                ),
            ),
        ),
    ) == (if byte & 0x01 != 0 {
        0x5Eu8
    } else {
        0
    }) ^ (if byte & 0x02 != 0 {
        0xBCu8
    } else {
        0
    }) ^ (if byte & 0x04 != 0 {
        0x61u8
    } else {
        0
    }) ^ (if byte & 0x08 != 0 {
        0xC2u8
    } else {
        0
    }) ^ (if byte & 0x10 != 0 {
        0x9Du8
    } else {
        0
    }) ^ (if byte & 0x20 != 0 {
        0x23u8
    } else {
        0
    }) ^ (if byte & 0x40 != 0 {
        0x46u8
    } else {
        0
    }) ^ (if byte & 0x80 != 0 {
        0x8Cu8
    } else {
        0
    })) by (bit_vector);
    reveal_with_fuel(reflected_steps, 9);
}

} // verus!
