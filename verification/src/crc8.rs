//! CRC-8 validator over the sensor's frames: polynomial `0x31`
//! (x^8 + x^5 + x^4 + 1), most-significant bit first, initial value `0xFF`,
//! no final XOR — the algorithm the sensor vendor publishes for its frames.
//!
//! A pure function of the input bytes: identical input always yields
//! identical output, which is what lets it serve as a correctness gate.

use vstd::prelude::*;

verus! {

/// Initial checksum register value.
pub const CRC8_INIT: u8 = 0xFF;

/// The generator polynomial, most-significant bit first.
pub const CRC8_POLY: u8 = 0x31;

/// One shift step of the checksum register.
pub open spec fn crc8_bit(c: u8) -> u8 {
    if c & 0x80 != 0 {
        (c << 1) ^ CRC8_POLY
    } else {
        c << 1
    }
}

/// Folding one input byte into the checksum register: XOR it in, then run
/// the eight shift steps.
pub open spec fn crc8_byte(c: u8, b: u8) -> u8 {
    crc8_bit(crc8_bit(crc8_bit(crc8_bit(crc8_bit(crc8_bit(crc8_bit(crc8_bit(c ^ b))))))))
}

/// The checksum register after starting from `c` and folding in every byte
/// of `s`, front to back.
pub open spec fn crc8_from(c: u8, s: Seq<u8>) -> u8
    decreases s.len(),
{
    if s.len() == 0 {
        c
    } else {
        crc8_from(crc8_byte(c, s[0]), s.subrange(1, s.len() as int))
    }
}

/// The CRC-8 of a byte sequence.
pub open spec fn crc8_spec(s: Seq<u8>) -> u8 {
    crc8_from(CRC8_INIT, s)
}

/// Whether a sequence that carries its checksum as its trailing byte is
/// consistent: the CRC-8 of everything before the last byte equals the last
/// byte.
pub open spec fn crc8_valid(s: Seq<u8>) -> bool
    recommends
        s.len() >= 1,
{
    crc8_spec(s.drop_last()) == s.last()
}

/// One exec shift step of the checksum register.
fn crc8_bit_step(c: u8) -> (r: u8)
    ensures
        r == crc8_bit(c),
{
    if c & 0x80 != 0 {
        (c << 1u8) ^ CRC8_POLY
    } else {
        c << 1u8
    }
}

/// Folds one byte into the checksum register.
fn crc8_byte_step(c: u8, b: u8) -> (r: u8)
    ensures
        r == crc8_byte(c, b),
{
    let x0 = c ^ b;
    let x1 = crc8_bit_step(x0);
    let x2 = crc8_bit_step(x1);
    let x3 = crc8_bit_step(x2);
    let x4 = crc8_bit_step(x3);
    let x5 = crc8_bit_step(x4);
    let x6 = crc8_bit_step(x5);
    let x7 = crc8_bit_step(x6);
    crc8_bit_step(x7)
}

/// Computes the CRC-8 of `bytes`.
pub fn compute_crc8(bytes: &Vec<u8>) -> (r: u8)
    ensures
        r == crc8_spec(bytes@),
{
    let mut crc: u8 = CRC8_INIT;
    let mut k: usize = 0;
    proof {
        assert(bytes@.subrange(0, bytes@.len() as int) =~= bytes@);
    }
    while k < bytes.len()
        invariant
            0 <= k <= bytes@.len(),
            crc8_from(crc, bytes@.subrange(k as int, bytes@.len() as int)) == crc8_spec(bytes@),
        decreases bytes@.len() - k,
    {
        proof {
            let rest = bytes@.subrange(k as int, bytes@.len() as int);
            assert(rest.subrange(1, rest.len() as int) =~= bytes@.subrange(
                k as int + 1,
                bytes@.len() as int,
            ));
        }
        crc = crc8_byte_step(crc, bytes[k]);
        k = k + 1;
    }
    proof {
        assert(bytes@.subrange(k as int, bytes@.len() as int) =~= Seq::<u8>::empty());
    }
    crc
}

/// Recomputes the CRC-8 over all bytes but the last and compares it against
/// the last byte: true exactly when the trailing checksum is consistent with
/// the payload.
pub fn is_valid(bytes: &Vec<u8>) -> (r: bool)
    requires
        bytes@.len() >= 1,
    ensures
        r == crc8_valid(bytes@),
{
    let mut payload: Vec<u8> = Vec::new();
    let mut k: usize = 0;
    while k < bytes.len() - 1
        invariant
            bytes@.len() >= 1,
            0 <= k <= bytes@.len() - 1,
            payload@ == bytes@.subrange(0, k as int),
        decreases bytes@.len() - 1 - k,
    {
        payload.push(bytes[k]);
        proof {
            assert(payload@ =~= bytes@.subrange(0, k + 1));
        }
        k = k + 1;
    }
    proof {
        assert(payload@ =~= bytes@.drop_last());
    }
    let crc = compute_crc8(&payload);
    crc == bytes[bytes.len() - 1]
}

/// Distinct register states stay distinct under the eight shift steps of one
/// byte, and distinct bytes folded into one state give distinct states.
proof fn lemma_crc8_byte_injective()
    ensures
        forall|a: u8, b: u8, x: u8|
            #![trigger crc8_byte(a, x), crc8_byte(b, x)]
            a != b ==> crc8_byte(a, x) != crc8_byte(b, x),
        forall|c: u8, x: u8, y: u8|
            #![trigger crc8_byte(c, x), crc8_byte(c, y)]
            x != y ==> crc8_byte(c, x) != crc8_byte(c, y),
{
    assert(forall|a: u8, b: u8, x: u8|
        #![trigger crc8_byte(a, x), crc8_byte(b, x)]
        a != b ==> crc8_byte(a, x) != crc8_byte(b, x)) by (bit_vector);
    assert(forall|c: u8, x: u8, y: u8|
        #![trigger crc8_byte(c, x), crc8_byte(c, y)]
        x != y ==> crc8_byte(c, x) != crc8_byte(c, y)) by (bit_vector);
}

/// Distinct register states stay distinct under folding in any common byte
/// sequence.
proof fn lemma_crc8_from_injective(a: u8, b: u8, s: Seq<u8>)
    requires
        a != b,
    ensures
        crc8_from(a, s) != crc8_from(b, s),
    decreases s.len(),
{
    if s.len() > 0 {
        lemma_crc8_byte_injective();
        lemma_crc8_from_injective(
            crc8_byte(a, s[0]),
            crc8_byte(b, s[0]),
            s.subrange(1, s.len() as int),
        );
    }
}

/// Corrupting one byte of the input — XOR with any nonzero pattern, so in
/// particular flipping any single bit — always changes the CRC-8.
pub proof fn lemma_crc8_detects_byte_corruption(s: Seq<u8>, k: int, mask: u8)
    requires
        0 <= k < s.len(),
        mask != 0,
    ensures
        crc8_spec(s.update(k, s[k] ^ mask)) != crc8_spec(s),
{
    lemma_crc8_flip_from(CRC8_INIT, s, k, mask);
}

/// Helper for [`lemma_crc8_detects_byte_corruption`], generalized over the
/// starting register state so that induction over the leading bytes goes
/// through.
proof fn lemma_crc8_flip_from(c: u8, s: Seq<u8>, k: int, mask: u8)
    requires
        0 <= k < s.len(),
        mask != 0,
    ensures
        crc8_from(c, s.update(k, s[k] ^ mask)) != crc8_from(c, s),
    decreases k,
{
    let t = s.update(k, s[k] ^ mask);
    let tail_s = s.subrange(1, s.len() as int);
    let tail_t = t.subrange(1, t.len() as int);
    if k == 0 {
        assert(tail_t =~= tail_s);
        let s0 = s[0];
        assert(s0 ^ mask != s0) by (bit_vector)
            requires
                mask != 0u8,
        ;
        lemma_crc8_byte_injective();
        lemma_crc8_from_injective(crc8_byte(c, s[0] ^ mask), crc8_byte(c, s[0]), tail_s);
    } else {
        assert(tail_t =~= tail_s.update(k - 1, tail_s[k - 1] ^ mask));
        lemma_crc8_flip_from(crc8_byte(c, s[0]), tail_s, k - 1, mask);
    }
}

/// A consistent frame stops being consistent when any payload byte is
/// corrupted: flipping bits in any byte before the trailing checksum makes
/// validation fail.
pub proof fn lemma_payload_corruption_invalidates(s: Seq<u8>, k: int, mask: u8)
    requires
        s.len() >= 1,
        0 <= k < s.len() - 1,
        mask != 0,
        crc8_valid(s),
    ensures
        !crc8_valid(s.update(k, s[k] ^ mask)),
{
    let t = s.update(k, s[k] ^ mask);
    assert(t.drop_last() =~= s.drop_last().update(k, s.drop_last()[k] ^ mask));
    lemma_crc8_detects_byte_corruption(s.drop_last(), k, mask);
    assert(t.last() == s.last());
}

} // verus!
