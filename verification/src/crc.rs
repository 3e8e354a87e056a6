//! Modbus-RTU CRC-16 and the two-byte trailer that carries it.
//!
//! The register starts at `0xFFFF`. Each byte is XORed into its low half and
//! the register is then shifted right eight times, XORing `0xA001` into it
//! whenever a one falls out. A frame ends in the register's low byte followed
//! by its high byte.

use vstd::prelude::*;

verus! {

/// One shift of the register.
pub open spec fn crc_shift(crc: u16) -> u16 {
    if crc & 1 != 0 {
        (crc >> 1) ^ 0xA001
    } else {
        crc >> 1
    }
}

/// `n` shifts of the register.
pub open spec fn crc_shift_n(crc: u16, n: nat) -> u16
    decreases n,
{
    if n == 0 {
        crc
    } else {
        crc_shift(crc_shift_n(crc, (n - 1) as nat))
    }
}

/// The register after one more byte.
pub open spec fn crc_update(crc: u16, byte: u8) -> u16 {
    crc_shift_n(crc ^ (byte as u16), 8)
}

/// The CRC of a sequence of bytes.
pub open spec fn crc16_spec(data: Seq<u8>) -> u16
    decreases data.len(),
{
    if data.len() == 0 {
        0xFFFF
    } else {
        crc_update(crc16_spec(data.drop_last()), data.last())
    }
}

/// First trailer byte of a CRC: its low half.
pub open spec fn crc_lo(crc: u16) -> u8 {
    (crc % 256) as u8
}

/// Second trailer byte of a CRC: its high half.
pub open spec fn crc_hi(crc: u16) -> u8 {
    (crc / 256) as u8
}

/// A frame body followed by the trailer that belongs to it.
pub open spec fn with_crc(body: Seq<u8>) -> Seq<u8> {
    body.push(crc_lo(crc16_spec(body))).push(crc_hi(crc16_spec(body)))
}

/// Whether the last two bytes of a frame are the CRC of what stands before them.
pub open spec fn crc_ok(frame: Seq<u8>) -> bool {
    &&& frame.len() >= 2
    &&& frame[frame.len() - 2] + 256 * frame[frame.len() - 1] == crc16_spec(
        frame.take(frame.len() - 2),
    )
}

/// Computes the CRC of `data`.
pub fn crc16(data: &[u8]) -> (crc: u16)
    ensures
        crc == crc16_spec(data@),
{
    let mut crc: u16 = 0xFFFF;
    let mut i: usize = 0;
    while i < data.len()
        invariant
            i <= data.len(),
            crc == crc16_spec(data@.take(i as int)),
        decreases data.len() - i,
    {
        let ghost start: u16 = crc ^ (data[i as int] as u16);
        crc ^= data[i] as u16;
        let mut bit: u8 = 0;
        while bit < 8
            invariant
                bit <= 8,
                crc == crc_shift_n(start, bit as nat),
            decreases 8 - bit,
        {
            if (crc & 1) != 0 {
                crc >>= 1;
                crc ^= 0xA001;
            } else {
                crc >>= 1;
            }
            bit += 1;
        }
        assert(data@.take(i + 1).drop_last() == data@.take(i as int));
        i += 1;
    }
    assert(data@.take(data@.len() as int) == data@);
    crc
}

/// Tells whether `frame` ends in the CRC of what stands before its last two
/// bytes. A frame shorter than a trailer does not.
pub fn crc_matches(frame: &[u8]) -> (ok: bool)
    ensures
        ok == crc_ok(frame@),
{
    let len = frame.len();
    if len < 2 {
        return false;
    }
    let lo = frame[len - 2];
    let hi = frame[len - 1];
    let received: u16 = (lo as u16) | ((hi as u16) << 8);
    assert(received == lo + 256 * hi) by (bit_vector)
        requires
            received == (lo as u16) | ((hi as u16) << 8),
    ;
    let computed = crc16(&frame[0..len - 2]);
    received == computed
}

/// Writes the trailer for `buf[..len]` into `buf[len]` and `buf[len + 1]` and
/// returns the length of the frame with its trailer.
pub fn append_crc(buf: &mut [u8], len: usize) -> (total: usize)
    requires
        len + 2 <= old(buf)@.len(),
    ensures
        total == len + 2,
        final(buf)@.len() == old(buf)@.len(),
        final(buf)@.take(total as int) == with_crc(old(buf)@.take(len as int)),
        final(buf)@.skip(total as int) == old(buf)@.skip(total as int),
{
    let crc = crc16(&buf[0..len]);
    let lo: u8 = (crc & 0xFF) as u8;
    let hi: u8 = (crc >> 8) as u8;
    assert(lo == crc_lo(crc) && hi == crc_hi(crc)) by (bit_vector)
        requires
            lo == (crc & 0xFF) as u8,
            hi == (crc >> 8) as u8,
    ;
    buf[len] = lo;
    buf[len + 1] = hi;
    len + 2
}

/// A trailer that was appended is found valid.
pub proof fn lemma_crc_round_trip(body: Seq<u8>)
    ensures
        crc_ok(with_crc(body)),
{
    let frame = with_crc(body);
    assert(frame.take(frame.len() - 2) == body);
}

/// Two registers that differ still differ after a shift.
proof fn lemma_shift_injective(a: u16, b: u16)
    requires
        a != b,
    ensures
        crc_shift(a) != crc_shift(b),
{
    assert(a != b ==> (if a & 1 != 0 {
        (a >> 1) ^ 0xA001u16
    } else {
        a >> 1
    }) != (if b & 1 != 0 {
        (b >> 1) ^ 0xA001u16
    } else {
        b >> 1
    })) by (bit_vector);
}

/// Two registers that differ still differ after any number of shifts.
proof fn lemma_shift_n_injective(a: u16, b: u16, n: nat)
    requires
        a != b,
    ensures
        crc_shift_n(a, n) != crc_shift_n(b, n),
    decreases n,
{
    if n > 0 {
        lemma_shift_n_injective(a, b, (n - 1) as nat);
        lemma_shift_injective(crc_shift_n(a, (n - 1) as nat), crc_shift_n(b, (n - 1) as nat));
    }
}

/// Feeding a byte into the register loses nothing: a different register or a
/// different byte gives a different register.
proof fn lemma_update_injective(c1: u16, b1: u8, c2: u16, b2: u8)
    requires
        (c1 != c2 && b1 == b2) || (c1 == c2 && b1 != b2),
    ensures
        crc_update(c1, b1) != crc_update(c2, b2),
{
    assert(((c1 != c2 && b1 == b2) || (c1 == c2 && b1 != b2)) ==> c1 ^ (b1 as u16) != c2 ^ (b2
        as u16)) by (bit_vector);
    lemma_shift_n_injective(c1 ^ (b1 as u16), c2 ^ (b2 as u16), 8);
}

/// Two byte strings of one length that differ in exactly one place have
/// different CRCs.
pub proof fn lemma_crc_detects_one_byte(a: Seq<u8>, b: Seq<u8>, index: int)
    requires
        a.len() == b.len(),
        0 <= index < a.len(),
        a[index] != b[index],
        forall|j: int| 0 <= j < a.len() && j != index ==> a[j] == b[j],
    ensures
        crc16_spec(a) != crc16_spec(b),
    decreases a.len(),
{
    if index == a.len() - 1 {
        assert(a.drop_last() == b.drop_last());
    } else {
        lemma_crc_detects_one_byte(a.drop_last(), b.drop_last(), index);
    }
    lemma_update_injective(
        crc16_spec(a.drop_last()),
        a.last(),
        crc16_spec(b.drop_last()),
        b.last(),
    );
}

/// A valid frame in which any one byte, of the body or of the trailer, is
/// replaced by another value is no longer valid.
pub proof fn lemma_crc_detects_byte_change(frame: Seq<u8>, index: int, value: u8)
    requires
        crc_ok(frame),
        0 <= index < frame.len(),
        value != frame[index],
    ensures
        !crc_ok(frame.update(index, value)),
{
    let changed = frame.update(index, value);
    let body_len = frame.len() - 2;
    if index < body_len {
        lemma_crc_detects_one_byte(frame.take(body_len), changed.take(body_len), index);
    } else {
        assert(changed.take(body_len) == frame.take(body_len));
    }
}

/// A frame made of a body and its trailer in which any single bit is flipped,
/// in the body or in the trailer, is no longer valid.
pub proof fn lemma_crc_detects_bit_flip(body: Seq<u8>, index: int, bit: u8)
    requires
        0 <= index < body.len() + 2,
        bit < 8,
    ensures
        !crc_ok(with_crc(body).update(index, with_crc(body)[index] ^ (1u8 << bit))),
{
    let frame = with_crc(body);
    let byte = frame[index];
    lemma_crc_round_trip(body);
    assert(bit < 8 ==> byte ^ (1u8 << bit) != byte) by (bit_vector);
    lemma_crc_detects_byte_change(frame, index, byte ^ (1u8 << bit));
}

} // verus!
