//! Layout of the frames on the bus.
//!
//! Two requests are understood. "Write multiple registers" (`0x10`):
//!
//! `[addr, 0x10, start_hi, start_lo, qty_hi, qty_lo, byte_count, data.., crc_lo, crc_hi]`
//!
//! and "read/write multiple registers" (`0x17`):
//!
//! `[addr, 0x17, rd_start_hi, rd_start_lo, rd_qty_hi, rd_qty_lo, wr_start_hi, wr_start_lo,
//!   wr_qty_hi, wr_qty_lo, wr_byte_count, wr_data.., crc_lo, crc_hi]`
//!
//! which is answered by
//!
//! `[addr, 0x17, byte_count, rd_data.., crc_lo, crc_hi]`.
//!
//! Registers are 16 bits wide and travel high byte first.

use vstd::prelude::*;
use crate::crc::{append_crc, crc_ok, lemma_crc_round_trip, with_crc};
use crate::registers::{FUNC_READ_WRITE_MULTIPLE_REGISTERS, FUNC_WRITE_MULTIPLE_REGISTERS};

verus! {

/// How many written registers a decoded request holds at most.
pub const MAX_WRITE_REGS: usize = 16;

/// Shortest "write multiple registers" request: header and trailer.
pub const WRITE_OVERHEAD: usize = 9;

/// Shortest "read/write multiple registers" request: header and trailer.
pub const READ_WRITE_OVERHEAD: usize = 13;

/// Bytes of a response besides its registers: header and trailer.
pub const RESPONSE_OVERHEAD: usize = 5;

/// The word with high byte `hi` and low byte `lo`.
pub open spec fn word_of(hi: u8, lo: u8) -> u16 {
    (hi * 256 + lo) as u16
}

/// High byte of a word.
pub open spec fn hi_byte(word: u16) -> u8 {
    (word / 256) as u8
}

/// Low byte of a word.
pub open spec fn lo_byte(word: u16) -> u8 {
    (word % 256) as u8
}

/// The word that stands at `bytes[at]` and `bytes[at + 1]`.
pub open spec fn word_at(bytes: Seq<u8>, at: int) -> u16 {
    word_of(bytes[at], bytes[at + 1])
}

/// Registers as they travel: two bytes each, high byte first.
pub open spec fn regs_to_bytes(regs: Seq<u16>) -> Seq<u8> {
    Seq::new(
        2 * regs.len(),
        |i: int|
            if i % 2 == 0 {
                hi_byte(regs[i / 2])
            } else {
                lo_byte(regs[i / 2])
            },
    )
}

/// The sixteen registers a decoder materialises from a payload of
/// `byte_count` bytes that starts at `frame[at]`: every register the payload
/// holds in full, as far as there is room, and zero after them.
pub open spec fn materialized(frame: Seq<u8>, at: int, byte_count: int) -> Seq<u16> {
    Seq::new(
        16,
        |i: int|
            if i < byte_count / 2 {
                word_at(frame, at + 2 * i)
            } else {
                0u16
            },
    )
}

/// How many registers of a request reach its handler: those it announces, but
/// no more than are materialised.
pub open spec fn seen_count(quantity: u16) -> int {
    if quantity < 16 {
        quantity as int
    } else {
        16
    }
}

/// Whether a `0x10` request is long enough for its header, the payload it
/// declares and the trailer.
pub open spec fn write_payload_fits(frame: Seq<u8>) -> bool {
    frame.len() >= 9 && frame.len() >= 9 + frame[6]
}

/// Whether a `0x17` request is long enough for its header, the payload it
/// declares and the trailer.
pub open spec fn read_write_payload_fits(frame: Seq<u8>) -> bool {
    frame.len() >= 13 && frame.len() >= 13 + frame[10]
}

/// Body of a `0x10` request that writes `regs` from register `start` on.
pub open spec fn write_body(address: u8, start: u16, regs: Seq<u16>) -> Seq<u8> {
    seq![
        address,
        0x10u8,
        hi_byte(start),
        lo_byte(start),
        hi_byte(regs.len() as u16),
        lo_byte(regs.len() as u16),
        (2 * regs.len()) as u8,
    ] + regs_to_bytes(regs)
}

/// A `0x10` request that writes `regs` from register `start` on.
pub open spec fn write_frame(address: u8, start: u16, regs: Seq<u16>) -> Seq<u8> {
    with_crc(write_body(address, start, regs))
}

/// Body of a `0x17` request that reads `read_quantity` registers from
/// `read_start` on and writes `regs` from `write_start` on.
pub open spec fn read_write_body(
    address: u8,
    read_start: u16,
    read_quantity: u16,
    write_start: u16,
    regs: Seq<u16>,
) -> Seq<u8> {
    seq![
        address,
        0x17u8,
        hi_byte(read_start),
        lo_byte(read_start),
        hi_byte(read_quantity),
        lo_byte(read_quantity),
        hi_byte(write_start),
        lo_byte(write_start),
        hi_byte(regs.len() as u16),
        lo_byte(regs.len() as u16),
        (2 * regs.len()) as u8,
    ] + regs_to_bytes(regs)
}

/// A `0x17` request that reads `read_quantity` registers from `read_start` on
/// and writes `regs` from `write_start` on.
pub open spec fn read_write_frame(
    address: u8,
    read_start: u16,
    read_quantity: u16,
    write_start: u16,
    regs: Seq<u16>,
) -> Seq<u8> {
    with_crc(read_write_body(address, read_start, read_quantity, write_start, regs))
}

/// Body of the response that carries `regs`.
pub open spec fn response_body(address: u8, regs: Seq<u16>) -> Seq<u8> {
    seq![address, 0x17u8, (2 * regs.len()) as u8] + regs_to_bytes(regs)
}

/// The response that carries `regs`.
pub open spec fn response_frame(address: u8, regs: Seq<u16>) -> Seq<u8> {
    with_crc(response_body(address, regs))
}

/// A decoded "write multiple registers" request.
pub struct WriteRequest {
    pub address: u8,
    pub start: u16,
    pub quantity: u16,
    pub byte_count: u8,
    /// The registers of the payload, zero where it holds none.
    pub regs: [u16; 16],
}

/// A decoded "read/write multiple registers" request.
pub struct ReadWriteRequest {
    pub address: u8,
    pub read_start: u16,
    pub read_quantity: u16,
    pub write_start: u16,
    pub write_quantity: u16,
    pub byte_count: u8,
    /// The registers of the payload, zero where it holds none.
    pub regs: [u16; 16],
}

impl WriteRequest {
    /// Holds where `self` is what `frame` says.
    pub open spec fn decodes(self, frame: Seq<u8>) -> bool {
        &&& self.address == frame[0]
        &&& self.start == word_at(frame, 2)
        &&& self.quantity == word_at(frame, 4)
        &&& self.byte_count == frame[6]
        &&& self.regs@ == materialized(frame, 7, frame[6] as int)
    }

    /// The registers that reach the handler.
    pub open spec fn seen(self) -> Seq<u16> {
        self.regs@.take(seen_count(self.quantity))
    }

    /// The frame that says what `self` holds.
    pub open spec fn encoding(self) -> Seq<u8> {
        write_frame(self.address, self.start, self.seen())
    }

    /// Number of registers that reach the handler.
    pub fn seen_len(&self) -> (n: usize)
        ensures
            n == seen_count(self.quantity),
            n <= MAX_WRITE_REGS,
    {
        if self.quantity < 16 {
            self.quantity as usize
        } else {
            MAX_WRITE_REGS
        }
    }
}

impl ReadWriteRequest {
    /// Holds where `self` is what `frame` says.
    pub open spec fn decodes(self, frame: Seq<u8>) -> bool {
        &&& self.address == frame[0]
        &&& self.read_start == word_at(frame, 2)
        &&& self.read_quantity == word_at(frame, 4)
        &&& self.write_start == word_at(frame, 6)
        &&& self.write_quantity == word_at(frame, 8)
        &&& self.byte_count == frame[10]
        &&& self.regs@ == materialized(frame, 11, frame[10] as int)
    }

    /// The written registers that reach the handler.
    pub open spec fn seen(self) -> Seq<u16> {
        self.regs@.take(seen_count(self.write_quantity))
    }

    /// The frame that says what `self` holds.
    pub open spec fn encoding(self) -> Seq<u8> {
        read_write_frame(
            self.address,
            self.read_start,
            self.read_quantity,
            self.write_start,
            self.seen(),
        )
    }

    /// Number of written registers that reach the handler.
    pub fn seen_len(&self) -> (n: usize)
        ensures
            n == seen_count(self.write_quantity),
            n <= MAX_WRITE_REGS,
    {
        if self.write_quantity < 16 {
            self.write_quantity as usize
        } else {
            MAX_WRITE_REGS
        }
    }
}

/// Puts a high and a low byte together.
pub fn make_word(hi: u8, lo: u8) -> (word: u16)
    ensures
        word == word_of(hi, lo),
        word == hi * 256 + lo,
{
    let word: u16 = ((hi as u16) << 8) | (lo as u16);
    assert(word == hi * 256 + lo) by (bit_vector)
        requires
            word == ((hi as u16) << 8) | (lo as u16),
    ;
    word
}

/// High byte of a word.
pub fn high_byte(word: u16) -> (hi: u8)
    ensures
        hi == hi_byte(word),
{
    let hi: u8 = (word >> 8) as u8;
    assert(hi == (word / 256) as u8) by (bit_vector)
        requires
            hi == (word >> 8) as u8,
    ;
    hi
}

/// Low byte of a word.
pub fn low_byte(word: u16) -> (lo: u8)
    ensures
        lo == lo_byte(word),
{
    let lo: u8 = (word & 0xFF) as u8;
    assert(lo == (word % 256) as u8) by (bit_vector)
        requires
            lo == (word & 0xFF) as u8,
    ;
    lo
}

/// Materialises the registers of a payload of `byte_count` bytes that starts
/// at `frame[at]`.
pub fn read_registers(frame: &[u8], at: usize, byte_count: usize) -> (regs: [u16; 16])
    requires
        at + byte_count <= frame.len(),
    ensures
        regs@ == materialized(frame@, at as int, byte_count as int),
{
    let mut regs = [0u16; 16];
    let count: usize = if byte_count / 2 < MAX_WRITE_REGS {
        byte_count / 2
    } else {
        MAX_WRITE_REGS
    };
    let mut i: usize = 0;
    while i < count
        invariant
            i <= count <= 16,
            count <= byte_count / 2,
            at + byte_count <= frame.len(),
            forall|j: int|
                0 <= j < 16 ==> regs@[j] == if j < i {
                    word_at(frame@, at + 2 * j)
                } else {
                    0u16
                },
        decreases count - i,
    {
        regs[i] = make_word(frame[at + i * 2], frame[at + 1 + i * 2]);
        i += 1;
    }
    regs
}

/// Decodes a `0x10` request. The function code, the address and the trailer
/// are not looked at.
pub fn decode_write(frame: &[u8]) -> (decoded: Option<WriteRequest>)
    ensures
        decoded is Some <==> write_payload_fits(frame@),
        decoded matches Some(request) ==> request.decodes(frame@),
{
    if frame.len() < WRITE_OVERHEAD {
        return None;
    }
    let byte_count = frame[6];
    if frame.len() < WRITE_OVERHEAD + byte_count as usize {
        return None;
    }
    Some(
        WriteRequest {
            address: frame[0],
            start: make_word(frame[2], frame[3]),
            quantity: make_word(frame[4], frame[5]),
            byte_count,
            regs: read_registers(frame, 7, byte_count as usize),
        },
    )
}

/// Decodes a `0x17` request. The function code, the address and the trailer
/// are not looked at.
pub fn decode_read_write(frame: &[u8]) -> (decoded: Option<ReadWriteRequest>)
    ensures
        decoded is Some <==> read_write_payload_fits(frame@),
        decoded matches Some(request) ==> request.decodes(frame@),
{
    if frame.len() < READ_WRITE_OVERHEAD {
        return None;
    }
    let byte_count = frame[10];
    if frame.len() < READ_WRITE_OVERHEAD + byte_count as usize {
        return None;
    }
    Some(
        ReadWriteRequest {
            address: frame[0],
            read_start: make_word(frame[2], frame[3]),
            read_quantity: make_word(frame[4], frame[5]),
            write_start: make_word(frame[6], frame[7]),
            write_quantity: make_word(frame[8], frame[9]),
            byte_count,
            regs: read_registers(frame, 11, byte_count as usize),
        },
    )
}

/// Writes `regs` into `buf` from `buf[at]` on, high byte first, and leaves the
/// rest of `buf` as it was.
pub fn write_registers(buf: &mut [u8], at: usize, regs: &[u16])
    requires
        at + 2 * regs.len() <= old(buf).len(),
    ensures
        final(buf)@.len() == old(buf)@.len(),
        final(buf)@.take(at as int) == old(buf)@.take(at as int),
        final(buf)@.subrange(at as int, at + 2 * regs@.len()) == regs_to_bytes(regs@),
        final(buf)@.skip(at + 2 * regs@.len()) == old(buf)@.skip(at + 2 * regs@.len()),
{
    let mut i: usize = 0;
    while i < regs.len()
        invariant
            i <= regs@.len(),
            buf@.len() == old(buf)@.len(),
            at + 2 * regs.len() <= buf.len(),
            forall|j: int| 0 <= j < at ==> buf@[j] == old(buf)@[j],
            forall|j: int| at + 2 * regs@.len() <= j < buf@.len() ==> buf@[j] == old(buf)@[j],
            forall|j: int| 0 <= j < 2 * i ==> buf@[at + j] == regs_to_bytes(regs@)[j],
        decreases regs@.len() - i,
    {
        buf[at + i * 2] = high_byte(regs[i]);
        buf[at + 1 + i * 2] = low_byte(regs[i]);
        i += 1;
    }
}

/// Completes a frame whose header stands in the first `header_len` bytes of
/// `buf`: writes `regs` behind the header and the trailer behind the
/// registers, and returns the length of the frame. What lies behind the frame
/// is left as it was.
pub fn finish_frame(buf: &mut [u8], header_len: usize, regs: &[u16]) -> (total: usize)
    requires
        header_len + 2 * regs.len() + 2 <= old(buf).len(),
    ensures
        total == header_len + 2 * regs.len() + 2,
        final(buf)@.len() == old(buf)@.len(),
        final(buf)@.take(total as int) == with_crc(
            old(buf)@.take(header_len as int) + regs_to_bytes(regs@),
        ),
        final(buf)@.skip(total as int) == old(buf)@.skip(total as int),
{
    write_registers(buf, header_len, regs);
    let body_len = header_len + regs.len() * 2;
    let ghost laid_out = buf@;
    assert(laid_out.take(body_len as int) =~= old(buf)@.take(header_len as int) + regs_to_bytes(
        regs@,
    )) by {
        assert forall|j: int| 0 <= j < header_len implies laid_out[j] == old(buf)@[j] by {
            assert(laid_out[j] == laid_out.take(header_len as int)[j]);
        }
        assert forall|j: int| header_len <= j < body_len implies laid_out[j] == regs_to_bytes(
            regs@,
        )[j - header_len] by {
            assert(laid_out[j] == laid_out.subrange(header_len as int, body_len as int)[j
                - header_len]);
        }
    }
    let total = append_crc(buf, body_len);
    assert(buf@.skip(total as int) =~= old(buf)@.skip(total as int)) by {
        assert forall|j: int| total <= j < buf@.len() implies buf@[j] == old(buf)@[j] by {
            assert(laid_out[j] == laid_out.skip(total as int)[j - total]);
            assert(old(buf)@[j] == old(buf)@.skip(body_len as int)[j - body_len]);
        }
    }
    total
}

/// A `0x10` request is canonical where it holds no more than sixteen
/// registers, declares as many bytes as its registers take, and ends right
/// after its payload and trailer.
pub open spec fn canonical_write(frame: Seq<u8>) -> bool {
    &&& frame.len() >= 9
    &&& frame[1] == FUNC_WRITE_MULTIPLE_REGISTERS
    &&& word_at(frame, 4) <= 16
    &&& frame[6] == 2 * word_at(frame, 4)
    &&& frame.len() == 9 + frame[6]
    &&& crc_ok(frame)
}

/// A `0x17` request is canonical where it writes no more than sixteen
/// registers, declares as many bytes as they take, and ends right after its
/// payload and trailer.
pub open spec fn canonical_read_write(frame: Seq<u8>) -> bool {
    &&& frame.len() >= 13
    &&& frame[1] == FUNC_READ_WRITE_MULTIPLE_REGISTERS
    &&& word_at(frame, 8) <= 16
    &&& frame[10] == 2 * word_at(frame, 8)
    &&& frame.len() == 13 + frame[10]
    &&& crc_ok(frame)
}

/// A frame that ends in a valid trailer is its body followed by the trailer
/// of that body.
pub proof fn lemma_valid_frame_is_body_with_crc(frame: Seq<u8>)
    requires
        crc_ok(frame),
    ensures
        frame == with_crc(frame.take(frame.len() - 2)),
{
}

/// Encoding undoes decoding: a canonical `0x10` request is, byte for byte, the
/// encoding of what it decodes to.
pub proof fn lemma_write_round_trip(frame: Seq<u8>, request: WriteRequest)
    requires
        canonical_write(frame),
        request.decodes(frame),
    ensures
        request.encoding() == frame,
{
    assert(write_body(request.address, request.start, request.seen()) =~= frame.take(
        frame.len() - 2,
    ));
    lemma_valid_frame_is_body_with_crc(frame);
}

/// Encoding undoes decoding: a canonical `0x17` request is, byte for byte, the
/// encoding of what it decodes to.
pub proof fn lemma_read_write_round_trip(frame: Seq<u8>, request: ReadWriteRequest)
    requires
        canonical_read_write(frame),
        request.decodes(frame),
    ensures
        request.encoding() == frame,
{
    assert(read_write_body(
        request.address,
        request.read_start,
        request.read_quantity,
        request.write_start,
        request.seen(),
    ) =~= frame.take(frame.len() - 2));
    lemma_valid_frame_is_body_with_crc(frame);
}

/// Decoding undoes encoding: the registers materialised from an encoded
/// payload are the ones that were encoded.
pub proof fn lemma_materialized_encoded(frame: Seq<u8>, at: int, regs: Seq<u16>)
    requires
        0 <= at,
        regs.len() <= 16,
        at + 2 * regs.len() <= frame.len(),
        frame.subrange(at, at + 2 * regs.len()) == regs_to_bytes(regs),
    ensures
        materialized(frame, at, 2 * regs.len() as int).take(regs.len() as int) == regs,
{
    let bytes = regs_to_bytes(regs);
    let got = materialized(frame, at, 2 * regs.len() as int).take(regs.len() as int);
    assert forall|i: int| 0 <= i < regs.len() implies got[i] == regs[i] by {
        assert(frame[at + 2 * i] == bytes[2 * i]);
        assert(frame[at + 2 * i + 1] == bytes[2 * i + 1]);
    }
}

/// Decoding undoes encoding: a `0x10` request that was encoded from no more
/// than sixteen registers is canonical, and its fields read back as what was
/// encoded.
pub proof fn lemma_write_frame_decodes(address: u8, start: u16, regs: Seq<u16>)
    requires
        regs.len() <= 16,
    ensures
        canonical_write(write_frame(address, start, regs)),
        write_frame(address, start, regs).len() == 9 + 2 * regs.len(),
        write_frame(address, start, regs)[0] == address,
        word_at(write_frame(address, start, regs), 2) == start,
        word_at(write_frame(address, start, regs), 4) == regs.len(),
        write_frame(address, start, regs)[6] == 2 * regs.len(),
        materialized(write_frame(address, start, regs), 7, 2 * regs.len() as int).take(
            regs.len() as int,
        ) == regs,
{
    let body = write_body(address, start, regs);
    let frame = write_frame(address, start, regs);
    let count = regs.len() as u16;
    lemma_crc_round_trip(body);
    assert(body.len() == 7 + 2 * regs.len());
    assert forall|j: int| 0 <= j < body.len() implies frame[j] == body[j] by {}
    assert(body[0] == address && body[1] == FUNC_WRITE_MULTIPLE_REGISTERS);
    assert(body[2] == hi_byte(start) && body[3] == lo_byte(start));
    assert(body[4] == hi_byte(count) && body[5] == lo_byte(count));
    assert(body[6] == 2 * regs.len());
    assert(frame.subrange(7, 7 + 2 * regs.len() as int) =~= regs_to_bytes(regs)) by {
        assert forall|j: int| 0 <= j < 2 * regs.len() implies frame[7 + j] == regs_to_bytes(
            regs,
        )[j] by {
            assert(body[7 + j] == regs_to_bytes(regs)[j]);
        }
    }
    lemma_materialized_encoded(frame, 7, regs);
}

/// Decoding undoes encoding: a `0x17` request that was encoded with no more
/// than sixteen registers to write is canonical, and its fields read back as
/// what was encoded.
pub proof fn lemma_read_write_frame_decodes(
    address: u8,
    read_start: u16,
    read_quantity: u16,
    write_start: u16,
    regs: Seq<u16>,
)
    requires
        regs.len() <= 16,
    ensures
        canonical_read_write(
            read_write_frame(address, read_start, read_quantity, write_start, regs),
        ),
        read_write_frame(address, read_start, read_quantity, write_start, regs).len() == 13 + 2
            * regs.len(),
        read_write_frame(address, read_start, read_quantity, write_start, regs)[0] == address,
        word_at(read_write_frame(address, read_start, read_quantity, write_start, regs), 2)
            == read_start,
        word_at(read_write_frame(address, read_start, read_quantity, write_start, regs), 4)
            == read_quantity,
        word_at(read_write_frame(address, read_start, read_quantity, write_start, regs), 6)
            == write_start,
        word_at(read_write_frame(address, read_start, read_quantity, write_start, regs), 8)
            == regs.len(),
        read_write_frame(address, read_start, read_quantity, write_start, regs)[10] == 2
            * regs.len(),
        materialized(
            read_write_frame(address, read_start, read_quantity, write_start, regs),
            11,
            2 * regs.len() as int,
        ).take(regs.len() as int) == regs,
{
    let body = read_write_body(address, read_start, read_quantity, write_start, regs);
    let frame = read_write_frame(address, read_start, read_quantity, write_start, regs);
    let count = regs.len() as u16;
    lemma_crc_round_trip(body);
    assert(body.len() == 11 + 2 * regs.len());
    assert forall|j: int| 0 <= j < body.len() implies frame[j] == body[j] by {}
    assert(body[0] == address && body[1] == FUNC_READ_WRITE_MULTIPLE_REGISTERS);
    assert(body[2] == hi_byte(read_start) && body[3] == lo_byte(read_start));
    assert(body[4] == hi_byte(read_quantity) && body[5] == lo_byte(read_quantity));
    assert(body[6] == hi_byte(write_start) && body[7] == lo_byte(write_start));
    assert(body[8] == hi_byte(count) && body[9] == lo_byte(count));
    assert(body[10] == 2 * regs.len());
    assert(frame.subrange(11, 11 + 2 * regs.len() as int) =~= regs_to_bytes(regs)) by {
        assert forall|j: int| 0 <= j < 2 * regs.len() implies frame[11 + j] == regs_to_bytes(
            regs,
        )[j] by {
            assert(body[11 + j] == regs_to_bytes(regs)[j]);
        }
    }
    lemma_materialized_encoded(frame, 11, regs);
}

/// A response reads back as what was encoded: it ends in a valid trailer,
/// declares two bytes for each register, and holds register `i` at bytes
/// `3 + 2 * i` and `4 + 2 * i`.
pub proof fn lemma_response_frame_decodes(address: u8, regs: Seq<u16>)
    requires
        regs.len() <= 127,
    ensures
        crc_ok(response_frame(address, regs)),
        response_frame(address, regs).len() == 5 + 2 * regs.len(),
        response_frame(address, regs)[0] == address,
        response_frame(address, regs)[1] == FUNC_READ_WRITE_MULTIPLE_REGISTERS,
        response_frame(address, regs)[2] == 2 * regs.len(),
        forall|i: int|
            0 <= i < regs.len() ==> #[trigger] word_at(response_frame(address, regs), 3 + 2 * i)
                == regs[i],
{
    let body = response_body(address, regs);
    let frame = response_frame(address, regs);
    lemma_crc_round_trip(body);
    assert(body.len() == 3 + 2 * regs.len());
    assert forall|j: int| 0 <= j < body.len() implies frame[j] == body[j] by {}
    assert(body[0] == address && body[1] == FUNC_READ_WRITE_MULTIPLE_REGISTERS);
    assert(body[2] == 2 * regs.len());
    assert forall|i: int| 0 <= i < regs.len() implies #[trigger] word_at(frame, 3 + 2 * i)
        == regs[i] by {
        assert(body[3 + 2 * i] == regs_to_bytes(regs)[2 * i]);
        assert(body[3 + 2 * i + 1] == regs_to_bytes(regs)[2 * i + 1]);
    }
}

} // verus!
