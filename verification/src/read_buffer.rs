//! Reading the TTC encoding from the bodies of the packets of a response:
//! fixed-width integers, variable-length unsigned integers (a length byte
//! then that many big-endian bytes), and length-prefixed byte strings (with
//! long values sent in chunks).

use vstd::prelude::*;
use vstd::utf8::{decode_utf8, valid_utf8};

use crate::bytes::append_slice;
use crate::constants;
use crate::crypto::be_value;
use crate::error::{Error, ErrorKind};
use crate::packet::{be16, Packet};
use crate::utf8::utf8_to_string;

verus! {

/// Why a read fails.
pub enum ReadFailure {
    /// The data ends before the value does; more packets are needed.
    OutOfData,
    /// An integer is longer than its type allows: (maximum, actual).
    IntegerTooLarge(nat, nat),
    /// A negative integer where an unsigned one was expected.
    UnexpectedNegative,
    /// Text that is not valid UTF-8.
    InvalidEncoding,
}

/// Whether an error reports a failed read.
pub open spec fn is_read_failure(e: Error, f: ReadFailure) -> bool {
    match f {
        ReadFailure::OutOfData => e@ is OutOfData,
        ReadFailure::IntegerTooLarge(max, actual) => e@ == ErrorKind::IntegerTooLarge(
            max as usize,
            actual as usize,
        ),
        ReadFailure::UnexpectedNegative => e@ is UnexpectedNegativeInteger,
        ReadFailure::InvalidEncoding => e@ is InvalidEncodedString,
    }
}

/// `n` bytes at a position, and the position after them.
pub open spec fn spec_read_bytes(data: Seq<u8>, pos: int, n: nat) -> Result<(Seq<u8>, int), ReadFailure> {
    if pos + n > data.len() {
        Err(ReadFailure::OutOfData)
    } else {
        Ok((data.subrange(pos, pos + n), pos + n))
    }
}

/// One byte at a position.
pub open spec fn spec_read_u8(data: Seq<u8>, pos: int) -> Result<(u8, int), ReadFailure> {
    if pos + 1 > data.len() {
        Err(ReadFailure::OutOfData)
    } else {
        Ok((data[pos], pos + 1))
    }
}

/// A variable-length unsigned integer of at most `max` bytes: a length byte
/// (its high bit marks a negative value) followed by that many big-endian
/// bytes.
pub open spec fn spec_read_ub(data: Seq<u8>, pos: int, max: nat) -> Result<(nat, int), ReadFailure> {
    match spec_read_u8(data, pos) {
        Err(f) => Err(f),
        Ok((len, p)) => if len >= 128 {
            Err(ReadFailure::UnexpectedNegative)
        } else if len > max {
            Err(ReadFailure::IntegerTooLarge(max, len as nat))
        } else {
            match spec_read_bytes(data, p, len as nat) {
                Err(f) => Err(f),
                Ok((bytes, next)) => Ok((be_value(bytes), next)),
            }
        },
    }
}

/// The chunks of a long value: each a 4-byte-maximum length then that many
/// bytes, until a zero length.
pub open spec fn spec_read_chunks(data: Seq<u8>, pos: int) -> Result<(Seq<u8>, int), ReadFailure>
    decreases data.len() - pos,
{
    match spec_read_ub(data, pos, 4) {
        Err(f) => Err(f),
        Ok((len, p)) => if len == 0 {
            Ok((seq![], p))
        } else if p <= pos {
            Err(ReadFailure::OutOfData)
        } else {
            match spec_read_bytes(data, p, len) {
                Err(f) => Err(f),
                Ok((chunk, q)) => match spec_read_chunks(data, q) {
                    Err(f) => Err(f),
                    Ok((rest, next)) => Ok((chunk + rest, next)),
                },
            }
        },
    }
}

/// Length-prefixed bytes: a length byte then the bytes; zero and the null
/// indicator stand for no bytes, the long indicator for chunks.
pub open spec fn spec_read_bytes_with_length(data: Seq<u8>, pos: int) -> Result<(Seq<u8>, int), ReadFailure> {
    match spec_read_u8(data, pos) {
        Err(f) => Err(f),
        Ok((len, p)) => if len == 0 || len == constants::TTC_NULL_LENGTH_INDICATOR {
            Ok((seq![], p))
        } else if len == constants::TTC_LONG_LENGTH_INDICATOR {
            spec_read_chunks(data, p)
        } else {
            spec_read_bytes(data, p, len as nat)
        },
    }
}

/// A 4-byte-maximum length, then (unless it is zero) length-prefixed bytes.
pub open spec fn spec_read_bytes_with_double_length(data: Seq<u8>, pos: int) -> Result<(Seq<u8>, int), ReadFailure> {
    match spec_read_ub(data, pos, 4) {
        Err(f) => Err(f),
        Ok((n, p)) => if n == 0 {
            Ok((seq![], p))
        } else {
            spec_read_bytes_with_length(data, p)
        },
    }
}

/// The bodies of packets, one after the other.
pub open spec fn packets_data(packets: Seq<Packet>) -> Seq<u8>
    decreases packets.len(),
{
    if packets.len() == 0 {
        seq![]
    } else {
        packets_data(packets.drop_last()) + packets.last().buf@
    }
}

/// The big-endian value of two bytes.
pub proof fn lemma_be_value_two(s: Seq<u8>)
    requires
        s.len() == 2,
    ensures
        be_value(s) == be16(s[0], s[1]),
{
    reveal_with_fuel(be_value, 3);
    assert(s.drop_last().drop_last() =~= Seq::<u8>::empty());
}

/// `256^n`.
pub open spec fn pow256(n: nat) -> nat
    decreases n,
{
    if n == 0 {
        1
    } else {
        256 * pow256((n - 1) as nat)
    }
}

pub proof fn lemma_be_value_below(s: Seq<u8>)
    ensures
        be_value(s) < pow256(s.len()),
    decreases s.len(),
{
    if s.len() > 0 {
        lemma_be_value_below(s.drop_last());
    }
}

/// A cursor over the data of a response.
pub struct ReadBuffer {
    data: Vec<u8>,
    pos: usize,
}

impl ReadBuffer {
    #[verifier::type_invariant]
    spec fn inv(self) -> bool {
        self.pos <= self.data@.len()
    }

    /// The data being read.
    pub closed spec fn data(self) -> Seq<u8> {
        self.data@
    }

    /// The position of the next read.
    pub closed spec fn pos(self) -> int {
        self.pos as int
    }

    /// A position is never negative.
    pub proof fn lemma_pos_nonneg(self)
        ensures
            self.pos() >= 0,
    {
    }

    /// A buffer over the bodies of the packets, from their start.
    pub fn from_packets(packets: &[Packet]) -> (r: ReadBuffer)
        ensures
            r.data() == packets_data(packets@),
            r.pos() == 0,
    {
        let mut data: Vec<u8> = Vec::new();
        let mut i: usize = 0;
        while i < packets.len()
            invariant
                i <= packets@.len(),
                data@ == packets_data(packets@.subrange(0, i as int)),
            decreases packets@.len() - i,
        {
            append_slice(&mut data, packets[i].buf.as_slice());
            assert(packets@.subrange(0, i + 1).drop_last() =~= packets@.subrange(0, i as int));
            i = i + 1;
        }
        assert(packets@.subrange(0, packets@.len() as int) =~= packets@);
        ReadBuffer { data, pos: 0 }
    }

    /// Returns the position of the next read.
    pub fn get_pos(&self) -> (r: usize)
        ensures
            r == self.pos(),
    {
        self.pos
    }

    /// Reads `n` bytes.
    pub fn read_bytes(&mut self, n: usize) -> (r: Result<Vec<u8>, Error>)
        ensures
            final(self).data() == old(self).data(),
            match spec_read_bytes(old(self).data(), old(self).pos(), n as nat) {
                Ok((v, next)) => r matches Ok(b) && b@ == v && final(self).pos() == next,
                Err(f) => r matches Err(e) && is_read_failure(e, f),
            },
    {
        proof { use_type_invariant(&*self); }
        if n > self.data.len() - self.pos {
            return Err(Error::out_of_data());
        }
        let mut v: Vec<u8> = Vec::new();
        append_slice(&mut v, &self.data.as_slice()[self.pos..self.pos + n]);
        self.pos = self.pos + n;
        Ok(v)
    }

    pub fn read_u8(&mut self) -> (r: Result<u8, Error>)
        ensures
            final(self).data() == old(self).data(),
            match spec_read_u8(old(self).data(), old(self).pos()) {
                Ok((v, next)) => r == Ok::<u8, Error>(v) && final(self).pos() == next,
                Err(f) => r matches Err(e) && is_read_failure(e, f),
            },
    {
        proof { use_type_invariant(&*self); }
        if self.pos >= self.data.len() {
            return Err(Error::out_of_data());
        }
        let v = self.data[self.pos];
        self.pos = self.pos + 1;
        Ok(v)
    }

    /// A length byte: the short length of the TTC encoding.
    pub fn read_short_length(&mut self) -> (r: Result<u8, Error>)
        ensures
            final(self).data() == old(self).data(),
            match spec_read_u8(old(self).data(), old(self).pos()) {
                Ok((v, next)) => r == Ok::<u8, Error>(v) && final(self).pos() == next,
                Err(f) => r matches Err(e) && is_read_failure(e, f),
            },
    {
        self.read_u8()
    }

    /// A 16-bit big-endian value.
    pub fn read_u16be(&mut self) -> (r: Result<u16, Error>)
        ensures
            final(self).data() == old(self).data(),
            match spec_read_bytes(old(self).data(), old(self).pos(), 2) {
                Ok((v, next)) => r == Ok::<u16, Error>(be_value(v) as u16) && final(self).pos() == next,
                Err(f) => r matches Err(e) && is_read_failure(e, f),
            },
    {
        let b = self.read_bytes(2)?;
        proof { reveal_with_fuel(be_value, 3); }
        Ok((b[0] as u16) * 256 + (b[1] as u16))
    }

    /// A 16-bit little-endian value.
    pub fn read_u16le(&mut self) -> (r: Result<u16, Error>)
        ensures
            final(self).data() == old(self).data(),
            match spec_read_bytes(old(self).data(), old(self).pos(), 2) {
                Ok((v, next)) => r == Ok::<u16, Error>((v[1] as int * 256 + v[0] as int) as u16)
                    && final(self).pos() == next,
                Err(f) => r matches Err(e) && is_read_failure(e, f),
            },
    {
        let b = self.read_bytes(2)?;
        Ok((b[1] as u16) * 256 + (b[0] as u16))
    }

    /// A 32-bit big-endian value.
    pub fn read_u32be(&mut self) -> (r: Result<u32, Error>)
        ensures
            final(self).data() == old(self).data(),
            match spec_read_bytes(old(self).data(), old(self).pos(), 4) {
                Ok((v, next)) => r == Ok::<u32, Error>(be_value(v) as u32) && final(self).pos() == next,
                Err(f) => r matches Err(e) && is_read_failure(e, f),
            },
    {
        let b = self.read_bytes(4)?;
        proof { reveal_with_fuel(be_value, 5); }
        Ok((b[0] as u32) * 0x1000000 + (b[1] as u32) * 0x10000 + (b[2] as u32) * 0x100 + (b[3] as u32))
    }

    /// A variable-length unsigned integer of at most `max` bytes.
    fn read_ub(&mut self, max: u8) -> (r: Result<u64, Error>)
        requires
            max <= 8,
        ensures
            final(self).data() == old(self).data(),
            match spec_read_ub(old(self).data(), old(self).pos(), max as nat) {
                Ok((v, next)) => r == Ok::<u64, Error>(v as u64) && v < pow256(max as nat)
                    && final(self).pos() == next,
                Err(f) => r matches Err(e) && is_read_failure(e, f),
            },
    {
        let length = self.read_u8()?;
        if length >= 128 {
            return Err(Error::unexpected_negative_integer());
        }
        if length > max {
            return Err(Error::integer_too_large(max as usize, length as usize));
        }
        let bytes = self.read_bytes(length as usize)?;
        let mut value: u64 = 0;
        let mut i: usize = 0;
        proof { reveal_with_fuel(pow256, 9); }
        while i < bytes.len()
            invariant
                i <= bytes@.len(),
                bytes@.len() <= max <= 8,
                value == be_value(bytes@.subrange(0, i as int)),
                value < pow256(i as nat),
                pow256(8) == 18446744073709551616,
            decreases bytes@.len() - i,
        {
            proof {
                assert(bytes@.subrange(0, i + 1).drop_last() =~= bytes@.subrange(0, i as int));
                lemma_pow256_mono(i as nat + 1, 8);
            }
            value = value * 256 + bytes[i] as u64;
            i = i + 1;
        }
        assert(bytes@.subrange(0, bytes@.len() as int) =~= bytes@);
        proof {
            lemma_be_value_below(bytes@);
            lemma_pow256_mono(bytes@.len(), max as nat);
        }
        Ok(value)
    }

    /// A variable-length unsigned integer of at most two bytes.
    pub fn read_ub2(&mut self) -> (r: Result<u16, Error>)
        ensures
            final(self).data() == old(self).data(),
            match spec_read_ub(old(self).data(), old(self).pos(), 2) {
                Ok((v, next)) => r == Ok::<u16, Error>(v as u16) && v < 0x10000
                    && final(self).pos() == next,
                Err(f) => r matches Err(e) && is_read_failure(e, f),
            },
    {
        proof { reveal_with_fuel(pow256, 3); }
        let v = self.read_ub(2)?;
        Ok(v as u16)
    }

    /// A variable-length unsigned integer of at most four bytes.
    pub fn read_ub4(&mut self) -> (r: Result<u32, Error>)
        ensures
            final(self).data() == old(self).data(),
            match spec_read_ub(old(self).data(), old(self).pos(), 4) {
                Ok((v, next)) => r == Ok::<u32, Error>(v as u32) && v < 0x100000000
                    && final(self).pos() == next,
                Err(f) => r matches Err(e) && is_read_failure(e, f),
            },
    {
        proof { reveal_with_fuel(pow256, 5); }
        let v = self.read_ub(4)?;
        Ok(v as u32)
    }

    /// A variable-length unsigned integer of at most eight bytes.
    pub fn read_ub8(&mut self) -> (r: Result<u64, Error>)
        ensures
            final(self).data() == old(self).data(),
            match spec_read_ub(old(self).data(), old(self).pos(), 8) {
                Ok((v, next)) => r == Ok::<u64, Error>(v as u64) && final(self).pos() == next,
                Err(f) => r matches Err(e) && is_read_failure(e, f),
            },
    {
        self.read_ub(8)
    }

    /// The chunks of a long value.
    fn read_chunks(&mut self) -> (r: Result<Vec<u8>, Error>)
        ensures
            final(self).data() == old(self).data(),
            match spec_read_chunks(old(self).data(), old(self).pos()) {
                Ok((v, next)) => r matches Ok(b) && b@ == v && final(self).pos() == next,
                Err(f) => r matches Err(e) && is_read_failure(e, f),
            },
        decreases old(self).data().len() - old(self).pos(),
    {
        proof { use_type_invariant(&*self); }
        let start = self.pos;
        let len = self.read_ub4()?;
        if len == 0 {
            return Ok(Vec::new());
        }
        if self.pos <= start {
            return Err(Error::out_of_data());
        }
        let mut chunk = self.read_bytes(len as usize)?;
        proof { use_type_invariant(&*self); }
        let rest = self.read_chunks()?;
        append_slice(&mut chunk, rest.as_slice());
        Ok(chunk)
    }

    /// Length-prefixed bytes.
    pub fn read_bytes_with_length(&mut self) -> (r: Result<Vec<u8>, Error>)
        ensures
            final(self).data() == old(self).data(),
            match spec_read_bytes_with_length(old(self).data(), old(self).pos()) {
                Ok((v, next)) => r matches Ok(b) && b@ == v && final(self).pos() == next,
                Err(f) => r matches Err(e) && is_read_failure(e, f),
            },
    {
        let len = self.read_u8()?;
        if len == 0 || len == constants::TTC_NULL_LENGTH_INDICATOR {
            Ok(Vec::new())
        } else if len == constants::TTC_LONG_LENGTH_INDICATOR {
            self.read_chunks()
        } else {
            self.read_bytes(len as usize)
        }
    }

    /// A length, then (unless it is zero) length-prefixed bytes.
    pub fn read_bytes_with_double_length(&mut self) -> (r: Result<Vec<u8>, Error>)
        ensures
            final(self).data() == old(self).data(),
            match spec_read_bytes_with_double_length(old(self).data(), old(self).pos()) {
                Ok((v, next)) => r matches Ok(b) && b@ == v && final(self).pos() == next,
                Err(f) => r matches Err(e) && is_read_failure(e, f),
            },
    {
        let n = self.read_ub4()?;
        if n == 0 {
            Ok(Vec::new())
        } else {
            self.read_bytes_with_length()
        }
    }

    /// `n` bytes of UTF-8 text.
    pub fn read_utf8(&mut self, n: usize) -> (r: Result<String, Error>)
        ensures
            final(self).data() == old(self).data(),
            match spec_read_bytes(old(self).data(), old(self).pos(), n as nat) {
                Ok((v, next)) => final(self).pos() == next && if valid_utf8(v) {
                    r matches Ok(s) && s@ == decode_utf8(v)
                } else {
                    r matches Err(e) && is_read_failure(e, ReadFailure::InvalidEncoding)
                },
                Err(f) => r matches Err(e) && is_read_failure(e, f),
            },
    {
        let bytes = self.read_bytes(n)?;
        bytes_to_text(bytes)
    }

    /// Length-prefixed UTF-8 text.
    pub fn read_utf8_with_length(&mut self) -> (r: Result<String, Error>)
        ensures
            final(self).data() == old(self).data(),
            match spec_read_bytes_with_length(old(self).data(), old(self).pos()) {
                Ok((v, next)) => final(self).pos() == next && if valid_utf8(v) {
                    r matches Ok(s) && s@ == decode_utf8(v)
                } else {
                    r matches Err(e) && is_read_failure(e, ReadFailure::InvalidEncoding)
                },
                Err(f) => r matches Err(e) && is_read_failure(e, f),
            },
    {
        let bytes = self.read_bytes_with_length()?;
        bytes_to_text(bytes)
    }

    /// UTF-8 text with a double length.
    pub fn read_utf8_with_double_length(&mut self) -> (r: Result<String, Error>)
        ensures
            final(self).data() == old(self).data(),
            match spec_read_bytes_with_double_length(old(self).data(), old(self).pos()) {
                Ok((v, next)) => final(self).pos() == next && if valid_utf8(v) {
                    r matches Ok(s) && s@ == decode_utf8(v)
                } else {
                    r matches Err(e) && is_read_failure(e, ReadFailure::InvalidEncoding)
                },
                Err(f) => r matches Err(e) && is_read_failure(e, f),
            },
    {
        let bytes = self.read_bytes_with_double_length()?;
        bytes_to_text(bytes)
    }
}

proof fn lemma_pow256_mono(a: nat, b: nat)
    requires
        a <= b,
    ensures
        pow256(a) <= pow256(b),
    decreases b,
{
    if a < b {
        lemma_pow256_mono(a, (b - 1) as nat);
    }
}

/// Text from bytes that must be valid UTF-8.
fn bytes_to_text(bytes: Vec<u8>) -> (r: Result<String, Error>)
    ensures
        valid_utf8(bytes@) ==> (r matches Ok(s) && s@ == decode_utf8(bytes@)),
        !valid_utf8(bytes@) ==> (r matches Err(e) && is_read_failure(e, ReadFailure::InvalidEncoding)),
{
    match utf8_to_string(bytes) {
        Some(s) => Ok(s),
        None => Err(Error::invalid_encoded_string()),
    }
}

} // verus!
