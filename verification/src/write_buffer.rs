//! Writing the TTC encoding of a request: fixed-width big-endian integers,
//! variable-length unsigned integers (a length byte then that many
//! big-endian bytes) and length-prefixed byte strings (long values in
//! chunks), and the headers of function calls and piggybacks.

use vstd::prelude::*;

use crate::bytes::append_slice;
use crate::constants;
use crate::crypto::be_value;
use crate::read_buffer::{pow256, spec_read_bytes, spec_read_bytes_with_double_length, spec_read_bytes_with_length, spec_read_chunks, spec_read_ub};

verus! {

/// Big-endian encoding of a 16-bit value.
pub open spec fn be16_bytes(v: u16) -> Seq<u8> {
    seq![(v / 0x100) as u8, (v % 0x100) as u8]
}

/// Big-endian encoding of a 32-bit value.
pub open spec fn be32_bytes(v: u32) -> Seq<u8> {
    seq![
        (v / 0x1000000) as u8,
        ((v / 0x10000) % 0x100) as u8,
        ((v / 0x100) % 0x100) as u8,
        (v % 0x100) as u8,
    ]
}

/// Big-endian encoding of a 64-bit value.
pub open spec fn be64_bytes(v: u64) -> Seq<u8> {
    be32_bytes((v / 0x100000000) as u32) + be32_bytes((v % 0x100000000) as u32)
}

/// The variable-length encoding of an unsigned integer: zero as a single
/// zero byte, otherwise the number of bytes used (1, 2, 4 or 8) then the
/// value in that many big-endian bytes.
pub open spec fn ub_bytes(v: u64) -> Seq<u8> {
    if v == 0 {
        seq![0u8]
    } else if v <= 0xff {
        seq![1u8, v as u8]
    } else if v <= 0xffff {
        seq![2u8] + be16_bytes(v as u16)
    } else if v <= 0xffffffff {
        seq![4u8] + be32_bytes(v as u32)
    } else {
        seq![8u8] + be64_bytes(v)
    }
}

/// A long value in chunks of at most `TTC_CHUNK_SIZE` bytes, each preceded
/// by its length.
pub open spec fn chunks(v: Seq<u8>) -> Seq<u8>
    decreases v.len(),
{
    if v.len() == 0 {
        seq![]
    } else {
        let n = if v.len() < constants::TTC_CHUNK_SIZE {
            v.len()
        } else {
            constants::TTC_CHUNK_SIZE as nat
        };
        ub_bytes(n as u64) + v.subrange(0, n as int) + chunks(v.subrange(n as int, v.len() as int))
    }
}

/// Length-prefixed bytes: a length byte then the bytes for short values;
/// the long length indicator, chunks and a zero length otherwise.
pub open spec fn bytes_with_length(v: Seq<u8>) -> Seq<u8> {
    if v.len() <= constants::TTC_MAX_SHORT_LENGTH {
        seq![v.len() as u8] + v
    } else {
        seq![constants::TTC_LONG_LENGTH_INDICATOR] + chunks(v) + ub_bytes(0)
    }
}

/// A length followed by (for a non-empty value) length-prefixed bytes;
/// an absent value is a zero length.
pub open spec fn bytes_with_double_length(v: Option<Seq<u8>>) -> Seq<u8> {
    match v {
        None => ub_bytes(0),
        Some(b) => if b.len() == 0 {
            ub_bytes(0)
        } else {
            ub_bytes(b.len() as u64) + bytes_with_length(b)
        },
    }
}

/// The sequence number that follows another: it counts up, skipping zero.
pub open spec fn next_seq_num(n: u8) -> u8 {
    if n == 255 {
        1
    } else {
        (n + 1) as u8
    }
}

/// The header of a function call or piggyback: the message type, the
/// function code, the sequence number and, from TTC field version 23.1
/// ext 1, a zero token number.
pub open spec fn call_header(message_type: u8, code: u8, seq_num: u8, with_token: bool) -> Seq<u8> {
    seq![message_type, code, seq_num] + if with_token {
        ub_bytes(0)
    } else {
        seq![]
    }
}

/// A buffer holding a request being written, and the sequence number of
/// its last call.
pub struct WriteBuffer {
    pub buf: Vec<u8>,
    pub seq_num: u8,
}

impl WriteBuffer {
    pub fn new() -> (w: WriteBuffer)
        ensures
            w.buf@ == Seq::<u8>::empty(),
            w.seq_num == 0,
    {
        WriteBuffer { buf: Vec::new(), seq_num: 0 }
    }

    /// Returns the bytes written.
    pub fn get_buf(&self) -> (r: &[u8])
        ensures
            r@ == self.buf@,
    {
        self.buf.as_slice()
    }

    /// Discards the bytes written.
    pub fn clear(&mut self)
        ensures
            final(self).buf@ == Seq::<u8>::empty(),
            final(self).seq_num == old(self).seq_num,
    {
        self.buf.clear();
    }

    pub fn write_u8(&mut self, v: u8)
        ensures
            final(self).buf@ == old(self).buf@.push(v),
            final(self).seq_num == old(self).seq_num,
    {
        self.buf.push(v);
    }

    pub fn write_u16be(&mut self, v: u16)
        ensures
            final(self).buf@ == old(self).buf@ + be16_bytes(v),
            final(self).seq_num == old(self).seq_num,
    {
        self.buf.push((v / 0x100) as u8);
        self.buf.push((v % 0x100) as u8);
        assert(self.buf@ =~= old(self).buf@ + be16_bytes(v));
    }

    pub fn write_u32be(&mut self, v: u32)
        ensures
            final(self).buf@ == old(self).buf@ + be32_bytes(v),
            final(self).seq_num == old(self).seq_num,
    {
        self.buf.push((v / 0x1000000) as u8);
        self.buf.push(((v / 0x10000) % 0x100) as u8);
        self.buf.push(((v / 0x100) % 0x100) as u8);
        self.buf.push((v % 0x100) as u8);
        assert(self.buf@ =~= old(self).buf@ + be32_bytes(v));
    }

    pub fn write_u64be(&mut self, v: u64)
        ensures
            final(self).buf@ == old(self).buf@ + be64_bytes(v),
            final(self).seq_num == old(self).seq_num,
    {
        self.write_u32be((v / 0x100000000) as u32);
        self.write_u32be((v % 0x100000000) as u32);
        assert(self.buf@ =~= old(self).buf@ + be64_bytes(v));
    }

    /// Writes the bytes as they are.
    pub fn write_bytes(&mut self, v: &[u8])
        ensures
            final(self).buf@ == old(self).buf@ + v@,
            final(self).seq_num == old(self).seq_num,
    {
        append_slice(&mut self.buf, v);
    }

    /// Writes an unsigned integer in the variable-length encoding.
    pub fn write_ub8(&mut self, v: u64)
        ensures
            final(self).buf@ == old(self).buf@ + ub_bytes(v),
            final(self).seq_num == old(self).seq_num,
    {
        if v == 0 {
            self.write_u8(0);
        } else if v <= 0xff {
            self.write_u8(1);
            self.write_u8(v as u8);
        } else if v <= 0xffff {
            self.write_u8(2);
            self.write_u16be(v as u16);
        } else if v <= 0xffffffff {
            self.write_u8(4);
            self.write_u32be(v as u32);
        } else {
            self.write_u8(8);
            self.write_u64be(v);
        }
        assert(self.buf@ =~= old(self).buf@ + ub_bytes(v));
    }

    pub fn write_ub4(&mut self, v: u32)
        ensures
            final(self).buf@ == old(self).buf@ + ub_bytes(v as u64),
            final(self).seq_num == old(self).seq_num,
    {
        self.write_ub8(v as u64);
    }

    pub fn write_ub2(&mut self, v: u16)
        ensures
            final(self).buf@ == old(self).buf@ + ub_bytes(v as u64),
            final(self).seq_num == old(self).seq_num,
    {
        self.write_ub8(v as u64);
    }

    /// Writes a long value in chunks.
    fn write_chunks(&mut self, v: &[u8])
        ensures
            final(self).buf@ == old(self).buf@ + chunks(v@),
            final(self).seq_num == old(self).seq_num,
    {
        let mut start: usize = 0;
        assert(v@.subrange(0, v@.len() as int) =~= v@);
        while start < v.len()
            invariant
                start <= v@.len(),
                self.seq_num == old(self).seq_num,
                old(self).buf@ + chunks(v@) == self.buf@ + chunks(v@.subrange(start as int, v@.len() as int)),
            decreases v@.len() - start,
        {
            let ghost rest = v@.subrange(start as int, v@.len() as int);
            let remaining = v.len() - start;
            let n: usize = if remaining < constants::TTC_CHUNK_SIZE {
                remaining
            } else {
                constants::TTC_CHUNK_SIZE
            };
            self.write_ub4(n as u32);
            self.write_bytes(&v[start..start + n]);
            proof {
                assert(rest.subrange(0, n as int) =~= v@.subrange(start as int, start + n));
                assert(rest.subrange(n as int, rest.len() as int) =~= v@.subrange(
                    start + n,
                    v@.len() as int,
                ));
                assert(self.buf@ + chunks(v@.subrange(start + n, v@.len() as int)) =~= old(self).buf@
                    + chunks(v@));
            }
            start = start + n;
        }
        assert(chunks(v@.subrange(v@.len() as int, v@.len() as int)) =~= Seq::<u8>::empty());
        assert(self.buf@ =~= old(self).buf@ + chunks(v@));
    }

    /// Writes length-prefixed bytes.
    pub fn write_bytes_with_length(&mut self, v: &[u8])
        ensures
            final(self).buf@ == old(self).buf@ + bytes_with_length(v@),
            final(self).seq_num == old(self).seq_num,
    {
        if v.len() <= constants::TTC_MAX_SHORT_LENGTH as usize {
            self.write_u8(v.len() as u8);
            self.write_bytes(v);
        } else {
            self.write_u8(constants::TTC_LONG_LENGTH_INDICATOR);
            self.write_chunks(v);
            self.write_ub4(0);
        }
        assert(self.buf@ =~= old(self).buf@ + bytes_with_length(v@));
    }

    /// Writes a length and then, for a non-empty value, length-prefixed
    /// bytes; an absent value is written as a zero length.
    pub fn write_bytes_with_double_length(&mut self, v: Option<&[u8]>)
        requires
            v matches Some(b) ==> b@.len() <= u32::MAX,
        ensures
            final(self).buf@ == old(self).buf@ + bytes_with_double_length(
                match v {
                    Some(b) => Some(b@),
                    None => None,
                },
            ),
            final(self).seq_num == old(self).seq_num,
    {
        match v {
            None => self.write_ub4(0),
            Some(b) => {
                if b.len() == 0 {
                    self.write_ub4(0);
                } else {
                    self.write_ub4(b.len() as u32);
                    self.write_bytes_with_length(b);
                }
            },
        }
        assert(self.buf@ =~= old(self).buf@ + bytes_with_double_length(
            match v {
                Some(b) => Some(b@),
                None => None,
            },
        ));
    }

    /// Writes the next sequence number.
    fn write_seq_num(&mut self)
        ensures
            final(self).seq_num == next_seq_num(old(self).seq_num),
            final(self).buf@ == old(self).buf@.push(final(self).seq_num),
    {
        if self.seq_num == 255 {
            self.seq_num = 1;
        } else {
            self.seq_num = self.seq_num + 1;
        }
        self.buf.push(self.seq_num);
    }

    /// Writes the header of a call of the given message type.
    fn write_call_header(&mut self, message_type: u8, code: u8, with_token: bool)
        ensures
            final(self).seq_num == next_seq_num(old(self).seq_num),
            final(self).buf@ == old(self).buf@ + call_header(
                message_type,
                code,
                final(self).seq_num,
                with_token,
            ),
    {
        self.write_u8(message_type);
        self.write_u8(code);
        self.write_seq_num();
        if with_token {
            self.write_ub8(0);
        }
        assert(self.buf@ =~= old(self).buf@ + call_header(message_type, code, self.seq_num, with_token));
    }

    /// Writes the header of a function call; the token number is written
    /// when the negotiated TTC field version is 23.1 ext 1 or later.
    pub fn write_function_header(&mut self, supports_token: bool, function_code: u8)
        ensures
            final(self).seq_num == next_seq_num(old(self).seq_num),
            final(self).buf@ == old(self).buf@ + call_header(
                constants::TTC_MSG_TYPE_FUNCTION,
                function_code,
                final(self).seq_num,
                supports_token,
            ),
    {
        self.write_call_header(constants::TTC_MSG_TYPE_FUNCTION, function_code, supports_token);
    }

    /// Writes the header of a piggyback.
    pub fn write_piggyback_header(&mut self, supports_token: bool, function_code: u8)
        ensures
            final(self).seq_num == next_seq_num(old(self).seq_num),
            final(self).buf@ == old(self).buf@ + call_header(
                constants::TTC_MSG_TYPE_PIGGYBACK,
                function_code,
                final(self).seq_num,
                supports_token,
            ),
    {
        self.write_call_header(constants::TTC_MSG_TYPE_PIGGYBACK, function_code, supports_token);
    }
}

/// The value of two big-endian byte strings one after the other.
proof fn lemma_be_value_append(a: Seq<u8>, b: Seq<u8>)
    ensures
        be_value(a + b) == be_value(a) * pow256(b.len()) + be_value(b),
    decreases b.len(),
{
    if b.len() == 0 {
        assert(a + b =~= a);
        assert(pow256(0) == 1);
        assert(be_value(b) == 0);
        assert(be_value(a) * pow256(b.len()) == be_value(a));
    } else {
        let b1 = b.drop_last();
        lemma_be_value_append(a, b1);
        assert((a + b).drop_last() =~= a + b1);
        assert((a + b).last() == b.last());
        let x = be_value(a);
        let p1 = pow256(b1.len());
        let y = be_value(b1);
        assert(be_value(a + b) == (x * p1 + y) * 256 + b.last() as nat);
        assert(be_value(b) == y * 256 + b.last() as nat);
        assert(pow256(b.len()) == 256 * p1);
        assert((x * p1 + y) * 256 == x * (256 * p1) + y * 256) by (nonlinear_arith);
        assert(be_value(a + b) == x * pow256(b.len()) + be_value(b));
    }
}

/// The big-endian encodings of fixed-width values have those values.
pub proof fn lemma_be_bytes_value(v: u64)
    ensures
        be_value(be16_bytes((v % 0x10000) as u16)) == v % 0x10000,
        be_value(be32_bytes((v % 0x100000000) as u32)) == v % 0x100000000,
        be_value(be64_bytes(v)) == v,
{
    reveal_with_fuel(be_value, 5);
    let w16 = (v % 0x10000) as u16;
    let s16 = be16_bytes(w16);
    assert(s16.drop_last().drop_last() =~= Seq::<u8>::empty());
    assert(s16.drop_last() =~= seq![s16[0]]);
    let w = (v % 0x100000000) as u32;
    let s = be32_bytes(w);
    assert(s.drop_last() =~= seq![s[0], s[1], s[2]]);
    assert(s.drop_last().drop_last() =~= seq![s[0], s[1]]);
    assert(s.drop_last().drop_last().drop_last() =~= seq![s[0]]);
    assert(s.drop_last().drop_last().drop_last().drop_last() =~= Seq::<u8>::empty());
    assert(w == ((w / 0x1000000) * 256 + (w / 0x10000) % 256) * 65536 + ((w / 0x100) % 256) * 256 + w % 256);
    let hi = (v / 0x100000000) as u32;
    let lo = (v % 0x100000000) as u32;
    let sh = be32_bytes(hi);
    let sl = be32_bytes(lo);
    assert(hi == ((hi / 0x1000000) * 256 + (hi / 0x10000) % 256) * 65536 + ((hi / 0x100) % 256) * 256 + hi % 256);
    assert(lo == ((lo / 0x1000000) * 256 + (lo / 0x10000) % 256) * 65536 + ((lo / 0x100) % 256) * 256 + lo % 256);
    assert(sh.drop_last() =~= seq![sh[0], sh[1], sh[2]]);
    assert(sh.drop_last().drop_last() =~= seq![sh[0], sh[1]]);
    assert(sh.drop_last().drop_last().drop_last() =~= seq![sh[0]]);
    assert(sh.drop_last().drop_last().drop_last().drop_last() =~= Seq::<u8>::empty());
    assert(sl.drop_last() =~= seq![sl[0], sl[1], sl[2]]);
    assert(sl.drop_last().drop_last() =~= seq![sl[0], sl[1]]);
    assert(sl.drop_last().drop_last().drop_last() =~= seq![sl[0]]);
    assert(sl.drop_last().drop_last().drop_last().drop_last() =~= Seq::<u8>::empty());
    lemma_be_value_append(sh, sl);
    reveal_with_fuel(pow256, 5);
    assert(v == hi * 0x100000000 + lo);
}

/// Big-endian 16-bit and 32-bit values read back as they were written,
/// wherever they stand in the data.
pub proof fn fixed_width_round_trip(pre: Seq<u8>, a: u16, b: u32, rest: Seq<u8>)
    ensures
        spec_read_bytes(pre + be16_bytes(a) + rest, pre.len() as int, 2) == Ok::<
            (Seq<u8>, int),
            crate::read_buffer::ReadFailure,
        >((be16_bytes(a), pre.len() + 2int)),
        be_value(be16_bytes(a)) == a,
        spec_read_bytes(pre + be32_bytes(b) + rest, pre.len() as int, 4) == Ok::<
            (Seq<u8>, int),
            crate::read_buffer::ReadFailure,
        >((be32_bytes(b), pre.len() + 4int)),
        be_value(be32_bytes(b)) == b,
{
    lemma_be_bytes_value(a as u64);
    lemma_be_bytes_value(b as u64);
    assert((a as u64 % 0x10000) as u16 == a);
    assert((b as u64 % 0x100000000) as u32 == b);
    let d16 = pre + be16_bytes(a) + rest;
    let d32 = pre + be32_bytes(b) + rest;
    assert(d16.subrange(pre.len() as int, pre.len() + 2int) =~= be16_bytes(a));
    assert(d32.subrange(pre.len() as int, pre.len() + 4int) =~= be32_bytes(b));
}

/// The bytes of a variable-length integer after its length byte have its
/// value.
proof fn lemma_ub_value(v: u64)
    ensures
        ub_bytes(v).len() >= 1,
        ub_bytes(v)[0] == ub_bytes(v).len() - 1,
        be_value(ub_bytes(v).subrange(1, ub_bytes(v).len() as int)) == v,
{
    lemma_be_bytes_value(v);
    reveal_with_fuel(be_value, 2);
    let u = ub_bytes(v);
    if v == 0 {
        assert(u.subrange(1, 1) =~= Seq::<u8>::empty());
    } else if v <= 0xff {
        assert(u.subrange(1, 2) =~= seq![v as u8]);
        assert(seq![v as u8].drop_last() =~= Seq::<u8>::empty());
    } else if v <= 0xffff {
        assert(u.subrange(1, 3) =~= be16_bytes((v % 0x10000) as u16));
    } else if v <= 0xffffffff {
        assert(u.subrange(1, 5) =~= be32_bytes((v % 0x100000000) as u32));
    } else {
        assert(u.subrange(1, 9) =~= be64_bytes(v));
    }
}

/// A variable-length integer reads back as it was written, wherever it
/// stands in the data, when the reader allows as many value bytes as it
/// has.
pub proof fn ub_round_trip(pre: Seq<u8>, v: u64, rest: Seq<u8>, max: nat)
    requires
        ub_bytes(v).len() <= max + 1,
    ensures
        spec_read_ub(pre + ub_bytes(v) + rest, pre.len() as int, max) == Ok::<(nat, int), crate::read_buffer::ReadFailure>(
            (v as nat, (pre.len() + ub_bytes(v).len()) as int),
        ),
{
    lemma_ub_value(v);
    let u = ub_bytes(v);
    let d = pre + u + rest;
    let p = pre.len() as int;
    assert(d[p] == u[0]);
    assert(d.subrange(p + 1, p + u.len()) =~= u.subrange(1, u.len() as int));
}

/// A long value written in chunks, followed by a zero length, reads back as
/// it was written, wherever it stands in the data.
/// Reading chunks: one chunk, then the chunks after it.
proof fn lemma_read_chunk(d: Seq<u8>, p: int, n: nat, q: int, tail: Seq<u8>, e: int)
    requires
        spec_read_ub(d, p, 4) == Ok::<(nat, int), crate::read_buffer::ReadFailure>((n, q)),
        n > 0,
        p < q,
        q + n <= d.len(),
        spec_read_chunks(d, q + n) == Ok::<(Seq<u8>, int), crate::read_buffer::ReadFailure>((tail, e)),
    ensures
        spec_read_chunks(d, p) == Ok::<(Seq<u8>, int), crate::read_buffer::ReadFailure>(
            (d.subrange(q, q + n) + tail, e),
        ),
{
}

/// A long value written in chunks, followed by a zero length, reads back as
/// it was written, wherever it stands in the data.
pub proof fn chunks_round_trip(pre: Seq<u8>, v: Seq<u8>, rest: Seq<u8>)
    ensures
        spec_read_chunks(pre + chunks(v) + ub_bytes(0) + rest, pre.len() as int) == Ok::<
            (Seq<u8>, int),
            crate::read_buffer::ReadFailure,
        >((v, (pre.len() + chunks(v).len() + 1) as int)),
    decreases v.len(),
{
    let d = pre + chunks(v) + ub_bytes(0) + rest;
    let p = pre.len() as int;
    if v.len() == 0 {
        assert(chunks(v) =~= Seq::<u8>::empty());
        assert(v =~= Seq::<u8>::empty());
        assert(d =~= pre + ub_bytes(0) + rest);
        ub_round_trip(pre, 0, rest, 4);
    } else {
        let n: nat = if v.len() < constants::TTC_CHUNK_SIZE { v.len() } else { constants::TTC_CHUNK_SIZE as nat };
        let head = v.subrange(0, n as int);
        let tail = v.subrange(n as int, v.len() as int);
        let u = ub_bytes(n as u64);
        let after = head + chunks(tail) + ub_bytes(0) + rest;
        assert(chunks(v) == u + head + chunks(tail));
        assert(d =~= pre + u + after);
        ub_round_trip(pre, n as u64, after, 4);
        let q = p + u.len();
        assert(d.subrange(q, q + n) =~= head);
        let pre2 = pre + u + head;
        assert(d =~= pre2 + chunks(tail) + ub_bytes(0) + rest);
        chunks_round_trip(pre2, tail, rest);
        lemma_read_chunk(d, p, n, q, tail, (pre2.len() + chunks(tail).len() + 1) as int);
        assert(head + tail =~= v);
    }
}

/// Length-prefixed bytes read back as they were written, wherever they
/// stand in the data: short values directly, long ones in chunks.
pub proof fn bytes_with_length_round_trip(pre: Seq<u8>, v: Seq<u8>, rest: Seq<u8>)
    ensures
        spec_read_bytes_with_length(pre + bytes_with_length(v) + rest, pre.len() as int) == Ok::<
            (Seq<u8>, int),
            crate::read_buffer::ReadFailure,
        >((v, (pre.len() + bytes_with_length(v).len()) as int)),
{
    let d = pre + bytes_with_length(v) + rest;
    let p = pre.len() as int;
    if v.len() <= constants::TTC_MAX_SHORT_LENGTH {
        assert(d[p] == v.len() as u8);
        assert(d.subrange(p + 1, p + 1 + v.len()) =~= v);
        if v.len() == 0 {
            assert(v =~= Seq::<u8>::empty());
        }
    } else {
        assert(d[p] == constants::TTC_LONG_LENGTH_INDICATOR);
        let pre2 = pre + seq![constants::TTC_LONG_LENGTH_INDICATOR];
        assert(d =~= pre2 + chunks(v) + ub_bytes(0) + rest);
        chunks_round_trip(pre2, v, rest);
    }
}

/// Reading a value with a double length: a non-zero length, then the
/// length-prefixed bytes.
proof fn lemma_read_double(d: Seq<u8>, p: int, n: nat, q: int, b: Seq<u8>, e: int)
    requires
        spec_read_ub(d, p, 4) == Ok::<(nat, int), crate::read_buffer::ReadFailure>((n, q)),
        n > 0,
        spec_read_bytes_with_length(d, q) == Ok::<(Seq<u8>, int), crate::read_buffer::ReadFailure>((b, e)),
    ensures
        spec_read_bytes_with_double_length(d, p) == Ok::<(Seq<u8>, int), crate::read_buffer::ReadFailure>((b, e)),
{
}

/// Reading a zero length as a value with a double length.
proof fn lemma_read_double_empty(d: Seq<u8>, p: int, q: int)
    requires
        spec_read_ub(d, p, 4) == Ok::<(nat, int), crate::read_buffer::ReadFailure>((0, q)),
    ensures
        spec_read_bytes_with_double_length(d, p) == Ok::<(Seq<u8>, int), crate::read_buffer::ReadFailure>(
            (Seq::<u8>::empty(), q),
        ),
{
}

/// A value written with a double length reads back as it was written,
/// wherever it stands in the data; an absent value reads back empty.
pub proof fn bytes_with_double_length_round_trip(pre: Seq<u8>, v: Option<Seq<u8>>, rest: Seq<u8>)
    requires
        v matches Some(b) ==> b.len() <= u32::MAX,
    ensures
        spec_read_bytes_with_double_length(pre + bytes_with_double_length(v) + rest, pre.len() as int) == Ok::<
            (Seq<u8>, int),
            crate::read_buffer::ReadFailure,
        >(
            (
                match v {
                    Some(b) => b,
                    None => Seq::<u8>::empty(),
                },
                (pre.len() + bytes_with_double_length(v).len()) as int,
            ),
        ),
{
    let d = pre + bytes_with_double_length(v) + rest;
    let p = pre.len() as int;
    if v is None || v.unwrap().len() == 0 {
        assert(bytes_with_double_length(v) == ub_bytes(0));
        assert(d =~= pre + ub_bytes(0) + rest);
        ub_round_trip(pre, 0, rest, 4);
        lemma_read_double_empty(d, p, p + 1);
        if v is Some {
            assert(v.unwrap() =~= Seq::<u8>::empty());
        }
    } else {
        let b = v.unwrap();
        let u = ub_bytes(b.len() as u64);
        let after = bytes_with_length(b) + rest;
        assert(bytes_with_double_length(v) == u + bytes_with_length(b));
        assert(d =~= pre + u + after);
        ub_round_trip(pre, b.len() as u64, after, 4);
        let pre2 = pre + u;
        assert(d =~= pre2 + bytes_with_length(b) + rest);
        bytes_with_length_round_trip(pre2, b, rest);
        lemma_read_double(d, p, b.len(), p + u.len(), b, (pre2.len() + bytes_with_length(b).len()) as int);
    }
}

} // verus!
