//! The response of the server to a request sent by the client: the packets
//! received so far, a cursor over their data, and what was read from them.

use vstd::prelude::*;
use vstd::utf8::{decode_utf8, valid_utf8};

use crate::constants;
use crate::error::{Error, ErrorKind};
use crate::packet::{spec_header_size, Packet};
use crate::crypto::be_value;
use crate::read_buffer::{
    is_read_failure, packets_data, spec_read_bytes, spec_read_bytes_with_double_length,
    spec_read_bytes_with_length, spec_read_u8, spec_read_ub, ReadBuffer, ReadFailure,
};
use crate::text::{append_decimal, decimal};
use crate::utf8::{trim_end_chars, trim_end_text};
use vstd::string::StringExecFns;

verus! {

/// A location in a response: the packet number (from one) and the offset
/// into that packet, its header included.
#[derive(Debug, PartialEq, Eq, Structural)]
pub struct ResponseLocation {
    pub packet_num: usize,
    pub offset: usize,
}

/// How a place in a response is described: its packet number and offset.
pub open spec fn location_text(l: ResponseLocation) -> Seq<char> {
    "packet "@ + decimal(l.packet_num as nat) + ", offset "@ + decimal(l.offset as nat)
}

impl ResponseLocation {
    /// Describes the place: its packet number and offset.
    pub fn text(&self) -> (r: String)
        ensures
            r@ == location_text(*self),
    {
        let mut text = String::new();
        text.append("packet ");
        append_decimal(&mut text, self.packet_num as u64);
        text.append(", offset ");
        append_decimal(&mut text, self.offset as u64);
        text
    }
}

/// The error the server returned with its response.
pub struct ErrorInfo {
    pub num: usize,
    pub cursor_id: u16,
    pub rowcount: u64,
    pub message: String,
}

/// The fields that a server-side piggyback is made of.
pub enum Field {
    U8,
    Ub2,
    Ub4,
    Ub8,
    Bytes,
}

/// Where a field that starts at a position ends.
pub open spec fn field_end(data: Seq<u8>, pos: int, f: Field) -> Result<int, ReadFailure> {
    let r = match f {
        Field::U8 => match spec_read_u8(data, pos) {
            Ok((_, p)) => Ok(p),
            Err(e) => Err(e),
        },
        Field::Ub2 => match spec_read_ub(data, pos, 2) {
            Ok((_, p)) => Ok(p),
            Err(e) => Err(e),
        },
        Field::Ub4 => match spec_read_ub(data, pos, 4) {
            Ok((_, p)) => Ok(p),
            Err(e) => Err(e),
        },
        Field::Ub8 => match spec_read_ub(data, pos, 8) {
            Ok((_, p)) => Ok(p),
            Err(e) => Err(e),
        },
        Field::Bytes => match spec_read_bytes_with_length(data, pos) {
            Ok((_, p)) => Ok(p),
            Err(e) => Err(e),
        },
    };
    r
}

/// Where a sequence of fields that starts at a position ends.
pub open spec fn fields_end(data: Seq<u8>, pos: int, fs: Seq<Field>) -> Result<int, ReadFailure>
    decreases fs.len(),
{
    if fs.len() == 0 {
        Ok(pos)
    } else {
        match field_end(data, pos, fs[0]) {
            Err(e) => Err(e),
            Ok(p) => fields_end(data, p, fs.subrange(1, fs.len() as int)),
        }
    }
}

/// `n` keyword/value pairs from a position: where they end, and the last
/// current schema and edition they name (text of the pairs with those
/// keywords).
pub open spec fn spec_keyword_pairs(data: Seq<u8>, pos: int, n: nat) -> Result<
    (int, Option<Seq<char>>, Option<Seq<char>>),
    ReadFailure,
>
    decreases n,
{
    if n == 0 {
        Ok((pos, None, None))
    } else {
        match spec_keyword_pairs(data, pos, (n - 1) as nat) {
            Err(e) => Err(e),
            Ok((p, schema, edition)) => match spec_read_bytes_with_double_length(data, p) {
                Err(e) => Err(e),
                Ok((text, q)) => if !valid_utf8(text) {
                    Err(ReadFailure::InvalidEncoding)
                } else {
                    match spec_read_bytes_with_double_length(data, q) {
                        Err(e) => Err(e),
                        Ok((_, q2)) => match spec_read_ub(data, q2, 2) {
                            Err(e) => Err(e),
                            Ok((keyword, next)) => if keyword == constants::TTC_KEYWORD_NUM_CURRENT_SCHEMA {
                                Ok((next, Some(decode_utf8(text)), edition))
                            } else if keyword == constants::TTC_KEYWORD_NUM_EDITION {
                                Ok((next, schema, Some(decode_utf8(text))))
                            } else {
                                Ok((next, schema, edition))
                            },
                        },
                    }
                },
            },
        }
    }
}

/// One element of a session state piggyback: an optional key, an optional
/// value (each announced by a non-zero length) and flags.
pub open spec fn spec_session_element(data: Seq<u8>, pos: int) -> Result<int, ReadFailure> {
    match spec_read_ub(data, pos, 2) {
        Err(e) => Err(e),
        Ok((k, p)) => {
            let after_key = if k > 0 {
                field_end(data, p, Field::Bytes)
            } else {
                Ok(p)
            };
            match after_key {
                Err(e) => Err(e),
                Ok(q) => match spec_read_ub(data, q, 2) {
                    Err(e) => Err(e),
                    Ok((v, q2)) => {
                        let after_value = if v > 0 {
                            field_end(data, q2, Field::Bytes)
                        } else {
                            Ok(q2)
                        };
                        match after_value {
                            Err(e) => Err(e),
                            Ok(q3) => field_end(data, q3, Field::Ub2),
                        }
                    },
                },
            }
        },
    }
}

/// `n` session state elements from a position.
pub open spec fn spec_session_elements(data: Seq<u8>, pos: int, n: nat) -> Result<int, ReadFailure>
    decreases n,
{
    if n == 0 {
        Ok(pos)
    } else {
        match spec_session_elements(data, pos, (n - 1) as nat) {
            Err(e) => Err(e),
            Ok(p) => spec_session_element(data, p),
        }
    }
}

/// What reading a server-side piggyback comes to.
pub enum PiggybackOutcome {
    /// Read whole: where it ends, and the current schema and edition that it
    /// sets, if any.
    Done(int, Option<Seq<char>>, Option<Seq<char>>),
    Failed(ReadFailure),
    Unknown(u8),
}

pub open spec fn outcome_of_fields(data: Seq<u8>, pos: int, fs: Seq<Field>) -> PiggybackOutcome {
    match fields_end(data, pos, fs) {
        Ok(p) => PiggybackOutcome::Done(p, None, None),
        Err(e) => PiggybackOutcome::Failed(e),
    }
}

/// The synchronisation piggyback: counts, keyword/value pairs, flags.
pub open spec fn sync_outcome(data: Seq<u8>, pos: int) -> PiggybackOutcome {
    match fields_end(data, pos, seq![Field::Ub2, Field::U8]) {
        Err(e) => PiggybackOutcome::Failed(e),
        Ok(p) => match spec_read_ub(data, p, 2) {
            Err(e) => PiggybackOutcome::Failed(e),
            Ok((n, q)) => match fields_end(data, q, seq![Field::U8]) {
                Err(e) => PiggybackOutcome::Failed(e),
                Ok(q2) => match spec_keyword_pairs(data, q2, n) {
                    Err(e) => PiggybackOutcome::Failed(e),
                    Ok((q3, schema, edition)) => match fields_end(data, q3, seq![Field::Ub4]) {
                        Err(e) => PiggybackOutcome::Failed(e),
                        Ok(q4) => PiggybackOutcome::Done(q4, schema, edition),
                    },
                },
            },
        },
    }
}

/// The session state piggyback: counts, elements, flags, session id and
/// serial number.
pub open spec fn session_outcome(data: Seq<u8>, pos: int) -> PiggybackOutcome {
    match fields_end(data, pos, seq![Field::Ub2, Field::U8]) {
        Err(e) => PiggybackOutcome::Failed(e),
        Ok(p) => match spec_read_ub(data, p, 2) {
            Err(e) => PiggybackOutcome::Failed(e),
            Ok((n, q)) => {
                let after_elements = if n > 0 {
                    match fields_end(data, q, seq![Field::U8]) {
                        Err(e) => Err(e),
                        Ok(q2) => spec_session_elements(data, q2, n),
                    }
                } else {
                    Ok(q)
                };
                match after_elements {
                    Err(e) => PiggybackOutcome::Failed(e),
                    Ok(q3) => outcome_of_fields(data, q3, seq![Field::Ub4, Field::Ub4, Field::Ub2]),
                }
            },
        },
    }
}

/// Reading a server-side piggyback: an opcode, then the fields that the
/// opcode calls for.
pub open spec fn spec_piggyback(data: Seq<u8>, pos: int) -> PiggybackOutcome {
    match spec_read_u8(data, pos) {
        Err(e) => PiggybackOutcome::Failed(e),
        Ok((op, p)) => if op == constants::TTC_SERVER_PIGGYBACK_LTXID {
            outcome_of_fields(data, p, seq![Field::Bytes])
        } else if op == constants::TTC_SERVER_PIGGYBACK_QUERY_CACHE_INVALIDATION || op
            == constants::TTC_SERVER_PIGGYBACK_TRACE_EVENT {
            PiggybackOutcome::Done(p, None, None)
        } else if op == constants::TTC_SERVER_PIGGYBACK_OS_PID_MTS {
            outcome_of_fields(data, p, seq![Field::Ub2, Field::Bytes])
        } else if op == constants::TTC_SERVER_PIGGYBACK_SYNC {
            sync_outcome(data, p)
        } else if op == constants::TTC_SERVER_PIGGYBACK_EXT_SYNC {
            outcome_of_fields(data, p, seq![Field::Ub2, Field::U8])
        } else if op == constants::TTC_SERVER_PIGGYBACK_AC_REPLAY_CONTEXT {
            outcome_of_fields(
                data,
                p,
                seq![Field::Ub2, Field::U8, Field::Ub4, Field::Ub4, Field::U8, Field::Bytes],
            )
        } else if op == constants::TTC_SERVER_PIGGYBACK_SESS_RET {
            session_outcome(data, p)
        } else if op == constants::TTC_SERVER_PIGGYBACK_SESS_SIGNATURE {
            outcome_of_fields(data, p, seq![Field::Ub2, Field::U8, Field::Ub8, Field::Ub8, Field::Ub8])
        } else {
            PiggybackOutcome::Unknown(op)
        },
    }
}

/// The location of a position in the data of packets, counted from the
/// given packet number.
pub open spec fn spec_location(packets: Seq<Packet>, offset: int, packet_num: int) -> (int, int)
    decreases packets.len(),
{
    if packets.len() == 0 {
        (packet_num, offset)
    } else if offset <= packets[0].buf@.len() {
        (packet_num, offset + spec_header_size(packets[0].packet_type))
    } else {
        spec_location(
            packets.subrange(1, packets.len() as int),
            offset - packets[0].buf@.len(),
            packet_num + 1,
        )
    }
}

/// The number of bytes of a bit vector for a number of columns: one bit
/// per column.
pub open spec fn bit_vector_len(num_columns: nat) -> nat {
    if num_columns % 8 == 0 {
        num_columns / 8
    } else {
        num_columns / 8 + 1
    }
}

/// Whether a column's data is a duplicate of the previous row's: its bit is
/// clear. A column beyond the bit vector, or without one, has data.
pub open spec fn spec_is_duplicate_data(bit_vector: Option<Seq<u8>>, column_num: nat) -> bool {
    match bit_vector {
        Some(v) => (column_num / 8) < v.len() && (v[(column_num / 8) as int] >> (column_num % 8) as u8) & 1 == 0,
        None => false,
    }
}

/// What checking a response for an error returns: a cancelled operation
/// (ORA-01013, how the server reports a break), a database error with the
/// server's message, or nothing.
pub open spec fn is_error_check(error_info: Option<ErrorInfo>, r: Result<(), Error>) -> bool {
    match error_info {
        Some(info) => if info.num == constants::DB_ERR_NUM_USER_REQUESTED_CANCEL {
            r matches Err(e) && e@ is Cancelled
        } else if info.message@.len() > 0 {
            r matches Err(e) && e@ matches ErrorKind::DbError(m) && m@ == info.message@
        } else {
            r is Ok
        },
        None => r is Ok,
    }
}

pub struct Response {
    pub packets: Vec<Packet>,
    pub buf: ReadBuffer,
    pub error_info: Option<ErrorInfo>,
    pub edition: Option<String>,
    pub current_schema: Option<String>,
    pub warning: Option<String>,
    pub bit_vector: Option<Vec<u8>>,
    pub num_columns: usize,
    pub call_status: u32,
    pub end_of_fetch: bool,
    pub flush_out_binds: bool,
}

/// The view of an optional byte vector.
pub open spec fn opt_bytes(v: Option<Vec<u8>>) -> Option<Seq<u8>> {
    match v {
        Some(b) => Some(b@),
        None => None,
    }
}

/// The view of an optional text.
pub open spec fn opt_text(v: Option<String>) -> Option<Seq<char>> {
    match v {
        Some(s) => Some(s@),
        None => None,
    }
}

impl Response {
    /// `after` is `self` with only its read position moved.
    pub open spec fn only_buf_moved(self, after: Response) -> bool {
        after == (Response { buf: after.buf, ..self })
    }

    pub fn new() -> (r: Response)
        ensures
            r.packets@.len() == 0,
            r.buf.data().len() == 0,
            r.buf.pos() == 0,
            r.error_info is None,
            r.edition is None,
            r.current_schema is None,
            r.warning is None,
            r.bit_vector is None,
            r.num_columns == 0,
            r.call_status == 0,
            !r.end_of_fetch,
            !r.flush_out_binds,
    {
        let packets: Vec<Packet> = Vec::new();
        let buf = ReadBuffer::from_packets(packets.as_slice());
        Response {
            packets,
            buf,
            error_info: None,
            edition: None,
            current_schema: None,
            warning: None,
            bit_vector: None,
            num_columns: 0,
            call_status: 0,
            end_of_fetch: false,
            flush_out_binds: false,
        }
    }

    /// Adds packets to the response in preparation for an attempt at
    /// deserializing the database response. The response is parsed again
    /// from its start, so what an earlier attempt read is cleared.
    pub fn add_packets(&mut self, packets: Vec<Packet>)
        ensures
            final(self).packets@ == old(self).packets@ + packets@,
            final(self).buf.data() == packets_data(final(self).packets@),
            final(self).buf.pos() == 0,
            final(self).error_info is None,
            final(self).edition is None,
            final(self).current_schema is None,
            final(self).warning is None,
            final(self).bit_vector is None,
            !final(self).end_of_fetch,
            !final(self).flush_out_binds,
            final(self).num_columns == old(self).num_columns,
            final(self).call_status == old(self).call_status,
    {
        let mut packets = packets;
        let ghost added = packets@;
        let ghost before = self.packets@;
        self.packets.append(&mut packets);
        assert(self.packets@ =~= before + added);
        self.buf = ReadBuffer::from_packets(self.packets.as_slice());
        self.error_info = None;
        self.edition = None;
        self.current_schema = None;
        self.warning = None;
        self.bit_vector = None;
        self.end_of_fetch = false;
        self.flush_out_binds = false;
    }

    /// Skips `cnt` bytes.
    pub fn advance(&mut self, cnt: usize) -> (r: Result<(), Error>)
        ensures
            old(self).only_buf_moved(*final(self)),
            final(self).buf.data() == old(self).buf.data(),
            match spec_read_bytes(old(self).buf.data(), old(self).buf.pos(), cnt as nat) {
                Ok((_, next)) => r is Ok && final(self).buf.pos() == next,
                Err(f) => r matches Err(e) && is_read_failure(e, f),
            },
    {
        self.buf.read_bytes(cnt)?;
        Ok(())
    }

    /// Returns the call status of the response.
    pub fn call_status(&self) -> (r: u32)
        ensures
            r == self.call_status,
    {
        self.call_status
    }

    /// Checks for the end of a fetch: a query answered with "no data found"
    /// has reached the end of its rows; any other error is returned.
    pub fn check_for_end_of_fetch(&mut self, is_query: bool) -> (r: Result<(), Error>)
        ensures
            final(self).end_of_fetch == (old(self).end_of_fetch || (is_query && old(
                self,
            ).error_num() == constants::DB_ERR_NUM_NO_DATA_FOUND)),
            is_query && old(self).error_num() == constants::DB_ERR_NUM_NO_DATA_FOUND ==> r is Ok,
            !(is_query && old(self).error_num() == constants::DB_ERR_NUM_NO_DATA_FOUND)
                ==> is_error_check(old(self).error_info, r),
    {
        if self.get_error_num() == constants::DB_ERR_NUM_NO_DATA_FOUND && is_query {
            self.end_of_fetch = true;
            Ok(())
        } else {
            self.check_for_error()
        }
    }

    /// The cursor id that the server reported, zero when it reported none.
    pub open spec fn reported_cursor_id(self) -> u16 {
        match self.error_info {
            Some(info) => info.cursor_id,
            None => 0,
        }
    }

    /// The error number of the response, zero when there is none.
    pub open spec fn error_num(self) -> usize {
        match self.error_info {
            Some(info) => info.num,
            None => 0,
        }
    }

    /// Returns the error that the server reported, if any.
    pub fn check_for_error(&self) -> (r: Result<(), Error>)
        ensures
            is_error_check(self.error_info, r),
    {
        if let Some(error_info) = &self.error_info {
            // ORA-01013 ("user requested cancel of current operation") is how
            // the server reports an interrupt/break, so surface it as the
            // dedicated Cancelled kind instead of a generic database error.
            if error_info.num == constants::DB_ERR_NUM_USER_REQUESTED_CANCEL {
                return Err(Error::cancelled());
            }
            if !error_info.message.as_str().is_empty() {
                return Err(Error::db_error(error_info.message.clone()));
            }
        }
        Ok(())
    }

    pub fn get_cursor_id(&self) -> (r: u16)
        ensures
            r == self.reported_cursor_id(),
    {
        match &self.error_info {
            Some(error_info) => error_info.cursor_id,
            None => 0,
        }
    }

    pub fn get_error_num(&self) -> (r: usize)
        ensures
            r == self.error_num(),
    {
        match &self.error_info {
            Some(error_info) => error_info.num,
            None => 0,
        }
    }

    /// Returns whether or not the response requires out binds to be flushed.
    pub fn get_flush_out_binds(&self) -> (r: bool)
        ensures
            r == self.flush_out_binds,
    {
        self.flush_out_binds
    }

    /// Returns the packet flags of the first packet of the response.
    pub fn get_packet_flags(&self) -> (r: u8)
        requires
            self.packets@.len() > 0,
        ensures
            r == self.packets@[0].packet_flags,
    {
        self.packets[0].packet_flags
    }

    /// Returns the packet type of the first packet of the response.
    pub fn get_packet_type(&self) -> (r: u8)
        requires
            self.packets@.len() > 0,
        ensures
            r == self.packets@[0].packet_type,
    {
        self.packets[0].packet_type
    }

    /// Returns the rowcount returned by the database.
    pub fn get_rowcount(&self) -> (r: u64)
        ensures
            r == match self.error_info {
                Some(info) => info.rowcount,
                None => 0,
            },
    {
        match &self.error_info {
            Some(error_info) => error_info.rowcount,
            None => 0,
        }
    }

    /// Returns whether the data of a column is a duplicate of that of the
    /// previous row (its bit in the bit vector is clear). A column beyond a
    /// short bit vector, or with no bit vector, has data.
    pub fn is_duplicate_data(&self, column_num: usize) -> (r: bool)
        ensures
            r == spec_is_duplicate_data(opt_bytes(self.bit_vector), column_num as nat),
    {
        match &self.bit_vector {
            Some(bit_vector) => {
                let byte_num = column_num / 8;
                let bit_num = (column_num % 8) as u8;
                if byte_num < bit_vector.len() {
                    (bit_vector[byte_num] >> bit_num) & 1 == 0
                } else {
                    false
                }
            },
            None => false,
        }
    }

    pub fn is_end_of_fetch(&self) -> (r: bool)
        ensures
            r == self.end_of_fetch,
    {
        self.end_of_fetch
    }

    /// Specifies that the response requires out binds to be flushed. The
    /// packet data is cleared as well since the real response comes after the
    /// flush out binds packet is sent.
    pub fn set_flush_out_binds(&mut self)
        ensures
            final(self).flush_out_binds,
            final(self).packets@.len() == 0,
            final(self).buf == old(self).buf,
            final(self).num_columns == old(self).num_columns,
    {
        self.flush_out_binds = true;
        self.packets.clear();
    }

    pub fn set_num_columns(&mut self, num_columns: usize)
        ensures
            *final(self) == (Response { num_columns, ..*old(self) }),
    {
        self.num_columns = num_columns;
    }

    /// Takes the warning from the response and returns it.
    pub fn take_warning(&mut self) -> (r: Option<String>)
        ensures
            opt_text(r) == opt_text(old(self).warning),
            final(self).warning is None,
    {
        self.warning.take()
    }

    /// Returns an error indicating that an unknown TTC message type was
    /// encountered, with the packet number and offset into the packet where
    /// it was, to aid in debugging.
    pub fn unknown_ttc_message_type(&self, message_type: u8) -> (e: Error)
        requires
            self.buf.pos() <= packets_data(self.packets@).len(),
            packets_data(self.packets@).len() + 10 <= usize::MAX,
        ensures
            e@ matches ErrorKind::UnknownTtcMessageType(t, loc) && t == message_type && (
            loc.packet_num as int,
            loc.offset as int,
            ) == spec_location(self.packets@, self.buf.pos(), 1),
    {
        Error::unknown_ttc_message_type(message_type, self.current_location())
    }

    /// The last of two values: the update when there is one.
    pub open spec fn updated(update: Option<Seq<char>>, current: Option<String>) -> Option<Seq<char>> {
        match update {
            Some(u) => Some(u),
            None => opt_text(current),
        }
    }

    /// Reads the bit vector of a row: the number of columns the server sent
    /// (used only when the column count is not yet known), then one bit per
    /// column.
    pub fn deserialize_bit_vector(&mut self) -> (r: Result<(), Error>)
        ensures
            final(self).buf.data() == old(self).buf.data(),
            match spec_read_ub(old(self).buf.data(), old(self).buf.pos(), 2) {
                Err(f) => r matches Err(e) && is_read_failure(e, f),
                Ok((sent, p)) => {
                    let n = if old(self).num_columns == 0 {
                        sent
                    } else {
                        old(self).num_columns as nat
                    };
                    &&& final(self).num_columns == n
                    &&& match spec_read_bytes(old(self).buf.data(), p, bit_vector_len(n)) {
                        Ok((v, q)) => r is Ok && opt_bytes(final(self).bit_vector) == Some(v)
                            && final(self).buf.pos() == q,
                        Err(f) => r matches Err(e) && is_read_failure(e, f),
                    }
                },
            },
    {
        // The wire field is the number of columns the server chose to send and
        // is informational: the bitmap always covers the statement's full
        // column count (`num_columns`, set from the metadata before rows are
        // read). Fall back to the wire value only when the count is unknown.
        let num_columns_sent = self.buf.read_ub2()? as usize;
        if self.num_columns == 0 {
            self.num_columns = num_columns_sent;
        }
        let mut num_bytes = self.num_columns / 8;
        if self.num_columns % 8 != 0 {
            num_bytes = num_bytes + 1;
        }
        let bit_vector = self.buf.read_bytes(num_bytes)?;
        self.bit_vector = Some(bit_vector);
        Ok(())
    }

    /// Reads the bit vector of an I/O vector: a length, then (unless it is
    /// zero) length-prefixed bytes.
    pub fn read_bit_vector(&mut self) -> (r: Result<(), Error>)
        ensures
            final(self).buf.data() == old(self).buf.data(),
            match spec_read_ub(old(self).buf.data(), old(self).buf.pos(), 4) {
                Err(f) => r matches Err(e) && is_read_failure(e, f),
                Ok((n, p)) => if n == 0 {
                    r is Ok && final(self).bit_vector is None && final(self).buf.pos() == p
                } else {
                    match spec_read_bytes_with_length(old(self).buf.data(), p) {
                        Ok((v, q)) => r is Ok && opt_bytes(final(self).bit_vector) == Some(v)
                            && final(self).buf.pos() == q,
                        Err(f) => r matches Err(e) && is_read_failure(e, f),
                    }
                },
            },
    {
        let num_bytes = self.buf.read_ub4()?;
        if num_bytes == 0 {
            self.bit_vector = None;
        } else {
            let bit_vector = self.buf.read_bytes_with_length()?;
            self.bit_vector = Some(bit_vector);
        }
        Ok(())
    }

    /// Reads the call status (and the sequence number that follows it).
    pub fn deserialize_status(&mut self) -> (r: Result<(), Error>)
        ensures
            final(self).buf.data() == old(self).buf.data(),
            match spec_read_ub(old(self).buf.data(), old(self).buf.pos(), 4) {
                Err(f) => r matches Err(e) && is_read_failure(e, f),
                Ok((status, p)) => final(self).call_status == status && match spec_read_ub(
                    old(self).buf.data(),
                    p,
                    2,
                ) {
                    Ok((_, q)) => r is Ok && final(self).buf.pos() == q,
                    Err(f) => r matches Err(e) && is_read_failure(e, f),
                },
            },
    {
        self.call_status = self.buf.read_ub4()?;
        let _seq_num = self.buf.read_ub2()?;
        Ok(())
    }

    /// Reads a warning: its number, the length of its message and flags,
    /// then (with a non-zero number and length) the message, which is kept
    /// without trailing white space.
    pub fn deserialize_warning(&mut self) -> (r: Result<(), Error>)
        ensures
            final(self).buf.data() == old(self).buf.data(),
            match spec_read_ub(old(self).buf.data(), old(self).buf.pos(), 2) {
                Err(f) => r matches Err(e) && is_read_failure(e, f),
                Ok((error_num, p1)) => match spec_read_ub(old(self).buf.data(), p1, 2) {
                    Err(f) => r matches Err(e) && is_read_failure(e, f),
                    Ok((num_bytes, p2)) => match spec_read_ub(old(self).buf.data(), p2, 2) {
                        Err(f) => r matches Err(e) && is_read_failure(e, f),
                        Ok((_, p3)) => if error_num != 0 && num_bytes > 0 {
                            match spec_read_bytes_with_length(old(self).buf.data(), p3) {
                                Err(f) => r matches Err(e) && is_read_failure(e, f),
                                Ok((v, q)) => if valid_utf8(v) {
                                    &&& r is Ok
                                    &&& final(self).buf.pos() == q
                                    &&& opt_text(final(self).warning) == Some(
                                        trim_end_chars(decode_utf8(v)),
                                    )
                                } else {
                                    r matches Err(e) && is_read_failure(e, ReadFailure::InvalidEncoding)
                                },
                            }
                        } else {
                            r is Ok && final(self).buf.pos() == p3 && opt_text(final(self).warning)
                                == opt_text(old(self).warning)
                        },
                    },
                },
            },
    {
        let error_num = self.buf.read_ub2()?;
        let num_bytes = self.buf.read_ub2()?;
        let _flags = self.buf.read_ub2()?;
        if error_num != 0 && num_bytes > 0 {
            let message = self.buf.read_utf8_with_length()?;
            self.warning = Some(trim_end_text(message.as_str()));
        }
        Ok(())
    }

    /// Reads keyword/value pairs, keeping the current schema and edition
    /// that they name.
    pub fn process_keyword_value_pairs(&mut self, num_pairs: u16) -> (r: Result<(), Error>)
        ensures
            final(self).buf.data() == old(self).buf.data(),
            *final(self) == (Response {
                buf: final(self).buf,
                current_schema: final(self).current_schema,
                edition: final(self).edition,
                ..*old(self)
            }),
            match spec_keyword_pairs(old(self).buf.data(), old(self).buf.pos(), num_pairs as nat) {
                Err(f) => r matches Err(e) && is_read_failure(e, f),
                Ok((p, schema, edition)) => {
                    &&& r is Ok
                    &&& final(self).buf.pos() == p
                    &&& opt_text(final(self).current_schema) == Self::updated(schema, old(self).current_schema)
                    &&& opt_text(final(self).edition) == Self::updated(edition, old(self).edition)
                },
            },
    {
        let ghost data = self.buf.data();
        let ghost start = self.buf.pos();
        let ghost mut schema: Option<Seq<char>> = None;
        let ghost mut edition: Option<Seq<char>> = None;
        let mut i: u16 = 0;
        while i < num_pairs
            invariant
                i <= num_pairs,
                data == old(self).buf.data(),
                start == old(self).buf.pos(),
                self.buf.data() == data,
                spec_keyword_pairs(data, start, i as nat) == Ok::<
                    (int, Option<Seq<char>>, Option<Seq<char>>),
                    ReadFailure,
                >((self.buf.pos(), schema, edition)),
                opt_text(self.current_schema) == Self::updated(schema, old(self).current_schema),
                opt_text(self.edition) == Self::updated(edition, old(self).edition),
                *self == (Response {
                    buf: self.buf,
                    current_schema: self.current_schema,
                    edition: self.edition,
                    ..*old(self)
                }),
            decreases num_pairs - i,
        {
            let text_value = match self.buf.read_utf8_with_double_length() {
                Ok(t) => t,
                Err(e) => {
                    proof { lemma_keyword_pairs_stop(data, start, (i + 1) as nat, num_pairs as nat); }
                    return Err(e);
                },
            };
            let _binary_value = match self.buf.read_bytes_with_double_length() {
                Ok(b) => b,
                Err(e) => {
                    proof { lemma_keyword_pairs_stop(data, start, (i + 1) as nat, num_pairs as nat); }
                    return Err(e);
                },
            };
            let keyword_num = match self.buf.read_ub2() {
                Ok(k) => k,
                Err(e) => {
                    proof { lemma_keyword_pairs_stop(data, start, (i + 1) as nat, num_pairs as nat); }
                    return Err(e);
                },
            };
            if keyword_num == constants::TTC_KEYWORD_NUM_CURRENT_SCHEMA {
                proof { schema = Some(text_value@); }
                self.current_schema = Some(text_value);
            } else if keyword_num == constants::TTC_KEYWORD_NUM_EDITION {
                proof { edition = Some(text_value@); }
                self.edition = Some(text_value);
            }
            i = i + 1;
        }
        Ok(())
    }

    /// Reads the fields of a piggyback that the client does not keep.
    fn skip_fields(&mut self, fs: &[Field]) -> (r: Result<(), Error>)
        ensures
            final(self).buf.data() == old(self).buf.data(),
            opt_text(final(self).current_schema) == opt_text(old(self).current_schema),
            opt_text(final(self).edition) == opt_text(old(self).edition),
            match fields_end(old(self).buf.data(), old(self).buf.pos(), fs@) {
                Ok(p) => r is Ok && final(self).buf.pos() == p,
                Err(f) => r matches Err(e) && is_read_failure(e, f),
            },
    {
        let ghost data = self.buf.data();
        let mut i: usize = 0;
        assert(fs@.subrange(0, fs@.len() as int) =~= fs@);
        while i < fs.len()
            invariant
                i <= fs@.len(),
                data == old(self).buf.data(),
                self.buf.data() == data,
                opt_text(self.current_schema) == opt_text(old(self).current_schema),
                opt_text(self.edition) == opt_text(old(self).edition),
                fields_end(data, old(self).buf.pos(), fs@) == fields_end(
                    data,
                    self.buf.pos(),
                    fs@.subrange(i as int, fs@.len() as int),
                ),
            decreases fs@.len() - i,
        {
            let ghost rest = fs@.subrange(i as int, fs@.len() as int);
            assert(rest.subrange(1, rest.len() as int) =~= fs@.subrange(i + 1, fs@.len() as int));
            assert(rest[0] == fs@[i as int]);
            match &fs[i] {
                Field::U8 => {
                    self.buf.read_u8()?;
                },
                Field::Ub2 => {
                    self.buf.read_ub2()?;
                },
                Field::Ub4 => {
                    self.buf.read_ub4()?;
                },
                Field::Ub8 => {
                    self.buf.read_ub8()?;
                },
                Field::Bytes => {
                    self.buf.read_bytes_with_length()?;
                },
            }
            i = i + 1;
        }
        Ok(())
    }

    /// Reads the elements of a session state piggyback.
    fn skip_session_elements(&mut self, n: u16) -> (r: Result<(), Error>)
        ensures
            final(self).buf.data() == old(self).buf.data(),
            opt_text(final(self).current_schema) == opt_text(old(self).current_schema),
            opt_text(final(self).edition) == opt_text(old(self).edition),
            match spec_session_elements(old(self).buf.data(), old(self).buf.pos(), n as nat) {
                Ok(p) => r is Ok && final(self).buf.pos() == p,
                Err(f) => r matches Err(e) && is_read_failure(e, f),
            },
    {
        let ghost data = self.buf.data();
        let ghost start = self.buf.pos();
        let mut i: u16 = 0;
        while i < n
            invariant
                i <= n,
                data == old(self).buf.data(),
                start == old(self).buf.pos(),
                self.buf.data() == data,
                opt_text(self.current_schema) == opt_text(old(self).current_schema),
                opt_text(self.edition) == opt_text(old(self).edition),
                spec_session_elements(data, start, i as nat) == Ok::<int, ReadFailure>(self.buf.pos()),
            decreases n - i,
        {
            let r = self.skip_session_element();
            if r.is_err() {
                proof { lemma_session_elements_stop(data, start, (i + 1) as nat, n as nat); }
                return r;
            }
            i = i + 1;
        }
        Ok(())
    }

    /// Reads one element of a session state piggyback.
    fn skip_session_element(&mut self) -> (r: Result<(), Error>)
        ensures
            final(self).buf.data() == old(self).buf.data(),
            opt_text(final(self).current_schema) == opt_text(old(self).current_schema),
            opt_text(final(self).edition) == opt_text(old(self).edition),
            match spec_session_element(old(self).buf.data(), old(self).buf.pos()) {
                Ok(p) => r is Ok && final(self).buf.pos() == p,
                Err(f) => r matches Err(e) && is_read_failure(e, f),
            },
    {
        if self.buf.read_ub2()? > 0 {
            let _key = self.buf.read_bytes_with_length()?;
        }
        if self.buf.read_ub2()? > 0 {
            let _value = self.buf.read_bytes_with_length()?;
        }
        let _session_flags = self.buf.read_ub2()?;
        Ok(())
    }

    /// Deserializes a server side piggyback. These contain data from the
    /// server on which the client may need to operate.
    pub fn deserialize_server_side_piggyback(&mut self) -> (r: Result<(), Error>)
        ensures
            final(self).buf.data() == old(self).buf.data(),
            match spec_piggyback(old(self).buf.data(), old(self).buf.pos()) {
                PiggybackOutcome::Done(p, schema, edition) => {
                    &&& r is Ok
                    &&& final(self).buf.pos() == p
                    &&& opt_text(final(self).current_schema) == Self::updated(schema, old(self).current_schema)
                    &&& opt_text(final(self).edition) == Self::updated(edition, old(self).edition)
                },
                PiggybackOutcome::Failed(f) => r matches Err(e) && is_read_failure(e, f),
                PiggybackOutcome::Unknown(op) => r matches Err(e) && e@
                    == ErrorKind::UnknownServerSidePiggyback(op),
            },
    {
        let opcode = self.buf.read_u8()?;
        if opcode == constants::TTC_SERVER_PIGGYBACK_LTXID {
            let fs = [Field::Bytes];
            assert(fs@ =~= seq![Field::Bytes]);
            self.skip_fields(fs.as_slice())
        } else if opcode == constants::TTC_SERVER_PIGGYBACK_QUERY_CACHE_INVALIDATION || opcode
            == constants::TTC_SERVER_PIGGYBACK_TRACE_EVENT {
            Ok(())
        } else if opcode == constants::TTC_SERVER_PIGGYBACK_OS_PID_MTS {
            let fs = [Field::Ub2, Field::Bytes];
            assert(fs@ =~= seq![Field::Ub2, Field::Bytes]);
            self.skip_fields(fs.as_slice())
        } else if opcode == constants::TTC_SERVER_PIGGYBACK_SYNC {
            let fs = [Field::Ub2, Field::U8];
            assert(fs@ =~= seq![Field::Ub2, Field::U8]);
            self.skip_fields(fs.as_slice())?;
            let num_elements = self.buf.read_ub2()?;
            let fs1 = [Field::U8];
            assert(fs1@ =~= seq![Field::U8]);
            self.skip_fields(fs1.as_slice())?;
            self.process_keyword_value_pairs(num_elements)?;
            let fs2 = [Field::Ub4];
            assert(fs2@ =~= seq![Field::Ub4]);
            self.skip_fields(fs2.as_slice())
        } else if opcode == constants::TTC_SERVER_PIGGYBACK_EXT_SYNC {
            let fs = [Field::Ub2, Field::U8];
            assert(fs@ =~= seq![Field::Ub2, Field::U8]);
            self.skip_fields(fs.as_slice())
        } else if opcode == constants::TTC_SERVER_PIGGYBACK_AC_REPLAY_CONTEXT {
            let fs = [Field::Ub2, Field::U8, Field::Ub4, Field::Ub4, Field::U8, Field::Bytes];
            assert(fs@ =~= seq![Field::Ub2, Field::U8, Field::Ub4, Field::Ub4, Field::U8, Field::Bytes]);
            self.skip_fields(fs.as_slice())
        } else if opcode == constants::TTC_SERVER_PIGGYBACK_SESS_RET {
            let fs = [Field::Ub2, Field::U8];
            assert(fs@ =~= seq![Field::Ub2, Field::U8]);
            self.skip_fields(fs.as_slice())?;
            let num_elements = self.buf.read_ub2()?;
            if num_elements > 0 {
                let fs1 = [Field::U8];
                assert(fs1@ =~= seq![Field::U8]);
                self.skip_fields(fs1.as_slice())?;
                self.skip_session_elements(num_elements)?;
            }
            let fs2 = [Field::Ub4, Field::Ub4, Field::Ub2];
            assert(fs2@ =~= seq![Field::Ub4, Field::Ub4, Field::Ub2]);
            self.skip_fields(fs2.as_slice())
        } else if opcode == constants::TTC_SERVER_PIGGYBACK_SESS_SIGNATURE {
            let fs = [Field::Ub2, Field::U8, Field::Ub8, Field::Ub8, Field::Ub8];
            assert(fs@ =~= seq![Field::Ub2, Field::U8, Field::Ub8, Field::Ub8, Field::Ub8]);
            self.skip_fields(fs.as_slice())
        } else {
            Err(Error::unknown_server_side_piggyback(opcode))
        }
    }

    /// Reads `n` bytes.
    pub fn read_bytes(&mut self, n: usize) -> (r: Result<Vec<u8>, Error>)
        ensures
            old(self).only_buf_moved(*final(self)),
            final(self).buf.data() == old(self).buf.data(),
            match spec_read_bytes(old(self).buf.data(), old(self).buf.pos(), n as nat) {
                Ok((v, next)) => r matches Ok(b) && b@ == v && final(self).buf.pos() == next,
                Err(f) => r matches Err(e) && is_read_failure(e, f),
            },
    {
        self.buf.read_bytes(n)
    }

    pub fn read_u8(&mut self) -> (r: Result<u8, Error>)
        ensures
            old(self).only_buf_moved(*final(self)),
            final(self).buf.data() == old(self).buf.data(),
            match spec_read_u8(old(self).buf.data(), old(self).buf.pos()) {
                Ok((v, next)) => r == Ok::<u8, Error>(v) && final(self).buf.pos() == next,
                Err(f) => r matches Err(e) && is_read_failure(e, f),
            },
    {
        self.buf.read_u8()
    }

    /// A length byte: the short length of the TTC encoding.
    pub fn read_short_length(&mut self) -> (r: Result<u8, Error>)
        ensures
            old(self).only_buf_moved(*final(self)),
            final(self).buf.data() == old(self).buf.data(),
            match spec_read_u8(old(self).buf.data(), old(self).buf.pos()) {
                Ok((v, next)) => r == Ok::<u8, Error>(v) && final(self).buf.pos() == next,
                Err(f) => r matches Err(e) && is_read_failure(e, f),
            },
    {
        self.buf.read_short_length()
    }

    /// A 16-bit big-endian value.
    pub fn read_u16be(&mut self) -> (r: Result<u16, Error>)
        ensures
            old(self).only_buf_moved(*final(self)),
            final(self).buf.data() == old(self).buf.data(),
            match spec_read_bytes(old(self).buf.data(), old(self).buf.pos(), 2) {
                Ok((v, next)) => r == Ok::<u16, Error>(be_value(v) as u16) && final(self).buf.pos() == next,
                Err(f) => r matches Err(e) && is_read_failure(e, f),
            },
    {
        self.buf.read_u16be()
    }

    /// A 16-bit little-endian value.
    pub fn read_u16le(&mut self) -> (r: Result<u16, Error>)
        ensures
            old(self).only_buf_moved(*final(self)),
            final(self).buf.data() == old(self).buf.data(),
            match spec_read_bytes(old(self).buf.data(), old(self).buf.pos(), 2) {
                Ok((v, next)) => r == Ok::<u16, Error>((v[1] as int * 256 + v[0] as int) as u16)
                    && final(self).buf.pos() == next,
                Err(f) => r matches Err(e) && is_read_failure(e, f),
            },
    {
        self.buf.read_u16le()
    }

    /// A 32-bit big-endian value.
    pub fn read_u32be(&mut self) -> (r: Result<u32, Error>)
        ensures
            old(self).only_buf_moved(*final(self)),
            final(self).buf.data() == old(self).buf.data(),
            match spec_read_bytes(old(self).buf.data(), old(self).buf.pos(), 4) {
                Ok((v, next)) => r == Ok::<u32, Error>(be_value(v) as u32) && final(self).buf.pos() == next,
                Err(f) => r matches Err(e) && is_read_failure(e, f),
            },
    {
        self.buf.read_u32be()
    }

    /// A variable-length unsigned integer of at most two bytes.
    pub fn read_ub2(&mut self) -> (r: Result<u16, Error>)
        ensures
            old(self).only_buf_moved(*final(self)),
            final(self).buf.data() == old(self).buf.data(),
            match spec_read_ub(old(self).buf.data(), old(self).buf.pos(), 2) {
                Ok((v, next)) => r == Ok::<u16, Error>(v as u16) && v < 0x10000
                    && final(self).buf.pos() == next,
                Err(f) => r matches Err(e) && is_read_failure(e, f),
            },
    {
        self.buf.read_ub2()
    }

    /// A variable-length unsigned integer of at most four bytes.
    pub fn read_ub4(&mut self) -> (r: Result<u32, Error>)
        ensures
            old(self).only_buf_moved(*final(self)),
            final(self).buf.data() == old(self).buf.data(),
            match spec_read_ub(old(self).buf.data(), old(self).buf.pos(), 4) {
                Ok((v, next)) => r == Ok::<u32, Error>(v as u32) && v < 0x100000000
                    && final(self).buf.pos() == next,
                Err(f) => r matches Err(e) && is_read_failure(e, f),
            },
    {
        self.buf.read_ub4()
    }

    /// A variable-length unsigned integer of at most eight bytes.
    pub fn read_ub8(&mut self) -> (r: Result<u64, Error>)
        ensures
            old(self).only_buf_moved(*final(self)),
            final(self).buf.data() == old(self).buf.data(),
            match spec_read_ub(old(self).buf.data(), old(self).buf.pos(), 8) {
                Ok((v, next)) => r == Ok::<u64, Error>(v as u64) && final(self).buf.pos() == next,
                Err(f) => r matches Err(e) && is_read_failure(e, f),
            },
    {
        self.buf.read_ub8()
    }

    /// Length-prefixed bytes.
    pub fn read_bytes_with_length(&mut self) -> (r: Result<Vec<u8>, Error>)
        ensures
            old(self).only_buf_moved(*final(self)),
            final(self).buf.data() == old(self).buf.data(),
            match spec_read_bytes_with_length(old(self).buf.data(), old(self).buf.pos()) {
                Ok((v, next)) => r matches Ok(b) && b@ == v && final(self).buf.pos() == next,
                Err(f) => r matches Err(e) && is_read_failure(e, f),
            },
    {
        self.buf.read_bytes_with_length()
    }

    /// A length, then (unless it is zero) length-prefixed bytes.
    pub fn read_bytes_with_double_length(&mut self) -> (r: Result<Vec<u8>, Error>)
        ensures
            old(self).only_buf_moved(*final(self)),
            final(self).buf.data() == old(self).buf.data(),
            match spec_read_bytes_with_double_length(old(self).buf.data(), old(self).buf.pos()) {
                Ok((v, next)) => r matches Ok(b) && b@ == v && final(self).buf.pos() == next,
                Err(f) => r matches Err(e) && is_read_failure(e, f),
            },
    {
        self.buf.read_bytes_with_double_length()
    }

    /// `n` bytes of UTF-8 text.
    pub fn read_utf8(&mut self, n: usize) -> (r: Result<String, Error>)
        ensures
            old(self).only_buf_moved(*final(self)),
            final(self).buf.data() == old(self).buf.data(),
            match spec_read_bytes(old(self).buf.data(), old(self).buf.pos(), n as nat) {
                Ok((v, next)) => final(self).buf.pos() == next && if valid_utf8(v) {
                    r matches Ok(s) && s@ == decode_utf8(v)
                } else {
                    r matches Err(e) && is_read_failure(e, ReadFailure::InvalidEncoding)
                },
                Err(f) => r matches Err(e) && is_read_failure(e, f),
            },
    {
        self.buf.read_utf8(n)
    }

    /// Length-prefixed UTF-8 text.
    pub fn read_utf8_with_length(&mut self) -> (r: Result<String, Error>)
        ensures
            old(self).only_buf_moved(*final(self)),
            final(self).buf.data() == old(self).buf.data(),
            match spec_read_bytes_with_length(old(self).buf.data(), old(self).buf.pos()) {
                Ok((v, next)) => final(self).buf.pos() == next && if valid_utf8(v) {
                    r matches Ok(s) && s@ == decode_utf8(v)
                } else {
                    r matches Err(e) && is_read_failure(e, ReadFailure::InvalidEncoding)
                },
                Err(f) => r matches Err(e) && is_read_failure(e, f),
            },
    {
        self.buf.read_utf8_with_length()
    }

    /// UTF-8 text with a double length.
    pub fn read_utf8_with_double_length(&mut self) -> (r: Result<String, Error>)
        ensures
            old(self).only_buf_moved(*final(self)),
            final(self).buf.data() == old(self).buf.data(),
            match spec_read_bytes_with_double_length(old(self).buf.data(), old(self).buf.pos()) {
                Ok((v, next)) => final(self).buf.pos() == next && if valid_utf8(v) {
                    r matches Ok(s) && s@ == decode_utf8(v)
                } else {
                    r matches Err(e) && is_read_failure(e, ReadFailure::InvalidEncoding)
                },
                Err(f) => r matches Err(e) && is_read_failure(e, f),
            },
    {
        self.buf.read_utf8_with_double_length()
    }

    /// Returns the current location in the response.
    pub fn current_location(&self) -> (r: ResponseLocation)
        requires
            self.buf.pos() <= packets_data(self.packets@).len(),
            packets_data(self.packets@).len() + 10 <= usize::MAX,
        ensures
            (r.packet_num as int, r.offset as int) == spec_location(self.packets@, self.buf.pos(), 1),
    {
        let mut packet_num: usize = 1;
        let mut offset = self.buf.get_pos();
        let mut i: usize = 0;
        proof { lemma_packets_data_split(self.packets@, 0); }
        assert(self.packets@.subrange(0, self.packets@.len() as int) =~= self.packets@);
        while i < self.packets.len()
            invariant
                i <= self.packets@.len(),
                packet_num == i + 1,
                offset <= packets_data(self.packets@.subrange(i as int, self.packets@.len() as int)).len(),
                packets_data(self.packets@.subrange(i as int, self.packets@.len() as int)).len() + 10
                    <= usize::MAX,
                spec_location(self.packets@, self.buf.pos(), 1) == spec_location(
                    self.packets@.subrange(i as int, self.packets@.len() as int),
                    offset as int,
                    packet_num as int,
                ),
            decreases self.packets@.len() - i,
        {
            let ghost rest = self.packets@.subrange(i as int, self.packets@.len() as int);
            proof { lemma_packets_data_split(rest, 1); }
            let len = self.packets[i].buf.len();
            if offset <= len {
                let header = self.packets[i].header_size();
                assert(rest[0] == self.packets@[i as int]);
                return ResponseLocation { packet_num, offset: offset + header };
            }
            assert(rest.subrange(1, rest.len() as int) =~= self.packets@.subrange(
                i + 1,
                self.packets@.len() as int,
            ));
            packet_num = packet_num + 1;
            offset = offset - len;
            i = i + 1;
        }
        ResponseLocation { packet_num, offset }
    }
}

proof fn lemma_keyword_pairs_stop(data: Seq<u8>, pos: int, i: nat, n: nat)
    requires
        i <= n,
        spec_keyword_pairs(data, pos, i) is Err,
    ensures
        spec_keyword_pairs(data, pos, n) == spec_keyword_pairs(data, pos, i),
    decreases n,
{
    if n > i {
        lemma_keyword_pairs_stop(data, pos, i, (n - 1) as nat);
    }
}

proof fn lemma_session_elements_stop(data: Seq<u8>, pos: int, i: nat, n: nat)
    requires
        i <= n,
        spec_session_elements(data, pos, i) is Err,
    ensures
        spec_session_elements(data, pos, n) == spec_session_elements(data, pos, i),
    decreases n,
{
    if n > i {
        lemma_session_elements_stop(data, pos, i, (n - 1) as nat);
    }
}

/// The data of packets is that of the first ones followed by that of the
/// others.
pub proof fn lemma_packets_data_split(packets: Seq<Packet>, k: int)
    requires
        0 <= k <= packets.len(),
    ensures
        packets_data(packets) == packets_data(packets.subrange(0, k)) + packets_data(
            packets.subrange(k, packets.len() as int),
        ),
        k == 1 ==> packets_data(packets.subrange(0, 1)) == packets[0].buf@,
    decreases packets.len(),
{
    if k == packets.len() {
        assert(packets.subrange(0, k) =~= packets);
        assert(packets_data(packets.subrange(k, packets.len() as int)) =~= Seq::<u8>::empty());
    } else {
        let n = packets.len();
        lemma_packets_data_split(packets.drop_last(), k);
        assert(packets.drop_last().subrange(0, k) =~= packets.subrange(0, k));
        assert(packets.subrange(k, n as int).drop_last() =~= packets.drop_last().subrange(k, n - 1));
    }
    if k == 1 {
        assert(packets.subrange(0, 1).drop_last() =~= Seq::<Packet>::empty());
        assert(packets_data(Seq::<Packet>::empty()) =~= Seq::<u8>::empty());
        assert(packets_data(packets.subrange(0, 1)) =~= packets[0].buf@);
    }
}

} // verus!
