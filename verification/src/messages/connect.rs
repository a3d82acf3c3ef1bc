//! The connect message: the first message sent while establishing a
//! connection, and the listener's answers to it (accept, refuse, resend and
//! redirect).

use vstd::prelude::*;
use vstd::utf8::{decode_utf8, encode_scalar, encode_utf8, valid_utf8};

use crate::client::capabilities::{GSO_CAN_RECV_ATTENTION, OOB_PLATFORM};
use crate::constants;
use crate::crypto::be_value;
use crate::error::{Error, ErrorKind};
use crate::packet::be16;
use crate::bytes::bytes_equal;
use crate::utf8::utf8_to_string;
use crate::read_buffer::{is_read_failure, lemma_be_value_two, spec_read_bytes, ReadFailure};
use crate::response::Response;
use crate::text::{parse_unsigned, parse_usize};
use crate::write_buffer::{be16_bytes, be32_bytes, be64_bytes, WriteBuffer};

verus! {

/// Global service option: no preference.
pub const GSO_DONT_CARE: u16 = 0x0001;

/// Second connect flags: the client checks for out-of-band breaks.
pub const TNS_CHECK_OOB: u32 = 0x01;

/// NSI flag: native network authentication disabled.
pub const NSI_DISABLE_NA: u8 = 0x04;

/// NSI flag: native network authentication required.
pub const NSI_NA_REQUIRED: u8 = 0x10;

/// NSI flag: security renegotiation supported.
pub const NSI_SUPPORT_SECURITY_RENEG: u8 = 0x80;

/// The protocol characteristics announced by the client.
pub const PROTOCOL_CHARACTERISTICS: u16 = 0x4f98;

/// The longest connect data sent in the connect packet itself; longer data
/// follows in a packet of its own.
pub const MAX_CONNECT_DATA: usize = 230;

/// The listener address a connect message goes to.
pub struct Address {
    pub host: String,
    pub port: u16,
}

/// What the connect description tells the connect message.
pub struct Description {
    pub connection_id: String,
    pub service_name: String,
    pub sid: String,
    pub sdu: u32,
}

pub struct ConnectMessage<'a> {
    pub connect_data: &'a str,
    pub description: &'a Description,
    pub address: &'a Address,
    pub packet_flags: u8,
    pub sdu: u32,
    pub protocol_version: u16,
    pub protocol_options: u16,
    pub protocol_flags: u32,
    pub accepted: bool,
    pub tls_renegotiation_needed: bool,
    pub redirect_data: Option<String>,
    pub redirect_data_len: u16,
}

/// Why an accept packet is not taken.
pub enum AcceptFailure {
    /// The packet ends before its fields.
    OutOfData,
    /// The server's protocol version is older than 12.
    VersionNotSupported,
    /// The server requires native network authentication.
    NaRequired,
}

/// The connect message after reading an accept packet at `p`: the protocol
/// version and options, the NSI flags (byte 14), the SDU (bytes 24 to 27)
/// and, from protocol version 18, the protocol flags (bytes 33 to 36). The
/// fields read before a failure keep the values read.
pub open spec fn accept_result<'a>(m: ConnectMessage<'a>, d: Seq<u8>, p: int) -> (ConnectMessage<'a>, Result<(), AcceptFailure>) {
    if d.len() < p + 2 {
        (m, Err(AcceptFailure::OutOfData))
    } else {
        let version = be16(d[p], d[p + 1]) as u16;
        let m1 = ConnectMessage { protocol_version: version, ..m };
        if version < constants::PROTOCOL_VERSION_12 {
            (m1, Err(AcceptFailure::VersionNotSupported))
        } else if d.len() < p + 4 {
            (m1, Err(AcceptFailure::OutOfData))
        } else {
            let m2 = ConnectMessage { protocol_options: be16(d[p + 2], d[p + 3]) as u16, ..m1 };
            if d.len() < p + 15 {
                (m2, Err(AcceptFailure::OutOfData))
            } else if d[p + 14] & NSI_NA_REQUIRED != 0 {
                (m2, Err(AcceptFailure::NaRequired))
            } else if d.len() < p + 28 {
                (m2, Err(AcceptFailure::OutOfData))
            } else {
                let m3 = ConnectMessage { sdu: be_value(d.subrange(p + 24, p + 28)) as u32, ..m2 };
                if version >= constants::PROTOCOL_VERSION_18 {
                    if d.len() < p + 37 {
                        (m3, Err(AcceptFailure::OutOfData))
                    } else {
                        (
                            ConnectMessage {
                                protocol_flags: be_value(d.subrange(p + 33, p + 37)) as u32,
                                accepted: true,
                                ..m3
                            },
                            Ok(()),
                        )
                    }
                } else {
                    (ConnectMessage { accepted: true, ..m3 }, Ok(()))
                }
            }
        }
    }
}

/// The first position at or after `from` where `pat` occurs in `b`.
pub open spec fn find_from(b: Seq<u8>, pat: Seq<u8>, from: int) -> Option<int>
    decreases b.len() + 1 - from,
{
    if from < 0 || from + pat.len() > b.len() {
        None
    } else if b.subrange(from, from + pat.len()) == pat {
        Some(from)
    } else {
        find_from(b, pat, from + 1)
    }
}

/// The bytes of "(ERR=", which precedes the error number in a refusal.
pub open spec fn err_marker() -> Seq<u8> {
    seq![40u8, 69u8, 82u8, 82u8, 61u8]
}

/// The error number in a listener's refusal text: the digits between the
/// first "(ERR=" and the ")" that follows it; zero when there are none.
/// `None` where those digits do not make a `usize`.
pub open spec fn refuse_error_num(msg: Seq<u8>) -> Option<nat> {
    match find_from(msg, err_marker(), 0) {
        None => Some(0),
        Some(start) => match find_from(msg, seq![41u8], start) {
            None => Some(0),
            Some(end) => parse_unsigned(msg.subrange(start + 5, end), usize::MAX as nat),
        },
    }
}

/// What a refuse packet at `p` holds: after two unused bytes, the length of
/// the refusal text and the text. `Err` with the failure of the read where
/// the packet is too short or the text is not UTF-8; otherwise the error
/// number the text holds.
pub open spec fn refuse_result(d: Seq<u8>, p: int) -> Result<Option<nat>, ReadFailure> {
    if d.len() < p + 4 {
        Err(ReadFailure::OutOfData)
    } else {
        let len = be16(d[p + 2], d[p + 3]);
        if len == 0 {
            Ok(Some(0))
        } else if d.len() < p + 4 + len {
            Err(ReadFailure::OutOfData)
        } else if !valid_utf8(d.subrange(p + 4, p + 4 + len)) {
            Err(ReadFailure::InvalidEncoding)
        } else {
            Ok(refuse_error_num(d.subrange(p + 4, p + 4 + len)))
        }
    }
}

/// The error returned for a refusal with the given error number.
pub open spec fn is_refuse_error(e: ErrorKind, error_num: nat, description: Description, address: Address) -> bool {
    if error_num == 0 {
        e matches ErrorKind::UnexpectedRefuse(cid) && cid@ == description.connection_id@
    } else if error_num == constants::DB_ERR_NUM_INVALID_SERVICE_NAME {
        e matches ErrorKind::InvalidServiceName(cid, name, host, port) && cid@ == description.connection_id@
            && name@ == description.service_name@ && host@ == address.host@ && port == address.port
    } else if error_num == constants::DB_ERR_NUM_INVALID_SID {
        e matches ErrorKind::InvalidSid(cid, sid, host, port) && cid@ == description.connection_id@
            && sid@ == description.sid@ && host@ == address.host@ && port == address.port
    } else {
        e matches ErrorKind::ListenerRefusedConnection(cid, host, port, num) && cid@
            == description.connection_id@ && host@ == address.host@ && port == address.port && num
            == error_num
    }
}

/// The body of the connect packet: the protocol versions, the service
/// options, the SDU (also as a 16-bit value, capped), the protocol
/// characteristics, the length and offset of the connect data, the NSI
/// flags, the SDU again and the connect flags; then the connect data itself
/// when it is short enough.
pub open spec fn connect_packet<'a>(m: ConnectMessage<'a>) -> Seq<u8> {
    let short_sdu: u16 = if m.sdu > u16::MAX { u16::MAX } else { m.sdu as u16 };
    let nsi_flags: u8 = NSI_SUPPORT_SECURITY_RENEG | NSI_DISABLE_NA;
    let service_options: u16 = if OOB_PLATFORM { GSO_DONT_CARE | GSO_CAN_RECV_ATTENTION } else { GSO_DONT_CARE };
    let connect_flags_2: u32 = if OOB_PLATFORM { TNS_CHECK_OOB } else { 0 };
    let data = encode_utf8(m.connect_data@);
    be16_bytes(constants::PROTOCOL_VERSION_23) + be16_bytes(constants::PROTOCOL_VERSION_MIN) + be16_bytes(
        service_options,
    ) + be16_bytes(short_sdu) + be16_bytes(short_sdu) + be16_bytes(PROTOCOL_CHARACTERISTICS)
        + be16_bytes(0) + be16_bytes(1) + be16_bytes(data.len() as u16) + be16_bytes(74) + be32_bytes(0)
        + seq![nsi_flags, nsi_flags] + be64_bytes(0) + be64_bytes(0) + be64_bytes(0) + be32_bytes(m.sdu)
        + be32_bytes(m.sdu) + be32_bytes(0) + be32_bytes(connect_flags_2) + if data.len() > MAX_CONNECT_DATA {
        Seq::<u8>::empty()
    } else {
        data
    }
}

impl<'a> ConnectMessage<'a> {
    pub fn new(connect_data: &'a str, address: &'a Address, description: &'a Description) -> (m: ConnectMessage<'a>)
        ensures
            m.connect_data == connect_data,
            m.address == address,
            m.description == description,
            m.packet_flags == 0,
            m.sdu == description.sdu,
            m.protocol_version == 0,
            m.protocol_options == 0,
            m.protocol_flags == 0,
            !m.accepted,
            !m.tls_renegotiation_needed,
            m.redirect_data is None,
            m.redirect_data_len == 0,
    {
        ConnectMessage {
            connect_data,
            address,
            description,
            packet_flags: 0,
            sdu: description.sdu,
            protocol_version: 0,
            protocol_options: 0,
            protocol_flags: 0,
            accepted: false,
            tls_renegotiation_needed: false,
            redirect_data: None,
            redirect_data_len: 0,
        }
    }
}

/// What a search for a pattern finds: a match at or after `from`.
proof fn lemma_find_from(b: Seq<u8>, pat: Seq<u8>, from: int)
    ensures
        find_from(b, pat, from) matches Some(i) ==> {
            &&& from <= i
            &&& i + pat.len() <= b.len()
            &&& b.subrange(i, i + pat.len()) == pat
        },
    decreases b.len() + 1 - from,
{
    if from < 0 || from + pat.len() > b.len() {
    } else if b.subrange(from, from + pat.len()) == pat {
    } else {
        lemma_find_from(b, pat, from + 1);
    }
}

/// Finds the first occurrence of `pat` in `b` at or after `from`.
fn find_bytes(b: &[u8], pat: &[u8], from: usize) -> (r: Option<usize>)
    requires
        pat@.len() > 0,
    ensures
        r matches Some(i) ==> find_from(b@, pat@, from as int) == Some(i as int),
        r is None ==> find_from(b@, pat@, from as int) is None,
{
    if from > b.len() {
        return None;
    }
    let mut i: usize = from;
    while pat.len() <= b.len() - i
        invariant
            from <= i <= b@.len(),
            pat@.len() > 0,
            find_from(b@, pat@, from as int) == find_from(b@, pat@, i as int),
        decreases b@.len() + 1 - i,
    {
        if bytes_equal(&b[i..i + pat.len()], pat) {
            assert(b@.subrange(i as int, i + pat@.len()) =~= b@.subrange(i as int, i + pat.len() as int));
            return Some(i);
        }
        assert(b@.subrange(i as int, i + pat@.len()) =~= b@.subrange(i as int, i + pat.len() as int));
        i = i + 1;
    }
    None
}

/// The error number in a listener's refusal text; `None` where the digits
/// after "(ERR=" do not make a `usize`.
fn refuse_error_num_of(msg: &[u8]) -> (r: Option<usize>)
    ensures
        r == match refuse_error_num(msg@) {
            Some(n) => Some(n as usize),
            None => None::<usize>,
        },
        r matches Some(n) ==> refuse_error_num(msg@) == Some(n as nat),
{
    let marker = vec![40u8, 69u8, 82u8, 82u8, 61u8];
    assert(marker@ =~= err_marker());
    let found = find_bytes(msg, marker.as_slice(), 0);
    match found {
        None => Some(0),
        Some(start) => {
            let close = vec![41u8];
            assert(close@ =~= seq![41u8]);
            let found_close = find_bytes(msg, close.as_slice(), start);
            match found_close {
                None => Some(0),
                Some(end) => {
                    proof {
                        lemma_find_from(msg@, err_marker(), 0);
                        lemma_find_from(msg@, seq![41u8], start as int);
                        let m = msg@.subrange(start as int, start + 5);
                        assert(m == err_marker());
                        assert(msg@.subrange(end as int, end + 1) == seq![41u8]);
                        assert(msg@[end as int] == msg@.subrange(end as int, end + 1)[0]);
                        if end < start + 5 {
                            assert(m[end - start] == msg@[end as int]);
                            assert(false);
                        }
                    }
                    let digits = &msg[start + 5..end];
                    assert(digits@ =~= msg@.subrange(start + 5, end as int));
                    parse_usize(digits)
                },
            }
        },
    }
}

impl<'a> ConnectMessage<'a> {
    /// Reads an accept packet: the protocol version (refused below 12), the
    /// protocol options, the SDU and, from protocol version 18, the protocol
    /// flags; the message is then accepted.
    fn process_accept_packet(&mut self, resp: &mut Response) -> (r: Result<(), Error>)
        requires
            !(accept_result(*old(self), old(resp).buf.data(), old(resp).buf.pos()).1 matches Err(
                AcceptFailure::NaRequired,
            )),
        ensures
            *final(self) == accept_result(*old(self), old(resp).buf.data(), old(resp).buf.pos()).0,
            final(resp).buf.data() == old(resp).buf.data(),
            match accept_result(*old(self), old(resp).buf.data(), old(resp).buf.pos()).1 {
                Ok(()) => r is Ok,
                Err(AcceptFailure::OutOfData) => r matches Err(e) && e@ is OutOfData,
                Err(AcceptFailure::VersionNotSupported) => r matches Err(e) && e@ is ServerVersionNotSupported,
                Err(AcceptFailure::NaRequired) => false,
            },
    {
        let ghost d = resp.buf.data();
        let ghost p = resp.buf.pos();
        proof {
            resp.buf.lemma_pos_nonneg();
            if d.len() >= p + 2 {
                lemma_be_value_two(d.subrange(p, p + 2));
            }
            if d.len() >= p + 4 {
                lemma_be_value_two(d.subrange(p + 2, p + 4));
            }
        }
        let version = resp.read_u16be()?;
        self.protocol_version = version;
        if version < constants::PROTOCOL_VERSION_12 {
            return Err(Error::server_version_not_supported());
        }
        self.protocol_options = resp.read_u16be()?;
        resp.advance(10)?;
        let flags1: u8 = resp.read_u8()?;
        proof {
            assert(flags1 & NSI_NA_REQUIRED == 0);
        }
        resp.advance(9)?;
        self.sdu = resp.read_u32be()?;
        if version >= constants::PROTOCOL_VERSION_18 {
            resp.advance(5)?;
            self.protocol_flags = resp.read_u32be()?;
        }
        self.accepted = true;
        Ok(())
    }

    /// Reads a refuse packet sent by the listener and returns the error it
    /// stands for.
    fn process_refuse_packet(&mut self, resp: &mut Response) -> (r: Result<(), Error>)
        requires
            refuse_result(old(resp).buf.data(), old(resp).buf.pos()) != Ok::<Option<nat>, ReadFailure>(
                None,
            ),
        ensures
            *final(self) == *old(self),
            final(resp).buf.data() == old(resp).buf.data(),
            match refuse_result(old(resp).buf.data(), old(resp).buf.pos()) {
                Err(f) => r matches Err(e) && is_read_failure(e, f),
                Ok(Some(n)) => r matches Err(e) && is_refuse_error(e@, n, *old(self).description, *old(self).address),
                Ok(None) => false,
            },
    {
        let ghost d = resp.buf.data();
        let ghost p = resp.buf.pos();
        proof {
            resp.buf.lemma_pos_nonneg();
            if d.len() >= p + 4 {
                lemma_be_value_two(d.subrange(p + 2, p + 4));
            }
        }
        resp.advance(2)?;
        let mut error_num: usize = 0;
        let message_len = resp.read_u16be()? as usize;
        if message_len > 0 {
            let message = resp.read_utf8(message_len)?;
            let bytes = message.as_str().as_bytes();
            proof {
                vstd::utf8::decode_utf8_encode_utf8(d.subrange(p + 4, p + 4 + message_len));
            }
            match refuse_error_num_of(bytes) {
                Some(n) => {
                    error_num = n;
                },
                None => {},
            }
        }
        let connection_id = self.description.connection_id.clone();
        if error_num == 0 {
            Err(Error::unexpected_refuse(connection_id))
        } else if error_num == constants::DB_ERR_NUM_INVALID_SERVICE_NAME {
            Err(
                Error::invalid_service_name(
                    connection_id,
                    self.description.service_name.clone(),
                    self.address.host.clone(),
                    self.address.port,
                ),
            )
        } else if error_num == constants::DB_ERR_NUM_INVALID_SID {
            Err(
                Error::invalid_sid(
                    connection_id,
                    self.description.sid.clone(),
                    self.address.host.clone(),
                    self.address.port,
                ),
            )
        } else {
            Err(
                Error::listener_refused_connection(
                    connection_id,
                    self.address.host.clone(),
                    self.address.port,
                    error_num,
                ),
            )
        }
    }
}

/// The message before an answer is read: neither accepted nor asked to
/// renegotiate TLS.
pub open spec fn cleared<'a>(m: ConnectMessage<'a>) -> ConnectMessage<'a> {
    ConnectMessage { accepted: false, tls_renegotiation_needed: false, ..m }
}

/// Whether a packet type is one that answers a connect message.
pub open spec fn is_connect_answer(packet_type: u8) -> bool {
    ||| packet_type == constants::PACKET_TYPE_ACCEPT
    ||| packet_type == constants::PACKET_TYPE_REFUSE
    ||| packet_type == constants::PACKET_TYPE_RESEND
    ||| packet_type == constants::PACKET_TYPE_REDIRECT
    ||| packet_type == constants::PACKET_TYPE_DATA
}

impl<'a> ConnectMessage<'a> {
    /// Reads the listener's answer: an accept, a refusal (returned as an
    /// error), a request to resend (maybe after renegotiating TLS), the
    /// length of redirect data, or the redirect data itself.
    pub fn deserialize(&mut self, resp: &mut Response) -> (r: Result<(), Error>)
        requires
            old(resp).packets@.len() > 0,
            is_connect_answer(old(resp).packets@[0].packet_type),
            old(resp).packets@[0].packet_type == constants::PACKET_TYPE_ACCEPT ==> !(accept_result(
                cleared(*old(self)),
                old(resp).buf.data(),
                old(resp).buf.pos(),
            ).1 matches Err(AcceptFailure::NaRequired)),
            old(resp).packets@[0].packet_type == constants::PACKET_TYPE_REFUSE ==> refuse_result(
                old(resp).buf.data(),
                old(resp).buf.pos(),
            ) != Ok::<Option<nat>, ReadFailure>(None),
        ensures
            final(resp).buf.data() == old(resp).buf.data(),
            ({
                let t = old(resp).packets@[0].packet_type;
                let d = old(resp).buf.data();
                let p = old(resp).buf.pos();
                let m0 = cleared(*old(self));
                &&& t == constants::PACKET_TYPE_ACCEPT ==> {
                    &&& *final(self) == accept_result(m0, d, p).0
                    &&& match accept_result(m0, d, p).1 {
                        Ok(()) => r is Ok,
                        Err(AcceptFailure::OutOfData) => r matches Err(e) && e@ is OutOfData,
                        Err(AcceptFailure::VersionNotSupported) => r matches Err(e)
                            && e@ is ServerVersionNotSupported,
                        Err(AcceptFailure::NaRequired) => false,
                    }
                }
                &&& t == constants::PACKET_TYPE_REFUSE ==> {
                    &&& *final(self) == m0
                    &&& match refuse_result(d, p) {
                        Err(f) => r matches Err(e) && is_read_failure(e, f),
                        Ok(Some(n)) => r matches Err(e) && is_refuse_error(e@, n, *m0.description, *m0.address),
                        Ok(None) => false,
                    }
                }
                &&& t == constants::PACKET_TYPE_RESEND ==> {
                    &&& r is Ok
                    &&& *final(self) == ConnectMessage {
                        tls_renegotiation_needed: old(resp).packets@[0].packet_flags
                            & constants::PACKET_FLAGS_TLS_RENEG != 0,
                        ..m0
                    }
                }
                &&& t == constants::PACKET_TYPE_REDIRECT ==> match spec_read_bytes(d, p, 2) {
                    Ok((v, _)) => r is Ok && *final(self) == ConnectMessage {
                        redirect_data_len: be_value(v) as u16,
                        ..m0
                    },
                    Err(f) => r matches Err(e) && is_read_failure(e, f) && *final(self) == m0,
                }
                &&& t == constants::PACKET_TYPE_DATA ==> match spec_read_bytes(
                    d,
                    p,
                    old(self).redirect_data_len as nat,
                ) {
                    Ok((v, _)) => if valid_utf8(v) {
                        &&& r is Ok
                        &&& final(self).redirect_data matches Some(text) && text@ == decode_utf8(v)
                        &&& *final(self) == ConnectMessage { redirect_data: final(self).redirect_data, ..m0 }
                    } else {
                        r matches Err(e) && is_read_failure(e, ReadFailure::InvalidEncoding) && *final(self) == m0
                    },
                    Err(f) => r matches Err(e) && is_read_failure(e, f) && *final(self) == m0,
                }
            }),
    {
        self.accepted = false;
        self.tls_renegotiation_needed = false;
        let packet_type = resp.get_packet_type();
        if packet_type == constants::PACKET_TYPE_ACCEPT {
            self.process_accept_packet(resp)?;
        } else if packet_type == constants::PACKET_TYPE_REFUSE {
            self.process_refuse_packet(resp)?;
        } else if packet_type == constants::PACKET_TYPE_RESEND {
            self.tls_renegotiation_needed = resp.get_packet_flags() & constants::PACKET_FLAGS_TLS_RENEG != 0;
        } else if packet_type == constants::PACKET_TYPE_REDIRECT {
            self.redirect_data_len = resp.read_u16be()?;
        } else {
            let text = resp.read_utf8(self.redirect_data_len as usize)?;
            self.redirect_data = Some(text);
        }
        Ok(())
    }

    /// Returns whether the connect data is too long for the connect packet
    /// and follows in a packet of its own.
    pub fn extended_data_needed(&self) -> (r: bool)
        ensures
            r == (encode_utf8(self.connect_data@).len() > MAX_CONNECT_DATA),
    {
        self.connect_data.as_bytes().len() > MAX_CONNECT_DATA
    }

    /// Returns the packet flags of the connect packet.
    pub fn get_packet_flags(&self) -> (r: u8)
        ensures
            r == self.packet_flags,
    {
        self.packet_flags
    }

    /// Returns the packet type of the connect packet.
    pub fn get_packet_type(&self) -> (r: u8)
        ensures
            r == constants::PACKET_TYPE_CONNECT,
    {
        constants::PACKET_TYPE_CONNECT
    }

    /// Writes the connect packet.
    pub fn serialize(&self, buf: &mut WriteBuffer)
        ensures
            final(buf).buf@ == old(buf).buf@ + connect_packet(*self),
            final(buf).seq_num == old(buf).seq_num,
    {
        let short_sdu: u16 = if self.sdu > 0xffff { 0xffff } else { self.sdu as u16 };
        let nsi_flags: u8 = NSI_SUPPORT_SECURITY_RENEG | NSI_DISABLE_NA;
        let supports_oob = OOB_PLATFORM;
        let service_options: u16 = if supports_oob {
            GSO_DONT_CARE | GSO_CAN_RECV_ATTENTION
        } else {
            GSO_DONT_CARE
        };
        let connect_flags_2: u32 = if supports_oob { TNS_CHECK_OOB } else { 0 };
        buf.write_u16be(constants::PROTOCOL_VERSION_23);
        buf.write_u16be(constants::PROTOCOL_VERSION_MIN);
        buf.write_u16be(service_options);
        buf.write_u16be(short_sdu);
        buf.write_u16be(short_sdu);
        buf.write_u16be(PROTOCOL_CHARACTERISTICS);
        buf.write_u16be(0);
        buf.write_u16be(1);
        buf.write_u16be(self.connect_data.as_bytes().len() as u16);
        buf.write_u16be(74);
        buf.write_u32be(0);
        buf.write_u8(nsi_flags);
        buf.write_u8(nsi_flags);
        buf.write_u64be(0);
        buf.write_u64be(0);
        buf.write_u64be(0);
        buf.write_u32be(self.sdu);
        buf.write_u32be(self.sdu);
        buf.write_u32be(0);
        buf.write_u32be(connect_flags_2);
        if !self.extended_data_needed() {
            self.serialize_extended_data(buf);
        }
        assert(final(buf).buf@ =~= old(buf).buf@ + connect_packet(*self));
    }

    /// Writes the connect data.
    pub fn serialize_extended_data(&self, buf: &mut WriteBuffer)
        ensures
            final(buf).buf@ == old(buf).buf@ + encode_utf8(self.connect_data@),
            final(buf).seq_num == old(buf).seq_num,
    {
        buf.write_bytes(self.connect_data.as_bytes());
    }
}

/// The index of the first NUL character of a text, if it has one.
pub open spec fn first_nul(c: Seq<char>) -> Option<int>
    decreases c.len(),
{
    if c.len() == 0 {
        None
    } else if c[0] == '\0' {
        Some(0)
    } else {
        match first_nul(c.drop_first()) {
            Some(k) => Some(k + 1),
            None => None,
        }
    }
}

/// What the connect loop does next, given the connect message's state after
/// the listener's last answer.
pub enum ConnectAction {
    /// The listener accepted the connection.
    Done,
    /// The listener redirected the client: connect to the address and send
    /// a new connect message with the connect data.
    Redirect { address: String, connect_data: String },
    /// Renegotiate TLS, then send the connect message again.
    RenegotiateTls,
    /// Send the connect message again.
    SendConnect,
}

/// The UTF-8 encoding of a character other than NUL holds no zero byte;
/// that of NUL is the single zero byte.
proof fn lemma_encode_scalar_zero(c: char)
    ensures
        c == '\0' ==> encode_scalar(c as u32) == seq![0u8],
        c != '\0' ==> forall|j: int|
            0 <= j < encode_scalar(c as u32).len() ==> #[trigger] encode_scalar(c as u32)[j] != 0u8,
{
    let x = c as u32;
    assert(0 < x ==> x <= 0x7f ==> (x & 0x7f) as u8 != 0u8) by (bit_vector);
    assert(x == 0 ==> (x & 0x7f) as u8 == 0u8) by (bit_vector);
    assert(forall|y: u8| (0xC0u8 | y) != 0u8) by (bit_vector);
    assert(forall|y: u8| (0xE0u8 | y) != 0u8) by (bit_vector);
    assert(forall|y: u8| (0xF0u8 | y) != 0u8) by (bit_vector);
    assert(forall|y: u8| (0x80u8 | y) != 0u8) by (bit_vector);
}

/// The encoding of a text is that of its first character followed by that
/// of the rest; around its first NUL it is the encoding before it, a zero
/// byte and the encoding after it, and no zero byte comes earlier.
proof fn lemma_encode_first_nul(c: Seq<char>)
    ensures
        first_nul(c) is None ==> forall|j: int|
            0 <= j < encode_utf8(c).len() ==> #[trigger] encode_utf8(c)[j] != 0u8,
        first_nul(c) matches Some(k) ==> {
            &&& 0 <= k < c.len()
            &&& encode_utf8(c) == encode_utf8(c.subrange(0, k)) + seq![0u8] + encode_utf8(
                c.subrange(k + 1, c.len() as int),
            )
            &&& forall|j: int|
                0 <= j < encode_utf8(c.subrange(0, k)).len() ==> #[trigger] encode_utf8(
                    c.subrange(0, k),
                )[j] != 0u8
        },
    decreases c.len(),
{
    if c.len() > 0 {
        let rest = c.drop_first();
        lemma_encode_first_nul(rest);
        lemma_encode_scalar_zero(c[0]);
        let head = encode_scalar(c[0] as u32);
        assert(encode_utf8(c) == head + encode_utf8(rest));
        if c[0] == '\0' {
            assert(c.subrange(0, 0) =~= Seq::<char>::empty());
            assert(c.subrange(1, c.len() as int) =~= rest);
            assert(encode_utf8(Seq::<char>::empty()) =~= Seq::<u8>::empty());
            assert(encode_utf8(c) =~= encode_utf8(c.subrange(0, 0)) + seq![0u8] + encode_utf8(
                c.subrange(1, c.len() as int),
            ));
        } else {
            match first_nul(rest) {
                None => {
                    assert forall|j: int| 0 <= j < encode_utf8(c).len() implies #[trigger] encode_utf8(c)[j]
                        != 0u8 by {
                        if j < head.len() {
                            assert(encode_utf8(c)[j] == head[j]);
                        } else {
                            assert(encode_utf8(c)[j] == encode_utf8(rest)[j - head.len()]);
                        }
                    }
                },
                Some(k) => {
                    let pre = c.subrange(0, k + 1);
                    assert(pre.drop_first() =~= rest.subrange(0, k));
                    assert(pre[0] == c[0]);
                    assert(encode_utf8(pre) == head + encode_utf8(rest.subrange(0, k)));
                    assert(c.subrange(k + 2, c.len() as int) =~= rest.subrange(k + 1, rest.len() as int));
                    assert(encode_utf8(c) =~= encode_utf8(pre) + seq![0u8] + encode_utf8(
                        c.subrange(k + 2, c.len() as int),
                    ));
                    assert forall|j: int| 0 <= j < encode_utf8(pre).len() implies #[trigger] encode_utf8(pre)[j]
                        != 0u8 by {
                        if j < head.len() {
                            assert(encode_utf8(pre)[j] == head[j]);
                        } else {
                            assert(encode_utf8(pre)[j] == encode_utf8(rest.subrange(0, k))[j - head.len()]);
                        }
                    }
                },
            }
        }
    }
}

/// Copies `b[from..to]`.
fn copy_range(b: &[u8], from: usize, to: usize) -> (r: Vec<u8>)
    requires
        from <= to <= b@.len(),
    ensures
        r@ == b@.subrange(from as int, to as int),
{
    let mut r: Vec<u8> = Vec::new();
    let mut i: usize = from;
    while i < to
        invariant
            from <= i <= to <= b@.len(),
            r@ == b@.subrange(from as int, i as int),
        decreases to - i,
    {
        r.push(b[i]);
        i = i + 1;
    }
    r
}

/// Decides the next step of the connect loop: done once the listener
/// accepted; on a redirect, the address before the first NUL of the
/// redirect data and the connect data after it (redirect data without a NUL
/// is invalid); a TLS renegotiation when the listener asked for one; and
/// otherwise the connect message is sent again.
pub fn connect_step(accepted: bool, redirect_data: Option<&str>, tls_renegotiation_needed: bool) -> (r: Result<
    ConnectAction,
    Error,
>)
    ensures
        accepted ==> r matches Ok(ConnectAction::Done),
        !accepted ==> match redirect_data {
            Some(d) => match first_nul(d@) {
                Some(k) => r matches Ok(ConnectAction::Redirect { address, connect_data })
                    && address@ == d@.subrange(0, k) && connect_data@ == d@.subrange(k + 1, d@.len() as int),
                None => r matches Err(e) && e@ matches ErrorKind::InvalidRedirect(t) && t@ == d@,
            },
            None => if tls_renegotiation_needed {
                r matches Ok(ConnectAction::RenegotiateTls)
            } else {
                r matches Ok(ConnectAction::SendConnect)
            },
        },
{
    if accepted {
        return Ok(ConnectAction::Done);
    }
    match redirect_data {
        Some(d) => {
            let b = d.as_bytes();
            proof { lemma_encode_first_nul(d@); }
            let mut i: usize = 0;
            while i < b.len()
                invariant
                    i <= b@.len(),
                    b@ == encode_utf8(d@),
                    forall|j: int| 0 <= j < i ==> b@[j] != 0u8,
                ensures
                    i <= b@.len(),
                    forall|j: int| 0 <= j < i ==> b@[j] != 0u8,
                    i < b@.len() ==> b@[i as int] == 0u8,
                decreases b@.len() - i,
            {
                if b[i] == 0 {
                    break;
                }
                i = i + 1;
            }
            if i == b.len() {
                proof {
                    if let Some(k) = first_nul(d@) {
                        let p = encode_utf8(d@.subrange(0, k));
                        assert(b@[p.len() as int] == 0u8);
                    }
                }
                return Err(Error::invalid_redirect(d));
            }
            let ghost k = first_nul(d@).unwrap();
            proof {
                if first_nul(d@) is None {
                    assert(b@[i as int] == 0u8);
                }
                let p = encode_utf8(d@.subrange(0, k));
                assert(b@[p.len() as int] == 0u8);
                if (i as int) < p.len() {
                    assert(b@[i as int] == p[i as int]);
                }
                assert(i == p.len());
            }
            let before = copy_range(b, 0, i);
            let after = copy_range(b, i + 1, b.len());
            proof {
                let p = encode_utf8(d@.subrange(0, k));
                let q = encode_utf8(d@.subrange(k + 1, d@.len() as int));
                assert(before@ =~= p);
                assert(after@ =~= q);
                vstd::utf8::encode_utf8_valid_utf8(d@.subrange(0, k));
                vstd::utf8::encode_utf8_valid_utf8(d@.subrange(k + 1, d@.len() as int));
                vstd::utf8::encode_utf8_decode_utf8(d@.subrange(0, k));
                vstd::utf8::encode_utf8_decode_utf8(d@.subrange(k + 1, d@.len() as int));
            }
            let address = utf8_to_string(before).unwrap();
            let connect_data = utf8_to_string(after).unwrap();
            Ok(ConnectAction::Redirect { address, connect_data })
        },
        None => {
            if tls_renegotiation_needed {
                Ok(ConnectAction::RenegotiateTls)
            } else {
                Ok(ConnectAction::SendConnect)
            }
        },
    }
}

} // verus!
