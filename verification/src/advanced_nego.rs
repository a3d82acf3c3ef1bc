//! The native network encryption (ANO / NNE) handshake.
//!
//! The exchange runs over plain TNS DATA packets immediately after the
//! ACCEPT, before any TTC protocol/auth message: the client offers its
//! service lists, the server replies with the chosen encryption algorithm and
//! the Diffie-Hellman group, and the client returns its public key.
//! Thereafter all DATA packets are encrypted with the derived session key.

use vstd::prelude::*;
use vstd::string::StringExecFns;

use crate::bytes::append_slice;
use crate::crypto::{be_value, random_bytes};
use crate::encryption::{
    dh_public_key, dh_shared_key, lemma_modpow_fixed_len_bound, spec_dh_public_key, spec_dh_shared_key,
    spec_encrypt_algo_from_id, spec_key_len, AesCryptor, EncryptAlgo,
};
use crate::constants;
use crate::error::{Error, ErrorKind};
use crate::packet::Packet;
use crate::text::{append_decimal, decimal};

verus! {

pub const ANO_MAGIC: u32 = 0xDEAD_BEEF;
pub const ANO_VERSION: u32 = 0x0B20_0200;

pub const SERVICE_AUTH: u16 = 1;
pub const SERVICE_ENCRYPT: u16 = 2;
pub const SERVICE_INTEGRITY: u16 = 3;
pub const SERVICE_SUPERVISOR: u16 = 4;

pub const SUB_BYTES: u16 = 1;
pub const SUB_UB1: u16 = 2;
pub const SUB_UB2: u16 = 3;
pub const SUB_VERSION: u16 = 5;
pub const SUB_STATUS: u16 = 6;

/// Big-endian encoding of a 16-bit value.
pub open spec fn be_u16(v: u16) -> Seq<u8> {
    seq![(v / 256) as u8, (v % 256) as u8]
}

/// Big-endian encoding of a 32-bit value.
pub open spec fn be_u32(v: u32) -> Seq<u8> {
    seq![
        (v / 0x1000000) as u8,
        ((v / 0x10000) % 256) as u8,
        ((v / 0x100) % 256) as u8,
        (v % 256) as u8,
    ]
}

/// A sub-packet: `[payload length u16][type u16][payload]`.
pub open spec fn spec_sub(sub_type: u16, payload: Seq<u8>) -> Seq<u8> {
    be_u16(payload.len() as u16) + be_u16(sub_type) + payload
}

/// Big-endian encodings of 16-bit values, one after the other.
pub open spec fn be_u16_all(values: Seq<u16>) -> Seq<u8>
    decreases values.len(),
{
    if values.len() == 0 {
        seq![]
    } else {
        be_u16_all(values.drop_last()) + be_u16(values.last())
    }
}

/// A length-prefixed array of 16-bit values in a bytes sub-packet.
pub open spec fn spec_sub_u16_array(values: Seq<u16>) -> Seq<u8> {
    spec_sub(
        SUB_BYTES,
        be_u32(ANO_MAGIC) + be_u16(3) + be_u32(values.len() as u32) + be_u16_all(values),
    )
}

/// The version sub-packet.
pub open spec fn spec_sub_version() -> Seq<u8> {
    spec_sub(SUB_VERSION, be_u32(ANO_VERSION))
}

/// A service: its 8-byte header (type, number of sub-packets, status zero)
/// followed by its body.
pub open spec fn spec_service(service_type: u16, sub_packets: u16, body: Seq<u8>) -> Seq<u8> {
    be_u16(service_type) + be_u16(sub_packets) + be_u32(0) + body
}

/// The supervisor service offered by the client.
pub open spec fn spec_supervisor() -> Seq<u8> {
    spec_service(
        SERVICE_SUPERVISOR,
        3,
        spec_sub_version() + spec_sub(SUB_BYTES, seq![0u8, 0, 16, 28, 102, 236, 40, 234])
            + spec_sub_u16_array(seq![4u16, 1, 2, 3]),
    )
}

/// The authentication service offered by the client.
pub open spec fn spec_auth() -> Seq<u8> {
    spec_service(
        SERVICE_AUTH,
        3,
        spec_sub_version() + spec_sub(SUB_UB2, be_u16(0xE0E1)) + spec_sub(SUB_STATUS, be_u16(0xFCFF)),
    )
}

/// The encryption service offered by the client: the AES algorithms.
pub open spec fn spec_encrypt() -> Seq<u8> {
    spec_service(
        SERVICE_ENCRYPT,
        3,
        spec_sub_version() + spec_sub(SUB_BYTES, seq![15u8, 16, 17]) + spec_sub(SUB_UB1, seq![1u8]),
    )
}

/// The integrity service offered by the client: no checksum.
pub open spec fn spec_integrity() -> Seq<u8> {
    spec_service(SERVICE_INTEGRITY, 2, spec_sub_version() + spec_sub(SUB_BYTES, seq![0u8]))
}

/// The 13-byte header of an ANO message with the given length of its
/// services and number of services.
pub open spec fn spec_ano_header(services_len: nat, count: u16) -> Seq<u8> {
    be_u32(ANO_MAGIC) + be_u16((13 + services_len) as u16) + be_u32(ANO_VERSION) + be_u16(count) + seq![0u8]
}

/// The initial client request carrying all four service lists.
pub open spec fn spec_client_request() -> Seq<u8> {
    let services = spec_supervisor() + spec_auth() + spec_encrypt() + spec_integrity();
    spec_ano_header(services.len(), 4) + services
}

/// The reply carrying the client's Diffie-Hellman public key.
pub open spec fn spec_client_public_key(public_key: Seq<u8>) -> Seq<u8> {
    let service = spec_service(SERVICE_INTEGRITY, 1, spec_sub(SUB_BYTES, public_key));
    spec_ano_header(service.len(), 1) + service
}

/// Little byte-buffer builder for the ANO framing.
struct Writer {
    buf: Vec<u8>,
}

impl Writer {
    fn new() -> (w: Writer)
        ensures
            w.buf@ == Seq::<u8>::empty(),
    {
        Writer { buf: Vec::new() }
    }

    fn u8(&mut self, value: u8)
        ensures
            final(self).buf@ == old(self).buf@.push(value),
    {
        self.buf.push(value);
    }

    fn u16(&mut self, value: u16)
        ensures
            final(self).buf@ == old(self).buf@ + be_u16(value),
    {
        self.buf.push((value / 256) as u8);
        self.buf.push((value % 256) as u8);
        assert(self.buf@ =~= old(self).buf@ + be_u16(value));
    }

    fn u32(&mut self, value: u32)
        ensures
            final(self).buf@ == old(self).buf@ + be_u32(value),
    {
        self.buf.push((value / 0x1000000) as u8);
        self.buf.push(((value / 0x10000) % 256) as u8);
        self.buf.push(((value / 0x100) % 256) as u8);
        self.buf.push((value % 256) as u8);
        assert(self.buf@ =~= old(self).buf@ + be_u32(value));
    }

    fn raw(&mut self, value: &[u8])
        ensures
            final(self).buf@ == old(self).buf@ + value@,
    {
        append_slice(&mut self.buf, value);
    }

    /// Writes a sub-packet: `[payload length u16][type u16][payload]`.
    fn sub(&mut self, sub_type: u16, payload: &[u8])
        ensures
            final(self).buf@ == old(self).buf@ + spec_sub(sub_type, payload@),
    {
        self.u16(payload.len() as u16);
        self.u16(sub_type);
        self.raw(payload);
        assert(self.buf@ =~= old(self).buf@ + spec_sub(sub_type, payload@));
    }

    fn sub_version(&mut self)
        ensures
            final(self).buf@ == old(self).buf@ + spec_sub_version(),
    {
        let v: [u8; 4] = [0x0B, 0x20, 0x02, 0x00];
        assert(v@ =~= be_u32(ANO_VERSION));
        self.sub(SUB_VERSION, v.as_slice());
    }

    fn sub_ub1(&mut self, value: u8)
        ensures
            final(self).buf@ == old(self).buf@ + spec_sub(SUB_UB1, seq![value]),
    {
        let v: [u8; 1] = [value];
        assert(v@ =~= seq![value]);
        self.sub(SUB_UB1, v.as_slice());
    }

    fn sub_ub2(&mut self, value: u16)
        ensures
            final(self).buf@ == old(self).buf@ + spec_sub(SUB_UB2, be_u16(value)),
    {
        let v: [u8; 2] = [(value / 256) as u8, (value % 256) as u8];
        assert(v@ =~= be_u16(value));
        self.sub(SUB_UB2, v.as_slice());
    }

    fn sub_bytes(&mut self, value: &[u8])
        ensures
            final(self).buf@ == old(self).buf@ + spec_sub(SUB_BYTES, value@),
    {
        self.sub(SUB_BYTES, value);
    }

    fn sub_status(&mut self, value: u16)
        ensures
            final(self).buf@ == old(self).buf@ + spec_sub(SUB_STATUS, be_u16(value)),
    {
        let v: [u8; 2] = [(value / 256) as u8, (value % 256) as u8];
        assert(v@ =~= be_u16(value));
        self.sub(SUB_STATUS, v.as_slice());
    }

    /// A length-prefixed u16 array in a bytes sub-packet.
    fn sub_u16_array(&mut self, values: &[u16])
        ensures
            final(self).buf@ == old(self).buf@ + spec_sub_u16_array(values@),
    {
        let mut payload = Writer::new();
        payload.u32(ANO_MAGIC);
        payload.u16(3);
        payload.u32(values.len() as u32);
        let ghost head = payload.buf@;
        let mut i: usize = 0;
        while i < values.len()
            invariant
                i <= values@.len(),
                payload.buf@ == head + be_u16_all(values@.subrange(0, i as int)),
            decreases values@.len() - i,
        {
            payload.u16(values[i]);
            proof {
                assert(values@.subrange(0, i + 1).drop_last() =~= values@.subrange(0, i as int));
            }
            i = i + 1;
        }
        assert(values@.subrange(0, values@.len() as int) =~= values@);
        assert(payload.buf@ =~= be_u32(ANO_MAGIC) + be_u16(3) + be_u32(values@.len() as u32)
            + be_u16_all(values@));
        self.sub(SUB_BYTES, payload.buf.as_slice());
    }
}

/// Wraps a service body in its 8-byte service header.
fn service(service_type: u16, sub_packets: u16, body: &[u8]) -> (r: Vec<u8>)
    ensures
        r@ == spec_service(service_type, sub_packets, body@),
{
    let mut writer = Writer::new();
    writer.u16(service_type);
    writer.u16(sub_packets);
    writer.u32(0);
    writer.raw(body);
    assert(writer.buf@ =~= spec_service(service_type, sub_packets, body@));
    writer.buf
}

fn build_supervisor() -> (r: Vec<u8>)
    ensures
        r@ == spec_supervisor(),
        r@.len() == 50,
{
    let mut body = Writer::new();
    body.sub_version();
    let connection_id: [u8; 8] = [0, 0, 16, 28, 102, 236, 40, 234];
    assert(connection_id@ =~= seq![0u8, 0, 16, 28, 102, 236, 40, 234]);
    body.sub_bytes(connection_id.as_slice());
    let services: [u16; 4] = [4, 1, 2, 3];
    assert(services@ =~= seq![4u16, 1, 2, 3]);
    body.sub_u16_array(services.as_slice());
    assert(body.buf@ =~= spec_sub_version() + spec_sub(SUB_BYTES, seq![0u8, 0, 16, 28, 102, 236, 40, 234])
        + spec_sub_u16_array(seq![4u16, 1, 2, 3]));
    proof { reveal_with_fuel(be_u16_all, 5); }
    assert(body.buf@.len() == 42);
    service(SERVICE_SUPERVISOR, 3, body.buf.as_slice())
}

fn build_auth() -> (r: Vec<u8>)
    ensures
        r@ == spec_auth(),
        r@.len() == 28,
{
    let mut body = Writer::new();
    body.sub_version();
    body.sub_ub2(0xE0E1);
    body.sub_status(0xFCFF);
    assert(body.buf@ =~= spec_sub_version() + spec_sub(SUB_UB2, be_u16(0xE0E1))
        + spec_sub(SUB_STATUS, be_u16(0xFCFF)));
    service(SERVICE_AUTH, 3, body.buf.as_slice())
}

fn build_encrypt() -> (r: Vec<u8>)
    ensures
        r@ == spec_encrypt(),
        r@.len() == 28,
{
    let mut body = Writer::new();
    body.sub_version();
    let algos: [u8; 3] = [15, 16, 17];
    assert(algos@ =~= seq![15u8, 16, 17]);
    body.sub_bytes(algos.as_slice());
    body.sub_ub1(1);
    assert(body.buf@ =~= spec_sub_version() + spec_sub(SUB_BYTES, seq![15u8, 16, 17])
        + spec_sub(SUB_UB1, seq![1u8]));
    service(SERVICE_ENCRYPT, 3, body.buf.as_slice())
}

fn build_integrity() -> (r: Vec<u8>)
    ensures
        r@ == spec_integrity(),
        r@.len() == 21,
{
    let mut body = Writer::new();
    body.sub_version();
    let none: [u8; 1] = [0];
    assert(none@ =~= seq![0u8]);
    body.sub_bytes(none.as_slice());
    assert(body.buf@ =~= spec_sub_version() + spec_sub(SUB_BYTES, seq![0u8]));
    service(SERVICE_INTEGRITY, 2, body.buf.as_slice())
}

/// The initial client request carrying all four service lists.
pub fn build_client_request() -> (r: Vec<u8>)
    ensures
        r@ == spec_client_request(),
{
    let supervisor = build_supervisor();
    let auth = build_auth();
    let encrypt = build_encrypt();
    let integrity = build_integrity();
    let size: usize = supervisor.len() + auth.len() + encrypt.len() + integrity.len();
    let mut writer = Writer::new();
    writer.u32(ANO_MAGIC);
    writer.u16((13 + size) as u16);
    writer.u32(ANO_VERSION);
    writer.u16(4);
    writer.u8(0);
    writer.raw(supervisor.as_slice());
    writer.raw(auth.as_slice());
    writer.raw(encrypt.as_slice());
    writer.raw(integrity.as_slice());
    assert(writer.buf@ =~= spec_client_request());
    writer.buf
}

/// The reply carrying the client's Diffie-Hellman public key.
pub fn build_client_public_key(public_key: &[u8]) -> (r: Vec<u8>)
    requires
        public_key@.len() + 32 <= usize::MAX,
    ensures
        r@ == spec_client_public_key(public_key@),
{
    let mut body = Writer::new();
    body.sub_bytes(public_key);
    let service = service(SERVICE_INTEGRITY, 1, body.buf.as_slice());
    let mut writer = Writer::new();
    writer.u32(ANO_MAGIC);
    writer.u16((13 + service.len()) as u16);
    writer.u32(ANO_VERSION);
    writer.u16(1);
    writer.u8(0);
    writer.raw(service.as_slice());
    assert(writer.buf@ =~= spec_client_public_key(public_key@));
    writer.buf
}


/// Whether an error is an ANO negotiation failure with the given message.
pub open spec fn is_ano_error(e: Error, message: Seq<char>) -> bool {
    e@ matches ErrorKind::AdvancedNegotiation(m) && m@ == message
}

fn ano_err(message: &str) -> (e: Error)
    ensures
        is_ano_error(e, message@),
{
    Error::advanced_negotiation(message.to_owned())
}

/// The 16-bit big-endian value at a position.
pub open spec fn u16_at(buf: Seq<u8>, pos: int) -> u16 {
    (buf[pos] as int * 256 + buf[pos + 1] as int) as u16
}

/// The 32-bit big-endian value at a position.
pub open spec fn u32_at(buf: Seq<u8>, pos: int) -> u32 {
    (buf[pos] as int * 0x1000000 + buf[pos + 1] as int * 0x10000 + buf[pos + 2] as int * 0x100
        + buf[pos + 3] as int) as u32
}

/// The sub-packet at a position, as its type, its payload and the position
/// after it, if the buffer holds it whole.
pub open spec fn read_sub_at(buf: Seq<u8>, pos: int) -> Option<(u16, Seq<u8>, int)> {
    if pos + 4 > buf.len() {
        None
    } else {
        let len = u16_at(buf, pos) as int;
        if pos + 4 + len > buf.len() {
            None
        } else {
            Some((u16_at(buf, pos + 2), buf.subrange(pos + 4, pos + 4 + len), pos + 4 + len))
        }
    }
}

/// `n` consecutive sub-packets from a position, and the position after
/// them, if the buffer holds them whole.
pub open spec fn read_subs_at(buf: Seq<u8>, pos: int, n: nat) -> Option<(Seq<(u16, Seq<u8>)>, int)>
    decreases n,
{
    if n == 0 {
        Some((seq![], pos))
    } else {
        match read_subs_at(buf, pos, (n - 1) as nat) {
            None => None,
            Some((subs, p)) => match read_sub_at(buf, p) {
                None => None,
                Some((t, payload, next)) => Some((subs.push((t, payload)), next)),
            },
        }
    }
}

/// The Diffie-Hellman group and server key sent by the server.
pub struct SpecDhParams {
    pub generator: Seq<u8>,
    pub prime: Seq<u8>,
    pub server_public: Seq<u8>,
    pub byte_len: nat,
}

/// What the server's ANO response selects.
pub struct SpecServerInfo {
    pub encrypt_algo: Option<EncryptAlgo>,
    pub dh: Option<SpecDhParams>,
}

/// The state of parsing the server's ANO response: still going (with what
/// was learnt and the position reached), refused with a message, or a
/// malformed Diffie-Hellman generator length sub-packet (shorter than two
/// bytes), on which parsing cannot go on.
pub enum AnoParse {
    Going(SpecServerInfo, int),
    Refused(Seq<char>),
    Malformed,
}

pub open spec fn truncated_message() -> Seq<char> {
    "truncated server response"@
}

pub open spec fn missing_magic_message() -> Seq<char> {
    "missing ANO magic in server response"@
}

pub open spec fn out_of_sync_message() -> Seq<char> {
    "Diffie-Hellman negotiation out of sync"@
}

pub open spec fn status_message(service_type: u16, status: u32) -> Seq<char> {
    "service "@ + decimal(service_type as nat) + " returned status "@ + decimal(status as nat)
}

/// The encryption algorithm selected after the encrypt service's
/// sub-packets: each non-empty ub1 sub-packet selects the algorithm its
/// first byte names.
pub open spec fn algo_after(subs: Seq<(u16, Seq<u8>)>, algo: Option<EncryptAlgo>) -> Option<EncryptAlgo>
    decreases subs.len(),
{
    if subs.len() == 0 {
        algo
    } else {
        let prev = algo_after(subs.drop_last(), algo);
        let (t, payload) = subs.last();
        if t == SUB_UB1 && payload.len() > 0 {
            spec_encrypt_algo_from_id(payload[0])
        } else {
            prev
        }
    }
}

/// The outcome of the integrity service's sub-packets: with eight of them
/// the server sends the Diffie-Hellman group (generator bit length, then
/// generator, prime and its public key), whose lengths must agree.
pub open spec fn integrity_outcome(subs: Seq<(u16, Seq<u8>)>, info: SpecServerInfo, next: int) -> AnoParse {
    if subs.len() == 8 {
        let g = subs[2].1;
        if g.len() < 2 {
            AnoParse::Malformed
        } else {
            let byte_len = ((u16_at(g, 0) as nat + 7) / 8) as nat;
            let generator = subs[4].1;
            let prime = subs[5].1;
            let server_public = subs[6].1;
            if server_public.len() != byte_len || prime.len() != byte_len {
                AnoParse::Refused(out_of_sync_message())
            } else {
                AnoParse::Going(
                    SpecServerInfo {
                        dh: Some(SpecDhParams { generator, prime, server_public, byte_len }),
                        ..info
                    },
                    next,
                )
            }
        }
    } else {
        AnoParse::Going(info, next)
    }
}

/// Parsing one service at a position.
pub open spec fn parse_service(buf: Seq<u8>, pos: int, info: SpecServerInfo) -> AnoParse {
    if pos + 8 > buf.len() {
        AnoParse::Refused(truncated_message())
    } else {
        let service_type = u16_at(buf, pos);
        let sub_packets = u16_at(buf, pos + 2);
        let status = u32_at(buf, pos + 4);
        if status != 0 {
            AnoParse::Refused(status_message(service_type, status))
        } else {
            match read_subs_at(buf, pos + 8, sub_packets as nat) {
                None => AnoParse::Refused(truncated_message()),
                Some((subs, next)) => if service_type == SERVICE_ENCRYPT {
                    AnoParse::Going(
                        SpecServerInfo { encrypt_algo: algo_after(subs, info.encrypt_algo), ..info },
                        next,
                    )
                } else if service_type == SERVICE_INTEGRITY {
                    integrity_outcome(subs, info, next)
                } else {
                    AnoParse::Going(info, next)
                },
            }
        }
    }
}

/// Parsing the first `n` services, which follow the 13-byte header.
pub open spec fn parse_services(buf: Seq<u8>, n: nat) -> AnoParse
    decreases n,
{
    if n == 0 {
        AnoParse::Going(SpecServerInfo { encrypt_algo: None, dh: None }, 13)
    } else {
        match parse_services(buf, (n - 1) as nat) {
            AnoParse::Going(info, p) => parse_service(buf, p, info),
            other => other,
        }
    }
}

/// Parsing the server's ANO response: the magic, the header, then as many
/// services as the header announces.
pub open spec fn spec_parse_server_response(buf: Seq<u8>) -> AnoParse {
    if buf.len() < 4 {
        AnoParse::Refused(truncated_message())
    } else if u32_at(buf, 0) != ANO_MAGIC {
        AnoParse::Refused(missing_magic_message())
    } else if buf.len() < 13 {
        AnoParse::Refused(truncated_message())
    } else {
        parse_services(buf, u16_at(buf, 10) as nat)
    }
}

proof fn lemma_subs_stop(buf: Seq<u8>, pos: int, i: nat, n: nat)
    requires
        i <= n,
        read_subs_at(buf, pos, i) is None,
    ensures
        read_subs_at(buf, pos, n) is None,
    decreases n,
{
    if n > i {
        lemma_subs_stop(buf, pos, i, (n - 1) as nat);
    }
}

proof fn lemma_subs_len(buf: Seq<u8>, pos: int, n: nat)
    ensures
        read_subs_at(buf, pos, n) matches Some((subs, next)) ==> subs.len() == n && pos <= next
            <= buf.len() || (n == 0 && next == pos),
    decreases n,
{
    if n > 0 {
        lemma_subs_len(buf, pos, (n - 1) as nat);
    }
}

proof fn lemma_services_stop(buf: Seq<u8>, i: nat, n: nat)
    requires
        i <= n,
        !(parse_services(buf, i) is Going),
    ensures
        parse_services(buf, n) == parse_services(buf, i),
    decreases n,
{
    if n > i {
        lemma_services_stop(buf, i, (n - 1) as nat);
    }
}

struct Reader<'a> {
    buf: &'a [u8],
    pos: usize,
}

impl<'a> Reader<'a> {
    fn new(buf: &'a [u8]) -> (r: Self)
        ensures
            r.buf@ == buf@,
            r.pos == 0,
    {
        Reader { buf, pos: 0 }
    }

    fn take(&mut self, count: usize) -> (r: Result<&'a [u8], Error>)
        requires
            old(self).pos <= old(self).buf@.len(),
        ensures
            final(self).buf@ == old(self).buf@,
            final(self).pos <= final(self).buf@.len(),
            old(self).pos + count <= old(self).buf@.len() ==> {
                &&& r matches Ok(s) && s@ == old(self).buf@.subrange(
                    old(self).pos as int,
                    old(self).pos + count,
                )
                &&& final(self).pos == old(self).pos + count
            },
            old(self).pos + count > old(self).buf@.len() ==> (r matches Err(e) && is_ano_error(
                e,
                truncated_message(),
            )),
    {
        if count > self.buf.len() - self.pos {
            proof { reveal_strlit("truncated server response"); }
            return Err(ano_err("truncated server response"));
        }
        let slice = &self.buf[self.pos..self.pos + count];
        self.pos = self.pos + count;
        Ok(slice)
    }

    fn u16(&mut self) -> (r: Result<u16, Error>)
        requires
            old(self).pos <= old(self).buf@.len(),
        ensures
            final(self).buf@ == old(self).buf@,
            final(self).pos <= final(self).buf@.len(),
            old(self).pos + 2 <= old(self).buf@.len() ==> {
                &&& r == Ok::<u16, Error>(u16_at(old(self).buf@, old(self).pos as int))
                &&& final(self).pos == old(self).pos + 2
            },
            old(self).pos + 2 > old(self).buf@.len() ==> (r matches Err(e) && is_ano_error(
                e,
                truncated_message(),
            )),
    {
        let bytes = self.take(2)?;
        Ok((bytes[0] as u16) * 256 + (bytes[1] as u16))
    }

    fn u32(&mut self) -> (r: Result<u32, Error>)
        requires
            old(self).pos <= old(self).buf@.len(),
        ensures
            final(self).buf@ == old(self).buf@,
            final(self).pos <= final(self).buf@.len(),
            old(self).pos + 4 <= old(self).buf@.len() ==> {
                &&& r == Ok::<u32, Error>(u32_at(old(self).buf@, old(self).pos as int))
                &&& final(self).pos == old(self).pos + 4
            },
            old(self).pos + 4 > old(self).buf@.len() ==> (r matches Err(e) && is_ano_error(
                e,
                truncated_message(),
            )),
    {
        let bytes = self.take(4)?;
        Ok((bytes[0] as u32) * 0x1000000 + (bytes[1] as u32) * 0x10000 + (bytes[2] as u32) * 0x100
            + (bytes[3] as u32))
    }

    fn u8(&mut self) -> (r: Result<u8, Error>)
        requires
            old(self).pos <= old(self).buf@.len(),
        ensures
            final(self).buf@ == old(self).buf@,
            final(self).pos <= final(self).buf@.len(),
            old(self).pos + 1 <= old(self).buf@.len() ==> {
                &&& r == Ok::<u8, Error>(old(self).buf@[old(self).pos as int])
                &&& final(self).pos == old(self).pos + 1
            },
            old(self).pos + 1 > old(self).buf@.len() ==> (r matches Err(e) && is_ano_error(
                e,
                truncated_message(),
            )),
    {
        let bytes = self.take(1)?;
        Ok(bytes[0])
    }

    /// Reads `[length u16][type u16][payload]`.
    fn sub(&mut self) -> (r: Result<(u16, Vec<u8>), Error>)
        requires
            old(self).pos <= old(self).buf@.len(),
        ensures
            final(self).buf@ == old(self).buf@,
            final(self).pos <= final(self).buf@.len(),
            read_sub_at(old(self).buf@, old(self).pos as int) matches Some((t, payload, next)) ==> {
                &&& r matches Ok(x) && x.0 == t && x.1@ == payload
                &&& final(self).pos == next
            },
            read_sub_at(old(self).buf@, old(self).pos as int) is None ==> (r matches Err(e)
                && is_ano_error(e, truncated_message())),
    {
        let length = self.u16()? as usize;
        let sub_type = self.u16()?;
        let payload = self.take(length)?;
        let mut v: Vec<u8> = Vec::new();
        append_slice(&mut v, payload);
        assert(v@ =~= payload@);
        Ok((sub_type, v))
    }
}

/// The Diffie-Hellman group and server key sent by the server.
pub struct DhParams {
    pub generator: Vec<u8>,
    pub prime: Vec<u8>,
    pub server_public: Vec<u8>,
    pub byte_len: usize,
}

/// What the server's ANO response selects.
pub struct ServerInfo {
    pub encrypt_algo: Option<EncryptAlgo>,
    pub dh: Option<DhParams>,
}

impl DhParams {
    pub open spec fn view(self) -> SpecDhParams {
        SpecDhParams {
            generator: self.generator@,
            prime: self.prime@,
            server_public: self.server_public@,
            byte_len: self.byte_len as nat,
        }
    }
}

impl ServerInfo {
    pub open spec fn view(self) -> SpecServerInfo {
        SpecServerInfo {
            encrypt_algo: self.encrypt_algo,
            dh: match self.dh {
                Some(d) => Some(d.view()),
                None => None,
            },
        }
    }
}

/// The sub-packets as types and payload bytes.
pub open spec fn subs_view(subs: Seq<(u16, Vec<u8>)>) -> Seq<(u16, Seq<u8>)> {
    subs.map_values(|x: (u16, Vec<u8>)| (x.0, x.1@))
}


/// The message for a service that answered with a non-zero status.
fn status_error(service_type: u16, status: u32) -> (e: Error)
    ensures
        is_ano_error(e, status_message(service_type, status)),
{
    let mut m = String::from_str("service ");
    append_decimal(&mut m, service_type as u64);
    m.append(" returned status ");
    append_decimal(&mut m, status as u64);
    Error::advanced_negotiation(m)
}

/// Reads `n` sub-packets and ignores them.
fn skip_subs(reader: &mut Reader, n: u16) -> (r: Result<(), Error>)
    requires
        old(reader).pos <= old(reader).buf@.len(),
    ensures
        final(reader).buf@ == old(reader).buf@,
        final(reader).pos <= final(reader).buf@.len(),
        read_subs_at(old(reader).buf@, old(reader).pos as int, n as nat) matches Some((subs, next))
            ==> r is Ok && final(reader).pos == next,
        read_subs_at(old(reader).buf@, old(reader).pos as int, n as nat) is None ==> (r matches Err(e)
            && is_ano_error(e, truncated_message())),
{
    let ghost buf = reader.buf@;
    let ghost start = reader.pos as int;
    let ghost mut subs: Seq<(u16, Seq<u8>)> = seq![];
    let mut j: u16 = 0;
    while j < n
        invariant
            j <= n,
            buf == old(reader).buf@,
            start == old(reader).pos as int,
            reader.buf@ == buf,
            reader.pos <= buf.len(),
            read_subs_at(buf, start, j as nat) == Some((subs, reader.pos as int)),
        decreases n - j,
    {
        match reader.sub() {
            Ok(x) => {
                proof { subs = subs.push((x.0, x.1@)); }
            },
            Err(e) => {
                proof { lemma_subs_stop(buf, start, (j + 1) as nat, n as nat); }
                return Err(e);
            },
        }
        j = j + 1;
    }
    Ok(())
}

/// Reads the encrypt service's sub-packets, selecting the algorithm.
fn read_encrypt_subs(reader: &mut Reader, n: u16, info: &mut ServerInfo) -> (r: Result<(), Error>)
    requires
        old(reader).pos <= old(reader).buf@.len(),
    ensures
        final(reader).buf@ == old(reader).buf@,
        final(reader).pos <= final(reader).buf@.len(),
        read_subs_at(old(reader).buf@, old(reader).pos as int, n as nat) matches Some((subs, next))
            ==> {
            &&& r is Ok
            &&& final(reader).pos == next
            &&& final(info).view() == SpecServerInfo {
                encrypt_algo: algo_after(subs, old(info).encrypt_algo),
                ..old(info).view()
            }
        },
        read_subs_at(old(reader).buf@, old(reader).pos as int, n as nat) is None ==> (r matches Err(e)
            && is_ano_error(e, truncated_message())),
{
    let ghost buf = reader.buf@;
    let ghost start = reader.pos as int;
    let ghost algo0 = info.encrypt_algo;
    let ghost mut subs: Seq<(u16, Seq<u8>)> = seq![];
    let mut j: u16 = 0;
    while j < n
        invariant
            j <= n,
            buf == old(reader).buf@,
            start == old(reader).pos as int,
            reader.buf@ == buf,
            reader.pos <= buf.len(),
            read_subs_at(buf, start, j as nat) == Some((subs, reader.pos as int)),
            info.encrypt_algo == algo_after(subs, algo0),
            algo0 == old(info).encrypt_algo,
            info.view() == (SpecServerInfo { encrypt_algo: info.encrypt_algo, ..old(info).view() }),
        decreases n - j,
    {
        match reader.sub() {
            Ok(x) => {
                let (sub_type, payload) = x;
                if sub_type == SUB_UB1 && payload.len() > 0 {
                    info.encrypt_algo = EncryptAlgo::from_id(payload[0]);
                }
                proof {
                    let next = subs.push((sub_type, payload@));
                    assert(next.drop_last() =~= subs);
                    subs = next;
                }
            },
            Err(e) => {
                proof { lemma_subs_stop(buf, start, (j + 1) as nat, n as nat); }
                return Err(e);
            },
        }
        j = j + 1;
    }
    Ok(())
}

/// Reads the integrity service's sub-packets, taking the Diffie-Hellman
/// group when the server sends it.
fn read_integrity_subs(reader: &mut Reader, n: u16, info: &mut ServerInfo) -> (r: Result<(), Error>)
    requires
        old(reader).pos <= old(reader).buf@.len(),
        read_subs_at(old(reader).buf@, old(reader).pos as int, n as nat) matches Some((subs, next))
            ==> !(integrity_outcome(subs, old(info).view(), next) is Malformed),
    ensures
        final(reader).buf@ == old(reader).buf@,
        final(reader).pos <= final(reader).buf@.len(),
        read_subs_at(old(reader).buf@, old(reader).pos as int, n as nat) matches Some((subs, next))
            ==> match integrity_outcome(subs, old(info).view(), next) {
            AnoParse::Going(i, p) => r is Ok && final(info).view() == i && final(reader).pos == p,
            AnoParse::Refused(m) => r matches Err(e) && is_ano_error(e, m),
            AnoParse::Malformed => false,
        },
        read_subs_at(old(reader).buf@, old(reader).pos as int, n as nat) is None ==> (r matches Err(e)
            && is_ano_error(e, truncated_message())),
        read_subs_at(old(reader).buf@, old(reader).pos as int, n as nat) matches Some((subs, next)) ==> (
        subs.len() == 8 && r is Ok ==> (final(info).dh matches Some(dh) && dh.generator@ == subs[4].1
            && dh.prime@ == subs[5].1 && dh.server_public@ == subs[6].1)),
{
    let ghost buf = reader.buf@;
    let ghost start = reader.pos as int;
    let mut subs: Vec<(u16, Vec<u8>)> = Vec::new();
    let mut j: u16 = 0;
    while j < n
        invariant
            j <= n,
            buf == old(reader).buf@,
            start == old(reader).pos as int,
            reader.buf@ == buf,
            reader.pos <= buf.len(),
            read_subs_at(buf, start, j as nat) == Some((subs_view(subs@), reader.pos as int)),
        decreases n - j,
    {
        match reader.sub() {
            Ok(x) => {
                let ghost before = subs@;
                subs.push(x);
                proof {
                    assert(subs_view(subs@) =~= subs_view(before).push((subs@.last().0, subs@.last().1@)));
                }
            },
            Err(e) => {
                proof { lemma_subs_stop(buf, start, (j + 1) as nat, n as nat); }
                return Err(e);
            },
        }
        j = j + 1;
    }
    proof { lemma_subs_len(buf, start, n as nat); }
    // DH is sent only when encryption is being negotiated, as eight
    // sub-packets: version, ub1, ub2, ub2, bytes x4.
    if n == 8 && subs.len() == 8 {
        let g = &subs[2].1;
        let dh_gen_len: usize = (g[0] as usize) * 256 + (g[1] as usize);
        let byte_len = (dh_gen_len + 7) / 8;
        if subs[6].1.len() != byte_len || subs[5].1.len() != byte_len {
            proof { reveal_strlit("Diffie-Hellman negotiation out of sync"); }
            return Err(ano_err("Diffie-Hellman negotiation out of sync"));
        }
        let generator = copy_vec(&subs[4].1);
        let prime = copy_vec(&subs[5].1);
        let server_public = copy_vec(&subs[6].1);
        info.dh = Some(DhParams { generator, prime, server_public, byte_len });
    }
    Ok(())
}

fn copy_vec(v: &Vec<u8>) -> (r: Vec<u8>)
    ensures
        r@ == v@,
{
    let mut r: Vec<u8> = Vec::new();
    append_slice(&mut r, v.as_slice());
    assert(r@ =~= v@);
    r
}

/// Parses one service of the server's response.
fn parse_one_service(reader: &mut Reader, info: &mut ServerInfo) -> (r: Result<(), Error>)
    requires
        old(reader).pos <= old(reader).buf@.len(),
        !(parse_service(old(reader).buf@, old(reader).pos as int, old(info).view()) is Malformed),
    ensures
        final(reader).buf@ == old(reader).buf@,
        final(reader).pos <= final(reader).buf@.len(),
        match parse_service(old(reader).buf@, old(reader).pos as int, old(info).view()) {
            AnoParse::Going(i, p) => r is Ok && final(info).view() == i && final(reader).pos == p,
            AnoParse::Refused(m) => r matches Err(e) && is_ano_error(e, m),
            AnoParse::Malformed => false,
        },
{
    let service_type = reader.u16()?;
    let sub_packets = reader.u16()?;
    let status = reader.u32()?;
    if status != 0 {
        return Err(status_error(service_type, status));
    }
    if service_type == SERVICE_ENCRYPT {
        read_encrypt_subs(reader, sub_packets, info)
    } else if service_type == SERVICE_INTEGRITY {
        read_integrity_subs(reader, sub_packets, info)
    } else {
        skip_subs(reader, sub_packets)
    }
}

/// Parses the server's response to the client's service lists.
pub fn parse_server_response(buf: &[u8]) -> (r: Result<ServerInfo, Error>)
    requires
        !(spec_parse_server_response(buf@) is Malformed),
    ensures
        match spec_parse_server_response(buf@) {
            AnoParse::Going(i, _) => r matches Ok(info) && info.view() == i,
            AnoParse::Refused(m) => r matches Err(e) && is_ano_error(e, m),
            AnoParse::Malformed => false,
        },
{
    let mut reader = Reader::new(buf);
    if reader.u32()? != ANO_MAGIC {
        proof { reveal_strlit("missing ANO magic in server response"); }
        return Err(ano_err("missing ANO magic in server response"));
    }
    let _length = reader.u16()?;
    let _version = reader.u32()?;
    let service_count = reader.u16()?;
    let _error_flags = reader.u8()?;

    let mut info = ServerInfo { encrypt_algo: None, dh: None };
    let mut i: u16 = 0;
    while i < service_count
        invariant
            i <= service_count,
            service_count == u16_at(buf@, 10),
            buf@.len() >= 13,
            spec_parse_server_response(buf@) == parse_services(buf@, service_count as nat),
            !(parse_services(buf@, service_count as nat) is Malformed),
            reader.buf@ == buf@,
            reader.pos <= buf@.len(),
            parse_services(buf@, i as nat) == AnoParse::Going(info.view(), reader.pos as int),
        decreases service_count - i,
    {
        proof {
            if parse_services(buf@, (i + 1) as nat) is Malformed {
                lemma_services_stop(buf@, (i + 1) as nat, service_count as nat);
            }
        }
        let ghost pos0 = reader.pos as int;
        let ghost info0 = info.view();
        match parse_one_service(&mut reader, &mut info) {
            Ok(()) => {},
            Err(e) => {
                proof {
                    assert(parse_services(buf@, (i + 1) as nat) == parse_service(buf@, pos0, info0));
                    lemma_services_stop(buf@, (i + 1) as nat, service_count as nat);
                }
                return Err(e);
            },
        }
        i = i + 1;
    }
    Ok(info)
}


/// The message that tells a non-DATA packet apart during the handshake.
pub open spec fn unexpected_packet_message(packet_type: u8) -> Seq<char> {
    "expected a DATA packet, got type "@ + decimal(packet_type as nat)
}

/// Takes the body of a packet received during the handshake, which must be
/// a DATA packet.
pub fn receive_ano_data(packet: Packet) -> (r: Result<Vec<u8>, Error>)
    ensures
        packet.packet_type == constants::PACKET_TYPE_DATA ==> (r matches Ok(v) && v@ == packet.buf@),
        packet.packet_type != constants::PACKET_TYPE_DATA ==> (r matches Err(e) && is_ano_error(
            e,
            unexpected_packet_message(packet.packet_type),
        )),
{
    if packet.packet_type != constants::PACKET_TYPE_DATA {
        let mut m = String::from_str("expected a DATA packet, got type ");
        append_decimal(&mut m, packet.packet_type as u64);
        return Err(Error::advanced_negotiation(m));
    }
    Ok(packet.buf)
}

/// What the client does with the server's answer once it has a private
/// key: it sends its public key and installs the cryptor the answer selects.
pub struct NegotiationReply {
    pub public_key_message: Vec<u8>,
    pub cryptor: Result<Option<AesCryptor>, Error>,
}

/// Whether a reply is the one owed to the server's answer for a private key:
/// the public key message carries `generator^private mod prime`; with an
/// encryption algorithm selected, the cryptor takes the leading bytes of the
/// shared secret `server_public^private mod prime`, or the negotiation fails
/// when the secret is shorter than the key.
pub open spec fn is_reply_for(info: SpecServerInfo, private_key: Seq<u8>, reply: NegotiationReply) -> bool {
    let dh = info.dh.unwrap();
    let public_key = spec_dh_public_key(dh.generator, dh.prime, private_key, dh.byte_len);
    let shared_key = spec_dh_shared_key(dh.server_public, private_key, dh.prime, dh.byte_len);
    &&& reply.public_key_message@ == spec_client_public_key(public_key)
    &&& match info.encrypt_algo {
        None => reply.cryptor matches Ok(c) && c is None,
        Some(algo) => if shared_key.len() >= spec_key_len(algo) {
            reply.cryptor matches Ok(Some(c)) && c.algo() == algo && c.key() == shared_key.subrange(
                0,
                spec_key_len(algo) as int,
            )
        } else {
            reply.cryptor matches Err(e) && is_ano_error(
                e,
                "ANO AES key too short: "@ + decimal(shared_key.len()) + " bytes, need "@ + decimal(
                    spec_key_len(algo) as nat,
                ),
            )
        },
    }
}

/// Computes the reply to the server's answer for the given private key.
/// Without a Diffie-Hellman group the server did not enable encryption and
/// there is nothing to reply.
pub fn negotiation_reply(info: &ServerInfo, private_key: &[u8]) -> (r: Option<NegotiationReply>)
    requires
        info.dh matches Some(dh) ==> be_value(dh.prime@) > 0 && dh.byte_len + private_key@.len()
            + dh.prime@.len() + 64 <= usize::MAX,
    ensures
        info.dh is None <==> r is None,
        r matches Some(reply) ==> is_reply_for(info.view(), private_key@, reply),
{
    let dh = match &info.dh {
        Some(dh) => dh,
        None => return None,
    };
    let public_key = dh_public_key(dh.generator.as_slice(), dh.prime.as_slice(), private_key, dh.byte_len);
    let shared_key = dh_shared_key(dh.server_public.as_slice(), private_key, dh.prime.as_slice(), dh.byte_len);
    proof { lemma_modpow_fixed_len_bound(dh.generator@, private_key@, dh.prime@, dh.byte_len as nat); }
    let public_key_message = build_client_public_key(public_key.as_slice());
    let cryptor = match info.encrypt_algo {
        Some(algo) => match AesCryptor::new(algo, shared_key.as_slice()) {
            Ok(c) => Ok(Some(c)),
            Err(m) => Err(Error::advanced_negotiation(m)),
        },
        None => Ok(None),
    };
    Some(NegotiationReply { public_key_message, cryptor })
}

/// Draws a random private key as long as the Diffie-Hellman values and
/// computes the reply to the server's answer with it.
pub fn negotiate_keys(info: &ServerInfo) -> (r: Option<NegotiationReply>)
    requires
        info.dh matches Some(dh) ==> be_value(dh.prime@) > 0 && 2 * dh.byte_len + dh.prime@.len() + 64
            <= usize::MAX,
    ensures
        info.dh is None <==> r is None,
        r matches Some(reply) ==> exists|private_key: Seq<u8>|
            private_key.len() == info.dh.unwrap().byte_len && #[trigger] is_reply_for(
                info.view(),
                private_key,
                reply,
            ),
{
    match &info.dh {
        Some(dh) => {
            let private_key = random_bytes(dh.byte_len);
            negotiation_reply(info, private_key.as_slice())
        },
        None => None,
    }
}

/// The bytes of consecutive sub-packets.
pub open spec fn subs_bytes(subs: Seq<(u16, Seq<u8>)>) -> Seq<u8>
    decreases subs.len(),
{
    if subs.len() == 0 {
        seq![]
    } else {
        subs_bytes(subs.drop_last()) + spec_sub(subs.last().0, subs.last().1)
    }
}

proof fn lemma_u16_at_be(buf: Seq<u8>, pos: int, v: u16)
    requires
        0 <= pos,
        pos + 2 <= buf.len(),
        buf.subrange(pos, pos + 2) == be_u16(v),
    ensures
        u16_at(buf, pos) == v,
{
    assert(buf[pos] == buf.subrange(pos, pos + 2)[0]);
    assert(buf[pos + 1] == buf.subrange(pos, pos + 2)[1]);
}

proof fn lemma_read_sub_of(buf: Seq<u8>, pos: int, t: u16, payload: Seq<u8>)
    requires
        0 <= pos,
        payload.len() < 0x10000,
        pos + 4 + payload.len() <= buf.len(),
        buf.subrange(pos, pos + 4 + payload.len()) == spec_sub(t, payload),
    ensures
        read_sub_at(buf, pos) == Some((t, payload, pos + 4 + payload.len())),
{
    let w = buf.subrange(pos, pos + 4 + payload.len());
    assert(buf.subrange(pos, pos + 2) =~= w.subrange(0, 2));
    assert(w.subrange(0, 2) =~= be_u16(payload.len() as u16));
    lemma_u16_at_be(buf, pos, payload.len() as u16);
    assert(buf.subrange(pos + 2, pos + 4) =~= w.subrange(2, 4));
    assert(w.subrange(2, 4) =~= be_u16(t));
    lemma_u16_at_be(buf, pos + 2, t);
    assert(buf.subrange(pos + 4, pos + 4 + payload.len()) =~= w.subrange(4, 4 + payload.len() as int));
    assert(w.subrange(4, 4 + payload.len() as int) =~= payload);
}

proof fn lemma_read_subs_of(buf: Seq<u8>, pos: int, subs: Seq<(u16, Seq<u8>)>)
    requires
        0 <= pos,
        forall|i: int| 0 <= i < subs.len() ==> (#[trigger] subs[i]).1.len() < 0x10000,
        pos + subs_bytes(subs).len() <= buf.len(),
        buf.subrange(pos, pos + subs_bytes(subs).len()) == subs_bytes(subs),
    ensures
        read_subs_at(buf, pos, subs.len()) == Some((subs, pos + subs_bytes(subs).len())),
    decreases subs.len(),
{
    if subs.len() > 0 {
        let front = subs.drop_last();
        let fb = subs_bytes(front);
        let (t, payload) = subs.last();
        assert(subs_bytes(subs) == fb + spec_sub(t, payload));
        assert(buf.subrange(pos, pos + fb.len()) =~= subs_bytes(subs).subrange(0, fb.len() as int));
        assert(subs_bytes(subs).subrange(0, fb.len() as int) =~= fb);
        assert forall|i: int| 0 <= i < front.len() implies (#[trigger] front[i]).1.len() < 0x10000 by {
            assert(front[i] == subs[i]);
        }
        lemma_read_subs_of(buf, pos, front);
        let p = pos + fb.len();
        let whole = buf.subrange(pos, pos + subs_bytes(subs).len());
        assert(subs[subs.len() - 1].1.len() < 0x10000);
        assert(buf.subrange(p, p + 4 + payload.len()) =~= whole.subrange(
            fb.len() as int,
            subs_bytes(subs).len() as int,
        ));
        assert(whole.subrange(fb.len() as int, subs_bytes(subs).len() as int) =~= spec_sub(t, payload));
        lemma_read_sub_of(buf, p, t, payload);
        assert(front.push((t, payload)) =~= subs);
    }
}

proof fn lemma_parse_service_of(buf: Seq<u8>, pos: int, info: SpecServerInfo, t: u16, subs: Seq<(u16, Seq<u8>)>)
    requires
        0 <= pos,
        subs.len() < 0x10000,
        forall|i: int| 0 <= i < subs.len() ==> (#[trigger] subs[i]).1.len() < 0x10000,
        pos + 8 + subs_bytes(subs).len() <= buf.len(),
        buf.subrange(pos, pos + 8 + subs_bytes(subs).len()) == spec_service(t, subs.len() as u16, subs_bytes(subs)),
    ensures
        parse_service(buf, pos, info) == (if t == SERVICE_ENCRYPT {
            AnoParse::Going(
                SpecServerInfo { encrypt_algo: algo_after(subs, info.encrypt_algo), ..info },
                pos + 8 + subs_bytes(subs).len(),
            )
        } else if t == SERVICE_INTEGRITY {
            integrity_outcome(subs, info, pos + 8 + subs_bytes(subs).len())
        } else {
            AnoParse::Going(info, pos + 8 + subs_bytes(subs).len())
        }),
{
    let n = subs_bytes(subs).len();
    let w = buf.subrange(pos, pos + 8 + n);
    assert(buf.subrange(pos, pos + 2) =~= w.subrange(0, 2));
    assert(w.subrange(0, 2) =~= be_u16(t));
    lemma_u16_at_be(buf, pos, t);
    assert(buf.subrange(pos + 2, pos + 4) =~= w.subrange(2, 4));
    assert(w.subrange(2, 4) =~= be_u16(subs.len() as u16));
    lemma_u16_at_be(buf, pos + 2, subs.len() as u16);
    assert(buf[pos + 4] == w[4] && w[4] == 0);
    assert(buf[pos + 5] == w[5] && w[5] == 0);
    assert(buf[pos + 6] == w[6] && w[6] == 0);
    assert(buf[pos + 7] == w[7] && w[7] == 0);
    assert(u32_at(buf, pos + 4) == 0);
    assert(buf.subrange(pos + 8, pos + 8 + n) =~= w.subrange(8, 8 + n as int));
    assert(w.subrange(8, 8 + n as int) =~= subs_bytes(subs));
    lemma_read_subs_of(buf, pos + 8, subs);
}

spec fn version_sub() -> (u16, Seq<u8>) {
    (SUB_VERSION, be_u32(ANO_VERSION))
}

#[verifier::opaque]
spec fn supervisor_subs() -> Seq<(u16, Seq<u8>)> {
    seq![
        version_sub(),
        (SUB_BYTES, seq![0u8, 0, 16, 28, 102, 236, 40, 234]),
        (SUB_BYTES, be_u32(ANO_MAGIC) + be_u16(3) + be_u32(4) + be_u16_all(seq![4u16, 1, 2, 3])),
    ]
}

#[verifier::opaque]
spec fn auth_subs() -> Seq<(u16, Seq<u8>)> {
    seq![version_sub(), (SUB_UB2, be_u16(0xE0E1)), (SUB_STATUS, be_u16(0xFCFF))]
}

#[verifier::opaque]
spec fn encrypt_subs() -> Seq<(u16, Seq<u8>)> {
    seq![version_sub(), (SUB_BYTES, seq![15u8, 16, 17]), (SUB_UB1, seq![1u8])]
}

#[verifier::opaque]
spec fn integrity_subs() -> Seq<(u16, Seq<u8>)> {
    seq![version_sub(), (SUB_BYTES, seq![0u8])]
}

/// The client's services are their sub-packets, one after the other.
proof fn lemma_client_services()
    ensures
        spec_supervisor() == spec_service(SERVICE_SUPERVISOR, 3, subs_bytes(supervisor_subs())),
        spec_auth() == spec_service(SERVICE_AUTH, 3, subs_bytes(auth_subs())),
        spec_encrypt() == spec_service(SERVICE_ENCRYPT, 3, subs_bytes(encrypt_subs())),
        spec_integrity() == spec_service(SERVICE_INTEGRITY, 2, subs_bytes(integrity_subs())),
        forall|i: int| 0 <= i < supervisor_subs().len() ==> (#[trigger] supervisor_subs()[i]).1.len() < 0x10000,
        forall|i: int| 0 <= i < auth_subs().len() ==> (#[trigger] auth_subs()[i]).1.len() < 0x10000,
        forall|i: int| 0 <= i < encrypt_subs().len() ==> (#[trigger] encrypt_subs()[i]).1.len() < 0x10000,
        forall|i: int| 0 <= i < integrity_subs().len() ==> (#[trigger] integrity_subs()[i]).1.len() < 0x10000,
        algo_after(encrypt_subs(), None) == spec_encrypt_algo_from_id(1),
        supervisor_subs().len() == 3,
        auth_subs().len() == 3,
        encrypt_subs().len() == 3,
        integrity_subs().len() == 2,
{
    reveal(supervisor_subs);
    reveal(auth_subs);
    reveal(encrypt_subs);
    reveal(integrity_subs);
    reveal_with_fuel(subs_bytes, 4);
    reveal_with_fuel(be_u16_all, 5);
    reveal_with_fuel(algo_after, 4);
    assert(supervisor_subs().drop_last().drop_last().drop_last() =~= Seq::<(u16, Seq<u8>)>::empty());
    assert(subs_bytes(supervisor_subs()) =~= spec_sub_version() + spec_sub(
        SUB_BYTES,
        seq![0u8, 0, 16, 28, 102, 236, 40, 234],
    ) + spec_sub_u16_array(seq![4u16, 1, 2, 3]));
    assert(auth_subs().drop_last().drop_last().drop_last() =~= Seq::<(u16, Seq<u8>)>::empty());
    assert(subs_bytes(auth_subs()) =~= spec_sub_version() + spec_sub(SUB_UB2, be_u16(0xE0E1)) + spec_sub(
        SUB_STATUS,
        be_u16(0xFCFF),
    ));
    assert(encrypt_subs().drop_last().drop_last().drop_last() =~= Seq::<(u16, Seq<u8>)>::empty());
    assert(subs_bytes(encrypt_subs()) =~= spec_sub_version() + spec_sub(SUB_BYTES, seq![15u8, 16, 17]) + spec_sub(
        SUB_UB1,
        seq![1u8],
    ));
    assert(integrity_subs().drop_last().drop_last() =~= Seq::<(u16, Seq<u8>)>::empty());
    assert(subs_bytes(integrity_subs()) =~= spec_sub_version() + spec_sub(SUB_BYTES, seq![0u8]));
    assert(encrypt_subs().drop_last().drop_last() =~= seq![version_sub()]);
    assert(encrypt_subs().drop_last() =~= seq![version_sub(), (SUB_BYTES, seq![15u8, 16, 17])]);
}

/// Where the four parts after a header stand.
proof fn lemma_four_parts(buf: Seq<u8>, hdr: Seq<u8>, s1: Seq<u8>, s2: Seq<u8>, s3: Seq<u8>, s4: Seq<u8>)
    requires
        buf == hdr + (s1 + s2 + s3 + s4),
    ensures
        buf.len() == hdr.len() + s1.len() + s2.len() + s3.len() + s4.len(),
        buf.subrange(hdr.len() as int, hdr.len() + s1.len() as int) == s1,
        buf.subrange(hdr.len() + s1.len() as int, hdr.len() + s1.len() + s2.len() as int) == s2,
        buf.subrange(hdr.len() + s1.len() + s2.len() as int, hdr.len() + s1.len() + s2.len() + s3.len() as int)
            == s3,
        buf.subrange(hdr.len() + s1.len() + s2.len() + s3.len() as int, buf.len() as int) == s4,
        forall|i: int| 0 <= i < hdr.len() ==> buf[i] == hdr[i],
{
    let a = hdr.len() as int;
    let b = a + s1.len();
    let c = b + s2.len();
    let d = c + s3.len();
    assert(buf.subrange(a, b) =~= s1);
    assert(buf.subrange(b, c) =~= s2);
    assert(buf.subrange(c, d) =~= s3);
    assert(buf.subrange(d, buf.len() as int) =~= s4);
}

/// One more service read after `n` of them.
proof fn lemma_services_step(
    buf: Seq<u8>,
    n: nat,
    info: SpecServerInfo,
    p: int,
    sv: Seq<u8>,
    t: u16,
    subs: Seq<(u16, Seq<u8>)>,
)
    requires
        parse_services(buf, n) == AnoParse::Going(info, p),
        0 <= p,
        p + sv.len() <= buf.len(),
        buf.subrange(p, p + sv.len()) == sv,
        sv == spec_service(t, subs.len() as u16, subs_bytes(subs)),
        subs.len() < 0x10000,
        forall|i: int| 0 <= i < subs.len() ==> (#[trigger] subs[i]).1.len() < 0x10000,
    ensures
        parse_services(buf, n + 1) == (if t == SERVICE_ENCRYPT {
            AnoParse::Going(
                SpecServerInfo { encrypt_algo: algo_after(subs, info.encrypt_algo), ..info },
                p + sv.len(),
            )
        } else if t == SERVICE_INTEGRITY {
            integrity_outcome(subs, info, p + sv.len())
        } else {
            AnoParse::Going(info, p + sv.len())
        }),
{
    assert(sv.len() == 8 + subs_bytes(subs).len());
    lemma_parse_service_of(buf, p, info, t, subs);
    assert(parse_services(buf, n + 1) == parse_service(buf, p, info));
}

/// A request of a header and four services made of those sub-packets
/// parses whole.
proof fn lemma_parse_four(buf: Seq<u8>, hdr: Seq<u8>, s1: Seq<u8>, s2: Seq<u8>, s3: Seq<u8>, s4: Seq<u8>)
    requires
        buf == hdr + (s1 + s2 + s3 + s4),
        hdr.len() == 13,
        u32_at(hdr, 0) == ANO_MAGIC,
        u16_at(hdr, 10) == 4,
        s1 == spec_service(SERVICE_SUPERVISOR, 3, subs_bytes(supervisor_subs())),
        s2 == spec_service(SERVICE_AUTH, 3, subs_bytes(auth_subs())),
        s3 == spec_service(SERVICE_ENCRYPT, 3, subs_bytes(encrypt_subs())),
        s4 == spec_service(SERVICE_INTEGRITY, 2, subs_bytes(integrity_subs())),
        supervisor_subs().len() == 3,
        auth_subs().len() == 3,
        encrypt_subs().len() == 3,
        integrity_subs().len() == 2,
        forall|i: int| 0 <= i < supervisor_subs().len() ==> (#[trigger] supervisor_subs()[i]).1.len() < 0x10000,
        forall|i: int| 0 <= i < auth_subs().len() ==> (#[trigger] auth_subs()[i]).1.len() < 0x10000,
        forall|i: int| 0 <= i < encrypt_subs().len() ==> (#[trigger] encrypt_subs()[i]).1.len() < 0x10000,
        forall|i: int| 0 <= i < integrity_subs().len() ==> (#[trigger] integrity_subs()[i]).1.len() < 0x10000,
        algo_after(encrypt_subs(), None) == spec_encrypt_algo_from_id(1),
    ensures
        spec_parse_server_response(buf) == AnoParse::Going(
            SpecServerInfo { encrypt_algo: spec_encrypt_algo_from_id(1), dh: None },
            buf.len() as int,
        ),
{
    lemma_four_parts(buf, hdr, s1, s2, s3, s4);
    let p1 = 13int;
    let p2 = p1 + s1.len();
    let p3 = p2 + s2.len();
    let p4 = p3 + s3.len();
    let info0 = SpecServerInfo { encrypt_algo: None, dh: None };
    let info1 = SpecServerInfo { encrypt_algo: spec_encrypt_algo_from_id(1), dh: None };
    assert(parse_services(buf, 0) == AnoParse::Going(info0, p1));
    lemma_services_step(buf, 0, info0, p1, s1, SERVICE_SUPERVISOR, supervisor_subs());
    lemma_services_step(buf, 1, info0, p2, s2, SERVICE_AUTH, auth_subs());
    lemma_services_step(buf, 2, info0, p3, s3, SERVICE_ENCRYPT, encrypt_subs());
    lemma_services_step(buf, 3, info1, p4, s4, SERVICE_INTEGRITY, integrity_subs());
    assert(buf[0] == hdr[0] && buf[1] == hdr[1] && buf[2] == hdr[2] && buf[3] == hdr[3]);
    assert(buf[10] == hdr[10] && buf[11] == hdr[11]);
    assert(u32_at(buf, 0) == u32_at(hdr, 0));
    assert(u16_at(buf, 10) == u16_at(hdr, 10));
}

/// What the client's request offers reads back with the reader of the
/// service framing: its header and its four services parse whole, the
/// reading ends at the end of the request, and it selects what the request
/// names (the algorithm that its one-byte encryption sub-packet names, and
/// no Diffie-Hellman group).
pub proof fn client_request_reads_back()
    ensures
        spec_parse_server_response(spec_client_request()) == AnoParse::Going(
            SpecServerInfo { encrypt_algo: spec_encrypt_algo_from_id(1), dh: None },
            spec_client_request().len() as int,
        ),
{
    lemma_client_services();
    let services = spec_supervisor() + spec_auth() + spec_encrypt() + spec_integrity();
    let hdr = spec_ano_header(services.len(), 4);
    assert(u32_at(hdr, 0) == ANO_MAGIC);
    assert(u16_at(hdr, 10) == 4);
    lemma_parse_four(spec_client_request(), hdr, spec_supervisor(), spec_auth(), spec_encrypt(), spec_integrity());
}

/// With eight sub-packets the integrity service carries the server's
/// Diffie-Hellman group: when its lengths agree, the group's generator is
/// the payload of the fifth sub-packet, its prime that of the sixth, the
/// server's public key that of the seventh, and its byte length is the
/// generator bit length of the third sub-packet rounded up to whole bytes;
/// the encryption algorithm is left as it was.
pub proof fn integrity_group_from_subpackets(subs: Seq<(u16, Seq<u8>)>, info: SpecServerInfo, next: int)
    requires
        subs.len() == 8,
        subs[2].1.len() >= 2,
        subs[5].1.len() == (subs[2].1[0] as nat * 256 + subs[2].1[1] as nat + 7) / 8,
        subs[6].1.len() == (subs[2].1[0] as nat * 256 + subs[2].1[1] as nat + 7) / 8,
    ensures
        integrity_outcome(subs, info, next) is Going,
        integrity_outcome(subs, info, next)->Going_1 == next,
        integrity_outcome(subs, info, next)->Going_0.encrypt_algo == info.encrypt_algo,
        integrity_outcome(subs, info, next)->Going_0.dh == Some(
            SpecDhParams {
                generator: subs[4].1,
                prime: subs[5].1,
                server_public: subs[6].1,
                byte_len: (subs[2].1[0] as nat * 256 + subs[2].1[1] as nat + 7) / 8,
            },
        ),
{
}

} // verus!
