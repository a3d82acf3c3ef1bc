//! The client state that drives the exchange of messages with the server:
//! what each round trip carries besides its message (the piggybacks), and
//! the decisions taken on what the server sends back.

pub mod capabilities;

use vstd::prelude::*;
use vstd::string::StrSliceExecFns;
use vstd::utf8::encode_utf8;

use crate::bytes::zeros;
use crate::constants;
use crate::crypto::be_value;
use crate::error::{Error, ErrorKind};
use crate::packet::{be16, Packet};
use crate::read_buffer::packets_data;
use crate::response::Response;
use crate::write_buffer::{
    bytes_with_double_length, bytes_with_length, call_header, next_seq_num, ub_bytes, WriteBuffer,
};
use capabilities::Capabilities;

verus! {

/// The flag asking the server to attach an end user security context.
pub const TTC_SECURITY_CONTEXT_ATTACH_FLAG: u32 = 0x01;

/// The state of a connection to the database that outlives single round
/// trips: the negotiated capabilities, what the next round trip must carry
/// to the server, and what the server reported.
pub struct Client {
    pub caps: Capabilities,
    pub combo_key: Option<[u8; 32]>,
    pub charset_id: u16,
    pub ncharset_id: u16,
    /// The number of statements the statement cache may hold.
    pub statement_cache_size: usize,
    /// The ids of the cursors that the server may close.
    pub cursors_to_close: Vec<u16>,
    pub drcp_establish_session: bool,
    pub in_request: bool,
    pub override_ttc_field_version: u8,
    pub pending_error_num: usize,
    pub pending_action: Option<Vec<u8>>,
    pub pending_client_identifier: Option<Vec<u8>>,
    pub pending_client_info: Option<Vec<u8>>,
    pub pending_db_op: Option<Vec<u8>>,
    pub pending_module: Option<Vec<u8>>,
    pub pending_ha_readiness: bool,
    pub pending_session_state: u8,
    pub transaction_in_progress: bool,
    pub pool_id: String,
    pub last_warning: Option<String>,
    /// The OSON encoding of the end user security context, if one is set.
    pub security_context: Option<Vec<u8>>,
    pub temp_lobs_to_close: Vec<Vec<u8>>,
}

/// The view of an optional byte vector.
pub open spec fn opt_view(v: Option<Vec<u8>>) -> Option<Seq<u8>> {
    match v {
        Some(b) => Some(b@),
        None => None,
    }
}

/// The views of a sequence of byte vectors.
pub open spec fn views(v: Seq<Vec<u8>>) -> Seq<Seq<u8>> {
    v.map_values(|b: Vec<u8>| b@)
}

/// The byte strings one after another.
pub open spec fn concat_all(s: Seq<Seq<u8>>) -> Seq<u8>
    decreases s.len(),
{
    if s.len() == 0 {
        seq![]
    } else {
        concat_all(s.drop_last()) + s.last()
    }
}

/// The variable-length encodings of cursor ids, one after another.
pub open spec fn ub2_list(ids: Seq<u16>) -> Seq<u8>
    decreases ids.len(),
{
    if ids.len() == 0 {
        seq![]
    } else {
        ub2_list(ids.drop_last()) + ub_bytes(ids.last() as u64)
    }
}

/// The header of a piggyback.
pub open spec fn piggyback_header(code: u8, seq_num: u8, token: bool) -> Seq<u8> {
    call_header(constants::TTC_MSG_TYPE_PIGGYBACK, code, seq_num, token)
}

/// The piggyback that lets the server close cursors.
#[verifier::opaque]
pub open spec fn close_cursors_piggyback(seq_num: u8, token: bool, ids: Seq<u16>) -> Seq<u8> {
    piggyback_header(constants::TTC_RPC_CLOSE_CURSORS, seq_num, token) + seq![1u8] + ub_bytes(
        ids.len() as u64,
    ) + ub2_list(ids)
}

/// The piggyback that frees temporary LOBs: the total size of their
/// locators, the LOB operation and then the locators themselves; all other
/// fields are zero.
#[verifier::opaque]
pub open spec fn close_temp_lobs_piggyback(seq_num: u8, token: bool, lobs: Seq<Seq<u8>>) -> Seq<u8> {
    free_temp_lobs_head(seq_num, token, concat_all(lobs).len() as u32) + concat_all(lobs)
}

/// The flags announcing which end-to-end attributes are sent; the module is
/// always sent with the action.
pub open spec fn end_to_end_flags(
    action: bool,
    client_identifier: bool,
    client_info: bool,
    db_op: bool,
    module: bool,
) -> u32 {
    let f0: u32 = 0;
    let f1: u32 = if action { f0 | constants::TTC_END_TO_END_FLAGS_ACTION } else { f0 };
    let f2: u32 = if client_identifier { f1 | constants::TTC_END_TO_END_FLAGS_CLIENT_IDENTIFIER } else { f1 };
    let f3: u32 = if client_info { f2 | constants::TTC_END_TO_END_FLAGS_CLIENT_INFO } else { f2 };
    let f4: u32 = if db_op { f3 | constants::TTC_END_TO_END_FLAGS_DB_OP } else { f3 };
    if module {
        f4 | (constants::TTC_END_TO_END_FLAGS_MODULE | constants::TTC_END_TO_END_FLAGS_ACTION)
    } else {
        f4
    }
}

/// A pointer to a value and its length, or a null pointer and a zero length.
#[verifier::opaque]
pub open spec fn pointer_and_len(v: Option<Seq<u8>>) -> Seq<u8> {
    match v {
        Some(b) => seq![1u8] + ub_bytes(b.len() as u64),
        None => seq![0u8] + ub_bytes(0),
    }
}

/// The value of an attribute, written only when it is not empty.
#[verifier::opaque]
pub open spec fn attribute_value(v: Option<Seq<u8>>) -> Seq<u8> {
    match v {
        Some(b) => if b.len() > 0 {
            bytes_with_length(b)
        } else {
            seq![]
        },
        None => seq![],
    }
}

/// The pointers and lengths of the end-to-end attributes: the client
/// identifier, the module and the action, two unused fields, the client
/// info, two unused fields and the database operation.
pub open spec fn end_to_end_pointers(
    action: Option<Seq<u8>>,
    client_identifier: Option<Seq<u8>>,
    client_info: Option<Seq<u8>>,
    db_op: Option<Seq<u8>>,
    module: Option<Seq<u8>>,
) -> Seq<u8> {
    pointer_and_len(client_identifier) + pointer_and_len(module) + pointer_and_len(action) + zeros(4)
        + pointer_and_len(client_info) + zeros(4) + pointer_and_len(db_op)
}

/// The non-empty end-to-end attribute values, in the order of their
/// pointers.
pub open spec fn end_to_end_values(
    action: Option<Seq<u8>>,
    client_identifier: Option<Seq<u8>>,
    client_info: Option<Seq<u8>>,
    db_op: Option<Seq<u8>>,
    module: Option<Seq<u8>>,
) -> Seq<u8> {
    attribute_value(client_identifier) + attribute_value(module) + attribute_value(action)
        + attribute_value(client_info) + attribute_value(db_op)
}

/// The piggyback that sets the end-to-end attributes: two null pointers,
/// the flags, the pointers and lengths of the attributes, then their values.
#[verifier::opaque]
pub open spec fn end_to_end_piggyback(
    seq_num: u8,
    token: bool,
    action: Option<Seq<u8>>,
    client_identifier: Option<Seq<u8>>,
    client_info: Option<Seq<u8>>,
    db_op: Option<Seq<u8>>,
    module: Option<Seq<u8>>,
) -> Seq<u8> {
    let flags = end_to_end_flags(
        action is Some,
        client_identifier is Some,
        client_info is Some,
        db_op is Some,
        module is Some,
    );
    piggyback_header(constants::TTC_RPC_SET_END_TO_END_ATTR, seq_num, token) + seq![0u8, 0u8]
        + ub_bytes(flags as u64) + end_to_end_pointers(action, client_identifier, client_info, db_op, module)
        + end_to_end_values(action, client_identifier, client_info, db_op, module)
}

/// The key/value pairs naming the connection pool and its id, sent when the
/// client belongs to a pool.
pub open spec fn ha_pool_pairs(pool_id: Seq<u8>) -> Seq<u8> {
    if pool_id.len() == 0 {
        seq![]
    } else {
        bytes_with_double_length(Some(encode_utf8("CONNECTION_POOL"@))) + bytes_with_double_length(
            Some(encode_utf8("RUST"@)),
        ) + ub_bytes(0) + bytes_with_double_length(Some(encode_utf8("CONNECTION_POOL_ID"@)))
            + bytes_with_double_length(Some(pool_id)) + ub_bytes(0)
    }
}

/// The key/value pair asking for in-band notifications.
pub open spec fn ha_inband_pair() -> Seq<u8> {
    bytes_with_double_length(Some(encode_utf8("INBAND_NOTIFICATION"@))) + bytes_with_double_length(
        Some(encode_utf8("1"@)),
    ) + ub_bytes(0)
}

/// The start of the high availability piggyback: the namespace "ORA$HA"
/// and the number of pairs.
pub open spec fn ha_readiness_head(seq_num: u8, token: bool, pool_id: Seq<u8>) -> Seq<u8> {
    let num_pairs: u64 = if pool_id.len() == 0 { 1 } else { 3 };
    let namespace = encode_utf8("ORA$HA"@);
    piggyback_header(constants::TTC_RPC_SET_KEY_VALUE, seq_num, token) + seq![1u8] + ub_bytes(
        namespace.len() as u64,
    ) + seq![1u8] + ub_bytes(num_pairs) + ub_bytes(0x21) + seq![0u8] + bytes_with_length(namespace)
}

/// The piggyback that announces readiness for high availability
/// notifications: its start, the pool pairs when the client belongs to a
/// pool, and the in-band notification pair.
#[verifier::opaque]
pub open spec fn ha_readiness_piggyback(seq_num: u8, token: bool, pool_id: Seq<u8>) -> Seq<u8> {
    ha_readiness_head(seq_num, token, pool_id) + ha_pool_pairs(pool_id) + ha_inband_pair()
}

/// The piggyback that attaches the end user security context: one key/value
/// pair whose value is the OSON encoding of the context.
#[verifier::opaque]
pub open spec fn security_context_piggyback(seq_num: u8, token: bool, oson: Seq<u8>) -> Seq<u8> {
    piggyback_header(constants::TTC_RPC_END_USER_SECURITY_CONTEXT, seq_num, token) + ub_bytes(
        TTC_SECURITY_CONTEXT_ATTACH_FLAG as u64,
    ) + seq![1u8] + ub_bytes(1) + ub_bytes(0) + bytes_with_double_length(
        Some(encode_utf8("ORCL_XS_AUTHZ_CONTEXT"@)),
    ) + bytes_with_double_length(None) + bytes_with_double_length(Some(oson))
}

/// The piggyback that marks the boundaries of a request.
#[verifier::opaque]
pub open spec fn session_state_piggyback(seq_num: u8, token: bool, state: u8) -> Seq<u8> {
    piggyback_header(constants::TTC_RPC_SESSION_STATE, seq_num, token) + ub_bytes(
        (state | constants::TTC_SESSION_STATE_EXPLICIT_BOUNDARY) as u64,
    )
}

/// How a received packet is handled while waiting for data.
pub enum PacketDisposition {
    /// A control packet: processed, then the next packet is awaited.
    Control,
    /// A marker packet: the connection is reset.
    Marker,
    /// A data packet: handed to the message.
    Data,
}

impl Client {
    /// Whether the client supports a TTC field version: the override set
    /// for fast authentication, if any, decides; otherwise the negotiated
    /// capabilities do.
    pub open spec fn field_version_at_least(self, version: u8) -> bool {
        if self.override_ttc_field_version != 0 {
            self.override_ttc_field_version >= version
        } else {
            self.caps.ttc_field_version >= version
        }
    }

    /// Whether call headers carry a token number.
    pub open spec fn uses_token(self) -> bool {
        self.field_version_at_least(constants::TTC_FIELD_VERSION_23_1_EXT_1)
    }

    /// The lengths that the piggybacks write as 32-bit values fit in them.
    pub open spec fn piggybacks_fit(self) -> bool {
        &&& self.cursors_to_close@.len() <= u32::MAX
        &&& concat_all(views(self.temp_lobs_to_close@)).len() <= u32::MAX
        &&& (self.pending_action matches Some(v) ==> v@.len() <= u32::MAX)
        &&& (self.pending_client_identifier matches Some(v) ==> v@.len() <= u32::MAX)
        &&& (self.pending_client_info matches Some(v) ==> v@.len() <= u32::MAX)
        &&& (self.pending_db_op matches Some(v) ==> v@.len() <= u32::MAX)
        &&& (self.pending_module matches Some(v) ==> v@.len() <= u32::MAX)
        &&& encode_utf8(self.pool_id@).len() <= u32::MAX
        &&& (self.security_context matches Some(v) ==> v@.len() <= u32::MAX)
    }

    /// Creates a client that has not yet negotiated anything with the
    /// server; it belongs to the pool of the given id, if that is not empty.
    pub fn new(statement_cache_size: usize, pool_id: String) -> (c: Client)
        ensures
            c.caps.is_initial(),
            c.combo_key is None,
            c.charset_id == 0,
            c.ncharset_id == 0,
            c.statement_cache_size == statement_cache_size,
            c.cursors_to_close@.len() == 0,
            !c.drcp_establish_session,
            !c.in_request,
            c.override_ttc_field_version == 0,
            c.pending_error_num == 0,
            c.pending_action is None,
            c.pending_client_identifier is None,
            c.pending_client_info is None,
            c.pending_db_op is None,
            c.pending_module is None,
            !c.pending_ha_readiness,
            c.pending_session_state == 0,
            !c.transaction_in_progress,
            c.pool_id == pool_id,
            c.last_warning is None,
            c.security_context is None,
            c.temp_lobs_to_close@.len() == 0,
    {
        Client {
            caps: Capabilities::new(),
            combo_key: None,
            charset_id: 0,
            ncharset_id: 0,
            statement_cache_size,
            cursors_to_close: Vec::new(),
            drcp_establish_session: false,
            in_request: false,
            override_ttc_field_version: 0,
            pending_error_num: 0,
            pending_action: None,
            pending_client_identifier: None,
            pending_client_info: None,
            pending_db_op: None,
            pending_module: None,
            pending_ha_readiness: false,
            pending_session_state: 0,
            transaction_in_progress: false,
            pool_id,
            last_warning: None,
            security_context: None,
            temp_lobs_to_close: Vec::new(),
        }
    }
}

/// What a control packet tells the client: an in-band notification carries
/// an error number in the four bytes that follow its type and four unused
/// bytes; other control packets tell nothing. `Err` where the packet is too
/// short for what it announces.
pub open spec fn control_packet_error_num(body: Seq<u8>) -> Result<Option<u32>, ()> {
    if body.len() < 2 {
        Err(())
    } else if be16(body[0], body[1]) != constants::TTC_CONTROL_TYPE_INBAND_NOTIF {
        Ok(None)
    } else if body.len() < 10 {
        Err(())
    } else {
        Ok(Some(be_value(body.subrange(6, 10)) as u32))
    }
}

/// Decides how a received packet of the given type is handled while the
/// client waits for data.
pub fn packet_disposition(packet_type: u8) -> (d: PacketDisposition)
    ensures
        packet_type == constants::PACKET_TYPE_CONTROL <==> d is Control,
        packet_type == constants::PACKET_TYPE_MARKER <==> d is Marker,
{
    if packet_type == constants::PACKET_TYPE_CONTROL {
        PacketDisposition::Control
    } else if packet_type == constants::PACKET_TYPE_MARKER {
        PacketDisposition::Marker
    } else {
        PacketDisposition::Data
    }
}

/// Whether more packets of a response must be received after `packet`: only
/// for a data packet that was not a reset's answer, when the server marks
/// the end of its responses and this packet does not hold it.
pub fn wait_for_more(packet: &Packet, check_end_of_response: bool, supports_end_of_response: bool) -> (r: bool)
    ensures
        r == (check_end_of_response && supports_end_of_response
            && !crate::packet::spec_has_end_of_response(packet.packet_type, packet.data_flags, packet.buf@)),
{
    check_end_of_response && supports_end_of_response && !packet.has_end_of_response()
}

/// Whether the server's accept offers the Advanced Networking Option: bit 0
/// of the first accept flags set, bit 2 of them and bit 3 of the second
/// clear.
pub open spec fn spec_ano_offered(acfl0: u8, acfl1: u8) -> bool {
    acfl0 & 1 != 0 && acfl0 & 4 == 0 && acfl1 & 8 == 0
}

/// Decides, from the accept flags, whether the Advanced Networking Option
/// handshake is to be run (`Ok(true)`), skipped (`Ok(false)`), or whether
/// the connection fails because the server requires native network
/// encryption without offering it.
pub fn ano_decision(acfl0: u8, acfl1: u8, na_required: bool) -> (r: Result<bool, Error>)
    ensures
        spec_ano_offered(acfl0, acfl1) ==> r == Ok::<bool, Error>(true),
        !spec_ano_offered(acfl0, acfl1) && !na_required ==> r == Ok::<bool, Error>(false),
        !spec_ano_offered(acfl0, acfl1) && na_required ==> (r matches Err(e) && e@ matches ErrorKind::AdvancedNegotiation(m)
            && m@ == "server requires native network encryption but did not offer the ANO handshake"@),
{
    let ano_offered = acfl0 & 1 != 0 && acfl0 & 4 == 0 && acfl1 & 8 == 0;
    if ano_offered {
        Ok(true)
    } else if na_required {
        Err(
            Error::advanced_negotiation(
                "server requires native network encryption but did not offer the ANO handshake".to_owned(),
            ),
        )
    } else {
        Ok(false)
    }
}

impl Client {
    /// Processes a control packet received from the database: an in-band
    /// notification records the error number it carries.
    pub fn process_control_packet(&mut self, packet: Packet) -> (r: Result<(), Error>)
        ensures
            match control_packet_error_num(packet.buf@) {
                Err(_) => r matches Err(e) && e@ is OutOfData && *final(self) == *old(self),
                Ok(None) => r is Ok && *final(self) == *old(self),
                Ok(Some(n)) => r is Ok && *final(self) == (Client {
                    pending_error_num: n as usize,
                    ..*old(self)
                }),
            },
    {
        let ghost body = packet.buf@;
        let mut resp = Response::new();
        let mut packets: Vec<Packet> = Vec::new();
        packets.push(packet);
        resp.add_packets(packets);
        proof {
            assert(resp.packets@.drop_last() =~= Seq::<Packet>::empty());
            assert(resp.packets@.last().buf@ == body);
            reveal_with_fuel(packets_data, 2);
            assert(resp.buf.data() =~= body);
            reveal_with_fuel(be_value, 3);
            assert(body.len() >= 2 ==> body.subrange(0, 2).drop_last() =~= seq![body[0]]);
            assert(body.len() >= 2 ==> seq![body[0]].drop_last() =~= Seq::<u8>::empty());
        }
        let control_type = resp.read_u16be()?;
        if control_type == constants::TTC_CONTROL_TYPE_INBAND_NOTIF {
            resp.advance(4)?;
            let n = resp.read_u32be()?;
            self.pending_error_num = n as usize;
        }
        Ok(())
    }

    /// Records what the call status tells: whether a transaction is in
    /// progress.
    pub fn process_call_status(&mut self, call_status: u32)
        ensures
            *final(self) == (Client { transaction_in_progress: call_status & 0x2 != 0, ..*old(self) }),
    {
        self.transaction_in_progress = call_status & 0x00000002 != 0;
    }

    /// Adds a temporary LOB locator to the locators that the server frees on
    /// the next round trip; other locators are not kept.
    pub fn add_lob_to_close(&mut self, locator: Vec<u8>)
        requires
            old(self).temp_lobs_to_close@.len() < usize::MAX,
            locator@.len() > constants::TTC_LOB_LOC_OFFSET_FLAG_4,
        ensures
            (locator@[constants::TTC_LOB_LOC_OFFSET_FLAG_1 as int] & constants::TTC_LOB_LOC_FLAGS_ABSTRACT != 0
                || locator@[constants::TTC_LOB_LOC_OFFSET_FLAG_4 as int] & constants::TTC_LOB_LOC_FLAGS_TEMP != 0)
                ==> final(self).temp_lobs_to_close@ == old(self).temp_lobs_to_close@.push(locator),
            !(locator@[constants::TTC_LOB_LOC_OFFSET_FLAG_1 as int] & constants::TTC_LOB_LOC_FLAGS_ABSTRACT != 0
                || locator@[constants::TTC_LOB_LOC_OFFSET_FLAG_4 as int] & constants::TTC_LOB_LOC_FLAGS_TEMP != 0)
                ==> final(self).temp_lobs_to_close@ == old(self).temp_lobs_to_close@,
            *final(self) == (Client { temp_lobs_to_close: final(self).temp_lobs_to_close, ..*old(self) }),
    {
        let flags1 = locator[constants::TTC_LOB_LOC_OFFSET_FLAG_1];
        let flags4 = locator[constants::TTC_LOB_LOC_OFFSET_FLAG_4];
        if flags1 & constants::TTC_LOB_LOC_FLAGS_ABSTRACT != 0 || flags4 & constants::TTC_LOB_LOC_FLAGS_TEMP != 0 {
            self.temp_lobs_to_close.push(locator);
        }
    }

    /// Adjusts the compile time capabilities for those of the server.
    pub fn adjust_for_server_compile_caps(&mut self, caps: &[u8])
        requires
            caps@.len() > capabilities::CCAP_IX_TTC4,
        ensures
            old(self).caps.after_server_compile_caps(caps@, final(self).caps),
            *final(self) == (Client { caps: final(self).caps, ..*old(self) }),
    {
        self.caps.adjust_for_server_compile_caps(caps);
    }

    /// Adjusts the runtime capabilities for those of the server.
    pub fn adjust_for_server_runtime_caps(&mut self, caps: &[u8])
        requires
            caps@.len() > capabilities::RCAP_IX_TTC,
        ensures
            old(self).caps.after_server_runtime_caps(caps@, final(self).caps),
            *final(self) == (Client { caps: final(self).caps, ..*old(self) }),
    {
        self.caps.adjust_for_server_runtime_caps(caps);
    }

    /// Removes the end user security context of the session.
    pub fn clear_end_user_security_context(&mut self)
        ensures
            *final(self) == (Client { security_context: None, ..*old(self) }),
    {
        self.security_context = None;
    }

    /// Ends the current request: the end user security context and the last
    /// warning are dropped, and a request that was begun is ended (at once
    /// when its beginning was never sent, else by the next round trip).
    /// Returns whether a rollback must be sent: while a request or a
    /// transaction remains open.
    pub fn end_request(&mut self) -> (rollback_needed: bool)
        ensures
            final(self).security_context is None,
            final(self).last_warning is None,
            old(self).in_request && old(self).pending_session_state != 0 ==> !final(self).in_request
                && final(self).pending_session_state == old(self).pending_session_state,
            old(self).in_request && old(self).pending_session_state == 0 ==> final(self).in_request
                && final(self).pending_session_state == constants::TTC_SESSION_STATE_REQUEST_END,
            !old(self).in_request ==> !final(self).in_request && final(self).pending_session_state
                == old(self).pending_session_state,
            rollback_needed == (final(self).in_request || old(self).transaction_in_progress),
            *final(self) == (Client {
                security_context: None,
                last_warning: None,
                in_request: final(self).in_request,
                pending_session_state: final(self).pending_session_state,
                ..*old(self)
            }),
    {
        self.security_context = None;
        self.last_warning = None;
        if self.in_request {
            if self.pending_session_state != 0 {
                self.in_request = false;
            } else {
                self.pending_session_state = constants::TTC_SESSION_STATE_REQUEST_END;
            }
        }
        self.in_request || self.transaction_in_progress
    }

    /// Returns the compile time capabilities.
    pub fn get_compile_caps(&self) -> (r: &[u8])
        ensures
            r@ == self.caps.compile_caps@,
    {
        self.caps.compile_caps()
    }

    /// Returns the last warning that the server sent.
    pub fn get_last_warning(&self) -> (r: Option<String>)
        ensures
            r == self.last_warning,
    {
        self.last_warning.clone()
    }

    /// Returns the id of the character set used for NCHAR data.
    pub fn get_ncharset_id(&self) -> (r: u16)
        ensures
            r == self.ncharset_id,
    {
        self.ncharset_id
    }

    /// Returns the runtime capabilities.
    pub fn get_runtime_caps(&self) -> (r: &[u8])
        ensures
            r@ == self.caps.runtime_caps@,
    {
        self.caps.runtime_caps()
    }

    /// Returns the maximum string size of the database.
    pub fn max_string_size(&self) -> (r: u32)
        ensures
            r == self.caps.max_string_size,
    {
        self.caps.max_string_size()
    }

    /// Takes what the logon told: keeps the combo key, shrinks the statement
    /// cache to the number of cursors the database allows, asks for high
    /// availability notifications where the server supports them, and begins
    /// a request when the client belongs to a pool and the server supports
    /// request boundaries.
    pub fn post_connect(&mut self, combo_key: Option<[u8; 32]>, max_open_cursors: usize)
        ensures
            final(self).combo_key == combo_key,
            final(self).statement_cache_size == if max_open_cursors < old(self).statement_cache_size {
                max_open_cursors
            } else {
                old(self).statement_cache_size
            },
            final(self).pending_ha_readiness == (old(self).pending_ha_readiness
                || old(self).caps.supports_ha_readiness),
            old(self).pool_id@.len() > 0 && old(self).caps.supports_request_boundaries ==> {
                &&& final(self).pending_session_state == constants::TTC_SESSION_STATE_REQUEST_BEGIN
                &&& final(self).in_request
            },
            !(old(self).pool_id@.len() > 0 && old(self).caps.supports_request_boundaries) ==> {
                &&& final(self).pending_session_state == old(self).pending_session_state
                &&& final(self).in_request == old(self).in_request
            },
            *final(self) == (Client {
                combo_key: final(self).combo_key,
                statement_cache_size: final(self).statement_cache_size,
                pending_ha_readiness: final(self).pending_ha_readiness,
                pending_session_state: final(self).pending_session_state,
                in_request: final(self).in_request,
                ..*old(self)
            }),
    {
        self.combo_key = combo_key;
        if max_open_cursors < self.statement_cache_size {
            self.statement_cache_size = max_open_cursors;
        }
        if self.caps.supports_ha_readiness() {
            self.pending_ha_readiness = true;
        }
        if !self.pool_id.as_str().is_empty() && self.caps.supports_request_boundaries() {
            self.pending_session_state = constants::TTC_SESSION_STATE_REQUEST_BEGIN;
            self.in_request = true;
        }
    }

    /// Returns whether the client must be closed: when the latest control
    /// packet announced that the session is shutting down.
    pub fn requires_close(&self) -> (r: bool)
        ensures
            r == (self.pending_error_num == constants::DB_ERR_NUM_SESSION_SHUTDOWN),
    {
        self.pending_error_num == constants::DB_ERR_NUM_SESSION_SHUTDOWN
    }

    /// Resets the TTC field version to the negotiated one.
    pub fn reset_ttc_field_version(&mut self)
        ensures
            *final(self) == (Client { override_ttc_field_version: 0, ..*old(self) }),
    {
        self.override_ttc_field_version = 0;
    }

    /// Sets the ids of the character sets used for CHAR and NCHAR data.
    pub fn set_charset_ids(&mut self, charset_id: u16, ncharset_id: u16)
        ensures
            *final(self) == (Client { charset_id, ncharset_id, ..*old(self) }),
    {
        self.charset_id = charset_id;
        self.ncharset_id = ncharset_id;
    }

    /// Stores the OSON encoding of an end user security context, which
    /// requires a TLS connection and a server that supports it.
    pub fn set_end_user_security_context(&mut self, context: Vec<u8>, uses_tls: bool) -> (r: Result<(), Error>)
        ensures
            !uses_tls ==> (r matches Err(e) && e@ is EndUserSecurityContextRequiresTcps && *final(self)
                == *old(self)),
            uses_tls && !old(self).caps.supports_end_user_security_context ==> (r matches Err(e)
                && e@ is UnsupportedDeepDataSecurityFeature && *final(self) == *old(self)),
            uses_tls && old(self).caps.supports_end_user_security_context ==> r is Ok && *final(self)
                == (Client { security_context: Some(context), ..*old(self) }),
    {
        if !uses_tls {
            return Err(Error::end_user_security_context_requires_tcps());
        }
        if !self.caps.supports_end_user_security_context() {
            return Err(Error::unsupported_deep_data_security_feature());
        }
        self.security_context = Some(context);
        Ok(())
    }

    /// Sets the action sent with the next round trip.
    pub fn set_pending_action(&mut self, value: &str)
        ensures
            opt_view(final(self).pending_action) == Some(encode_utf8(value@)),
            *final(self) == (Client { pending_action: final(self).pending_action, ..*old(self) }),
    {
        self.pending_action = Some(value.as_bytes_vec());
    }

    /// Sets the client identifier sent with the next round trip.
    pub fn set_pending_client_identifier(&mut self, value: &str)
        ensures
            opt_view(final(self).pending_client_identifier) == Some(encode_utf8(value@)),
            *final(self) == (Client {
                pending_client_identifier: final(self).pending_client_identifier,
                ..*old(self)
            }),
    {
        self.pending_client_identifier = Some(value.as_bytes_vec());
    }

    /// Sets the client info sent with the next round trip.
    pub fn set_pending_client_info(&mut self, value: &str)
        ensures
            opt_view(final(self).pending_client_info) == Some(encode_utf8(value@)),
            *final(self) == (Client { pending_client_info: final(self).pending_client_info, ..*old(self) }),
    {
        self.pending_client_info = Some(value.as_bytes_vec());
    }

    /// Sets the database operation sent with the next round trip.
    pub fn set_pending_db_op(&mut self, value: &str)
        ensures
            opt_view(final(self).pending_db_op) == Some(encode_utf8(value@)),
            *final(self) == (Client { pending_db_op: final(self).pending_db_op, ..*old(self) }),
    {
        self.pending_db_op = Some(value.as_bytes_vec());
    }

    /// Sets the module sent with the next round trip.
    pub fn set_pending_module(&mut self, value: &str)
        ensures
            opt_view(final(self).pending_module) == Some(encode_utf8(value@)),
            *final(self) == (Client { pending_module: final(self).pending_module, ..*old(self) }),
    {
        self.pending_module = Some(value.as_bytes_vec());
    }

    /// Returns whether the server marks the end of its responses.
    pub fn supports_end_of_response(&self) -> (r: bool)
        ensures
            r == self.caps.supports_end_of_response,
    {
        self.caps.supports_end_of_response()
    }

    /// Returns whether the server accepts out-of-band breaks.
    pub fn supports_oob(&self) -> (r: bool)
        ensures
            r == self.caps.supports_oob,
    {
        self.caps.supports_oob()
    }

    /// Returns whether the client supports a TTC field version.
    pub fn supports_ttc_field_version(&self, version: u8) -> (r: bool)
        ensures
            r == self.field_version_at_least(version),
    {
        if self.override_ttc_field_version != 0 {
            self.override_ttc_field_version >= version
        } else {
            self.caps.supports_ttc_field_version(version)
        }
    }
}

/// The security context piggyback, written when a context is set, and the
/// sequence number after it.
#[verifier::opaque]
pub open spec fn security_context_step(ctx: Option<Seq<u8>>, t: bool, seq_num: u8) -> (Seq<u8>, u8) {
    match ctx {
        Some(oson) => (security_context_piggyback(next_seq_num(seq_num), t, oson), next_seq_num(seq_num)),
        None => (Seq::<u8>::empty(), seq_num),
    }
}

/// The close cursors piggyback, written when cursors wait to be closed and
/// no DRCP session is being established.
#[verifier::opaque]
pub open spec fn close_cursors_step(ids: Seq<u16>, drcp_establish_session: bool, t: bool, seq_num: u8) -> (Seq<u8>, u8) {
    if ids.len() > 0 && !drcp_establish_session {
        (close_cursors_piggyback(next_seq_num(seq_num), t, ids), next_seq_num(seq_num))
    } else {
        (Seq::<u8>::empty(), seq_num)
    }
}

/// The end-to-end piggyback, written when any attribute is set.
#[verifier::opaque]
pub open spec fn end_to_end_step(
    action: Option<Seq<u8>>,
    client_identifier: Option<Seq<u8>>,
    client_info: Option<Seq<u8>>,
    db_op: Option<Seq<u8>>,
    module: Option<Seq<u8>>,
    t: bool,
    seq_num: u8,
) -> (Seq<u8>, u8) {
    if action is Some || client_identifier is Some || client_info is Some || db_op is Some || module is Some {
        (
            end_to_end_piggyback(next_seq_num(seq_num), t, action, client_identifier, client_info, db_op, module),
            next_seq_num(seq_num),
        )
    } else {
        (Seq::<u8>::empty(), seq_num)
    }
}

/// The session state piggyback, written when a state is pending.
#[verifier::opaque]
pub open spec fn session_state_step(state: u8, t: bool, seq_num: u8) -> (Seq<u8>, u8) {
    if state != 0 {
        (session_state_piggyback(next_seq_num(seq_num), t, state), next_seq_num(seq_num))
    } else {
        (Seq::<u8>::empty(), seq_num)
    }
}

/// The piggyback freeing temporary LOBs, written when any waits.
#[verifier::opaque]
pub open spec fn close_temp_lobs_step(lobs: Seq<Seq<u8>>, t: bool, seq_num: u8) -> (Seq<u8>, u8) {
    if lobs.len() > 0 {
        (close_temp_lobs_piggyback(next_seq_num(seq_num), t, lobs), next_seq_num(seq_num))
    } else {
        (Seq::<u8>::empty(), seq_num)
    }
}

/// The high availability piggyback, written when it is pending.
#[verifier::opaque]
pub open spec fn ha_readiness_step(pending: bool, pool_id: Seq<u8>, t: bool, seq_num: u8) -> (Seq<u8>, u8) {
    if pending {
        (ha_readiness_piggyback(next_seq_num(seq_num), t, pool_id), next_seq_num(seq_num))
    } else {
        (Seq::<u8>::empty(), seq_num)
    }
}

/// The piggybacks that a round trip carries before its message, in the
/// order they are written, each with the next sequence number; and the
/// sequence number of the last one (`seq_num` when none is written).
pub open spec fn piggyback_steps(c: Client, seq_num: u8) -> (Seq<u8>, u8) {
    let t = c.uses_token();
    let r1 = security_context_step(opt_view(c.security_context), t, seq_num);
    let r2 = close_cursors_step(c.cursors_to_close@, c.drcp_establish_session, t, r1.1);
    let r3 = end_to_end_step(
        opt_view(c.pending_action),
        opt_view(c.pending_client_identifier),
        opt_view(c.pending_client_info),
        opt_view(c.pending_db_op),
        opt_view(c.pending_module),
        t,
        r2.1,
    );
    let r4 = session_state_step(c.pending_session_state, t, r3.1);
    let r5 = close_temp_lobs_step(views(c.temp_lobs_to_close@), t, r4.1);
    let r6 = ha_readiness_step(c.pending_ha_readiness, encode_utf8(c.pool_id@), t, r5.1);
    (r1.0 + r2.0 + r3.0 + r4.0 + r5.0 + r6.0, r6.1)
}

/// The UTF-8 encoding of an ASCII text is its characters, one byte each.
proof fn lemma_ascii_len(s: &str)
    requires
        vstd::string::is_ascii(s),
    ensures
        encode_utf8(s@).len() == s@.len(),
{
    vstd::string::is_ascii_spec_bytes(s);
}

/// Only the empty text has an empty UTF-8 encoding.
proof fn lemma_encode_empty(chars: Seq<char>)
    ensures
        encode_utf8(chars).len() == 0 <==> chars.len() == 0,
{
    if chars.len() > 0 {
        vstd::utf8::encode_utf8_first_scalar(chars);
    }
}

/// The total length of byte strings never falls when more are added.
proof fn lemma_concat_all_prefix(s: Seq<Seq<u8>>, i: int)
    requires
        0 <= i <= s.len(),
    ensures
        concat_all(s.subrange(0, i)).len() <= concat_all(s).len(),
    decreases s.len() - i,
{
    if i < s.len() {
        lemma_concat_all_prefix(s, i + 1);
        assert(s.subrange(0, i + 1).drop_last() =~= s.subrange(0, i));
    } else {
        assert(s.subrange(0, i) =~= s);
    }
}

/// Writes a pointer and the length of an optional value.
fn write_pointer_and_len(buf: &mut WriteBuffer, v: &Option<Vec<u8>>)
    requires
        v matches Some(b) ==> b@.len() <= u32::MAX,
    ensures
        final(buf).buf@ == old(buf).buf@ + pointer_and_len(opt_view(*v)),
        final(buf).seq_num == old(buf).seq_num,
{
    reveal(pointer_and_len);
    match v {
        Some(value) => {
            buf.write_u8(1);
            buf.write_ub4(value.len() as u32);
        },
        None => {
            buf.write_u8(0);
            buf.write_ub4(0);
        },
    }
    assert(final(buf).buf@ =~= old(buf).buf@ + pointer_and_len(opt_view(*v)));
}

/// The start of the piggyback that frees temporary LOBs, up to the
/// locators.
pub open spec fn free_temp_lobs_head(seq_num: u8, token: bool, total_size: u32) -> Seq<u8> {
    piggyback_header(constants::TTC_RPC_LOB_OP, seq_num, token) + seq![1u8] + ub_bytes(total_size as u64)
        + zeros(7) + ub_bytes((constants::TTC_LOB_OP_FREE_TEMP | constants::TTC_LOB_OP_ARRAY) as u64)
        + zeros(11)
}

/// Writes the start of the piggyback that frees temporary LOBs: the total
/// size of their locators, the LOB operation, and zeros for the fields that
/// are not used.
fn write_free_temp_lobs_head(buf: &mut WriteBuffer, token: bool, total_size: u32)
    ensures
        final(buf).seq_num == next_seq_num(old(buf).seq_num),
        final(buf).buf@ == old(buf).buf@ + free_temp_lobs_head(final(buf).seq_num, token, total_size),
{
    buf.write_piggyback_header(token, constants::TTC_RPC_LOB_OP);
    buf.write_u8(1);
    buf.write_ub4(total_size);
    buf.write_u8(0);
    buf.write_ub4(0);
    buf.write_ub4(0);
    buf.write_ub4(0);
    buf.write_u8(0);
    buf.write_u8(0);
    buf.write_u8(0);
    buf.write_ub4(constants::TTC_LOB_OP_FREE_TEMP | constants::TTC_LOB_OP_ARRAY);
    buf.write_u8(0);
    buf.write_ub4(0);
    buf.write_ub8(0);
    buf.write_ub8(0);
    buf.write_u8(0);
    buf.write_u8(0);
    buf.write_ub4(0);
    buf.write_u8(0);
    buf.write_ub4(0);
    buf.write_u8(0);
    buf.write_ub4(0);
    assert(final(buf).buf@ =~= old(buf).buf@ + free_temp_lobs_head(final(buf).seq_num, token, total_size));
}

/// Writes two unused fields: null pointers with zero lengths.
fn write_unused_pointers(buf: &mut WriteBuffer)
    ensures
        final(buf).buf@ == old(buf).buf@ + zeros(4),
        final(buf).seq_num == old(buf).seq_num,
{
    buf.write_u8(0);
    buf.write_ub4(0);
    buf.write_u8(0);
    buf.write_ub4(0);
    assert(final(buf).buf@ =~= old(buf).buf@ + zeros(4));
}

/// Writes the value of an attribute when it is present and not empty.
fn write_attribute_value(buf: &mut WriteBuffer, v: Option<Vec<u8>>)
    ensures
        final(buf).buf@ == old(buf).buf@ + attribute_value(opt_view(v)),
        final(buf).seq_num == old(buf).seq_num,
{
    reveal(attribute_value);
    if let Some(value) = v {
        if value.len() > 0 {
            buf.write_bytes_with_length(value.as_slice());
        }
    }
    assert(final(buf).buf@ =~= old(buf).buf@ + attribute_value(opt_view(v)));
}

impl Client {
    /// Writes the piggyback that lets the server close the cursors waiting
    /// to be closed; none waits afterwards.
    fn write_piggyback_close_cursors(&mut self, buf: &mut WriteBuffer)
        requires
            old(self).cursors_to_close@.len() <= u32::MAX,
        ensures
            final(buf).seq_num == next_seq_num(old(buf).seq_num),
            final(buf).buf@ == old(buf).buf@ + close_cursors_piggyback(
                final(buf).seq_num,
                old(self).uses_token(),
                old(self).cursors_to_close@,
            ),
            final(self).cursors_to_close@.len() == 0,
            *final(self) == (Client { cursors_to_close: final(self).cursors_to_close, ..*old(self) }),
    {
        reveal(close_cursors_piggyback);
        let token = self.supports_ttc_field_version(constants::TTC_FIELD_VERSION_23_1_EXT_1);
        buf.write_piggyback_header(token, constants::TTC_RPC_CLOSE_CURSORS);
        buf.write_u8(1);
        let mut cursors: Vec<u16> = Vec::new();
        std::mem::swap(&mut cursors, &mut self.cursors_to_close);
        buf.write_ub4(cursors.len() as u32);
        let ghost start = buf.buf@;
        let mut i: usize = 0;
        while i < cursors.len()
            invariant
                i <= cursors@.len(),
                buf.seq_num == next_seq_num(old(buf).seq_num),
                buf.buf@ == start + ub2_list(cursors@.subrange(0, i as int)),
            decreases cursors@.len() - i,
        {
            buf.write_ub2(cursors[i]);
            assert(cursors@.subrange(0, i + 1).drop_last() =~= cursors@.subrange(0, i as int));
            i = i + 1;
            assert(buf.buf@ =~= start + ub2_list(cursors@.subrange(0, i as int)));
        }
        assert(cursors@.subrange(0, cursors@.len() as int) =~= cursors@);
        assert(buf.buf@ =~= old(buf).buf@ + close_cursors_piggyback(
            buf.seq_num,
            old(self).uses_token(),
            old(self).cursors_to_close@,
        ));
    }

    /// Writes the piggyback that frees the temporary LOBs waiting to be
    /// freed; none waits afterwards.
    #[verifier::spinoff_prover]
    fn write_piggyback_close_temp_lobs(&mut self, buf: &mut WriteBuffer)
        requires
            concat_all(views(old(self).temp_lobs_to_close@)).len() <= u32::MAX,
        ensures
            final(buf).seq_num == next_seq_num(old(buf).seq_num),
            final(buf).buf@ == old(buf).buf@ + close_temp_lobs_piggyback(
                final(buf).seq_num,
                old(self).uses_token(),
                views(old(self).temp_lobs_to_close@),
            ),
            final(self).temp_lobs_to_close@.len() == 0,
            *final(self) == (Client { temp_lobs_to_close: final(self).temp_lobs_to_close, ..*old(self) }),
    {
        reveal(close_temp_lobs_piggyback);
        let mut lobs: Vec<Vec<u8>> = Vec::new();
        std::mem::swap(&mut lobs, &mut self.temp_lobs_to_close);
        let ghost all = views(lobs@);
        let mut total_size: usize = 0;
        let mut i: usize = 0;
        while i < lobs.len()
            invariant
                i <= lobs@.len(),
                all == views(lobs@),
                concat_all(all).len() <= u32::MAX,
                total_size == concat_all(all.subrange(0, i as int)).len(),
            decreases lobs@.len() - i,
        {
            assert(all.subrange(0, i + 1).drop_last() =~= all.subrange(0, i as int));
            proof { lemma_concat_all_prefix(all, i + 1); }
            total_size = total_size + lobs[i].len();
            i = i + 1;
        }
        assert(all.subrange(0, lobs@.len() as int) =~= all);
        let token = self.supports_ttc_field_version(constants::TTC_FIELD_VERSION_23_1_EXT_1);
        write_free_temp_lobs_head(buf, token, total_size as u32);
        let ghost start = buf.buf@;
        let mut j: usize = 0;
        while j < lobs.len()
            invariant
                j <= lobs@.len(),
                all == views(lobs@),
                buf.seq_num == next_seq_num(old(buf).seq_num),
                buf.buf@ == start + concat_all(all.subrange(0, j as int)),
            decreases lobs@.len() - j,
        {
            buf.write_bytes(lobs[j].as_slice());
            assert(all.subrange(0, j + 1).drop_last() =~= all.subrange(0, j as int));
            j = j + 1;
            assert(buf.buf@ =~= start + concat_all(all.subrange(0, j as int)));
        }
        assert(buf.buf@ =~= old(buf).buf@ + close_temp_lobs_piggyback(
            buf.seq_num,
            old(self).uses_token(),
            all,
        ));
    }

    /// The flags announcing the end-to-end attributes waiting to be sent.
    fn end_to_end_flags(&self) -> (flags: u32)
        ensures
            flags == end_to_end_flags(
                self.pending_action is Some,
                self.pending_client_identifier is Some,
                self.pending_client_info is Some,
                self.pending_db_op is Some,
                self.pending_module is Some,
            ),
    {
        let mut flags: u32 = 0;
        if self.pending_action.is_some() {
            flags = flags | constants::TTC_END_TO_END_FLAGS_ACTION;
        }
        if self.pending_client_identifier.is_some() {
            flags = flags | constants::TTC_END_TO_END_FLAGS_CLIENT_IDENTIFIER;
        }
        if self.pending_client_info.is_some() {
            flags = flags | constants::TTC_END_TO_END_FLAGS_CLIENT_INFO;
        }
        if self.pending_db_op.is_some() {
            flags = flags | constants::TTC_END_TO_END_FLAGS_DB_OP;
        }
        if self.pending_module.is_some() {
            flags = flags | (constants::TTC_END_TO_END_FLAGS_MODULE | constants::TTC_END_TO_END_FLAGS_ACTION);
        }
        flags
    }

    /// Writes the pointers and lengths of the end-to-end attributes.
    #[verifier::spinoff_prover]
    fn write_end_to_end_pointers(&self, buf: &mut WriteBuffer)
        requires
            self.piggybacks_fit(),
        ensures
            final(buf).buf@ == old(buf).buf@ + end_to_end_pointers(
                opt_view(self.pending_action),
                opt_view(self.pending_client_identifier),
                opt_view(self.pending_client_info),
                opt_view(self.pending_db_op),
                opt_view(self.pending_module),
            ),
            final(buf).seq_num == old(buf).seq_num,
    {
        let ghost b0 = buf.buf@;
        write_pointer_and_len(buf, &self.pending_client_identifier);
        write_pointer_and_len(buf, &self.pending_module);
        write_pointer_and_len(buf, &self.pending_action);
        let ghost b1 = buf.buf@;
        assert(b1 =~= b0 + (pointer_and_len(opt_view(self.pending_client_identifier)) + pointer_and_len(
            opt_view(self.pending_module),
        ) + pointer_and_len(opt_view(self.pending_action))));
        write_unused_pointers(buf);
        write_pointer_and_len(buf, &self.pending_client_info);
        write_unused_pointers(buf);
        write_pointer_and_len(buf, &self.pending_db_op);
        assert(buf.buf@ =~= b1 + (zeros(4) + pointer_and_len(opt_view(self.pending_client_info)) + zeros(
            4,
        ) + pointer_and_len(opt_view(self.pending_db_op))));
        assert(final(buf).buf@ =~= old(buf).buf@ + end_to_end_pointers(
            opt_view(self.pending_action),
            opt_view(self.pending_client_identifier),
            opt_view(self.pending_client_info),
            opt_view(self.pending_db_op),
            opt_view(self.pending_module),
        ));
    }

    /// Writes the non-empty end-to-end attribute values and forgets them.
    #[verifier::spinoff_prover]
    fn write_end_to_end_values(&mut self, buf: &mut WriteBuffer)
        ensures
            final(buf).buf@ == old(buf).buf@ + end_to_end_values(
                opt_view(old(self).pending_action),
                opt_view(old(self).pending_client_identifier),
                opt_view(old(self).pending_client_info),
                opt_view(old(self).pending_db_op),
                opt_view(old(self).pending_module),
            ),
            final(buf).seq_num == old(buf).seq_num,
            *final(self) == (Client {
                pending_action: None,
                pending_client_identifier: None,
                pending_client_info: None,
                pending_db_op: None,
                pending_module: None,
                ..*old(self)
            }),
    {
        let client_identifier = self.pending_client_identifier.take();
        let module = self.pending_module.take();
        let action = self.pending_action.take();
        let client_info = self.pending_client_info.take();
        let db_op = self.pending_db_op.take();
        write_attribute_value(buf, client_identifier);
        write_attribute_value(buf, module);
        write_attribute_value(buf, action);
        write_attribute_value(buf, client_info);
        write_attribute_value(buf, db_op);
        assert(final(buf).buf@ =~= old(buf).buf@ + end_to_end_values(
            opt_view(old(self).pending_action),
            opt_view(old(self).pending_client_identifier),
            opt_view(old(self).pending_client_info),
            opt_view(old(self).pending_db_op),
            opt_view(old(self).pending_module),
        ));
    }

    /// Writes the piggyback that sets the end-to-end attributes waiting to be
    /// sent; none waits afterwards.
    #[verifier::spinoff_prover]
    fn write_piggyback_end_to_end(&mut self, buf: &mut WriteBuffer)
        requires
            old(self).piggybacks_fit(),
        ensures
            final(buf).seq_num == next_seq_num(old(buf).seq_num),
            final(buf).buf@ == old(buf).buf@ + end_to_end_piggyback(
                final(buf).seq_num,
                old(self).uses_token(),
                opt_view(old(self).pending_action),
                opt_view(old(self).pending_client_identifier),
                opt_view(old(self).pending_client_info),
                opt_view(old(self).pending_db_op),
                opt_view(old(self).pending_module),
            ),
            *final(self) == (Client {
                pending_action: None,
                pending_client_identifier: None,
                pending_client_info: None,
                pending_db_op: None,
                pending_module: None,
                ..*old(self)
            }),
    {
        let flags = self.end_to_end_flags();
        let token = self.supports_ttc_field_version(constants::TTC_FIELD_VERSION_23_1_EXT_1);
        buf.write_piggyback_header(token, constants::TTC_RPC_SET_END_TO_END_ATTR);
        buf.write_u8(0);
        buf.write_u8(0);
        buf.write_ub4(flags);
        let ghost head = buf.buf@.subrange(old(buf).buf@.len() as int, buf.buf@.len() as int);
        assert(head =~= piggyback_header(constants::TTC_RPC_SET_END_TO_END_ATTR, buf.seq_num, token)
            + seq![0u8, 0u8] + ub_bytes(flags as u64));
        assert(buf.buf@ =~= old(buf).buf@ + head);
        let ghost ptrs = end_to_end_pointers(
            opt_view(self.pending_action),
            opt_view(self.pending_client_identifier),
            opt_view(self.pending_client_info),
            opt_view(self.pending_db_op),
            opt_view(self.pending_module),
        );
        let ghost vals = end_to_end_values(
            opt_view(self.pending_action),
            opt_view(self.pending_client_identifier),
            opt_view(self.pending_client_info),
            opt_view(self.pending_db_op),
            opt_view(self.pending_module),
        );
        self.write_end_to_end_pointers(buf);
        self.write_end_to_end_values(buf);
        proof {
            vstd::seq_lib::lemma_concat_associative(old(buf).buf@, head, ptrs);
            vstd::seq_lib::lemma_concat_associative(old(buf).buf@, head + ptrs, vals);
            reveal(end_to_end_piggyback);
        }
    }
}

/// Writes an ASCII text preceded by its length, both as length-prefixed
/// values.
fn write_text_with_double_length(buf: &mut WriteBuffer, text: &str)
    requires
        encode_utf8(text@).len() <= u32::MAX,
    ensures
        final(buf).buf@ == old(buf).buf@ + bytes_with_double_length(Some(encode_utf8(text@))),
        final(buf).seq_num == old(buf).seq_num,
{
    buf.write_bytes_with_double_length(Some(text.as_bytes()));
}

/// Writes the pool pairs of the high availability piggyback.
fn write_ha_pool_pairs(buf: &mut WriteBuffer, pool_id: &str)
    requires
        encode_utf8(pool_id@).len() <= u32::MAX,
    ensures
        final(buf).buf@ == old(buf).buf@ + ha_pool_pairs(encode_utf8(pool_id@)),
        final(buf).seq_num == old(buf).seq_num,
{
    proof {
        reveal_strlit("CONNECTION_POOL");
        reveal_strlit("RUST");
        reveal_strlit("CONNECTION_POOL_ID");
        lemma_ascii_len("CONNECTION_POOL");
        lemma_ascii_len("RUST");
        lemma_ascii_len("CONNECTION_POOL_ID");
    }
    if !pool_id.is_empty() {
        write_text_with_double_length(buf, "CONNECTION_POOL");
        write_text_with_double_length(buf, "RUST");
        buf.write_ub4(0);
        write_text_with_double_length(buf, "CONNECTION_POOL_ID");
        write_text_with_double_length(buf, pool_id);
        buf.write_ub4(0);
    }
    proof { lemma_encode_empty(pool_id@); }
    assert(final(buf).buf@ =~= old(buf).buf@ + ha_pool_pairs(encode_utf8(pool_id@)));
}

/// Writes the in-band notification pair of the high availability
/// piggyback.
fn write_ha_inband_pair(buf: &mut WriteBuffer)
    ensures
        final(buf).buf@ == old(buf).buf@ + ha_inband_pair(),
        final(buf).seq_num == old(buf).seq_num,
{
    proof {
        reveal_strlit("INBAND_NOTIFICATION");
        reveal_strlit("1");
        lemma_ascii_len("INBAND_NOTIFICATION");
        lemma_ascii_len("1");
    }
    write_text_with_double_length(buf, "INBAND_NOTIFICATION");
    write_text_with_double_length(buf, "1");
    buf.write_ub4(0);
    assert(final(buf).buf@ =~= old(buf).buf@ + ha_inband_pair());
}

impl Client {
    /// Writes the piggyback that announces readiness for high availability
    /// notifications; it is no longer pending afterwards.
    #[verifier::spinoff_prover]
    fn write_piggyback_ha_readiness(&mut self, buf: &mut WriteBuffer)
        requires
            encode_utf8(old(self).pool_id@).len() <= u32::MAX,
        ensures
            final(buf).seq_num == next_seq_num(old(buf).seq_num),
            final(buf).buf@ == old(buf).buf@ + ha_readiness_piggyback(
                final(buf).seq_num,
                old(self).uses_token(),
                encode_utf8(old(self).pool_id@),
            ),
            *final(self) == (Client { pending_ha_readiness: false, ..*old(self) }),
    {
        reveal(ha_readiness_piggyback);
        let token = self.supports_ttc_field_version(constants::TTC_FIELD_VERSION_23_1_EXT_1);
        self.write_ha_readiness_head(buf, token);
        let ghost b1 = buf.buf@;
        write_ha_pool_pairs(buf, self.pool_id.as_str());
        write_ha_inband_pair(buf);
        self.pending_ha_readiness = false;
        assert(b1 =~= old(buf).buf@ + ha_readiness_head(buf.seq_num, token, encode_utf8(old(self).pool_id@)));
        assert(buf.buf@ =~= old(buf).buf@ + ha_readiness_piggyback(
            buf.seq_num,
            old(self).uses_token(),
            encode_utf8(old(self).pool_id@),
        ));
    }

    /// Writes the header of the high availability piggyback, its namespace
    /// and the number of its pairs.
    fn write_ha_readiness_head(&self, buf: &mut WriteBuffer, token: bool)
        ensures
            final(buf).seq_num == next_seq_num(old(buf).seq_num),
            final(buf).buf@ == old(buf).buf@ + ha_readiness_head(
                final(buf).seq_num,
                token,
                encode_utf8(self.pool_id@),
            ),
    {
        let namespace = "ORA$HA";
        proof {
            reveal_strlit("ORA$HA");
            lemma_ascii_len("ORA$HA");
            lemma_encode_empty(self.pool_id@);
        }
        let num_pairs: u32 = if self.pool_id.as_str().is_empty() { 1 } else { 3 };
        buf.write_piggyback_header(token, constants::TTC_RPC_SET_KEY_VALUE);
        buf.write_u8(1);
        buf.write_ub4(namespace.len() as u32);
        buf.write_u8(1);
        buf.write_ub4(num_pairs);
        buf.write_ub2(0x21);
        buf.write_u8(0);
        buf.write_bytes_with_length(namespace.as_bytes());
        assert(final(buf).buf@ =~= old(buf).buf@ + ha_readiness_head(
            final(buf).seq_num,
            token,
            encode_utf8(self.pool_id@),
        ));
    }

    /// Writes the piggyback that attaches the end user security context.
    fn write_piggyback_end_user_security_context(&self, buf: &mut WriteBuffer, context: &[u8])
        requires
            context@.len() <= u32::MAX,
        ensures
            final(buf).seq_num == next_seq_num(old(buf).seq_num),
            final(buf).buf@ == old(buf).buf@ + security_context_piggyback(
                final(buf).seq_num,
                self.uses_token(),
                context@,
            ),
    {
        reveal(security_context_piggyback);
        proof {
            reveal_strlit("ORCL_XS_AUTHZ_CONTEXT");
            lemma_ascii_len("ORCL_XS_AUTHZ_CONTEXT");
        }
        let token = self.supports_ttc_field_version(constants::TTC_FIELD_VERSION_23_1_EXT_1);
        buf.write_piggyback_header(token, constants::TTC_RPC_END_USER_SECURITY_CONTEXT);
        buf.write_ub4(TTC_SECURITY_CONTEXT_ATTACH_FLAG);
        buf.write_u8(1);
        buf.write_ub4(1);
        buf.write_ub4(0);
        write_text_with_double_length(buf, "ORCL_XS_AUTHZ_CONTEXT");
        buf.write_bytes_with_double_length(None);
        buf.write_bytes_with_double_length(Some(context));
        assert(buf.buf@ =~= old(buf).buf@ + security_context_piggyback(
            buf.seq_num,
            self.uses_token(),
            context@,
        ));
    }

    /// Writes the piggyback that marks the boundaries of a request; no state
    /// is pending afterwards.
    fn write_piggyback_session_state(&mut self, buf: &mut WriteBuffer)
        ensures
            final(buf).seq_num == next_seq_num(old(buf).seq_num),
            final(buf).buf@ == old(buf).buf@ + session_state_piggyback(
                final(buf).seq_num,
                old(self).uses_token(),
                old(self).pending_session_state,
            ),
            *final(self) == (Client { pending_session_state: 0, ..*old(self) }),
    {
        reveal(session_state_piggyback);
        let state = self.pending_session_state | constants::TTC_SESSION_STATE_EXPLICIT_BOUNDARY;
        let token = self.supports_ttc_field_version(constants::TTC_FIELD_VERSION_23_1_EXT_1);
        buf.write_piggyback_header(token, constants::TTC_RPC_SESSION_STATE);
        buf.write_ub8(state as u64);
        self.pending_session_state = 0;
        assert(buf.buf@ =~= old(buf).buf@ + session_state_piggyback(
            buf.seq_num,
            old(self).uses_token(),
            old(self).pending_session_state,
        ));
    }
}

/// The client after its piggybacks are written: nothing of them is pending
/// any more but the cursors to close, which stay while a DRCP session is
/// being established.
pub open spec fn piggybacks_written(c: Client, after: Client) -> bool {
    &&& c.cursors_to_close@.len() > 0 && !c.drcp_establish_session ==> after.cursors_to_close@.len() == 0
    &&& !(c.cursors_to_close@.len() > 0 && !c.drcp_establish_session) ==> after.cursors_to_close
        == c.cursors_to_close
    &&& after.temp_lobs_to_close@.len() == 0
    &&& after == (Client {
        cursors_to_close: after.cursors_to_close,
        pending_action: None,
        pending_client_identifier: None,
        pending_client_info: None,
        pending_db_op: None,
        pending_module: None,
        pending_session_state: 0,
        temp_lobs_to_close: after.temp_lobs_to_close,
        pending_ha_readiness: false,
        ..c
    })
}

/// Piggybacks are sent once: after they are written, the next round trip
/// carries none of them but the end user security context and the cursors
/// that a DRCP session being established keeps back.
pub proof fn piggybacks_sent_once(c: Client, after: Client, seq_num: u8)
    requires
        piggybacks_written(c, after),
    ensures
        piggyback_steps(after, seq_num) == ({
            let t = after.uses_token();
            let r1 = security_context_step(opt_view(after.security_context), t, seq_num);
            let r2 = close_cursors_step(after.cursors_to_close@, after.drcp_establish_session, t, r1.1);
            (r1.0 + r2.0, r2.1)
        }),
        after.security_context is None && !after.drcp_establish_session ==> piggyback_steps(after, seq_num) == (
        Seq::<u8>::empty(), seq_num),
{
    reveal(security_context_step);
    reveal(close_cursors_step);
    reveal(end_to_end_step);
    reveal(session_state_step);
    reveal(close_temp_lobs_step);
    reveal(ha_readiness_step);
    assert(views(after.temp_lobs_to_close@).len() == 0);
    let t = after.uses_token();
    let r1 = security_context_step(opt_view(after.security_context), t, seq_num);
    let r2 = close_cursors_step(after.cursors_to_close@, after.drcp_establish_session, t, r1.1);
    assert(r1.0 + r2.0 + Seq::<u8>::empty() + Seq::<u8>::empty() + Seq::<u8>::empty() + Seq::<u8>::empty()
        =~= r1.0 + r2.0);
    if after.security_context is None && !after.drcp_establish_session {
        assert(r1.0 + r2.0 =~= Seq::<u8>::empty());
    }
}

impl Client {
    /// Writes the security context piggyback when a context is set.
    fn write_security_context_step(&self, buf: &mut WriteBuffer)
        requires
            self.piggybacks_fit(),
        ensures
            final(buf).buf@ == old(buf).buf@ + security_context_step(
                opt_view(self.security_context),
                self.uses_token(),
                old(buf).seq_num,
            ).0,
            final(buf).seq_num == security_context_step(
                opt_view(self.security_context),
                self.uses_token(),
                old(buf).seq_num,
            ).1,
    {
        reveal(security_context_step);
        match &self.security_context {
            Some(context) => {
                self.write_piggyback_end_user_security_context(buf, context.as_slice());
            },
            None => {
                assert(final(buf).buf@ =~= old(buf).buf@ + Seq::<u8>::empty());
            },
        }
    }

    /// Writes the close cursors piggyback when cursors wait to be closed and
    /// no DRCP session is being established.
    fn write_close_cursors_step(&mut self, buf: &mut WriteBuffer)
        requires
            old(self).piggybacks_fit(),
        ensures
            final(buf).buf@ == old(buf).buf@ + close_cursors_step(
                old(self).cursors_to_close@,
                old(self).drcp_establish_session,
                old(self).uses_token(),
                old(buf).seq_num,
            ).0,
            final(buf).seq_num == close_cursors_step(
                old(self).cursors_to_close@,
                old(self).drcp_establish_session,
                old(self).uses_token(),
                old(buf).seq_num,
            ).1,
            old(self).cursors_to_close@.len() > 0 && !old(self).drcp_establish_session
                ==> final(self).cursors_to_close@.len() == 0,
            !(old(self).cursors_to_close@.len() > 0 && !old(self).drcp_establish_session)
                ==> final(self).cursors_to_close == old(self).cursors_to_close,
            *final(self) == (Client { cursors_to_close: final(self).cursors_to_close, ..*old(self) }),
    {
        reveal(close_cursors_step);
        if self.cursors_to_close.len() > 0 && !self.drcp_establish_session {
            self.write_piggyback_close_cursors(buf);
        } else {
            assert(final(buf).buf@ =~= old(buf).buf@ + Seq::<u8>::empty());
        }
    }

    /// Writes the end-to-end piggyback when any attribute is set.
    fn write_end_to_end_step(&mut self, buf: &mut WriteBuffer)
        requires
            old(self).piggybacks_fit(),
        ensures
            final(buf).buf@ == old(buf).buf@ + end_to_end_step(
                opt_view(old(self).pending_action),
                opt_view(old(self).pending_client_identifier),
                opt_view(old(self).pending_client_info),
                opt_view(old(self).pending_db_op),
                opt_view(old(self).pending_module),
                old(self).uses_token(),
                old(buf).seq_num,
            ).0,
            final(buf).seq_num == end_to_end_step(
                opt_view(old(self).pending_action),
                opt_view(old(self).pending_client_identifier),
                opt_view(old(self).pending_client_info),
                opt_view(old(self).pending_db_op),
                opt_view(old(self).pending_module),
                old(self).uses_token(),
                old(buf).seq_num,
            ).1,
            *final(self) == (Client {
                pending_action: None,
                pending_client_identifier: None,
                pending_client_info: None,
                pending_db_op: None,
                pending_module: None,
                ..*old(self)
            }),
    {
        reveal(end_to_end_step);
        if self.pending_action.is_some() || self.pending_client_identifier.is_some()
            || self.pending_client_info.is_some() || self.pending_db_op.is_some()
            || self.pending_module.is_some() {
            self.write_piggyback_end_to_end(buf);
        } else {
            assert(final(buf).buf@ =~= old(buf).buf@ + Seq::<u8>::empty());
        }
    }

    /// Writes the session state piggyback when a state is pending.
    fn write_session_state_step(&mut self, buf: &mut WriteBuffer)
        ensures
            final(buf).buf@ == old(buf).buf@ + session_state_step(
                old(self).pending_session_state,
                old(self).uses_token(),
                old(buf).seq_num,
            ).0,
            final(buf).seq_num == session_state_step(
                old(self).pending_session_state,
                old(self).uses_token(),
                old(buf).seq_num,
            ).1,
            *final(self) == (Client { pending_session_state: 0, ..*old(self) }),
    {
        reveal(session_state_step);
        if self.pending_session_state != 0 {
            self.write_piggyback_session_state(buf);
        } else {
            assert(final(buf).buf@ =~= old(buf).buf@ + Seq::<u8>::empty());
        }
    }

    /// Writes the piggyback freeing temporary LOBs when any waits.
    fn write_close_temp_lobs_step(&mut self, buf: &mut WriteBuffer)
        requires
            old(self).piggybacks_fit(),
        ensures
            final(buf).buf@ == old(buf).buf@ + close_temp_lobs_step(
                views(old(self).temp_lobs_to_close@),
                old(self).uses_token(),
                old(buf).seq_num,
            ).0,
            final(buf).seq_num == close_temp_lobs_step(
                views(old(self).temp_lobs_to_close@),
                old(self).uses_token(),
                old(buf).seq_num,
            ).1,
            final(self).temp_lobs_to_close@.len() == 0,
            *final(self) == (Client { temp_lobs_to_close: final(self).temp_lobs_to_close, ..*old(self) }),
    {
        reveal(close_temp_lobs_step);
        if self.temp_lobs_to_close.len() > 0 {
            self.write_piggyback_close_temp_lobs(buf);
        } else {
            assert(final(buf).buf@ =~= old(buf).buf@ + Seq::<u8>::empty());
            assert(views(old(self).temp_lobs_to_close@).len() == 0);
        }
    }

    /// Writes the high availability piggyback when it is pending.
    fn write_ha_readiness_step(&mut self, buf: &mut WriteBuffer)
        requires
            old(self).piggybacks_fit(),
        ensures
            final(buf).buf@ == old(buf).buf@ + ha_readiness_step(
                old(self).pending_ha_readiness,
                encode_utf8(old(self).pool_id@),
                old(self).uses_token(),
                old(buf).seq_num,
            ).0,
            final(buf).seq_num == ha_readiness_step(
                old(self).pending_ha_readiness,
                encode_utf8(old(self).pool_id@),
                old(self).uses_token(),
                old(buf).seq_num,
            ).1,
            *final(self) == (Client { pending_ha_readiness: false, ..*old(self) }),
    {
        reveal(ha_readiness_step);
        if self.pending_ha_readiness {
            self.write_piggyback_ha_readiness(buf);
        } else {
            assert(final(buf).buf@ =~= old(buf).buf@ + Seq::<u8>::empty());
        }
    }

    /// Writes all the piggybacks of a round trip: the end user security
    /// context, the cursors to close (unless a DRCP session is being
    /// established), the end-to-end attributes, the session state, the
    /// temporary LOBs to free and the high availability readiness, each when
    /// there is something to send. Nothing of these is pending afterwards.
    pub fn write_piggybacks(&mut self, buf: &mut WriteBuffer)
        requires
            old(self).piggybacks_fit(),
        ensures
            final(buf).buf@ == old(buf).buf@ + piggyback_steps(*old(self), old(buf).seq_num).0,
            final(buf).seq_num == piggyback_steps(*old(self), old(buf).seq_num).1,
            piggybacks_written(*old(self), *final(self)),
    {
        let ghost c = *old(self);
        let ghost t = c.uses_token();
        let ghost b0 = buf.buf@;
        let ghost r1 = security_context_step(opt_view(c.security_context), t, old(buf).seq_num);
        let ghost r2 = close_cursors_step(c.cursors_to_close@, c.drcp_establish_session, t, r1.1);
        let ghost r3 = end_to_end_step(
            opt_view(c.pending_action),
            opt_view(c.pending_client_identifier),
            opt_view(c.pending_client_info),
            opt_view(c.pending_db_op),
            opt_view(c.pending_module),
            t,
            r2.1,
        );
        let ghost r4 = session_state_step(c.pending_session_state, t, r3.1);
        let ghost r5 = close_temp_lobs_step(views(c.temp_lobs_to_close@), t, r4.1);
        let ghost r6 = ha_readiness_step(c.pending_ha_readiness, encode_utf8(c.pool_id@), t, r5.1);
        self.write_security_context_step(buf);
        assert(buf.buf@ == b0 + r1.0 && buf.seq_num == r1.1);
        self.write_close_cursors_step(buf);
        assert(buf.buf@ == b0 + r1.0 + r2.0 && buf.seq_num == r2.1) by {
            vstd::seq_lib::lemma_concat_associative(b0, r1.0, r2.0);
        }
        self.write_end_to_end_step(buf);
        assert(buf.buf@ == b0 + (r1.0 + r2.0 + r3.0) && buf.seq_num == r3.1) by {
            vstd::seq_lib::lemma_concat_associative(b0, r1.0 + r2.0, r3.0);
        }
        self.write_session_state_step(buf);
        assert(buf.buf@ == b0 + (r1.0 + r2.0 + r3.0 + r4.0) && buf.seq_num == r4.1) by {
            vstd::seq_lib::lemma_concat_associative(b0, r1.0 + r2.0 + r3.0, r4.0);
        }
        self.write_close_temp_lobs_step(buf);
        assert(buf.buf@ == b0 + (r1.0 + r2.0 + r3.0 + r4.0 + r5.0) && buf.seq_num == r5.1) by {
            vstd::seq_lib::lemma_concat_associative(b0, r1.0 + r2.0 + r3.0 + r4.0, r5.0);
        }
        self.write_ha_readiness_step(buf);
        assert(buf.buf@ == b0 + (r1.0 + r2.0 + r3.0 + r4.0 + r5.0 + r6.0) && buf.seq_num == r6.1) by {
            vstd::seq_lib::lemma_concat_associative(b0, r1.0 + r2.0 + r3.0 + r4.0 + r5.0, r6.0);
        }
    }
}

} // verus!
