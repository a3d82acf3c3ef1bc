//! The auth message: logon in two phases. The first phase sends the
//! client's identity and receives the server's session data (the salts,
//! iteration counts and the encrypted server session key); the second sends
//! the password verifier exchange and the encrypted password.

use vstd::prelude::*;
use vstd::string::{StrSliceExecFns, StringExecFns};
use vstd::utf8::{decode_utf8, encode_utf8, valid_utf8};

use crate::client::Client;
use crate::constants;
use crate::bytes::{append_slice, append_zeros, zeros};
use crate::crypto::{
    aes128_cbc_decrypt, aes128_cbc_decrypt_bytes, aes128_cbc_encrypt, aes128_cbc_encrypt_bytes, md5, md5_digest,
    aes256_cbc_decrypt, aes256_cbc_decrypt_bytes, aes256_cbc_encrypt, aes256_cbc_encrypt_bytes, hex_decode,
    hex_decode_upper, hex_encode_upper, hex_upper, pbkdf2_hmac_sha512, pbkdf2_sha512, random_bytes, sha512,
    sha512_digest, lemma_hex_upper_concat,
};
use crate::encryption::{oracle10g_verifier, spec_oracle10g_verifier};
use crate::error::Error;
use crate::read_buffer::{is_read_failure, spec_read_bytes_with_double_length, spec_read_ub, ReadFailure};
use crate::response::Response;
use crate::text::{append_decimal, decimal, parse_u32, parse_unsigned, parse_usize};
use crate::write_buffer::{bytes_with_length, call_header, next_seq_num, ub_bytes, WriteBuffer};

verus! {

/// The verifier type that the server reports for 10G (case-insensitive)
/// password verifiers, which use the O3LOGON exchange.
pub const TNS_VERIFIER_TYPE_10G: u32 = 0x0939;

/// A key/value pair sent to the server during authentication, as UTF-8
/// bytes.
pub struct Pair {
    pub key: Vec<u8>,
    pub value: Vec<u8>,
    pub flags: u32,
}

/// The view of a pair: its key, its value and its flags.
pub open spec fn pair_view(p: Pair) -> (Seq<u8>, Seq<u8>, u32) {
    (p.key@, p.value@, p.flags)
}

/// The views of the pairs.
pub open spec fn pairs_view(s: Seq<Pair>) -> Seq<(Seq<u8>, Seq<u8>, u32)> {
    s.map_values(|p: Pair| pair_view(p))
}

/// The version of the database server.
pub struct OracleVersion(pub usize, pub usize, pub usize, pub usize, pub usize);

/// What the logon reads of the connection's configuration.
pub struct AuthConfig {
    pub user: String,
    pub password: Vec<u8>,
    pub new_password: Option<Vec<u8>>,
    pub auth_mode: u8,
    pub terminal: String,
    pub program: String,
    pub machine: String,
    pub osuser: String,
    pub driver_name: String,
    pub cclass: Option<String>,
}

pub struct AuthMessage {
    /// The session data that the server sent, in the order received; a key
    /// received again replaces the value it had.
    pub session_data: Vec<(String, String)>,
    pub pairs: Vec<Pair>,
    pub combo_key: Option<[u8; 32]>,
    pub verifier_type: Option<u32>,
    pub resend_needed: bool,
}

/// The session data as a map: a later entry for a key replaces an earlier
/// one.
pub open spec fn session_map(s: Seq<(String, String)>) -> Map<Seq<char>, Seq<char>>
    decreases s.len(),
{
    if s.len() == 0 {
        Map::empty()
    } else {
        session_map(s.drop_last()).insert(s.last().0@, s.last().1@)
    }
}

/// A key/value pair with its flags, as read from the server.
pub open spec fn spec_auth_param(d: Seq<u8>, p: int) -> Result<((Seq<char>, Seq<char>, u32), int), ReadFailure> {
    match spec_read_bytes_with_double_length(d, p) {
        Err(f) => Err(f),
        Ok((k, p1)) => if !valid_utf8(k) {
            Err(ReadFailure::InvalidEncoding)
        } else {
            match spec_read_bytes_with_double_length(d, p1) {
                Err(f) => Err(f),
                Ok((v, p2)) => if !valid_utf8(v) {
                    Err(ReadFailure::InvalidEncoding)
                } else {
                    match spec_read_ub(d, p2, 4) {
                        Err(f) => Err(f),
                        Ok((flags, p3)) => Ok(((decode_utf8(k), decode_utf8(v), flags as u32), p3)),
                    }
                },
            }
        },
    }
}

/// The first `n` key/value pairs at `p`: those read, the position after
/// them and, if one could not be read, why.
pub open spec fn spec_auth_params(d: Seq<u8>, p: int, n: nat) -> (Seq<(Seq<char>, Seq<char>, u32)>, int, Option<ReadFailure>)
    decreases n,
{
    if n == 0 {
        (seq![], p, None)
    } else {
        let (s, q, f) = spec_auth_params(d, p, (n - 1) as nat);
        if f is Some {
            (s, q, f)
        } else {
            match spec_auth_param(d, q) {
                Err(f2) => (s, q, Some(f2)),
                Ok((t, r)) => (s.push(t), r, None),
            }
        }
    }
}

/// The session data after the pairs are received.
pub open spec fn session_after(m: Map<Seq<char>, Seq<char>>, t: Seq<(Seq<char>, Seq<char>, u32)>) -> Map<Seq<char>, Seq<char>>
    decreases t.len(),
{
    if t.len() == 0 {
        m
    } else {
        session_after(m, t.drop_last()).insert(t.last().0, t.last().1)
    }
}

/// The verifier type after the pairs are received: the flags of the last
/// pair keyed "AUTH_VFR_DATA", which carry the verifier type.
pub open spec fn verifier_type_after(v: Option<u32>, t: Seq<(Seq<char>, Seq<char>, u32)>) -> Option<u32>
    decreases t.len(),
{
    if t.len() == 0 {
        v
    } else if t.last().0 == "AUTH_VFR_DATA"@ {
        Some(t.last().2)
    } else {
        verifier_type_after(v, t.drop_last())
    }
}

/// The value of a key in session data, if it holds the key.
pub open spec fn lookup_in(s: Seq<(String, String)>, key: Seq<char>) -> Option<Seq<char>> {
    if session_map(s).contains_key(key) {
        Some(session_map(s)[key])
    } else {
        None
    }
}

/// The value of a session key, if the server sent it.
pub open spec fn session_value(m: AuthMessage, key: Seq<char>) -> Option<Seq<char>> {
    lookup_in(m.session_data@, key)
}

/// The number that a session value holds, if the server sent the key and
/// its value is a `usize`.
pub open spec fn session_number(m: AuthMessage, key: Seq<char>) -> Option<nat> {
    match session_value(m, key) {
        Some(v) => parse_unsigned(encode_utf8(v), usize::MAX as nat),
        None => None,
    }
}

/// A key/value pair as written: the key's length and the key, the value's
/// length and (when not empty) the value, and the flags.
pub open spec fn pair_bytes(p: (Seq<u8>, Seq<u8>, u32)) -> Seq<u8> {
    ub_bytes(p.0.len() as u64) + bytes_with_length(p.0) + ub_bytes(p.1.len() as u64) + (if p.1.len() > 0 {
        bytes_with_length(p.1)
    } else {
        Seq::<u8>::empty()
    }) + ub_bytes(p.2 as u64)
}

/// The pairs as written, one after another.
pub open spec fn pairs_bytes(s: Seq<(Seq<u8>, Seq<u8>, u32)>) -> Seq<u8>
    decreases s.len(),
{
    if s.len() == 0 {
        seq![]
    } else {
        pairs_bytes(s.drop_last()) + pair_bytes(s.last())
    }
}

/// The authorization mode: logon in phase one; in phase two a logon with
/// password, or a password change when a new password is set; and the
/// administrative privileges that the configuration asks for.
pub open spec fn auth_mode(phase_one: bool, change_password: bool, user_auth_mode: u8) -> u32 {
    let m0: u32 = if phase_one {
        constants::TTC_AUTH_MODE_LOGON
    } else if change_password {
        constants::TTC_AUTH_MODE_WITH_PASSWORD | constants::TTC_AUTH_MODE_CHANGE_PASSWORD
    } else {
        constants::TTC_AUTH_MODE_WITH_PASSWORD | constants::TTC_AUTH_MODE_LOGON
    };
    let m1: u32 = if user_auth_mode & constants::AUTH_MODE_SYSASM != 0 { m0 | constants::TTC_AUTH_MODE_SYSASM } else { m0 };
    let m2: u32 = if user_auth_mode & constants::AUTH_MODE_SYSBKP != 0 { m1 | constants::TTC_AUTH_MODE_SYSBKP } else { m1 };
    let m3: u32 = if user_auth_mode & constants::AUTH_MODE_SYSDBA != 0 { m2 | constants::TTC_AUTH_MODE_SYSDBA } else { m2 };
    let m4: u32 = if user_auth_mode & constants::AUTH_MODE_SYSDGD != 0 { m3 | constants::TTC_AUTH_MODE_SYSDGD } else { m3 };
    let m5: u32 = if user_auth_mode & constants::AUTH_MODE_SYSKMT != 0 { m4 | constants::TTC_AUTH_MODE_SYSKMT } else { m4 };
    let m6: u32 = if user_auth_mode & constants::AUTH_MODE_SYSOPER != 0 { m5 | constants::TTC_AUTH_MODE_SYSOPER } else { m5 };
    if user_auth_mode & constants::AUTH_MODE_SYSRAC != 0 { m6 | constants::TTC_AUTH_MODE_SYSRAC } else { m6 }
}

/// The auth message as written: the function header, the user's length,
/// the authorization mode, the number of pairs, the user and the pairs.
pub open spec fn auth_request(
    seq_num: u8,
    token: bool,
    message_type: u8,
    user: Seq<u8>,
    mode: u32,
    pairs: Seq<(Seq<u8>, Seq<u8>, u32)>,
) -> Seq<u8> {
    auth_request_head(seq_num, token, message_type, user, mode, pairs.len()) + pairs_bytes(pairs)
}

/// The start of the auth message, up to its pairs.
pub open spec fn auth_request_head(
    seq_num: u8,
    token: bool,
    message_type: u8,
    user: Seq<u8>,
    mode: u32,
    num_pairs: nat,
) -> Seq<u8> {
    call_header(constants::TTC_MSG_TYPE_FUNCTION, message_type, seq_num, token) + seq![1u8] + ub_bytes(
        user.len() as u64,
    ) + ub_bytes(mode as u64) + seq![1u8] + ub_bytes(num_pairs as u64) + seq![1u8, 1u8]
        + bytes_with_length(user)
}

impl AuthMessage {
    /// Creates an auth message for the first phase of a logon.
    pub fn new() -> (m: AuthMessage)
        ensures
            m.session_data@.len() == 0,
            m.pairs@.len() == 0,
            m.combo_key is None,
            m.verifier_type is None,
            !m.resend_needed,
    {
        AuthMessage {
            session_data: Vec::new(),
            pairs: Vec::new(),
            combo_key: None,
            verifier_type: None,
            resend_needed: false,
        }
    }

    /// Whether the first phase of the logon is taking place: no combo key
    /// is known and the server has sent no session data.
    pub open spec fn is_phase_one(self) -> bool {
        self.combo_key is None && self.session_data@.len() == 0
    }

    /// Returns whether the first phase of the logon is taking place.
    pub fn get_is_phase_one(&self) -> (r: bool)
        ensures
            r == self.is_phase_one(),
    {
        self.combo_key.is_none() && self.session_data.len() == 0
    }

    /// Returns the TTC function of the message: that of the phase.
    pub fn get_ttc_message_type(&self) -> (r: u8)
        ensures
            r == if self.is_phase_one() {
                constants::TTC_RPC_AUTH_PHASE_ONE
            } else {
                constants::TTC_RPC_AUTH_PHASE_TWO
            },
    {
        if self.get_is_phase_one() {
            constants::TTC_RPC_AUTH_PHASE_ONE
        } else {
            constants::TTC_RPC_AUTH_PHASE_TWO
        }
    }

    /// Returns the authorization mode to logon with.
    pub fn get_auth_mode(&self, config: &AuthConfig) -> (r: u32)
        ensures
            r == auth_mode(self.is_phase_one(), config.new_password is Some, config.auth_mode),
    {
        let mut auth_mode: u32 = 0;
        if self.get_is_phase_one() {
            auth_mode = auth_mode | constants::TTC_AUTH_MODE_LOGON;
        } else {
            auth_mode = auth_mode | constants::TTC_AUTH_MODE_WITH_PASSWORD;
            if config.new_password.is_some() {
                auth_mode = auth_mode | constants::TTC_AUTH_MODE_CHANGE_PASSWORD;
            } else {
                auth_mode = auth_mode | constants::TTC_AUTH_MODE_LOGON;
            }
        }
        proof {
            assert(0u32 | constants::TTC_AUTH_MODE_LOGON == constants::TTC_AUTH_MODE_LOGON) by (bit_vector);
            assert(0u32 | constants::TTC_AUTH_MODE_WITH_PASSWORD == constants::TTC_AUTH_MODE_WITH_PASSWORD)
                by (bit_vector);
        }
        let user_auth_mode = config.auth_mode;
        if user_auth_mode & constants::AUTH_MODE_SYSASM != 0 {
            auth_mode = auth_mode | constants::TTC_AUTH_MODE_SYSASM;
        }
        if user_auth_mode & constants::AUTH_MODE_SYSBKP != 0 {
            auth_mode = auth_mode | constants::TTC_AUTH_MODE_SYSBKP;
        }
        if user_auth_mode & constants::AUTH_MODE_SYSDBA != 0 {
            auth_mode = auth_mode | constants::TTC_AUTH_MODE_SYSDBA;
        }
        if user_auth_mode & constants::AUTH_MODE_SYSDGD != 0 {
            auth_mode = auth_mode | constants::TTC_AUTH_MODE_SYSDGD;
        }
        if user_auth_mode & constants::AUTH_MODE_SYSKMT != 0 {
            auth_mode = auth_mode | constants::TTC_AUTH_MODE_SYSKMT;
        }
        if user_auth_mode & constants::AUTH_MODE_SYSOPER != 0 {
            auth_mode = auth_mode | constants::TTC_AUTH_MODE_SYSOPER;
        }
        if user_auth_mode & constants::AUTH_MODE_SYSRAC != 0 {
            auth_mode = auth_mode | constants::TTC_AUTH_MODE_SYSRAC;
        }
        auth_mode
    }

    /// Sets the combo key to authenticate with (to change a password on an
    /// established session).
    pub fn set_combo_key(&mut self, combo_key: &[u8; 32])
        ensures
            *final(self) == (AuthMessage { combo_key: Some(*combo_key), ..*old(self) }),
    {
        self.combo_key = Some(*combo_key);
    }

    /// Takes the combo key out of the message.
    pub fn take_combo_key(&mut self) -> (r: Option<[u8; 32]>)
        ensures
            r == old(self).combo_key,
            *final(self) == (AuthMessage { combo_key: None, ..*old(self) }),
    {
        self.combo_key.take()
    }
}

impl AuthMessage {
    /// Returns the value of a session key, if the server sent it.
    pub fn lookup(&self, key: &str) -> (r: Option<&String>)
        ensures
            r matches Some(v) ==> session_value(*self, key@) == Some(v@),
            r is None ==> session_value(*self, key@) is None,
    {
        let key_string = String::from_str(key);
        let mut i: usize = self.session_data.len();
        assert(self.session_data@.subrange(0, i as int) =~= self.session_data@);
        while i > 0
            invariant
                i <= self.session_data@.len(),
                key_string@ == key@,
                lookup_in(self.session_data@, key@) == lookup_in(self.session_data@.subrange(0, i as int), key@),
            decreases i,
        {
            let ghost prefix = self.session_data@.subrange(0, i as int);
            assert(prefix.drop_last() =~= self.session_data@.subrange(0, i - 1));
            if self.session_data[i - 1].0 == key_string {
                return Some(&self.session_data[i - 1].1);
            }
            i = i - 1;
        }
        assert(self.session_data@.subrange(0, 0) =~= Seq::<(String, String)>::empty());
        None
    }

    /// Records a session key and its value, replacing any earlier value.
    fn insert_session_value(&mut self, key: String, value: String)
        ensures
            session_map(final(self).session_data@) == session_map(old(self).session_data@).insert(key@, value@),
            final(self).session_data@.len() == old(self).session_data@.len() + 1,
            *final(self) == (AuthMessage { session_data: final(self).session_data, ..*old(self) }),
    {
        self.session_data.push((key, value));
        assert(final(self).session_data@.drop_last() =~= old(self).session_data@);
    }

    /// Returns a session value, or an empty text where the server did not
    /// send the key.
    fn session_text(&self, key: &str) -> (r: String)
        ensures
            r@ == match session_value(*self, key@) {
                Some(v) => v,
                None => Seq::<char>::empty(),
            },
    {
        match self.lookup(key) {
            Some(value) => value.clone(),
            None => String::new(),
        }
    }

    /// Returns the domain of the database.
    pub fn get_db_domain(&self) -> (r: String)
        ensures
            r@ == match session_value(*self, "AUTH_SC_DB_DOMAIN"@) {
                Some(v) => v,
                None => Seq::<char>::empty(),
            },
    {
        self.session_text("AUTH_SC_DB_DOMAIN")
    }

    /// Returns the name of the database.
    pub fn get_db_name(&self) -> (r: String)
        ensures
            r@ == match session_value(*self, "AUTH_SC_DBUNIQUE_NAME"@) {
                Some(v) => v,
                None => Seq::<char>::empty(),
            },
    {
        self.session_text("AUTH_SC_DBUNIQUE_NAME")
    }

    /// Returns the name of the instance connected to.
    pub fn get_instance_name(&self) -> (r: String)
        ensures
            r@ == match session_value(*self, "AUTH_INSTANCENAME"@) {
                Some(v) => v,
                None => Seq::<char>::empty(),
            },
    {
        self.session_text("AUTH_INSTANCENAME")
    }

    /// Returns the name of the service connected to.
    pub fn get_service_name(&self) -> (r: String)
        ensures
            r@ == match session_value(*self, "AUTH_SC_SERVICE_NAME"@) {
                Some(v) => v,
                None => Seq::<char>::empty(),
            },
    {
        self.session_text("AUTH_SC_SERVICE_NAME")
    }

    /// Returns the number that a session value holds.
    fn session_usize(&self, key: &str) -> (r: Option<usize>)
        ensures
            r == match session_number(*self, key@) {
                Some(n) => Some(n as usize),
                None => None::<usize>,
            },
    {
        match self.lookup(key) {
            Some(value) => parse_usize(value.as_str().as_bytes()),
            None => None,
        }
    }

    /// Returns the longest identifier the database allows, in bytes: 30
    /// where the server did not say.
    pub fn get_max_identifier_length(&self) -> (r: usize)
        requires
            session_value(*self, "AUTH_MAX_IDEN_LENGTH"@) is Some ==> session_number(
                *self,
                "AUTH_MAX_IDEN_LENGTH"@,
            ) is Some,
        ensures
            r == match session_number(*self, "AUTH_MAX_IDEN_LENGTH"@) {
                Some(n) => n as usize,
                None => 30,
            },
    {
        match self.session_usize("AUTH_MAX_IDEN_LENGTH") {
            Some(n) => n,
            None => 30,
        }
    }

    /// Returns the number of cursors the database allows to be open: zero
    /// where the server did not say.
    pub fn get_max_open_cursors(&self) -> (r: usize)
        requires
            session_value(*self, "AUTH_MAX_OPEN_CURSORS"@) is Some ==> session_number(
                *self,
                "AUTH_MAX_OPEN_CURSORS"@,
            ) is Some,
        ensures
            r == match session_number(*self, "AUTH_MAX_OPEN_CURSORS"@) {
                Some(n) => n as usize,
                None => 0,
            },
    {
        match self.session_usize("AUTH_MAX_OPEN_CURSORS") {
            Some(n) => n,
            None => 0,
        }
    }

    /// Returns the serial number of the session.
    pub fn get_serial_num(&self) -> (r: usize)
        requires
            session_number(*self, "AUTH_SERIAL_NUM"@) is Some,
        ensures
            r == session_number(*self, "AUTH_SERIAL_NUM"@).unwrap(),
    {
        match self.session_usize("AUTH_SERIAL_NUM") {
            Some(n) => n,
            None => 0,
        }
    }

    /// Returns the id of the session.
    pub fn get_session_id(&self) -> (r: usize)
        requires
            session_number(*self, "AUTH_SESSION_ID"@) is Some,
        ensures
            r == session_number(*self, "AUTH_SESSION_ID"@).unwrap(),
    {
        match self.session_usize("AUTH_SESSION_ID") {
            Some(n) => n,
            None => 0,
        }
    }

    /// Returns the version of the server, which the session data gives as
    /// one number: from TTC field version 18.1 ext 1 with eight bits for the
    /// release update and four for its revision, before it with four bits
    /// each.
    pub fn get_server_version(&self, client: &Client) -> (r: OracleVersion)
        requires
            session_number(*self, "AUTH_VERSION_NO"@) is Some,
        ensures
            ({
                let n = session_number(*self, "AUTH_VERSION_NO"@).unwrap() as usize;
                if client.field_version_at_least(constants::TTC_FIELD_VERSION_18_1_EXT_1) {
                    r == OracleVersion(
                        (n >> 24) & 0xff,
                        (n >> 16) & 0xff,
                        (n >> 12) & 0x0f,
                        (n >> 4) & 0xff,
                        n & 0x0f,
                    )
                } else {
                    r == OracleVersion(
                        (n >> 24) & 0xff,
                        (n >> 20) & 0x0f,
                        (n >> 12) & 0x0f,
                        (n >> 8) & 0x0f,
                        n & 0x0f,
                    )
                }
            }),
    {
        let full_version_num = match self.session_usize("AUTH_VERSION_NO") {
            Some(n) => n,
            None => 0,
        };
        if client.supports_ttc_field_version(constants::TTC_FIELD_VERSION_18_1_EXT_1) {
            OracleVersion(
                (full_version_num >> 24) & 0xff,
                (full_version_num >> 16) & 0xff,
                (full_version_num >> 12) & 0x0f,
                (full_version_num >> 4) & 0xff,
                full_version_num & 0x0f,
            )
        } else {
            OracleVersion(
                (full_version_num >> 24) & 0xff,
                (full_version_num >> 20) & 0x0f,
                (full_version_num >> 12) & 0x0f,
                (full_version_num >> 8) & 0x0f,
                full_version_num & 0x0f,
            )
        }
    }
}

impl AuthMessage {
    /// Adds a key/value pair to those sent to the server.
    pub fn add_pair(&mut self, key: &str, value: &str, flags: u32)
        ensures
            pairs_view(final(self).pairs@) == pairs_view(old(self).pairs@).push(
                (encode_utf8(key@), encode_utf8(value@), flags),
            ),
            *final(self) == (AuthMessage { pairs: final(self).pairs, ..*old(self) }),
    {
        self.pairs.push(Pair { key: key.as_bytes_vec(), value: value.as_bytes_vec(), flags });
        assert(pairs_view(final(self).pairs@) =~= pairs_view(old(self).pairs@).push(
            (encode_utf8(key@), encode_utf8(value@), flags),
        ));
    }

    /// Adds a key/value pair whose value is binary, sent as upper-case
    /// hexadecimal.
    pub fn add_pair_binary(&mut self, key: &str, value: &[u8], flags: u32)
        requires
            2 * value@.len() <= usize::MAX,
        ensures
            pairs_view(final(self).pairs@) == pairs_view(old(self).pairs@).push(
                (encode_utf8(key@), hex_upper(value@), flags),
            ),
            *final(self) == (AuthMessage { pairs: final(self).pairs, ..*old(self) }),
    {
        let hex = hex_encode_upper(value);
        self.pairs.push(Pair { key: key.as_bytes_vec(), value: hex, flags });
        assert(pairs_view(final(self).pairs@) =~= pairs_view(old(self).pairs@).push(
            (encode_utf8(key@), hex_upper(value@), flags),
        ));
    }

    /// Reads the session data that the server returns: a count, then each
    /// key, value and flags. The flags of "AUTH_VFR_DATA" carry the verifier
    /// type.
    pub fn deserialize_return_parameters(&mut self, resp: &mut Response) -> (r: Result<(), Error>)
        ensures
            final(resp).buf.data() == old(resp).buf.data(),
            match spec_read_ub(old(resp).buf.data(), old(resp).buf.pos(), 2) {
                Err(f) => r matches Err(e) && is_read_failure(e, f) && *final(self) == *old(self),
                Ok((n, q)) => {
                    let (t, _, failure) = spec_auth_params(old(resp).buf.data(), q, n);
                    &&& session_map(final(self).session_data@) == session_after(
                        session_map(old(self).session_data@),
                        t,
                    )
                    &&& final(self).session_data@.len() == old(self).session_data@.len() + t.len()
                    &&& final(self).verifier_type == verifier_type_after(old(self).verifier_type, t)
                    &&& *final(self) == (AuthMessage {
                        session_data: final(self).session_data,
                        verifier_type: final(self).verifier_type,
                        ..*old(self)
                    })
                    &&& match failure {
                        Some(f) => r matches Err(e) && is_read_failure(e, f),
                        None => r is Ok,
                    }
                },
            },
    {
        let ghost d = resp.buf.data();
        let num_params = resp.read_ub2()?;
        let ghost q = resp.buf.pos();
        let ghost n = num_params as nat;
        let mut i: u16 = 0;
        while i < num_params
            invariant
                resp.buf.data() == d,
                d == old(resp).buf.data(),
                spec_read_ub(d, old(resp).buf.pos(), 2) == Ok::<(nat, int), ReadFailure>((n, q)),
                n == num_params as nat,
                i <= num_params,
                spec_auth_params(d, q, i as nat).2 is None,
                resp.buf.pos() == spec_auth_params(d, q, i as nat).1,
                session_map(self.session_data@) == session_after(
                    session_map(old(self).session_data@),
                    spec_auth_params(d, q, i as nat).0,
                ),
                self.session_data@.len() == old(self).session_data@.len() + spec_auth_params(d, q, i as nat).0.len(),
                self.verifier_type == verifier_type_after(old(self).verifier_type, spec_auth_params(d, q, i as nat).0),
                *self == (AuthMessage {
                    session_data: self.session_data,
                    verifier_type: self.verifier_type,
                    ..*old(self)
                }),
            decreases num_params - i,
        {
            proof {
                if spec_auth_params(d, q, (i + 1) as nat).2 is Some {
                    lemma_auth_params_stop(d, q, (i + 1) as nat, n);
                }
            }
            let ghost prev = spec_auth_params(d, q, i as nat).0;
            let key = resp.read_utf8_with_double_length()?;
            let value = resp.read_utf8_with_double_length()?;
            let flags = resp.read_ub4()?;
            proof {
                let next = spec_auth_params(d, q, (i + 1) as nat);
                assert(next.0 == prev.push((key@, value@, flags)));
                assert(next.0.drop_last() =~= prev);
            }
            let vfr = String::from_str("AUTH_VFR_DATA");
            if key == vfr {
                self.verifier_type = Some(flags);
            }
            self.insert_session_value(key, value);
            i = i + 1;
        }
        Ok(())
    }
}

/// Once reading the pairs fails, reading more of them fails the same way.
proof fn lemma_auth_params_stop(d: Seq<u8>, p: int, i: nat, n: nat)
    requires
        i <= n,
        spec_auth_params(d, p, i).2 is Some,
    ensures
        spec_auth_params(d, p, n) == spec_auth_params(d, p, i),
    decreases n - i,
{
    if i < n {
        lemma_auth_params_stop(d, p, i, (n - 1) as nat);
    }
}

/// The lengths of the pairs' keys and values fit in 32 bits.
pub open spec fn pairs_fit(s: Seq<(Seq<u8>, Seq<u8>, u32)>) -> bool {
    forall|i: int| 0 <= i < s.len() ==> (#[trigger] s[i]).0.len() <= u32::MAX && s[i].1.len() <= u32::MAX
}

/// Writes a key/value pair.
fn write_pair(buf: &mut WriteBuffer, pair: &Pair)
    requires
        pair.key@.len() <= u32::MAX,
        pair.value@.len() <= u32::MAX,
    ensures
        final(buf).buf@ == old(buf).buf@ + pair_bytes(pair_view(*pair)),
        final(buf).seq_num == old(buf).seq_num,
{
    buf.write_ub4(pair.key.len() as u32);
    buf.write_bytes_with_length(pair.key.as_slice());
    buf.write_ub4(pair.value.len() as u32);
    if pair.value.len() > 0 {
        buf.write_bytes_with_length(pair.value.as_slice());
    }
    buf.write_ub4(pair.flags);
    assert(final(buf).buf@ =~= old(buf).buf@ + pair_bytes(pair_view(*pair)));
}

impl AuthMessage {
    /// Writes the message: the function header of the phase, the user's
    /// length, the authorization mode and the number of pairs, then the user
    /// and the pairs.
    pub fn serialize(&self, client: &Client, config: &AuthConfig, buf: &mut WriteBuffer)
        requires
            encode_utf8(config.user@).len() <= u32::MAX,
            self.pairs@.len() <= u32::MAX,
            pairs_fit(pairs_view(self.pairs@)),
        ensures
            final(buf).seq_num == next_seq_num(old(buf).seq_num),
            final(buf).buf@ == old(buf).buf@ + auth_request(
                final(buf).seq_num,
                client.uses_token(),
                if self.is_phase_one() {
                    constants::TTC_RPC_AUTH_PHASE_ONE
                } else {
                    constants::TTC_RPC_AUTH_PHASE_TWO
                },
                encode_utf8(config.user@),
                auth_mode(self.is_phase_one(), config.new_password is Some, config.auth_mode),
                pairs_view(self.pairs@),
            ),
    {
        self.write_request_head(client, config, buf);
        let ghost start = buf.buf@;
        let ghost all = pairs_view(self.pairs@);
        let mut i: usize = 0;
        while i < self.pairs.len()
            invariant
                i <= self.pairs@.len(),
                all == pairs_view(self.pairs@),
                pairs_fit(all),
                buf.seq_num == next_seq_num(old(buf).seq_num),
                buf.buf@ == start + pairs_bytes(all.subrange(0, i as int)),
            decreases self.pairs@.len() - i,
        {
            assert(all[i as int] == pair_view(self.pairs@[i as int]));
            write_pair(buf, &self.pairs[i]);
            assert(all.subrange(0, i + 1).drop_last() =~= all.subrange(0, i as int));
            i = i + 1;
            assert(buf.buf@ =~= start + pairs_bytes(all.subrange(0, i as int)));
        }
        assert(all.subrange(0, self.pairs@.len() as int) =~= all);
        assert(all.len() == self.pairs@.len());
        proof {
            let head = start.subrange(old(buf).buf@.len() as int, start.len() as int);
            assert(start =~= old(buf).buf@ + head);
            vstd::seq_lib::lemma_concat_associative(old(buf).buf@, head, pairs_bytes(all));
        }
    }

    /// Writes the start of the message, up to its pairs.
    fn write_request_head(&self, client: &Client, config: &AuthConfig, buf: &mut WriteBuffer)
        requires
            encode_utf8(config.user@).len() <= u32::MAX,
            self.pairs@.len() <= u32::MAX,
        ensures
            final(buf).seq_num == next_seq_num(old(buf).seq_num),
            final(buf).buf@ == old(buf).buf@ + auth_request_head(
                final(buf).seq_num,
                client.uses_token(),
                if self.is_phase_one() {
                    constants::TTC_RPC_AUTH_PHASE_ONE
                } else {
                    constants::TTC_RPC_AUTH_PHASE_TWO
                },
                encode_utf8(config.user@),
                auth_mode(self.is_phase_one(), config.new_password is Some, config.auth_mode),
                self.pairs@.len(),
            ),
    {
        let token = client.supports_ttc_field_version(constants::TTC_FIELD_VERSION_23_1_EXT_1);
        buf.write_function_header(token, self.get_ttc_message_type());
        let user_bytes = config.user.as_str().as_bytes();
        buf.write_u8(1);
        buf.write_ub4(user_bytes.len() as u32);
        buf.write_ub4(self.get_auth_mode(config));
        buf.write_u8(1);
        buf.write_ub4(self.pairs.len() as u32);
        buf.write_u8(1);
        buf.write_u8(1);
        buf.write_bytes_with_length(user_bytes);
        assert(final(buf).buf@ =~= old(buf).buf@ + auth_request_head(
            final(buf).seq_num,
            client.uses_token(),
            if self.is_phase_one() {
                constants::TTC_RPC_AUTH_PHASE_ONE
            } else {
                constants::TTC_RPC_AUTH_PHASE_TWO
            },
            encode_utf8(config.user@),
            auth_mode(self.is_phase_one(), config.new_password is Some, config.auth_mode),
            self.pairs@.len(),
        ));
    }
}

/// The count that a session value holds, if the server sent the key and its
/// value is a `u32`.
pub open spec fn session_count(m: AuthMessage, key: Seq<char>) -> Option<nat> {
    match session_value(m, key) {
        Some(v) => parse_unsigned(encode_utf8(v), u32::MAX as nat),
        None => None,
    }
}

/// The bytes that a session value encodes in upper-case hexadecimal, if the
/// server sent the key and its value is such an encoding.
pub open spec fn session_hex(m: AuthMessage, key: Seq<char>) -> Option<Seq<u8>> {
    match session_value(m, key) {
        Some(v) => hex_decode(encode_utf8(v)),
        None => None,
    }
}

/// `n` bytes of value `n`: the padding of a password.
pub open spec fn pad_bytes(n: nat) -> Seq<u8> {
    Seq::new(n, |i: int| n as u8)
}

/// A password prefixed with a salt and padded to whole blocks of sixteen
/// bytes (a whole block of padding where it fills whole blocks already).
pub open spec fn padded_password(salt: Seq<u8>, password: Seq<u8>) -> Seq<u8> {
    salt + password + pad_bytes((16 - password.len() % 16) as nat)
}

/// The password key of a 12C verifier: PBKDF2-SHA512 of the password,
/// salted with the verifier data followed by "AUTH_PBKDF2_SPEEDY_KEY", 64
/// bytes long.
pub open spec fn password_key_12c(password: Seq<u8>, vfr_data: Seq<u8>, iterations: u32) -> Seq<u8> {
    pbkdf2_hmac_sha512(password, vfr_data + encode_utf8("AUTH_PBKDF2_SPEEDY_KEY"@), iterations, 64)
}

/// The password hash of a 12C verifier: the first 32 bytes of the SHA-512
/// digest of the password key followed by the verifier data.
pub open spec fn password_hash_12c(password_key: Seq<u8>, vfr_data: Seq<u8>) -> Seq<u8> {
    sha512(password_key + vfr_data).subrange(0, 32)
}

/// The server's half of the session key: its encrypted session key,
/// decrypted with the password hash, filled up with zeros to 32 bytes.
pub open spec fn session_key_part_a(password_hash: Seq<u8>, server_key: Seq<u8>) -> Seq<u8> {
    aes256_cbc_decrypt(password_hash, zeros(16), server_key) + zeros((32 - server_key.len()) as nat)
}

/// The combo key: PBKDF2-SHA512 of the upper-case hexadecimal of the
/// client's half of the session key followed by the server's, 32 bytes.
pub open spec fn combo_key_12c(part_a: Seq<u8>, part_b: Seq<u8>, salt: Seq<u8>, iterations: u32) -> Seq<u8> {
    pbkdf2_hmac_sha512(hex_upper(part_b + part_a), salt, iterations, 32)
}

/// The pair holding an encrypted password: the password prefixed with a
/// salt, padded, encrypted with AES-256-CBC under the combo key with a zero
/// IV, in upper-case hexadecimal.
pub open spec fn password_pair(key: Seq<char>, combo_key: Seq<u8>, salt: Seq<u8>, password: Seq<u8>) -> (Seq<u8>, Seq<u8>, u32) {
    (encode_utf8(key), hex_upper(aes256_cbc_encrypt(combo_key, zeros(16), padded_password(salt, password))), 0)
}

/// A vector of 32 bytes as an array.
fn to_array32(v: &[u8]) -> (r: [u8; 32])
    requires
        v@.len() == 32,
    ensures
        r@ == v@,
{
    let mut r = [0u8; 32];
    let mut i: usize = 0;
    while i < 32
        invariant
            i <= 32,
            v@.len() == 32,
            forall|j: int| 0 <= j < i ==> r@[j] == v@[j],
        decreases 32 - i,
    {
        r[i] = v[i];
        i = i + 1;
    }
    assert(r@ =~= v@);
    r
}

/// A password prefixed with a salt and padded to whole blocks.
fn pad_password(salt: &[u8], password: &[u8]) -> (r: Vec<u8>)
    requires
        2 * (password@.len() + 32) <= usize::MAX,
    ensures
        r@ == padded_password(salt@, password@),
{
    let pad_amount: usize = 16 - password.len() % 16;
    let mut padded: Vec<u8> = Vec::new();
    append_slice(&mut padded, salt);
    append_slice(&mut padded, password);
    let ghost start = padded@;
    let mut i: usize = 0;
    while i < pad_amount
        invariant
            i <= pad_amount <= 16,
            pad_amount == 16 - password@.len() % 16,
            padded@ == start + pad_bytes(pad_amount as nat).subrange(0, i as int),
        decreases pad_amount - i,
    {
        padded.push(pad_amount as u8);
        i = i + 1;
        assert(padded@ =~= start + pad_bytes(pad_amount as nat).subrange(0, i as int));
    }
    assert(pad_bytes(pad_amount as nat).subrange(0, pad_amount as int) =~= pad_bytes(pad_amount as nat));
    padded
}

impl AuthMessage {
    /// Returns the count that a session value holds.
    fn session_u32(&self, key: &str) -> (r: Option<u32>)
        ensures
            r == match session_count(*self, key@) {
                Some(n) => Some(n as u32),
                None => None::<u32>,
            },
    {
        match self.lookup(key) {
            Some(value) => parse_u32(value.as_str().as_bytes()),
            None => None,
        }
    }

    /// Returns the bytes that a session value encodes in hexadecimal.
    fn session_bytes(&self, key: &str) -> (r: Option<Vec<u8>>)
        ensures
            r is Some <==> session_hex(*self, key@) is Some,
            r matches Some(b) ==> b@ == session_hex(*self, key@).unwrap(),
    {
        match self.lookup(key) {
            Some(value) => hex_decode_upper(value.as_str().as_bytes()),
            None => None,
        }
    }

    /// Encrypts a password with the combo key and adds the pair holding it.
    fn encrypt_password(&mut self, key: &str, password: &[u8], combo_key: &[u8; 32])
        requires
            2 * (password@.len() + 32) <= usize::MAX,
        ensures
            exists|salt: Seq<u8>|
                salt.len() == 16 && pairs_view(final(self).pairs@) == pairs_view(old(self).pairs@).push(
                    #[trigger] password_pair(key@, combo_key@, salt, password@),
                ),
            *final(self) == (AuthMessage { pairs: final(self).pairs, ..*old(self) }),
    {
        let salt = random_bytes(16);
        let padded = pad_password(salt.as_slice(), password);
        let iv = crate::bytes::zero_bytes(16);
        let encrypted = aes256_cbc_encrypt_bytes(combo_key.as_slice(), iv.as_slice(), padded.as_slice());
        self.add_pair_binary(key, encrypted.as_slice(), 0);
        assert(pairs_view(final(self).pairs@) == pairs_view(old(self).pairs@).push(
            password_pair(key@, combo_key@, salt@, password@),
        ));
    }
}

/// What a 12C verifier exchange needs of the session data: the iteration
/// counts, the verifier data, the server's encrypted session key (whole
/// blocks, at most 32 bytes) and the combo key salt.
pub open spec fn ready_for_12c(m: AuthMessage) -> bool {
    &&& session_count(m, "AUTH_PBKDF2_VGEN_COUNT"@) is Some
    &&& session_hex(m, "AUTH_VFR_DATA"@) is Some
    &&& session_hex(m, "AUTH_SESSKEY"@) matches Some(k) && k.len() % 16 == 0 && k.len() <= 32
    &&& session_count(m, "AUTH_PBKDF2_SDER_COUNT"@) is Some
    &&& session_hex(m, "AUTH_PBKDF2_CSK_SALT"@) is Some
}

/// The pair holding the speedy key: a salt followed by the password key,
/// encrypted under the combo key.
pub open spec fn speedy_key_pair(combo_key: Seq<u8>, salt: Seq<u8>, password_key: Seq<u8>) -> (Seq<u8>, Seq<u8>, u32) {
    (
        encode_utf8("AUTH_PBKDF2_SPEEDY_KEY"@),
        hex_upper(aes256_cbc_encrypt(combo_key, zeros(16), salt + password_key)),
        0,
    )
}

/// The pairs holding the encrypted password and, when one is set, the new
/// password.
pub open spec fn password_pairs(
    combo_key: Seq<u8>,
    salt: Seq<u8>,
    new_salt: Seq<u8>,
    password: Seq<u8>,
    new_password: Option<Seq<u8>>,
) -> Seq<(Seq<u8>, Seq<u8>, u32)> {
    seq![password_pair("AUTH_PASSWORD"@, combo_key, salt, password)] + match new_password {
        Some(p) => seq![password_pair("AUTH_NEWPASSWORD"@, combo_key, new_salt, p)],
        None => Seq::empty(),
    }
}

/// The view of an optional password.
pub open spec fn opt_password(p: Option<Vec<u8>>) -> Option<Seq<u8>> {
    match p {
        Some(v) => Some(v@),
        None => None,
    }
}

impl AuthMessage {
    /// Encrypts the password, and the new password when one is set, and
    /// adds the pairs holding them.
    fn encrypt_passwords(&mut self, config: &AuthConfig, combo_key: &[u8; 32])
        requires
            2 * (config.password@.len() + 32) <= usize::MAX,
            config.new_password matches Some(p) ==> 2 * (p@.len() + 32) <= usize::MAX,
        ensures
            exists|salt: Seq<u8>, new_salt: Seq<u8>|
                salt.len() == 16 && new_salt.len() == 16 && pairs_view(final(self).pairs@) == pairs_view(
                    old(self).pairs@,
                ) + #[trigger] password_pairs(
                    combo_key@,
                    salt,
                    new_salt,
                    config.password@,
                    opt_password(config.new_password),
                ),
            *final(self) == (AuthMessage { pairs: final(self).pairs, ..*old(self) }),
    {
        self.encrypt_password("AUTH_PASSWORD", config.password.as_slice(), combo_key);
        let ghost salt = choose|salt: Seq<u8>|
            salt.len() == 16 && pairs_view(self.pairs@) == pairs_view(old(self).pairs@).push(
                #[trigger] password_pair("AUTH_PASSWORD"@, combo_key@, salt, config.password@),
            );
        let ghost after_password = self.pairs@;
        match &config.new_password {
            Some(new_password) => {
                self.encrypt_password("AUTH_NEWPASSWORD", new_password.as_slice(), combo_key);
                let ghost new_salt = choose|new_salt: Seq<u8>|
                    new_salt.len() == 16 && pairs_view(self.pairs@) == pairs_view(after_password).push(
                        #[trigger] password_pair("AUTH_NEWPASSWORD"@, combo_key@, new_salt, new_password@),
                    );
                assert(pairs_view(self.pairs@) =~= pairs_view(old(self).pairs@) + password_pairs(
                    combo_key@,
                    salt,
                    new_salt,
                    config.password@,
                    opt_password(config.new_password),
                ));
            },
            None => {
                assert(pairs_view(self.pairs@) =~= pairs_view(old(self).pairs@) + password_pairs(
                    combo_key@,
                    salt,
                    salt,
                    config.password@,
                    opt_password(config.new_password),
                ));
            },
        }
    }

    /// Computes the combo key from the two halves of the session key, with
    /// the salt and iteration count that the server sent.
    fn generate_combo_key(&self, session_key_part_a: &[u8], session_key_part_b: &[u8]) -> (r: [u8; 32])
        requires
            session_count(*self, "AUTH_PBKDF2_SDER_COUNT"@) is Some,
            session_hex(*self, "AUTH_PBKDF2_CSK_SALT"@) is Some,
            session_key_part_a@.len() == 32,
            session_key_part_b@.len() == 32,
        ensures
            r@ == combo_key_12c(
                session_key_part_a@,
                session_key_part_b@,
                session_hex(*self, "AUTH_PBKDF2_CSK_SALT"@).unwrap(),
                session_count(*self, "AUTH_PBKDF2_SDER_COUNT"@).unwrap() as u32,
            ),
    {
        let iterations: u32 = match self.session_u32("AUTH_PBKDF2_SDER_COUNT") {
            Some(n) => n,
            None => 0,
        };
        let salt = match self.session_bytes("AUTH_PBKDF2_CSK_SALT") {
            Some(b) => b,
            None => Vec::new(),
        };
        let mut raw_temp_key: Vec<u8> = Vec::new();
        append_slice(&mut raw_temp_key, session_key_part_b);
        append_slice(&mut raw_temp_key, session_key_part_a);
        let temp_key = hex_encode_upper(raw_temp_key.as_slice());
        let combo_key = pbkdf2_sha512(temp_key.as_slice(), salt.as_slice(), iterations, 32);
        to_array32(combo_key.as_slice())
    }

    /// Adds the speedy key pair: a fresh salt followed by the password key,
    /// encrypted under the combo key.
    fn generate_speedy_key(&mut self, password_key: &[u8], combo_key: &[u8; 32])
        requires
            password_key@.len() == 64,
        ensures
            exists|salt: Seq<u8>|
                salt.len() == 16 && pairs_view(final(self).pairs@) == pairs_view(old(self).pairs@).push(
                    #[trigger] speedy_key_pair(combo_key@, salt, password_key@),
                ),
            *final(self) == (AuthMessage { pairs: final(self).pairs, ..*old(self) }),
    {
        let mut input_val = random_bytes(16);
        let ghost salt = input_val@;
        append_slice(&mut input_val, password_key);
        let iv = crate::bytes::zero_bytes(16);
        let speedy_key = aes256_cbc_encrypt_bytes(combo_key.as_slice(), iv.as_slice(), input_val.as_slice());
        self.add_pair_binary("AUTH_PBKDF2_SPEEDY_KEY", speedy_key.as_slice(), 0);
        assert(pairs_view(final(self).pairs@) == pairs_view(old(self).pairs@).push(
            speedy_key_pair(combo_key@, salt, password_key@),
        ));
    }
}

/// What a 12C verifier exchange adds to the pairs, and the combo key it
/// computes, given the client's half of the session key and the salts it
/// drew: the client's half of the session key encrypted with the password
/// hash, the speedy key and the encrypted password(s).
pub open spec fn verifier_12c(
    m: AuthMessage,
    password: Seq<u8>,
    new_password: Option<Seq<u8>>,
    part_b: Seq<u8>,
    speedy_salt: Seq<u8>,
    salt: Seq<u8>,
    new_salt: Seq<u8>,
) -> (Seq<(Seq<u8>, Seq<u8>, u32)>, Seq<u8>) {
    let vfr_data = session_hex(m, "AUTH_VFR_DATA"@).unwrap();
    let password_key = password_key_12c(
        password,
        vfr_data,
        session_count(m, "AUTH_PBKDF2_VGEN_COUNT"@).unwrap() as u32,
    );
    let password_hash = password_hash_12c(password_key, vfr_data);
    let part_a = session_key_part_a(password_hash, session_hex(m, "AUTH_SESSKEY"@).unwrap());
    let combo_key = combo_key_12c(
        part_a,
        part_b,
        session_hex(m, "AUTH_PBKDF2_CSK_SALT"@).unwrap(),
        session_count(m, "AUTH_PBKDF2_SDER_COUNT"@).unwrap() as u32,
    );
    (
        seq![
            (encode_utf8("AUTH_SESSKEY"@), hex_upper(aes256_cbc_encrypt(password_hash, zeros(16), part_b)), 1u32),
            speedy_key_pair(combo_key, speedy_salt, password_key),
        ] + password_pairs(combo_key, salt, new_salt, password, new_password),
        combo_key,
    )
}

impl AuthMessage {
    /// Runs the 11G/12C verifier exchange (AES-256 and PBKDF2): derives the
    /// password key and hash from the verifier data, decrypts the server's
    /// half of the session key, draws the client's half and sends it
    /// encrypted, derives the combo key, and sends the speedy key and the
    /// encrypted password(s). The combo key is kept.
    fn generate_verifier_12c(&mut self, config: &AuthConfig)
        requires
            ready_for_12c(*old(self)),
            2 * (config.password@.len() + 32) <= usize::MAX,
            config.new_password matches Some(p) ==> 2 * (p@.len() + 32) <= usize::MAX,
        ensures
            exists|part_b: Seq<u8>, speedy_salt: Seq<u8>, salt: Seq<u8>, new_salt: Seq<u8>|
                part_b.len() == 32 && speedy_salt.len() == 16 && salt.len() == 16 && new_salt.len() == 16
                    && pairs_view(final(self).pairs@) == pairs_view(old(self).pairs@) + (#[trigger] verifier_12c(
                    *old(self),
                    config.password@,
                    opt_password(config.new_password),
                    part_b,
                    speedy_salt,
                    salt,
                    new_salt,
                )).0 && (final(self).combo_key matches Some(k) && k@ == verifier_12c(
                    *old(self),
                    config.password@,
                    opt_password(config.new_password),
                    part_b,
                    speedy_salt,
                    salt,
                    new_salt,
                ).1),
            *final(self) == (AuthMessage {
                pairs: final(self).pairs,
                combo_key: final(self).combo_key,
                ..*old(self)
            }),
    {
        let iterations: u32 = match self.session_u32("AUTH_PBKDF2_VGEN_COUNT") {
            Some(n) => n,
            None => 0,
        };
        let verifier_data = match self.session_bytes("AUTH_VFR_DATA") {
            Some(b) => b,
            None => Vec::new(),
        };
        let speedy_label = "AUTH_PBKDF2_SPEEDY_KEY";
        let mut salt: Vec<u8> = Vec::new();
        append_slice(&mut salt, verifier_data.as_slice());
        append_slice(&mut salt, speedy_label.as_bytes());
        let password_key = pbkdf2_sha512(config.password.as_slice(), salt.as_slice(), iterations, 64);
        let mut hash_input: Vec<u8> = Vec::new();
        append_slice(&mut hash_input, password_key.as_slice());
        append_slice(&mut hash_input, verifier_data.as_slice());
        let digest = sha512_digest(hash_input.as_slice());
        let mut password_hash: Vec<u8> = Vec::new();
        append_slice(&mut password_hash, &digest.as_slice()[0..32]);
        let encoded_server_key = match self.session_bytes("AUTH_SESSKEY") {
            Some(b) => b,
            None => Vec::new(),
        };
        let iv = crate::bytes::zero_bytes(16);
        let mut session_key_part_a = aes256_cbc_decrypt_bytes(
            password_hash.as_slice(),
            iv.as_slice(),
            encoded_server_key.as_slice(),
        );
        append_zeros(&mut session_key_part_a, 32 - encoded_server_key.len());
        let session_key_part_b = random_bytes(32);
        let session_key = aes256_cbc_encrypt_bytes(
            password_hash.as_slice(),
            iv.as_slice(),
            session_key_part_b.as_slice(),
        );
        let ghost m0 = *self;
        self.add_pair_binary("AUTH_SESSKEY", session_key.as_slice(), 1);
        let combo_key = self.generate_combo_key(session_key_part_a.as_slice(), session_key_part_b.as_slice());
        let ghost after_sesskey = self.pairs@;
        self.generate_speedy_key(password_key.as_slice(), &combo_key);
        let ghost speedy_salt = choose|speedy_salt: Seq<u8>|
            speedy_salt.len() == 16 && pairs_view(self.pairs@) == pairs_view(after_sesskey).push(
                #[trigger] speedy_key_pair(combo_key@, speedy_salt, password_key@),
            );
        let ghost after_speedy = self.pairs@;
        self.encrypt_passwords(config, &combo_key);
        let ghost (pw_salt, new_salt) = choose|pw_salt: Seq<u8>, new_salt: Seq<u8>|
            pw_salt.len() == 16 && new_salt.len() == 16 && pairs_view(self.pairs@) == pairs_view(after_speedy)
                + #[trigger] password_pairs(
                combo_key@,
                pw_salt,
                new_salt,
                config.password@,
                opt_password(config.new_password),
            );
        self.combo_key = Some(combo_key);
        proof {
            assert(salt@ =~= verifier_data@ + encode_utf8("AUTH_PBKDF2_SPEEDY_KEY"@));
            assert(hash_input@ =~= password_key@ + verifier_data@);
            assert(password_hash@ =~= digest@.subrange(0, 32));
            let v = verifier_12c(
                m0,
                config.password@,
                opt_password(config.new_password),
                session_key_part_b@,
                speedy_salt,
                pw_salt,
                new_salt,
            );
            assert(pairs_view(self.pairs@) =~= pairs_view(old(self).pairs@) + v.0);
        }
    }
}

/// Whether a 10G exchange derives its combo key with PBKDF2: the server sent
/// a non-empty combo key salt and an iteration count.
pub open spec fn uses_pbkdf2_10g(m: AuthMessage) -> bool {
    &&& session_value(m, "AUTH_PBKDF2_CSK_SALT"@) matches Some(salt) && salt.len() > 0
    &&& session_value(m, "AUTH_PBKDF2_SDER_COUNT"@) is Some
}

/// What a 10G verifier exchange needs of the session data: the server's
/// encrypted session key (whole blocks, at least one) and, where the combo
/// key is derived with PBKDF2, a salt and an iteration count that read.
pub open spec fn ready_for_10g(m: AuthMessage) -> bool {
    &&& session_hex(m, "AUTH_SESSKEY"@) matches Some(k) && k.len() % 16 == 0 && k.len() >= 16
    &&& uses_pbkdf2_10g(m) ==> session_hex(m, "AUTH_PBKDF2_CSK_SALT"@) is Some && session_count(
        m,
        "AUTH_PBKDF2_SDER_COUNT"@,
    ) is Some
}

/// The combo key of a 10G exchange: with PBKDF2, 16 bytes derived from the
/// hexadecimal of the first halves of the client's and the server's session
/// keys; otherwise the MD5 digest of the last 16 bytes of the server's key
/// XORed with the last 16 of the client's.
pub open spec fn combo_key_10g(m: AuthMessage, server_key: Seq<u8>, client_key: Seq<u8>) -> Seq<u8> {
    if uses_pbkdf2_10g(m) {
        pbkdf2_hmac_sha512(
            hex_upper(client_key.subrange(0, 16) + server_key.subrange(0, 16)),
            session_hex(m, "AUTH_PBKDF2_CSK_SALT"@).unwrap(),
            session_count(m, "AUTH_PBKDF2_SDER_COUNT"@).unwrap() as u32,
            16,
        )
    } else {
        md5(Seq::new(16, |i: int| server_key[server_key.len() - 16 + i] ^ client_key[16 + i]))
    }
}

/// With the PBKDF2 parameters in the session data, the 10G combo key is the
/// 16 bytes that PBKDF2-SHA512 derives, with the server's salt and count,
/// from the upper-case hexadecimal of the first 16 bytes of the client's
/// session key followed by that of the first 16 bytes of the server's: the
/// client's bytes come first. Without them it is the MD5 digest of the last
/// 16 bytes of the server's key XORed with the last 16 of the client's.
pub proof fn combo_key_10g_client_first(m: AuthMessage, server_key: Seq<u8>, client_key: Seq<u8>)
    requires
        server_key.len() >= 16,
        client_key.len() == 32,
    ensures
        uses_pbkdf2_10g(m) ==> combo_key_10g(m, server_key, client_key) == pbkdf2_hmac_sha512(
            hex_upper(client_key.subrange(0, 16)) + hex_upper(server_key.subrange(0, 16)),
            session_hex(m, "AUTH_PBKDF2_CSK_SALT"@).unwrap(),
            session_count(m, "AUTH_PBKDF2_SDER_COUNT"@).unwrap() as u32,
            16,
        ),
        !uses_pbkdf2_10g(m) ==> combo_key_10g(m, server_key, client_key) == md5(
            Seq::new(16, |i: int| server_key[server_key.len() - 16 + i] ^ client_key[16 + i]),
        ),
{
    lemma_hex_upper_concat(client_key.subrange(0, 16), server_key.subrange(0, 16));
}

/// What a 10G (O3LOGON) verifier exchange adds to the pairs, given the
/// client's session key and the salt it drew: the DES-derived verifier,
/// zero-filled to 16 bytes, is the AES-128 key that decrypts the server's
/// session key and encrypts the client's; the password is encrypted with
/// AES-128 under the combo key.
pub open spec fn verifier_10g(
    m: AuthMessage,
    user: Seq<u8>,
    password: Seq<u8>,
    client_key: Seq<u8>,
    salt: Seq<u8>,
) -> Seq<(Seq<u8>, Seq<u8>, u32)> {
    let password_hash = spec_oracle10g_verifier(user, password) + zeros(8);
    let server_key = aes128_cbc_decrypt(password_hash, zeros(16), session_hex(m, "AUTH_SESSKEY"@).unwrap());
    let combo_key = combo_key_10g(m, server_key, client_key);
    seq![
        (encode_utf8("AUTH_SESSKEY"@), hex_upper(aes128_cbc_encrypt(password_hash, zeros(16), client_key)), 1u32),
        (
            encode_utf8("AUTH_PASSWORD"@),
            hex_upper(aes128_cbc_encrypt(combo_key, zeros(16), padded_password(salt, password))),
            0u32,
        ),
    ]
}

impl AuthMessage {
    /// The combo key of a 10G exchange.
    fn combo_key_10g(&self, server_key: &[u8], client_key: &[u8]) -> (r: Vec<u8>)
        requires
            ready_for_10g(*self),
            server_key@.len() >= 16,
            client_key@.len() == 32,
        ensures
            r@ == combo_key_10g(*self, server_key@, client_key@),
            r@.len() == 16,
    {
        let salt_text = self.lookup("AUTH_PBKDF2_CSK_SALT");
        let count_text = self.lookup("AUTH_PBKDF2_SDER_COUNT");
        if salt_text.is_some() && count_text.is_some() && !salt_text.unwrap().as_str().is_empty() {
            let salt = match self.session_bytes("AUTH_PBKDF2_CSK_SALT") {
                Some(b) => b,
                None => Vec::new(),
            };
            let iterations: u32 = match self.session_u32("AUTH_PBKDF2_SDER_COUNT") {
                Some(n) => n,
                None => 0,
            };
            let mut temp: Vec<u8> = Vec::new();
            append_slice(&mut temp, &client_key[0..16]);
            append_slice(&mut temp, &server_key[0..16]);
            let temp_key = hex_encode_upper(temp.as_slice());
            assert(temp@ =~= client_key@.subrange(0, 16) + server_key@.subrange(0, 16));
            pbkdf2_sha512(temp_key.as_slice(), salt.as_slice(), iterations, 16)
        } else {
            let tail = server_key.len() - 16;
            let mut combined: Vec<u8> = Vec::new();
            let mut i: usize = 0;
            while i < 16
                invariant
                    i <= 16,
                    server_key@.len() >= 16,
                    tail + 16 == server_key.len(),
                    client_key@.len() == 32,
                    combined@.len() == i,
                    forall|j: int| 0 <= j < i ==> combined@[j] == server_key@[tail + j] ^ client_key@[16 + j],
                decreases 16 - i,
            {
                combined.push(server_key[tail + i] ^ client_key[16 + i]);
                i = i + 1;
            }
            assert(combined@ =~= Seq::new(
                16,
                |i: int| server_key@[server_key@.len() - 16 + i] ^ client_key@[16 + i],
            ));
            md5_digest(combined.as_slice())
        }
    }

    /// Runs the 10G (O3LOGON) verifier exchange for the user and password
    /// with the given client session key and password salt: decrypts the
    /// server's session key with the verifier, sends the client's session
    /// key encrypted, folds both into the combo key, and sends the password,
    /// salted, padded and encrypted with it.
    pub fn generate_verifier_10g_with(&mut self, config: &AuthConfig, client_key: &[u8], salt: &[u8])
        requires
            ready_for_10g(*old(self)),
            encode_utf8(config.user@).len() + config.password@.len() > 0,
            2 * (encode_utf8(config.user@).len() + config.password@.len()) + 8 <= usize::MAX,
            2 * (config.password@.len() + 32) <= usize::MAX,
            valid_utf8(config.password@),
            client_key@.len() == 32,
            salt@.len() == 16,
        ensures
            pairs_view(final(self).pairs@) == pairs_view(old(self).pairs@) + verifier_10g(
                *old(self),
                encode_utf8(config.user@),
                config.password@,
                client_key@,
                salt@,
            ),
            *final(self) == (AuthMessage { pairs: final(self).pairs, ..*old(self) }),
    {
        let user = config.user.as_str();
        let password = config.password.as_slice();
        let verifier = oracle10g_verifier(user, password);
        let mut password_hash: Vec<u8> = Vec::new();
        append_slice(&mut password_hash, verifier.as_slice());
        append_zeros(&mut password_hash, 8);
        let encoded_server_key = match self.session_bytes("AUTH_SESSKEY") {
            Some(b) => b,
            None => Vec::new(),
        };
        let iv = crate::bytes::zero_bytes(16);
        let server_key = aes128_cbc_decrypt_bytes(
            password_hash.as_slice(),
            iv.as_slice(),
            encoded_server_key.as_slice(),
        );
        let client_key_enc = aes128_cbc_encrypt_bytes(password_hash.as_slice(), iv.as_slice(), client_key);
        let ghost m0 = *self;
        self.add_pair_binary("AUTH_SESSKEY", client_key_enc.as_slice(), 1);
        let ghost p1 = self.pairs@;
        assert(pairs_view(p1).len() == old(self).pairs@.len() + 1);
        assert(p1.len() == old(self).pairs@.len() + 1);
        assert(pairs_view(p1)[old(self).pairs@.len() as int] == pair_view(p1[old(self).pairs@.len() as int]));
        let combo_key = self.combo_key_10g(server_key.as_slice(), client_key);
        let mut plain: Vec<u8> = Vec::new();
        append_slice(&mut plain, salt);
        append_slice(&mut plain, password);
        let pad: usize = 16 - plain.len() % 16;
        let ghost before_pad = plain@;
        let mut i: usize = 0;
        while i < pad
            invariant
                i <= pad <= 16,
                plain@ == before_pad + Seq::new(i as nat, |j: int| pad as u8),
            decreases pad - i,
        {
            plain.push(pad as u8);
            i = i + 1;
            assert(plain@ =~= before_pad + Seq::new(i as nat, |j: int| pad as u8));
        }
        let encrypted = aes128_cbc_encrypt_bytes(combo_key.as_slice(), iv.as_slice(), plain.as_slice());
        let hex = hex_encode_upper(encrypted.as_slice());
        self.pairs.push(Pair { key: "AUTH_PASSWORD".as_bytes_vec(), value: hex, flags: 0 });
        proof {
            assert(password_hash@ =~= spec_oracle10g_verifier(encode_utf8(config.user@), config.password@) + zeros(8));
            assert(plain@ =~= padded_password(salt@, config.password@));
            let hash = spec_oracle10g_verifier(encode_utf8(config.user@), config.password@) + zeros(8);
            assert(server_key@ == aes128_cbc_decrypt(hash, zeros(16), session_hex(m0, "AUTH_SESSKEY"@).unwrap()));
            assert(combo_key@ == combo_key_10g(m0, server_key@, client_key@));
            let v = verifier_10g(m0, encode_utf8(config.user@), config.password@, client_key@, salt@);
            assert(v[0] == pair_view(self.pairs@[old(self).pairs@.len() as int]));
            assert(v[1] == pair_view(self.pairs@[old(self).pairs@.len() + 1int]));
            assert(pairs_view(self.pairs@) =~= pairs_view(p1).push(v[1]));
            assert(pairs_view(p1) =~= pairs_view(old(self).pairs@).push(v[0]));
            assert(pairs_view(self.pairs@) =~= pairs_view(old(self).pairs@) + verifier_10g(
                m0,
                encode_utf8(config.user@),
                config.password@,
                client_key@,
                salt@,
            ));
        }
    }

    /// Draws the client's session key and the password salt, then runs the
    /// 10G exchange with them.
    fn generate_verifier_10g(&mut self, config: &AuthConfig)
        requires
            ready_for_10g(*old(self)),
            encode_utf8(config.user@).len() + config.password@.len() > 0,
            2 * (encode_utf8(config.user@).len() + config.password@.len()) + 8 <= usize::MAX,
            2 * (config.password@.len() + 32) <= usize::MAX,
            valid_utf8(config.password@),
        ensures
            exists|client_key: Seq<u8>, salt: Seq<u8>|
                client_key.len() == 32 && salt.len() == 16 && pairs_view(final(self).pairs@) == pairs_view(
                    old(self).pairs@,
                ) + #[trigger] verifier_10g(
                    *old(self),
                    encode_utf8(config.user@),
                    config.password@,
                    client_key,
                    salt,
                ),
            *final(self) == (AuthMessage { pairs: final(self).pairs, ..*old(self) }),
    {
        let client_key = random_bytes(32);
        let salt = random_bytes(16);
        self.generate_verifier_10g_with(config, client_key.as_slice(), salt.as_slice());
        assert(pairs_view(self.pairs@) == pairs_view(old(self).pairs@) + verifier_10g(
            *old(self),
            encode_utf8(config.user@),
            config.password@,
            client_key@,
            salt@,
        ));
    }
}

/// Whether `added` and `combo_key` are what a verifier exchange of the kind
/// the server reported produces for the configuration, for some values of
/// what it draws at random: a 10G exchange keeps the combo key as it was, a
/// 12C exchange sets it.
#[verifier::opaque]
pub open spec fn verifier_outcome(
    m: AuthMessage,
    config: AuthConfig,
    added: Seq<(Seq<u8>, Seq<u8>, u32)>,
    combo_key: Option<[u8; 32]>,
) -> bool {
    if m.verifier_type == Some(TNS_VERIFIER_TYPE_10G) {
        &&& exists|client_key: Seq<u8>, salt: Seq<u8>|
            client_key.len() == 32 && salt.len() == 16 && added == #[trigger] verifier_10g(
                m,
                encode_utf8(config.user@),
                config.password@,
                client_key,
                salt,
            )
        &&& combo_key == m.combo_key
    } else {
        exists|part_b: Seq<u8>, speedy_salt: Seq<u8>, salt: Seq<u8>, new_salt: Seq<u8>|
            part_b.len() == 32 && speedy_salt.len() == 16 && salt.len() == 16 && new_salt.len() == 16
                && added == (#[trigger] verifier_12c(
                m,
                config.password@,
                opt_password(config.new_password),
                part_b,
                speedy_salt,
                salt,
                new_salt,
            )).0 && (combo_key matches Some(k) && k@ == verifier_12c(
                m,
                config.password@,
                opt_password(config.new_password),
                part_b,
                speedy_salt,
                salt,
                new_salt,
            ).1)
    }
}

/// What a verifier exchange produces does not depend on the pairs already
/// prepared.
proof fn lemma_verifier_outcome_ignores_pairs(
    m1: AuthMessage,
    m2: AuthMessage,
    config: AuthConfig,
    added: Seq<(Seq<u8>, Seq<u8>, u32)>,
    combo_key: Option<[u8; 32]>,
)
    requires
        m1 == (AuthMessage { pairs: m1.pairs, ..m2 }),
    ensures
        verifier_outcome(m1, config, added, combo_key) == verifier_outcome(m2, config, added, combo_key),
{
    reveal(verifier_outcome);
    assert forall|a: Seq<u8>, b: Seq<u8>, c: Seq<u8>, d: Seq<u8>|
        verifier_12c(m1, config.password@, opt_password(config.new_password), a, b, c, d) == verifier_12c(
            m2,
            config.password@,
            opt_password(config.new_password),
            a,
            b,
            c,
            d,
        ) by {}
    assert forall|a: Seq<u8>, b: Seq<u8>|
        verifier_10g(m1, encode_utf8(config.user@), config.password@, a, b) == verifier_10g(
            m2,
            encode_utf8(config.user@),
            config.password@,
            a,
            b,
        ) by {}
}

/// What a verifier exchange of the kind the server reported needs.
pub open spec fn ready_for_verifier(m: AuthMessage, config: AuthConfig) -> bool {
    if m.verifier_type == Some(TNS_VERIFIER_TYPE_10G) {
        &&& ready_for_10g(m)
        &&& encode_utf8(config.user@).len() + config.password@.len() > 0
        &&& 2 * (encode_utf8(config.user@).len() + config.password@.len()) + 8 <= usize::MAX
        &&& 2 * (config.password@.len() + 32) <= usize::MAX
        &&& valid_utf8(config.password@)
    } else {
        &&& ready_for_12c(m)
        &&& 2 * (config.password@.len() + 32) <= usize::MAX
        &&& config.new_password matches Some(p) ==> 2 * (p@.len() + 32) <= usize::MAX
    }
}

/// The number that encodes the driver's version for the server.
pub open spec fn client_version_num(major: u64, minor: u64, patch: u64) -> u64 {
    major << 24u64 | minor << 20u64 | patch << 12u64
}

/// The pairs of the first phase: the terminal, the program, the machine, the
/// process id and the operating system user.
pub open spec fn phase_one_pairs(config: AuthConfig, pid: u32) -> Seq<(Seq<u8>, Seq<u8>, u32)> {
    seq![
        (encode_utf8("AUTH_TERMINAL"@), encode_utf8(config.terminal@), 0u32),
        (encode_utf8("AUTH_PROGRAM_NM"@), encode_utf8(config.program@), 0u32),
        (encode_utf8("AUTH_MACHINE"@), encode_utf8(config.machine@), 0u32),
        (encode_utf8("AUTH_PID"@), encode_utf8(decimal(pid as nat)), 0u32),
        (encode_utf8("AUTH_SID"@), encode_utf8(config.osuser@), 0u32),
    ]
}

/// The pairs that describe the client in the second phase: its character
/// set, the driver's name and version and, when set, the connection class.
pub open spec fn client_pairs(config: AuthConfig, version_num: u64) -> Seq<(Seq<u8>, Seq<u8>, u32)> {
    seq![
        (encode_utf8("SESSION_CLIENT_CHARSET"@), encode_utf8(decimal(constants::CHARSET_ID_UTF8 as nat)), 0u32),
        (encode_utf8("SESSION_CLIENT_DRIVER_NAME"@), encode_utf8(config.driver_name@), 0u32),
        (encode_utf8("SESSION_CLIENT_VERSION"@), encode_utf8(decimal(version_num as nat)), 0u32),
    ] + match config.cclass {
        Some(c) => seq![(encode_utf8("AUTH_KPPL_CONN_CLASS"@), encode_utf8(c@), 0u32)],
        None => Seq::empty(),
    }
}

/// The decimal text of a number.
fn decimal_text(n: u64) -> (r: String)
    ensures
        r@ == decimal(n as nat),
{
    let mut s = String::new();
    append_decimal(&mut s, n);
    assert(s@ =~= decimal(n as nat));
    s
}

impl AuthMessage {
    /// Runs the verifier exchange of the kind the server reported: 10G
    /// (O3LOGON) or 11G/12C.
    fn generate_verifier(&mut self, config: &AuthConfig)
        requires
            ready_for_verifier(*old(self), *config),
        ensures
            exists|added: Seq<(Seq<u8>, Seq<u8>, u32)>|
                pairs_view(final(self).pairs@) == pairs_view(old(self).pairs@) + added
                    && #[trigger] verifier_outcome(*old(self), *config, added, final(self).combo_key),
            *final(self) == (AuthMessage {
                pairs: final(self).pairs,
                combo_key: final(self).combo_key,
                ..*old(self)
            }),
    {
        reveal(verifier_outcome);
        if self.verifier_type == Some(TNS_VERIFIER_TYPE_10G) {
            self.generate_verifier_10g(config);
            let ghost (ck, salt) = choose|client_key: Seq<u8>, salt: Seq<u8>|
                client_key.len() == 32 && salt.len() == 16 && pairs_view(self.pairs@) == pairs_view(
                    old(self).pairs@,
                ) + #[trigger] verifier_10g(
                    *old(self),
                    encode_utf8(config.user@),
                    config.password@,
                    client_key,
                    salt,
                );
            assert(verifier_outcome(
                *old(self),
                *config,
                verifier_10g(*old(self), encode_utf8(config.user@), config.password@, ck, salt),
                self.combo_key,
            ));
        } else {
            self.generate_verifier_12c(config);
            let ghost (part_b, speedy_salt, salt, new_salt) = choose|
                part_b: Seq<u8>,
                speedy_salt: Seq<u8>,
                salt: Seq<u8>,
                new_salt: Seq<u8>,
            |
                part_b.len() == 32 && speedy_salt.len() == 16 && salt.len() == 16 && new_salt.len() == 16
                    && pairs_view(self.pairs@) == pairs_view(old(self).pairs@) + (#[trigger] verifier_12c(
                    *old(self),
                    config.password@,
                    opt_password(config.new_password),
                    part_b,
                    speedy_salt,
                    salt,
                    new_salt,
                )).0 && (self.combo_key matches Some(k) && k@ == verifier_12c(
                    *old(self),
                    config.password@,
                    opt_password(config.new_password),
                    part_b,
                    speedy_salt,
                    salt,
                    new_salt,
                ).1);
            assert(verifier_outcome(
                *old(self),
                *config,
                verifier_12c(
                    *old(self),
                    config.password@,
                    opt_password(config.new_password),
                    part_b,
                    speedy_salt,
                    salt,
                    new_salt,
                ).0,
                self.combo_key,
            ));
        }
    }
}

impl AuthMessage {
    /// Prepares the pairs of the next round trip. In the first phase they
    /// describe the client's environment, and the message is sent again for
    /// the second phase. With a combo key already known, they hold the
    /// encrypted password(s). Otherwise they hold the verifier exchange and
    /// describe the client.
    pub fn pre_process(&mut self, config: &AuthConfig, pid: u32, driver_version: (u64, u64, u64))
        requires
            !old(self).is_phase_one() && old(self).combo_key is None ==> ready_for_verifier(*old(self), *config),
            old(self).combo_key is Some ==> {
                &&& 2 * (config.password@.len() + 32) <= usize::MAX
                &&& config.new_password matches Some(p) ==> 2 * (p@.len() + 32) <= usize::MAX
            },
        ensures
            old(self).is_phase_one() ==> {
                &&& pairs_view(final(self).pairs@) == phase_one_pairs(*config, pid)
                &&& *final(self) == (AuthMessage {
                    pairs: final(self).pairs,
                    resend_needed: true,
                    ..*old(self)
                })
            },
            old(self).combo_key is Some && !old(self).is_phase_one() ==> {
                &&& exists|salt: Seq<u8>, new_salt: Seq<u8>|
                    salt.len() == 16 && new_salt.len() == 16 && pairs_view(final(self).pairs@)
                        == #[trigger] password_pairs(
                        old(self).combo_key.unwrap()@,
                        salt,
                        new_salt,
                        config.password@,
                        opt_password(config.new_password),
                    )
                &&& *final(self) == (AuthMessage { pairs: final(self).pairs, ..*old(self) })
            },
            !old(self).is_phase_one() && old(self).combo_key is None ==> {
                &&& exists|added: Seq<(Seq<u8>, Seq<u8>, u32)>|
                    pairs_view(final(self).pairs@) == added + client_pairs(
                        *config,
                        client_version_num(driver_version.0, driver_version.1, driver_version.2),
                    ) && #[trigger] verifier_outcome(*old(self), *config, added, final(self).combo_key)
                &&& *final(self) == (AuthMessage {
                    pairs: final(self).pairs,
                    combo_key: final(self).combo_key,
                    resend_needed: false,
                    ..*old(self)
                })
            },
    {
        self.pairs.clear();
        assert(pairs_view(self.pairs@) =~= Seq::empty());
        if self.get_is_phase_one() {
            self.add_phase_one_pairs(config, pid);
        } else if self.combo_key.is_some() {
            let combo_key = self.combo_key.unwrap();
            self.encrypt_passwords(config, &combo_key);
        } else {
            let ghost cleared = *self;
            self.add_logon_pairs(config, driver_version);
            let ghost added = choose|added: Seq<(Seq<u8>, Seq<u8>, u32)>|
                pairs_view(self.pairs@) == added + client_pairs(
                    *config,
                    client_version_num(driver_version.0, driver_version.1, driver_version.2),
                ) && #[trigger] verifier_outcome(cleared, *config, added, self.combo_key);
            proof {
                lemma_verifier_outcome_ignores_pairs(cleared, *old(self), *config, added, self.combo_key);
            }
        }
    }

    /// Adds the pairs of the first phase, and asks for the message to be
    /// sent again.
    fn add_phase_one_pairs(&mut self, config: &AuthConfig, pid: u32)
        requires
            old(self).pairs@.len() == 0,
        ensures
            pairs_view(final(self).pairs@) == phase_one_pairs(*config, pid),
            *final(self) == (AuthMessage { pairs: final(self).pairs, resend_needed: true, ..*old(self) }),
    {
        self.add_pair("AUTH_TERMINAL", config.terminal.as_str(), 0);
        self.add_pair("AUTH_PROGRAM_NM", config.program.as_str(), 0);
        self.add_pair("AUTH_MACHINE", config.machine.as_str(), 0);
        let pid_text = decimal_text(pid as u64);
        self.add_pair("AUTH_PID", pid_text.as_str(), 0);
        self.add_pair("AUTH_SID", config.osuser.as_str(), 0);
        self.resend_needed = true;
        assert(pairs_view(old(self).pairs@) =~= Seq::empty());
        assert(pairs_view(self.pairs@) =~= phase_one_pairs(*config, pid));
    }

    /// Adds the pairs of the second phase of a logon: the verifier exchange,
    /// then those that describe the client.
    fn add_logon_pairs(&mut self, config: &AuthConfig, driver_version: (u64, u64, u64))
        requires
            old(self).pairs@.len() == 0,
            ready_for_verifier(*old(self), *config),
        ensures
            exists|added: Seq<(Seq<u8>, Seq<u8>, u32)>|
                pairs_view(final(self).pairs@) == added + client_pairs(
                    *config,
                    client_version_num(driver_version.0, driver_version.1, driver_version.2),
                ) && #[trigger] verifier_outcome(*old(self), *config, added, final(self).combo_key),
            *final(self) == (AuthMessage {
                pairs: final(self).pairs,
                combo_key: final(self).combo_key,
                resend_needed: false,
                ..*old(self)
            }),
    {
        self.generate_verifier(config);
        let ghost added = choose|added: Seq<(Seq<u8>, Seq<u8>, u32)>|
            pairs_view(self.pairs@) == pairs_view(old(self).pairs@) + added && #[trigger] verifier_outcome(
                *old(self),
                *config,
                added,
                self.combo_key,
            );
        let charset = decimal_text(constants::CHARSET_ID_UTF8 as u64);
        self.add_pair("SESSION_CLIENT_CHARSET", charset.as_str(), 0);
        self.add_pair("SESSION_CLIENT_DRIVER_NAME", config.driver_name.as_str(), 0);
        let full_version_num: u64 = driver_version.0 << 24u64 | driver_version.1 << 20u64 | driver_version.2
            << 12u64;
        let version_text = decimal_text(full_version_num);
        self.add_pair("SESSION_CLIENT_VERSION", version_text.as_str(), 0);
        match &config.cclass {
            Some(cclass) => {
                self.add_pair("AUTH_KPPL_CONN_CLASS", cclass.as_str(), 0);
            },
            None => {},
        }
        self.resend_needed = false;
        proof {
            assert(pairs_view(old(self).pairs@) =~= Seq::empty());
            assert(pairs_view(self.pairs@) =~= added + client_pairs(
                *config,
                client_version_num(driver_version.0, driver_version.1, driver_version.2),
            ));
        }
    }

    /// Returns whether the message must be sent again: after the first
    /// phase.
    pub fn resend_needed(&self) -> (r: bool)
        ensures
            r == self.resend_needed,
    {
        self.resend_needed
    }
}

} // verus!
