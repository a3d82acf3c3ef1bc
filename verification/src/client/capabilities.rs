//! The capabilities supported by the client and the server, negotiated while
//! a connection is established.

use vstd::prelude::*;

use crate::constants;

verus! {

// capability array sizes
pub const COMPILE_CAPS_SIZE: usize = 55;
pub const RUNTIME_CAPS_SIZE: usize = 11;

// compile capability indexes
pub const CCAP_IX_SQL_VERSION: usize = 0;
pub const CCAP_IX_LOGON_TYPES: usize = 4;
pub const CCAP_IX_FEATURE_BACKPORT: usize = 5;
pub const CCAP_IX_FIELD_VERSION: usize = 7;
pub const CCAP_IX_SERVER_DEFINE_CONV: usize = 8;
pub const CCAP_IX_DEQUEUE_WITH_SELECTOR: usize = 9;
pub const CCAP_IX_TTC1: usize = 15;
pub const CCAP_IX_OCI1: usize = 16;
pub const CCAP_IX_TDS_VERSION: usize = 17;
pub const CCAP_IX_RPC_VERSION: usize = 18;
pub const CCAP_IX_RPC_SIG: usize = 19;
pub const CCAP_IX_DBF_VERSION: usize = 21;
pub const CCAP_IX_LOB: usize = 23;
pub const CCAP_IX_TTC2: usize = 26;
pub const CCAP_IX_UB2_DTY: usize = 27;
pub const CCAP_IX_OCI2: usize = 31;
pub const CCAP_IX_CLIENT_FN: usize = 34;
pub const CCAP_IX_TTC3: usize = 37;
pub const CCAP_IX_SESS_SIGNATURE_VERSION: usize = 39;
pub const CCAP_IX_TTC4: usize = 40;
pub const CCAP_IX_LOB2: usize = 42;
pub const CCAP_IX_TTC5: usize = 44;
pub const CCAP_IX_FEATURE_BACKPORT2: usize = 45;
pub const CCAP_IX_VECTOR_FEATURES: usize = 52;
pub const CCAP_IX_TTC6: usize = 54;

// compile capability values
pub const CCAP_VAL_O5LOGON: u8 = 8;
pub const CCAP_VAL_O5LOGON_NP: u8 = 2;
pub const CCAP_VAL_O7LOGON: u8 = 32;
pub const CCAP_VAL_O8LOGON_LONG_IDENTIFIER: u8 = 64;
pub const CCAP_VAL_O9LOGON_LONG_PASSWORD: u8 = 0x80;
pub const CCAP_VAL_CTB_IMPLICIT_POOL: u8 = 0x08;
pub const CCAP_VAL_END_OF_CALL_STATUS: u8 = 0x01;
pub const CCAP_VAL_IND_RCD: u8 = 0x08;
pub const CCAP_VAL_FAST_BVEC: u8 = 0x20;
pub const CCAP_VAL_FAST_SESSION_PROPAGATE: u8 = 0x10;
pub const CCAP_VAL_APP_CTX_PIGGYBACK: u8 = 0x80;
pub const CCAP_VAL_TDS_VERSION_MAX: u8 = 3;
pub const CCAP_VAL_RPC_VERSION_MAX: u8 = 7;
pub const CCAP_VAL_RPC_SIG_VALUE: u8 = 3;
pub const CCAP_VAL_DBF_VERSION_MAX: u8 = 1;
pub const CCAP_VAL_LTXID: u8 = 0x08;
pub const CCAP_VAL_IMPLICIT_RESULTS: u8 = 0x10;
pub const CCAP_VAL_BIG_CHUNK_CLR: u8 = 0x20;
pub const CCAP_VAL_KEEP_OUT_ORDER: u8 = 0x80;
pub const CCAP_VAL_LOB_UB8_SIZE: u8 = 0x01;
pub const CCAP_VAL_LOB_ENCS: u8 = 0x02;
pub const CCAP_VAL_LOB_PREFETCH_DATA: u8 = 0x04;
pub const CCAP_VAL_LOB_TEMP_SIZE: u8 = 0x08;
pub const CCAP_VAL_LOB_PREFETCH_LENGTH: u8 = 0x40;
pub const CCAP_VAL_LOB_12C: u8 = 0x80;
pub const CCAP_VAL_LOB2_QUASI: u8 = 0x01;
pub const CCAP_VAL_LOB2_2GB_PREFETCH: u8 = 0x04;
pub const CCAP_VAL_DRCP: u8 = 0x10;
pub const CCAP_VAL_ZLNP: u8 = 0x04;
pub const CCAP_VAL_INBAND_NOTIFICATION: u8 = 0x04;
pub const CCAP_VAL_EXPLICIT_BOUNDARY: u8 = 0x40;
pub const CCAP_VAL_END_OF_RESPONSE: u8 = 0x20;
pub const CCAP_VAL_CLIENT_FN_MAX: u8 = 12;
pub const CCAP_VAL_VECTOR_SUPPORT: u8 = 0x08;
pub const CCAP_VAL_TOKEN_SUPPORTED: u8 = 0x02;
pub const CCAP_VAL_PIPELINING_SUPPORT: u8 = 0x04;
pub const CCAP_VAL_PIPELINING_BREAK: u8 = 0x10;
pub const CCAP_VAL_END_USER_SEC_CTX_PIGGYBACK: u8 = 0x02;
pub const CCAP_VAL_VECTOR_FEATURE_BINARY: u8 = 0x01;
pub const CCAP_VAL_VECTOR_FEATURE_SPARSE: u8 = 0x02;
pub const CCAP_VAL_TTC6_HA_READINESS: u8 = 0x04;

// runtime capability indexes
pub const RCAP_IX_COMPAT: usize = 0;
pub const RCAP_IX_TTC: usize = 6;

// runtime capability values
pub const RCAP_VAL_COMPAT_81: u8 = 2;
pub const RCAP_VAL_TTC_ZERO_COPY: u8 = 0x01;
pub const RCAP_VAL_TTC_32K: u8 = 0x04;
pub const RCAP_VAL_TTC_SESSION_STATE_OPS: u8 = 0x10;

// accept flags
pub const ACCEPT_FLAG_FAST_AUTH: u32 = 0x10000000;
pub const ACCEPT_FLAG_HAS_END_OF_RESPONSE: u32 = 0x02000000;

// general service options (connect / accept protocol options)
pub const GSO_CAN_RECV_ATTENTION: u16 = 0x0400;

/// Out-of-band breaks ("attention") are offered on Unix-like platforms,
/// which are the platforms this library is built for.
pub const OOB_PLATFORM: bool = true;

/// The compile time capabilities that the client offers before any
/// adjustment for the server.
pub open spec fn initial_compile_cap(i: int) -> u8 {
    if i == CCAP_IX_SQL_VERSION { 6 }
    else if i == CCAP_IX_LOGON_TYPES {
        CCAP_VAL_O5LOGON | CCAP_VAL_O5LOGON_NP | CCAP_VAL_O7LOGON
            | CCAP_VAL_O8LOGON_LONG_IDENTIFIER | CCAP_VAL_O9LOGON_LONG_PASSWORD
    }
    else if i == CCAP_IX_FEATURE_BACKPORT { CCAP_VAL_CTB_IMPLICIT_POOL }
    else if i == CCAP_IX_FIELD_VERSION { constants::TTC_FIELD_VERSION_23_4 }
    else if i == CCAP_IX_SERVER_DEFINE_CONV { 1 }
    else if i == CCAP_IX_DEQUEUE_WITH_SELECTOR { 1 }
    else if i == CCAP_IX_TTC1 { CCAP_VAL_FAST_BVEC | CCAP_VAL_END_OF_CALL_STATUS | CCAP_VAL_IND_RCD }
    else if i == CCAP_IX_OCI1 { CCAP_VAL_FAST_SESSION_PROPAGATE | CCAP_VAL_APP_CTX_PIGGYBACK }
    else if i == CCAP_IX_TDS_VERSION { CCAP_VAL_TDS_VERSION_MAX }
    else if i == CCAP_IX_RPC_VERSION { CCAP_VAL_RPC_VERSION_MAX }
    else if i == CCAP_IX_RPC_SIG { CCAP_VAL_RPC_SIG_VALUE }
    else if i == CCAP_IX_DBF_VERSION { CCAP_VAL_DBF_VERSION_MAX }
    else if i == CCAP_IX_LOB {
        CCAP_VAL_LOB_UB8_SIZE | CCAP_VAL_LOB_ENCS | CCAP_VAL_LOB_PREFETCH_LENGTH
            | CCAP_VAL_LOB_TEMP_SIZE | CCAP_VAL_LOB_12C | CCAP_VAL_LOB_PREFETCH_DATA
    }
    else if i == CCAP_IX_UB2_DTY { 1 }
    else if i == CCAP_IX_LOB2 { CCAP_VAL_LOB2_QUASI | CCAP_VAL_LOB2_2GB_PREFETCH }
    else if i == CCAP_IX_TTC3 {
        CCAP_VAL_IMPLICIT_RESULTS | CCAP_VAL_BIG_CHUNK_CLR | CCAP_VAL_KEEP_OUT_ORDER | CCAP_VAL_LTXID
    }
    else if i == CCAP_IX_TTC2 { CCAP_VAL_ZLNP }
    else if i == CCAP_IX_OCI2 { CCAP_VAL_DRCP }
    else if i == CCAP_IX_CLIENT_FN { CCAP_VAL_CLIENT_FN_MAX }
    else if i == CCAP_IX_SESS_SIGNATURE_VERSION { constants::TTC_FIELD_VERSION_12_2 }
    else if i == CCAP_IX_TTC4 { CCAP_VAL_INBAND_NOTIFICATION | CCAP_VAL_EXPLICIT_BOUNDARY }
    else if i == CCAP_IX_TTC5 {
        CCAP_VAL_VECTOR_SUPPORT | CCAP_VAL_TOKEN_SUPPORTED | CCAP_VAL_PIPELINING_SUPPORT
            | CCAP_VAL_PIPELINING_BREAK
    }
    else if i == CCAP_IX_VECTOR_FEATURES { CCAP_VAL_VECTOR_FEATURE_BINARY | CCAP_VAL_VECTOR_FEATURE_SPARSE }
    else if i == CCAP_IX_FEATURE_BACKPORT2 { CCAP_VAL_END_USER_SEC_CTX_PIGGYBACK }
    else if i == CCAP_IX_TTC6 { CCAP_VAL_TTC6_HA_READINESS }
    else { 0 }
}

/// The runtime capabilities that the client offers.
pub open spec fn initial_runtime_cap(i: int) -> u8 {
    if i == RCAP_IX_COMPAT { RCAP_VAL_COMPAT_81 }
    else if i == RCAP_IX_TTC { RCAP_VAL_TTC_ZERO_COPY | RCAP_VAL_TTC_32K }
    else { 0 }
}

pub struct Capabilities {
    pub protocol_version: u16,
    pub ttc_field_version: u8,
    pub compile_caps: [u8; 55],
    pub runtime_caps: [u8; 11],
    pub max_string_size: u32,
    pub supports_fast_auth: bool,
    pub supports_end_of_response: bool,
    pub supports_pipelining: bool,
    pub supports_request_boundaries: bool,
    pub supports_end_user_security_context: bool,
    pub supports_ha_readiness: bool,
    pub supports_oob: bool,
}

impl Capabilities {
    /// The capabilities that the client offers before any negotiation.
    pub open spec fn is_initial(self) -> bool {
        &&& self.protocol_version == 0
        &&& self.ttc_field_version == constants::TTC_FIELD_VERSION_23_4
        &&& self.compile_caps@ == Seq::new(COMPILE_CAPS_SIZE as nat, |i: int| initial_compile_cap(i))
        &&& self.runtime_caps@ == Seq::new(RUNTIME_CAPS_SIZE as nat, |i: int| initial_runtime_cap(i))
        &&& self.max_string_size == 0
        &&& !self.supports_fast_auth
        &&& !self.supports_end_of_response
        &&& !self.supports_pipelining
        &&& !self.supports_request_boundaries
        &&& !self.supports_end_user_security_context
        &&& !self.supports_ha_readiness
        &&& !self.supports_oob
    }

    /// The capabilities after adjusting these for the server's compile time
    /// capabilities `caps`: the TTC field version is lowered to the
    /// server's and the features the server announces are recorded.
    pub open spec fn after_server_compile_caps(self, caps: Seq<u8>, new: Capabilities) -> bool {
        &&& caps[CCAP_IX_FIELD_VERSION as int] < self.ttc_field_version ==> {
            &&& new.ttc_field_version == caps[CCAP_IX_FIELD_VERSION as int]
            &&& new.compile_caps@ == self.compile_caps@.update(
                CCAP_IX_FIELD_VERSION as int,
                caps[CCAP_IX_FIELD_VERSION as int],
            )
        }
        &&& caps[CCAP_IX_FIELD_VERSION as int] >= self.ttc_field_version ==> {
            &&& new.ttc_field_version == self.ttc_field_version
            &&& new.compile_caps@ == self.compile_caps@
        }
        &&& new.supports_request_boundaries == (self.supports_request_boundaries
            || caps[CCAP_IX_TTC4 as int] & CCAP_VAL_EXPLICIT_BOUNDARY != 0)
        &&& new.supports_end_user_security_context == (self.supports_end_user_security_context
            || (caps.len() > CCAP_IX_FEATURE_BACKPORT2 && caps[CCAP_IX_FEATURE_BACKPORT2 as int]
            & CCAP_VAL_END_USER_SEC_CTX_PIGGYBACK != 0))
        &&& new.supports_ha_readiness == (self.supports_ha_readiness || (caps.len() > CCAP_IX_TTC6
            && caps[CCAP_IX_TTC6 as int] & CCAP_VAL_TTC6_HA_READINESS != 0))
        &&& new.protocol_version == self.protocol_version
        &&& new.runtime_caps@ == self.runtime_caps@
        &&& new.max_string_size == self.max_string_size
        &&& new.supports_fast_auth == self.supports_fast_auth
        &&& new.supports_end_of_response == self.supports_end_of_response
        &&& new.supports_pipelining == self.supports_pipelining
        &&& new.supports_oob == self.supports_oob
    }

    /// The capabilities after adjusting these for the server's runtime
    /// capabilities `caps`: the maximum string size, and whether request
    /// boundaries can still be used.
    pub open spec fn after_server_runtime_caps(self, caps: Seq<u8>, new: Capabilities) -> bool {
        &&& new.max_string_size == if caps[RCAP_IX_TTC as int] & RCAP_VAL_TTC_32K != 0 {
            32767u32
        } else {
            4000u32
        }
        &&& new.supports_request_boundaries == (self.supports_request_boundaries
            && caps[RCAP_IX_TTC as int] & RCAP_VAL_TTC_SESSION_STATE_OPS != 0)
        &&& new == (Capabilities {
            max_string_size: new.max_string_size,
            supports_request_boundaries: new.supports_request_boundaries,
            ..self
        })
    }

    /// The flags and values that only the server's protocol answer decides.
    pub open spec fn same_except_protocol(self, other: Capabilities) -> bool {
        &&& self.ttc_field_version == other.ttc_field_version
        &&& self.runtime_caps@ == other.runtime_caps@
        &&& self.max_string_size == other.max_string_size
        &&& self.supports_request_boundaries == other.supports_request_boundaries
        &&& self.supports_end_user_security_context == other.supports_end_user_security_context
        &&& self.supports_ha_readiness == other.supports_ha_readiness
    }

    /// The capabilities after adjusting these for the protocol version,
    /// options and flags of the listener's accept.
    pub open spec fn after_protocol(self, protocol_version: u16, protocol_options: u16, flags: u32, new: Capabilities) -> bool {
        &&& new.protocol_version == protocol_version
        &&& (new.supports_oob == if OOB_PLATFORM {
                protocol_options & GSO_CAN_RECV_ATTENTION != 0
            } else {
                self.supports_oob
            })
        &&& new.supports_fast_auth == (self.supports_fast_auth || flags & ACCEPT_FLAG_FAST_AUTH != 0)
        &&& new.same_except_protocol(self)
        &&& (protocol_version >= constants::PROTOCOL_VERSION_23
                && flags & ACCEPT_FLAG_HAS_END_OF_RESPONSE != 0 ==> {
                &&& new.compile_caps@ == self.compile_caps@.update(
                    CCAP_IX_TTC4 as int,
                    self.compile_caps@[CCAP_IX_TTC4 as int] | CCAP_VAL_END_OF_RESPONSE,
                )
                &&& new.supports_end_of_response
                &&& new.supports_pipelining
            })
        &&& (!(protocol_version >= constants::PROTOCOL_VERSION_23
                && flags & ACCEPT_FLAG_HAS_END_OF_RESPONSE != 0) ==> {
                &&& new.compile_caps@ == self.compile_caps@
                &&& new.supports_end_of_response == self.supports_end_of_response
                &&& new.supports_pipelining == self.supports_pipelining
            })
    }

    pub fn adjust_for_protocol(&mut self, protocol_version: u16, protocol_options: u16, flags: u32)
        ensures
            old(self).after_protocol(protocol_version, protocol_options, flags, *final(self)),
    {
        self.protocol_version = protocol_version;
        if OOB_PLATFORM {
            self.supports_oob = protocol_options & GSO_CAN_RECV_ATTENTION != 0;
        }
        if flags & ACCEPT_FLAG_FAST_AUTH != 0 {
            self.supports_fast_auth = true;
        }
        if protocol_version >= constants::PROTOCOL_VERSION_23 && flags
            & ACCEPT_FLAG_HAS_END_OF_RESPONSE != 0 {
            let v = self.compile_caps[CCAP_IX_TTC4] | CCAP_VAL_END_OF_RESPONSE;
            self.compile_caps[CCAP_IX_TTC4] = v;
            self.supports_end_of_response = true;
            self.supports_pipelining = true;
        }
    }

    /// Adjusts the capabilities for those of the server: the TTC field
    /// version is lowered to the server's and the features the server
    /// announces are recorded.
    pub fn adjust_for_server_compile_caps(&mut self, caps: &[u8])
        requires
            caps@.len() > CCAP_IX_TTC4,
        ensures
            old(self).after_server_compile_caps(caps@, *final(self)),
    {
        if caps[CCAP_IX_FIELD_VERSION] < self.ttc_field_version {
            self.ttc_field_version = caps[CCAP_IX_FIELD_VERSION];
            self.compile_caps[CCAP_IX_FIELD_VERSION] = self.ttc_field_version;
        }
        if caps[CCAP_IX_TTC4] & CCAP_VAL_EXPLICIT_BOUNDARY != 0 {
            self.supports_request_boundaries = true;
        }
        if caps.len() > CCAP_IX_FEATURE_BACKPORT2 && caps[CCAP_IX_FEATURE_BACKPORT2]
            & CCAP_VAL_END_USER_SEC_CTX_PIGGYBACK != 0 {
            self.supports_end_user_security_context = true;
        }
        if caps.len() > CCAP_IX_TTC6 && caps[CCAP_IX_TTC6] & CCAP_VAL_TTC6_HA_READINESS != 0 {
            self.supports_ha_readiness = true;
        }
    }

    /// Adjusts the capabilities for the server's runtime capabilities: the
    /// maximum string size and whether request boundaries can be used.
    pub fn adjust_for_server_runtime_caps(&mut self, caps: &[u8])
        requires
            caps@.len() > RCAP_IX_TTC,
        ensures
            old(self).after_server_runtime_caps(caps@, *final(self)),
    {
        if caps[RCAP_IX_TTC] & RCAP_VAL_TTC_32K != 0 {
            self.max_string_size = 32767;
        } else {
            self.max_string_size = 4000;
        }
        if caps[RCAP_IX_TTC] & RCAP_VAL_TTC_SESSION_STATE_OPS == 0 {
            self.supports_request_boundaries = false;
        }
    }

    /// Returns the compile time capabilities.
    pub fn compile_caps(&self) -> (r: &[u8])
        ensures
            r@ == self.compile_caps@,
    {
        self.compile_caps.as_slice()
    }

    fn init_compile_caps(&mut self)
        requires
            old(self).compile_caps@ == Seq::new(COMPILE_CAPS_SIZE as nat, |i: int| 0u8),
        ensures
            final(self).ttc_field_version == constants::TTC_FIELD_VERSION_23_4,
            final(self).compile_caps@ == Seq::new(
                COMPILE_CAPS_SIZE as nat,
                |i: int| initial_compile_cap(i),
            ),
            *final(self) == (Capabilities {
                ttc_field_version: final(self).ttc_field_version,
                compile_caps: final(self).compile_caps,
                ..*old(self)
            }),
    {
        self.ttc_field_version = constants::TTC_FIELD_VERSION_23_4;
        self.compile_caps[CCAP_IX_SQL_VERSION] = 6;
        self.compile_caps[CCAP_IX_LOGON_TYPES] = CCAP_VAL_O5LOGON | CCAP_VAL_O5LOGON_NP | CCAP_VAL_O7LOGON
                | CCAP_VAL_O8LOGON_LONG_IDENTIFIER | CCAP_VAL_O9LOGON_LONG_PASSWORD;
        self.compile_caps[CCAP_IX_FEATURE_BACKPORT] = CCAP_VAL_CTB_IMPLICIT_POOL;
        self.compile_caps[CCAP_IX_FIELD_VERSION] = self.ttc_field_version;
        self.compile_caps[CCAP_IX_SERVER_DEFINE_CONV] = 1;
        self.compile_caps[CCAP_IX_DEQUEUE_WITH_SELECTOR] = 1;
        self.compile_caps[CCAP_IX_TTC1] = CCAP_VAL_FAST_BVEC | CCAP_VAL_END_OF_CALL_STATUS | CCAP_VAL_IND_RCD;
        self.compile_caps[CCAP_IX_OCI1] = CCAP_VAL_FAST_SESSION_PROPAGATE | CCAP_VAL_APP_CTX_PIGGYBACK;
        self.compile_caps[CCAP_IX_TDS_VERSION] = CCAP_VAL_TDS_VERSION_MAX;
        self.compile_caps[CCAP_IX_RPC_VERSION] = CCAP_VAL_RPC_VERSION_MAX;
        self.compile_caps[CCAP_IX_RPC_SIG] = CCAP_VAL_RPC_SIG_VALUE;
        self.compile_caps[CCAP_IX_DBF_VERSION] = CCAP_VAL_DBF_VERSION_MAX;
        self.compile_caps[CCAP_IX_LOB] = CCAP_VAL_LOB_UB8_SIZE | CCAP_VAL_LOB_ENCS | CCAP_VAL_LOB_PREFETCH_LENGTH
                | CCAP_VAL_LOB_TEMP_SIZE | CCAP_VAL_LOB_12C | CCAP_VAL_LOB_PREFETCH_DATA;
        self.compile_caps[CCAP_IX_UB2_DTY] = 1;
        self.compile_caps[CCAP_IX_LOB2] = CCAP_VAL_LOB2_QUASI | CCAP_VAL_LOB2_2GB_PREFETCH;
        self.compile_caps[CCAP_IX_TTC3] = CCAP_VAL_IMPLICIT_RESULTS | CCAP_VAL_BIG_CHUNK_CLR | CCAP_VAL_KEEP_OUT_ORDER
                | CCAP_VAL_LTXID;
        self.compile_caps[CCAP_IX_TTC2] = CCAP_VAL_ZLNP;
        self.compile_caps[CCAP_IX_OCI2] = CCAP_VAL_DRCP;
        self.compile_caps[CCAP_IX_CLIENT_FN] = CCAP_VAL_CLIENT_FN_MAX;
        self.compile_caps[CCAP_IX_SESS_SIGNATURE_VERSION] = constants::TTC_FIELD_VERSION_12_2;
        self.compile_caps[CCAP_IX_TTC4] = CCAP_VAL_INBAND_NOTIFICATION | CCAP_VAL_EXPLICIT_BOUNDARY;
        self.compile_caps[CCAP_IX_TTC5] = CCAP_VAL_VECTOR_SUPPORT | CCAP_VAL_TOKEN_SUPPORTED | CCAP_VAL_PIPELINING_SUPPORT
                | CCAP_VAL_PIPELINING_BREAK;
        self.compile_caps[CCAP_IX_VECTOR_FEATURES] = CCAP_VAL_VECTOR_FEATURE_BINARY | CCAP_VAL_VECTOR_FEATURE_SPARSE;
        self.compile_caps[CCAP_IX_FEATURE_BACKPORT2] = CCAP_VAL_END_USER_SEC_CTX_PIGGYBACK;
        self.compile_caps[CCAP_IX_TTC6] = CCAP_VAL_TTC6_HA_READINESS;
        assert(self.compile_caps@ =~= Seq::new(
            COMPILE_CAPS_SIZE as nat,
            |i: int| initial_compile_cap(i),
        ));
    }

    fn init_runtime_caps(&mut self)
        requires
            old(self).runtime_caps@ == Seq::new(RUNTIME_CAPS_SIZE as nat, |i: int| 0u8),
        ensures
            final(self).runtime_caps@ == Seq::new(
                RUNTIME_CAPS_SIZE as nat,
                |i: int| initial_runtime_cap(i),
            ),
            *final(self) == (Capabilities { runtime_caps: final(self).runtime_caps, ..*old(self) }),
    {
        self.runtime_caps[RCAP_IX_COMPAT] = RCAP_VAL_COMPAT_81;
        self.runtime_caps[RCAP_IX_TTC] = RCAP_VAL_TTC_ZERO_COPY | RCAP_VAL_TTC_32K;
        assert(self.runtime_caps@ =~= Seq::new(
            RUNTIME_CAPS_SIZE as nat,
            |i: int| initial_runtime_cap(i),
        ));
    }

    /// Returns the maximum string size for the database.
    pub fn max_string_size(&self) -> (r: u32)
        ensures
            r == self.max_string_size,
    {
        self.max_string_size
    }

    /// Creates the capabilities that the client offers before any
    /// negotiation with the server.
    pub fn new() -> (caps: Capabilities)
        ensures
            caps.is_initial(),
    {
        let mut caps = Capabilities {
            protocol_version: 0,
            ttc_field_version: 0,
            compile_caps: [0u8; 55],
            runtime_caps: [0u8; 11],
            max_string_size: 0,
            supports_fast_auth: false,
            supports_end_of_response: false,
            supports_pipelining: false,
            supports_request_boundaries: false,
            supports_end_user_security_context: false,
            supports_ha_readiness: false,
            supports_oob: false,
        };
        assert(caps.compile_caps@ =~= Seq::new(COMPILE_CAPS_SIZE as nat, |i: int| 0u8));
        assert(caps.runtime_caps@ =~= Seq::new(RUNTIME_CAPS_SIZE as nat, |i: int| 0u8));
        caps.init_compile_caps();
        caps.init_runtime_caps();
        caps
    }

    /// Returns the runtime capabilities.
    pub fn runtime_caps(&self) -> (r: &[u8])
        ensures
            r@ == self.runtime_caps@,
    {
        self.runtime_caps.as_slice()
    }

    /// Sets whether the end of response flag is supported and returns the
    /// value it had before.
    pub fn set_supports_end_of_response(&mut self, value: bool) -> (orig_value: bool)
        ensures
            orig_value == old(self).supports_end_of_response,
            *final(self) == (Capabilities { supports_end_of_response: value, ..*old(self) }),
    {
        let orig_value = self.supports_end_of_response;
        self.supports_end_of_response = value;
        orig_value
    }

    pub fn supports_end_of_response(&self) -> (r: bool)
        ensures
            r == self.supports_end_of_response,
    {
        self.supports_end_of_response
    }

    /// Returns whether the negotiated capabilities allow Deep Data Security
    /// piggybacking.
    pub fn supports_end_user_security_context(&self) -> (r: bool)
        ensures
            r == self.supports_end_user_security_context,
    {
        self.supports_end_user_security_context
    }

    /// Returns whether the server accepts out-of-band (TCP urgent) breaks.
    pub fn supports_oob(&self) -> (r: bool)
        ensures
            r == self.supports_oob,
    {
        self.supports_oob
    }

    pub fn supports_fast_auth(&self) -> (r: bool)
        ensures
            r == self.supports_fast_auth,
    {
        self.supports_fast_auth
    }

    /// Returns whether the server supports the HA readiness integration.
    pub fn supports_ha_readiness(&self) -> (r: bool)
        ensures
            r == self.supports_ha_readiness,
    {
        self.supports_ha_readiness
    }

    /// Returns whether the connection supports setting request boundaries.
    pub fn supports_request_boundaries(&self) -> (r: bool)
        ensures
            r == self.supports_request_boundaries,
    {
        self.supports_request_boundaries
    }

    /// Returns whether the negotiated TTC field version is at least the given
    /// one.
    pub fn supports_ttc_field_version(&self, version: u8) -> (r: bool)
        ensures
            r == (self.ttc_field_version >= version),
    {
        self.ttc_field_version >= version
    }
}

impl Capabilities {
    /// The compile time capabilities announce the TTC field version in use.
    pub open spec fn announces_field_version(self) -> bool {
        &&& self.compile_caps@.len() > CCAP_IX_FIELD_VERSION
        &&& self.compile_caps@[CCAP_IX_FIELD_VERSION as int] == self.ttc_field_version
    }
}

/// The capabilities a client starts with announce the TTC field version it
/// uses.
pub proof fn initial_caps_announce_field_version(c: Capabilities)
    requires
        c.is_initial(),
    ensures
        c.announces_field_version(),
{
}

/// Adjusting for the server's compile time capabilities settles on the
/// lesser of the two TTC field versions, never raises it, and keeps it
/// announced in the client's compile time capabilities.
pub proof fn server_caps_settle_field_version(c: Capabilities, caps: Seq<u8>, new: Capabilities)
    requires
        c.announces_field_version(),
        caps.len() > CCAP_IX_TTC4,
        c.after_server_compile_caps(caps, new),
    ensures
        new.ttc_field_version == (if caps[CCAP_IX_FIELD_VERSION as int] < c.ttc_field_version {
            caps[CCAP_IX_FIELD_VERSION as int]
        } else {
            c.ttc_field_version
        }),
        new.ttc_field_version <= c.ttc_field_version,
        new.announces_field_version(),
{
}

/// A call that adjusts the capabilities during the negotiation.
pub enum CapsCall {
    /// `adjust_for_protocol` with the accept's version, options and flags.
    Protocol(u16, u16, u32),
    /// `adjust_for_server_compile_caps` with the server's capabilities.
    ServerCompileCaps(Seq<u8>),
    /// `adjust_for_server_runtime_caps` with the server's capabilities.
    ServerRuntimeCaps(Seq<u8>),
    /// `set_supports_end_of_response` with the value set.
    EndOfResponse(bool),
}

/// Whether `new` is what a call makes of `c`, as the call's contract states
/// it (the server's capabilities long enough for the call).
pub open spec fn caps_call_effect(c: Capabilities, call: CapsCall, new: Capabilities) -> bool {
    match call {
        CapsCall::Protocol(v, o, f) => c.after_protocol(v, o, f, new),
        CapsCall::ServerCompileCaps(caps) => caps.len() > CCAP_IX_TTC4 && c.after_server_compile_caps(caps, new),
        CapsCall::ServerRuntimeCaps(caps) => caps.len() > RCAP_IX_TTC && c.after_server_runtime_caps(caps, new),
        CapsCall::EndOfResponse(value) => new == (Capabilities { supports_end_of_response: value, ..c }),
    }
}

/// Whether `states` are the capabilities before and after each of `calls`,
/// in turn.
pub open spec fn caps_trace(states: Seq<Capabilities>, calls: Seq<CapsCall>) -> bool {
    &&& states.len() == calls.len() + 1
    &&& forall|i: int| 0 <= i < calls.len() ==> #[trigger] caps_call_effect(states[i], calls[i], states[i + 1])
}

/// The invariant of the negotiated capabilities: the compile time
/// capabilities announce the TTC field version, which is at most the one
/// the client starts with; the runtime capabilities are those the client
/// starts with.
pub open spec fn negotiated_caps_ok(c: Capabilities) -> bool {
    &&& c.announces_field_version()
    &&& c.ttc_field_version <= constants::TTC_FIELD_VERSION_23_4
    &&& c.compile_caps@.len() == COMPILE_CAPS_SIZE
    &&& c.runtime_caps@ == Seq::new(RUNTIME_CAPS_SIZE as nat, |i: int| initial_runtime_cap(i))
}

proof fn lemma_caps_call_keeps(c: Capabilities, call: CapsCall, new: Capabilities)
    requires
        negotiated_caps_ok(c),
        caps_call_effect(c, call, new),
    ensures
        negotiated_caps_ok(new),
{
}

proof fn lemma_caps_trace_prefix(states: Seq<Capabilities>, calls: Seq<CapsCall>, k: int)
    requires
        caps_trace(states, calls),
        negotiated_caps_ok(states[0]),
        0 <= k < states.len(),
    ensures
        negotiated_caps_ok(states[k]),
    decreases k,
{
    if k > 0 {
        lemma_caps_trace_prefix(states, calls, k - 1);
        let j = k - 1;
        assert(caps_call_effect(states[j], calls[j], states[j + 1]));
        lemma_caps_call_keeps(states[j], calls[j], states[j + 1]);
    }
}

/// Over any sequence of negotiation calls from the capabilities a client
/// starts with, the TTC field version that the client supports stays the
/// one byte seven of its compile time capabilities announces, never rises
/// above the one it starts with, and the client's runtime capabilities stay
/// as they started.
pub proof fn negotiated_caps_invariant(states: Seq<Capabilities>, calls: Seq<CapsCall>)
    requires
        caps_trace(states, calls),
        states[0].is_initial(),
    ensures
        forall|k: int| 0 <= k < states.len() ==> #[trigger] negotiated_caps_ok(states[k]),
{
    assert(states[0].compile_caps@[CCAP_IX_FIELD_VERSION as int] == initial_compile_cap(
        CCAP_IX_FIELD_VERSION as int,
    ));
    assert forall|k: int| 0 <= k < states.len() implies #[trigger] negotiated_caps_ok(states[k]) by {
        lemma_caps_trace_prefix(states, calls, k);
    }
}

} // verus!
