//! The errors returned by the library.

use vstd::prelude::*;

use vstd::string::StringExecFns;

use crate::response::{location_text, ResponseLocation};
use crate::text::{append_decimal, decimal};

verus! {

/// Types of errors returned by the library.
#[derive(Debug, PartialEq)]
#[non_exhaustive]
pub enum ErrorKind {
    AdvancedNegotiation(String),
    ArrowOperation,
    CallTimeoutExceeded,
    Cancelled,
    ColumnTruncated(usize, usize),
    DbError(String),
    DeadConnection,
    DifferentTypes(u16, u16),
    EndUserSecurityContextRequiresTcps,
    IfileCycleDetected(String, String),
    IntegerTooLarge(usize, usize),
    InvalidBindName(String),
    InvalidColumnIndex(usize),
    InvalidColumnName(String),
    InvalidConnectString(String, String),
    InvalidDescriptorNode(String, String),
    InvalidEncodedString,
    InvalidEncodedVector,
    InvalidEndUserSecurityContext(String),
    InvalidEndUserSecurityContextLength(usize),
    InvalidNetworkName(String),
    InvalidOracleNumber(String),
    InvalidOsonEncodedBytes,
    InvalidRedirect(String),
    InvalidServiceName(String, String, String, u16),
    InvalidSid(String, String, String, u16),
    ListenerRefusedConnection(String, String, u16, usize),
    MissingBindValue(String),
    NameHasEmbeddedQuotes,
    NoConfigDir,
    NoConnectString,
    NoCredentials,
    NoDataFound,
    NotConnected,
    NotImplemented(String),
    OutOfData,
    OutOfRange(String),
    ParseError(String, usize),
    PemFileOperation,
    PoolHasBusyConnections,
    PoolIncrementZero,
    PoolMaxInvalid,
    PoolNotOpen,
    ServerVersionNotSupported,
    StreamOperation,
    TlsOperation,
    TnsAliasNotFound(String, String),
    UnableToRecover,
    UnexpectedError,
    UnexpectedNegativeInteger,
    UnexpectedRefuse(String),
    UnexpectedResult,
    UnknownServerSidePiggyback(u8),
    UnknownTtcMessageType(u8, ResponseLocation),
    UnsupportedArrowType(String),
    UnsupportedConversion(String, String),
    UnsupportedDbType(u16),
    UnsupportedDeepDataSecurityFeature,
    UnsupportedOsonNodeType(u8),
    UnsupportedOsonVersion(u8),
    UnsupportedVectorFormat(u8),
    UnsupportedVectorVersion(u8),
    ValueWasNull,
    WalletPasswordMissingOrInvalid(String, String),
    WalletPrivateKeyInvalid(String),
    WalletUnreadable(String),
    WrongNumPositionalBinds(usize, usize),
}

/// Represents errors returned by the library.
#[derive(Debug)]
pub struct Error {
    kind: ErrorKind,
    cause: Option<String>,
}

impl View for Error {
    type V = ErrorKind;

    closed spec fn view(&self) -> ErrorKind {
        self.kind
    }
}

/// The text of an error: the text of its kind, then, where the error has a
/// cause, a colon and the cause's text.
pub open spec fn error_message(kind: ErrorKind, cause: Option<Seq<char>>) -> Seq<char> {
    match cause {
        Some(c) => error_text(kind) + ": "@ + c,
        None => error_text(kind),
    }
}

/// The text that describes an error of the given kind.
pub open spec fn error_text(kind: ErrorKind) -> Seq<char> {
    match kind {
        ErrorKind::AdvancedNegotiation(message) => "advanced negotiation error: "@ + message@,
        ErrorKind::ArrowOperation => "Arrow operation failed"@,
        ErrorKind::CallTimeoutExceeded => "the configured call timeout was exceeded"@,
        ErrorKind::Cancelled => "the database operation was cancelled"@,
        ErrorKind::ColumnTruncated(col_value_size, actual_size) => "column truncated to "@ + decimal(col_value_size as nat) + " bytes. Untruncated was "@ + decimal(actual_size as nat) + " bytes."@,
        ErrorKind::DbError(message) => message@,
        ErrorKind::DeadConnection => "the database or network closed the connection"@,
        ErrorKind::DifferentTypes(initial_db_type, subsequent_db_type) => "database type "@ + decimal(subsequent_db_type as nat) + " found when all earlier bind data was of database type "@ + decimal(initial_db_type as nat),
        ErrorKind::EndUserSecurityContextRequiresTcps => "end_user_security_context requires use of the tcps protocol"@,
        ErrorKind::IfileCycleDetected(including_file_name, included_file_name) => "file \""@ + including_file_name@ + "\" includes file \""@ + included_file_name@ + "\" which forms a cycle"@,
        ErrorKind::IntegerTooLarge(max_size, actual_size) => "internal error: read integer of length "@ + decimal(actual_size as nat) + " when expecting an integer of no more than length "@ + decimal(max_size as nat),
        ErrorKind::InvalidBindName(name) => "no bind placeholder named \":"@ + name@ + "\" was found in the SQL text"@,
        ErrorKind::InvalidColumnIndex(index) => "invalid column index "@ + decimal(index as nat) + " (zero-based)"@,
        ErrorKind::InvalidColumnName(name) => "invalid column name \""@ + name@ + "\""@,
        ErrorKind::InvalidConnectString(connect_string, reason) => "invalid connect string: "@ + connect_string@ + ": "@ + reason@,
        ErrorKind::InvalidDescriptorNode(key, expected_type) => "full descriptor node "@ + key@ + " is not a valid "@ + expected_type@,
        ErrorKind::InvalidEncodedString => "invalid encoded string"@,
        ErrorKind::InvalidEncodedVector => "invalid encoded vector"@,
        ErrorKind::InvalidEndUserSecurityContext(message) => message@,
        ErrorKind::InvalidEndUserSecurityContextLength(actual_length) => "end user security context is too long: "@ + decimal(actual_length as nat) + " bytes"@,
        ErrorKind::InvalidNetworkName(value) => "\""@ + value@ + "\" includes characters that are not allowed"@,
        ErrorKind::InvalidOracleNumber(v) => "invalid number "@ + v@,
        ErrorKind::InvalidOsonEncodedBytes => "invalid OSON encoded bytes"@,
        ErrorKind::InvalidRedirect(data) => "invalid redirect: "@ + data@,
        ErrorKind::InvalidServiceName(connection_id, service_name, host, port) => "service \""@ + service_name@ + "\" is not registered with the listener at host \""@ + host@ + "\" port "@ + decimal(port as nat) + ". (Similar to ORA-12514) (CONNECTION_ID="@ + connection_id@ + ")"@,
        ErrorKind::InvalidSid(connection_id, sid, host, port) => "SID \""@ + sid@ + "\" is not registered with the listener at host \""@ + host@ + "\" port "@ + decimal(port as nat) + ". (Similar to ORA-12505) (CONNECTION_ID="@ + connection_id@ + ")"@,
        ErrorKind::ListenerRefusedConnection(connection_id, host, port, error_num) => "listener at host \""@ + host@ + "\" port "@ + decimal(port as nat) + " refused connection. (Similar to ORA-"@ + decimal(error_num as nat) + ") (CONNECTION_ID="@ + connection_id@ + ")"@,
        ErrorKind::MissingBindValue(name) => "a bind variable replacement value for placeholder \":"@ + name@ + "\" was not provided"@,
        ErrorKind::NameHasEmbeddedQuotes => "name has embedded quotes"@,
        ErrorKind::NoConfigDir => "no configuration directory specified"@,
        ErrorKind::NoConnectString => "no connect string specified"@,
        ErrorKind::NoCredentials => "no credentials specified"@,
        ErrorKind::NoDataFound => "no data found"@,
        ErrorKind::NotConnected => "not connected to database"@,
        ErrorKind::NotImplemented(feature) => "not implemented: "@ + feature@,
        ErrorKind::OutOfData => "out of data"@,
        ErrorKind::OutOfRange(m) => m@,
        ErrorKind::ParseError(s, p) => "parse error at position "@ + decimal(p as nat) + " in text "@ + s@,
        ErrorKind::PemFileOperation => "PEM file read operation failed"@,
        ErrorKind::PoolHasBusyConnections => "pool cannot be closed because connections are busy"@,
        ErrorKind::PoolIncrementZero => "dynamically sized pools must have a non-zero increment"@,
        ErrorKind::PoolMaxInvalid => "pool max connections must be greater or equal to pool min connections and must be non-zero"@,
        ErrorKind::PoolNotOpen => "pool is not open"@,
        ErrorKind::ServerVersionNotSupported => "connections to this database server are not supported"@,
        ErrorKind::StreamOperation => "stream operation failed"@,
        ErrorKind::TlsOperation => "TLS operation failed"@,
        ErrorKind::TnsAliasNotFound(file_name, alias) => "unable to find \""@ + alias@ + "\" in "@ + file_name@,
        ErrorKind::UnableToRecover => "unable to recover from error: connection has been closed"@,
        ErrorKind::UnexpectedError => "unexpected error"@,
        ErrorKind::UnexpectedNegativeInteger => "internal error: read a negative integer when expecting a positive integer"@,
        ErrorKind::UnexpectedRefuse(connection_id) => "the listener refused the connection but an unexpected error format was returned (CONNECTION_ID="@ + connection_id@ + ")"@,
        ErrorKind::UnexpectedResult => "unexpected result"@,
        ErrorKind::UnknownServerSidePiggyback(opcode) => "internal error: unknown server-side piggyback opcode "@ + decimal(opcode as nat),
        ErrorKind::UnknownTtcMessageType(ttc_message_type, location) => "internal error: unknown TTC message type "@ + decimal(ttc_message_type as nat) + " at "@ + location_text(location),
        ErrorKind::UnsupportedArrowType(arrow_type) => "binding Arow type "@ + arrow_type@,
        ErrorKind::UnsupportedConversion(from_type, to_type) => "unsupported conversion from "@ + from_type@ + " to "@ + to_type@,
        ErrorKind::UnsupportedDbType(db_type) => "unsupported database type "@ + decimal(db_type as nat),
        ErrorKind::UnsupportedDeepDataSecurityFeature => "database does not support the Oracle Deep Data Security feature"@,
        ErrorKind::UnsupportedOsonNodeType(node_type) => "unsupported OSON node type "@ + decimal(node_type as nat),
        ErrorKind::UnsupportedOsonVersion(version) => "unsupported OSON version "@ + decimal(version as nat),
        ErrorKind::UnsupportedVectorFormat(vector_format) => "unsupported vector format "@ + decimal(vector_format as nat),
        ErrorKind::UnsupportedVectorVersion(version) => "unsupported version: "@ + decimal(version as nat),
        ErrorKind::ValueWasNull => "database value was null"@,
        ErrorKind::WalletPasswordMissingOrInvalid(name, message) => "password for wallet file "@ + name@ + " is missing or invalid: "@ + message@,
        ErrorKind::WalletPrivateKeyInvalid(m) => "private key in wallet is invalid: "@ + m@,
        ErrorKind::WalletUnreadable(file_name) => "wallet with name "@ + file_name@ + " unreadable"@,
        ErrorKind::WrongNumPositionalBinds(expected_num, actual_num) => decimal(expected_num as nat) + " positional bind values are required but "@ + decimal(actual_num as nat) + " were provided"@,
    }
}

impl Error {
    /// The text of the error that caused this one, if any.
    pub closed spec fn cause(&self) -> Option<Seq<char>> {
        match self.cause {
            Some(c) => Some(c@),
            None => None,
        }
    }

    fn new(kind: ErrorKind) -> (e: Error)
        ensures
            e@ == kind,
            e.cause() is None,
    {
        Error { kind, cause: None }
    }

    fn with_cause(kind: ErrorKind, cause: String) -> (e: Error)
        ensures
            e@ == kind,
            e.cause() == Some(cause@),
    {
        Error { kind, cause: Some(cause) }
    }

    pub fn column_truncated(col_value_size: usize, actual_size: usize) -> (e: Error)
        ensures
            e@ matches ErrorKind::ColumnTruncated(x0, x1) && x0 == col_value_size && x1 == actual_size,
            e.cause() is None,
    {
        Error::new(ErrorKind::ColumnTruncated(col_value_size, actual_size))
    }

    pub fn db_error(message: String) -> (e: Error)
        ensures
            e@ matches ErrorKind::DbError(x0) && x0@ == message@,
            e.cause() is None,
    {
        Error::new(ErrorKind::DbError(message))
    }

    pub fn dead_connection() -> (e: Error)
        ensures
            e@ == ErrorKind::DeadConnection,
            e.cause() is None,
    {
        Error::new(ErrorKind::DeadConnection)
    }

    pub fn different_types(initial_db_type: u16, subsequent_db_type: u16) -> (e: Error)
        ensures
            e@ matches ErrorKind::DifferentTypes(x0, x1) && x0 == initial_db_type && x1 == subsequent_db_type,
            e.cause() is None,
    {
        Error::new(ErrorKind::DifferentTypes(initial_db_type, subsequent_db_type))
    }

    /// Creates an error for attempting Deep Data Security over a non-TCPS
    /// connection.
    pub fn end_user_security_context_requires_tcps() -> (e: Error)
        ensures
            e@ == ErrorKind::EndUserSecurityContextRequiresTcps,
            e.cause() is None,
    {
        Error::new(ErrorKind::EndUserSecurityContextRequiresTcps)
    }

    pub fn ifile_cycle_detected(including_file_name: String, included_file_name: String) -> (e: Error)
        ensures
            e@ matches ErrorKind::IfileCycleDetected(x0, x1) && x0@ == including_file_name@ && x1@ == included_file_name@,
            e.cause() is None,
    {
        Error::new(ErrorKind::IfileCycleDetected(including_file_name, included_file_name))
    }

    pub fn integer_too_large(max_size: usize, actual_size: usize) -> (e: Error)
        ensures
            e@ matches ErrorKind::IntegerTooLarge(x0, x1) && x0 == max_size && x1 == actual_size,
            e.cause() is None,
    {
        Error::new(ErrorKind::IntegerTooLarge(max_size, actual_size))
    }

    pub fn invalid_bind_name(name: &str) -> (e: Error)
        ensures
            e@ matches ErrorKind::InvalidBindName(x0) && x0@ == name@,
            e.cause() is None,
    {
        Error::new(ErrorKind::InvalidBindName(name.to_owned()))
    }

    pub fn invalid_column_index(index: usize) -> (e: Error)
        ensures
            e@ matches ErrorKind::InvalidColumnIndex(x0) && x0 == index,
            e.cause() is None,
    {
        Error::new(ErrorKind::InvalidColumnIndex(index))
    }

    pub fn invalid_column_name(name: &str) -> (e: Error)
        ensures
            e@ matches ErrorKind::InvalidColumnName(x0) && x0@ == name@,
            e.cause() is None,
    {
        Error::new(ErrorKind::InvalidColumnName(name.to_owned()))
    }

    pub fn invalid_connect_string(connect_string: &str, reason: &str) -> (e: Error)
        ensures
            e@ matches ErrorKind::InvalidConnectString(x0, x1) && x0@ == connect_string@ && x1@ == reason@,
            e.cause() is None,
    {
        Error::new(ErrorKind::InvalidConnectString(connect_string.to_owned(), reason.to_owned()))
    }

    pub fn invalid_descriptor_node(key: String, expected_type: String) -> (e: Error)
        ensures
            e@ matches ErrorKind::InvalidDescriptorNode(x0, x1) && x0@ == key@ && x1@ == expected_type@,
            e.cause() is None,
    {
        Error::new(ErrorKind::InvalidDescriptorNode(key, expected_type))
    }

    pub fn invalid_encoded_string() -> (e: Error)
        ensures
            e@ == ErrorKind::InvalidEncodedString,
            e.cause() is None,
    {
        Error::new(ErrorKind::InvalidEncodedString)
    }

    pub fn invalid_encoded_vector() -> (e: Error)
        ensures
            e@ == ErrorKind::InvalidEncodedVector,
            e.cause() is None,
    {
        Error::new(ErrorKind::InvalidEncodedVector)
    }

    /// Creates an error for invalid Deep Data Security context input.
    pub fn invalid_end_user_security_context(message: &str) -> (e: Error)
        ensures
            e@ matches ErrorKind::InvalidEndUserSecurityContext(x0) && x0@ == message@,
            e.cause() is None,
    {
        Error::new(ErrorKind::InvalidEndUserSecurityContext(message.to_owned()))
    }

    /// Creates an error for a Deep Data Security context payload that exceeds
    /// protocol limits.
    pub fn invalid_end_user_security_context_length(length: usize) -> (e: Error)
        ensures
            e@ matches ErrorKind::InvalidEndUserSecurityContextLength(x0) && x0 == length,
            e.cause() is None,
    {
        Error::new(ErrorKind::InvalidEndUserSecurityContextLength(length))
    }

    pub fn invalid_network_name(value: String) -> (e: Error)
        ensures
            e@ matches ErrorKind::InvalidNetworkName(x0) && x0@ == value@,
            e.cause() is None,
    {
        Error::new(ErrorKind::InvalidNetworkName(value))
    }

    pub fn invalid_oracle_number(v: String) -> (e: Error)
        ensures
            e@ matches ErrorKind::InvalidOracleNumber(x0) && x0@ == v@,
            e.cause() is None,
    {
        Error::new(ErrorKind::InvalidOracleNumber(v))
    }

    pub fn invalid_oson_encoded_bytes() -> (e: Error)
        ensures
            e@ == ErrorKind::InvalidOsonEncodedBytes,
            e.cause() is None,
    {
        Error::new(ErrorKind::InvalidOsonEncodedBytes)
    }

    pub fn invalid_redirect(data: &str) -> (e: Error)
        ensures
            e@ matches ErrorKind::InvalidRedirect(x0) && x0@ == data@,
            e.cause() is None,
    {
        Error::new(ErrorKind::InvalidRedirect(data.to_owned()))
    }

    pub fn invalid_service_name(connection_id: String, service_name: String, host: String, port: u16) -> (e: Error)
        ensures
            e@ matches ErrorKind::InvalidServiceName(x0, x1, x2, x3) && x0@ == connection_id@ && x1@ == service_name@ && x2@ == host@ && x3 == port,
            e.cause() is None,
    {
        Error::new(ErrorKind::InvalidServiceName(connection_id, service_name, host, port))
    }

    pub fn invalid_sid(connection_id: String, sid: String, host: String, port: u16) -> (e: Error)
        ensures
            e@ matches ErrorKind::InvalidSid(x0, x1, x2, x3) && x0@ == connection_id@ && x1@ == sid@ && x2@ == host@ && x3 == port,
            e.cause() is None,
    {
        Error::new(ErrorKind::InvalidSid(connection_id, sid, host, port))
    }

    pub fn listener_refused_connection(connection_id: String, host: String, port: u16, error_num: usize) -> (e: Error)
        ensures
            e@ matches ErrorKind::ListenerRefusedConnection(x0, x1, x2, x3) && x0@ == connection_id@ && x1@ == host@ && x2 == port && x3 == error_num,
            e.cause() is None,
    {
        Error::new(ErrorKind::ListenerRefusedConnection(connection_id, host, port, error_num))
    }

    pub fn missing_bind_value(name: &str) -> (e: Error)
        ensures
            e@ matches ErrorKind::MissingBindValue(x0) && x0@ == name@,
            e.cause() is None,
    {
        Error::new(ErrorKind::MissingBindValue(name.to_owned()))
    }

    pub fn name_has_embedded_quotes() -> (e: Error)
        ensures
            e@ == ErrorKind::NameHasEmbeddedQuotes,
            e.cause() is None,
    {
        Error::new(ErrorKind::NameHasEmbeddedQuotes)
    }

    pub fn no_config_dir() -> (e: Error)
        ensures
            e@ == ErrorKind::NoConfigDir,
            e.cause() is None,
    {
        Error::new(ErrorKind::NoConfigDir)
    }

    pub fn no_connect_string() -> (e: Error)
        ensures
            e@ == ErrorKind::NoConnectString,
            e.cause() is None,
    {
        Error::new(ErrorKind::NoConnectString)
    }

    pub fn no_credentials() -> (e: Error)
        ensures
            e@ == ErrorKind::NoCredentials,
            e.cause() is None,
    {
        Error::new(ErrorKind::NoCredentials)
    }

    pub fn no_data_found() -> (e: Error)
        ensures
            e@ == ErrorKind::NoDataFound,
            e.cause() is None,
    {
        Error::new(ErrorKind::NoDataFound)
    }

    pub fn not_connected() -> (e: Error)
        ensures
            e@ == ErrorKind::NotConnected,
            e.cause() is None,
    {
        Error::new(ErrorKind::NotConnected)
    }

    pub fn not_implemented(feature: String) -> (e: Error)
        ensures
            e@ matches ErrorKind::NotImplemented(x0) && x0@ == feature@,
            e.cause() is None,
    {
        Error::new(ErrorKind::NotImplemented(feature))
    }

    /// A failure during the Advanced Networking Option (Native Network
    /// Encryption) handshake.
    pub fn advanced_negotiation(message: String) -> (e: Error)
        ensures
            e@ matches ErrorKind::AdvancedNegotiation(x0) && x0@ == message@,
            e.cause() is None,
    {
        Error::new(ErrorKind::AdvancedNegotiation(message))
    }

    pub fn out_of_data() -> (e: Error)
        ensures
            e@ == ErrorKind::OutOfData,
            e.cause() is None,
    {
        Error::new(ErrorKind::OutOfData)
    }

    pub fn out_of_range(m: String) -> (e: Error)
        ensures
            e@ matches ErrorKind::OutOfRange(x0) && x0@ == m@,
            e.cause() is None,
    {
        Error::new(ErrorKind::OutOfRange(m))
    }

    pub fn parse_error(s: String, p: usize) -> (e: Error)
        ensures
            e@ matches ErrorKind::ParseError(x0, x1) && x0@ == s@ && x1 == p,
            e.cause() is None,
    {
        Error::new(ErrorKind::ParseError(s, p))
    }

    pub fn pool_has_busy_connections() -> (e: Error)
        ensures
            e@ == ErrorKind::PoolHasBusyConnections,
            e.cause() is None,
    {
        Error::new(ErrorKind::PoolHasBusyConnections)
    }

    pub fn pool_increment_zero() -> (e: Error)
        ensures
            e@ == ErrorKind::PoolIncrementZero,
            e.cause() is None,
    {
        Error::new(ErrorKind::PoolIncrementZero)
    }

    pub fn pool_max_invalid() -> (e: Error)
        ensures
            e@ == ErrorKind::PoolMaxInvalid,
            e.cause() is None,
    {
        Error::new(ErrorKind::PoolMaxInvalid)
    }

    pub fn pool_not_open() -> (e: Error)
        ensures
            e@ == ErrorKind::PoolNotOpen,
            e.cause() is None,
    {
        Error::new(ErrorKind::PoolNotOpen)
    }

    pub fn server_version_not_supported() -> (e: Error)
        ensures
            e@ == ErrorKind::ServerVersionNotSupported,
            e.cause() is None,
    {
        Error::new(ErrorKind::ServerVersionNotSupported)
    }

    pub fn tns_alias_not_found(file_name: String, alias: String) -> (e: Error)
        ensures
            e@ matches ErrorKind::TnsAliasNotFound(x0, x1) && x0@ == file_name@ && x1@ == alias@,
            e.cause() is None,
    {
        Error::new(ErrorKind::TnsAliasNotFound(file_name, alias))
    }

    pub fn unable_to_recover() -> (e: Error)
        ensures
            e@ == ErrorKind::UnableToRecover,
            e.cause() is None,
    {
        Error::new(ErrorKind::UnableToRecover)
    }

    pub fn cancelled() -> (e: Error)
        ensures
            e@ == ErrorKind::Cancelled,
            e.cause() is None,
    {
        Error::new(ErrorKind::Cancelled)
    }

    pub fn unexpected_negative_integer() -> (e: Error)
        ensures
            e@ == ErrorKind::UnexpectedNegativeInteger,
            e.cause() is None,
    {
        Error::new(ErrorKind::UnexpectedNegativeInteger)
    }

    pub fn unexpected_refuse(connection_id: String) -> (e: Error)
        ensures
            e@ matches ErrorKind::UnexpectedRefuse(x0) && x0@ == connection_id@,
            e.cause() is None,
    {
        Error::new(ErrorKind::UnexpectedRefuse(connection_id))
    }

    pub fn unexpected_result() -> (e: Error)
        ensures
            e@ == ErrorKind::UnexpectedResult,
            e.cause() is None,
    {
        Error::new(ErrorKind::UnexpectedResult)
    }

    pub fn unknown_server_side_piggyback(opcode: u8) -> (e: Error)
        ensures
            e@ matches ErrorKind::UnknownServerSidePiggyback(x0) && x0 == opcode,
            e.cause() is None,
    {
        Error::new(ErrorKind::UnknownServerSidePiggyback(opcode))
    }

    pub fn unknown_ttc_message_type(ttc_message_type: u8, location: ResponseLocation) -> (e: Error)
        ensures
            e@ matches ErrorKind::UnknownTtcMessageType(x0, x1) && x0 == ttc_message_type && x1 == location,
            e.cause() is None,
    {
        Error::new(ErrorKind::UnknownTtcMessageType(ttc_message_type, location))
    }

    pub fn unsupported_conversion(from_type: &str, to_type: &str) -> (e: Error)
        ensures
            e@ matches ErrorKind::UnsupportedConversion(x0, x1) && x0@ == from_type@ && x1@ == to_type@,
            e.cause() is None,
    {
        Error::new(ErrorKind::UnsupportedConversion(from_type.to_owned(), to_type.to_owned()))
    }

    pub fn unsupported_db_type(db_type: u16) -> (e: Error)
        ensures
            e@ matches ErrorKind::UnsupportedDbType(x0) && x0 == db_type,
            e.cause() is None,
    {
        Error::new(ErrorKind::UnsupportedDbType(db_type))
    }

    /// Creates an error for a server that does not support Deep Data Security.
    pub fn unsupported_deep_data_security_feature() -> (e: Error)
        ensures
            e@ == ErrorKind::UnsupportedDeepDataSecurityFeature,
            e.cause() is None,
    {
        Error::new(ErrorKind::UnsupportedDeepDataSecurityFeature)
    }

    pub fn unsupported_oson_node_type(node_type: u8) -> (e: Error)
        ensures
            e@ matches ErrorKind::UnsupportedOsonNodeType(x0) && x0 == node_type,
            e.cause() is None,
    {
        Error::new(ErrorKind::UnsupportedOsonNodeType(node_type))
    }

    pub fn unsupported_oson_version(version: u8) -> (e: Error)
        ensures
            e@ matches ErrorKind::UnsupportedOsonVersion(x0) && x0 == version,
            e.cause() is None,
    {
        Error::new(ErrorKind::UnsupportedOsonVersion(version))
    }

    pub fn unsupported_vector_format(vector_format: u8) -> (e: Error)
        ensures
            e@ matches ErrorKind::UnsupportedVectorFormat(x0) && x0 == vector_format,
            e.cause() is None,
    {
        Error::new(ErrorKind::UnsupportedVectorFormat(vector_format))
    }

    pub fn unsupported_vector_version(version: u8) -> (e: Error)
        ensures
            e@ matches ErrorKind::UnsupportedVectorVersion(x0) && x0 == version,
            e.cause() is None,
    {
        Error::new(ErrorKind::UnsupportedVectorVersion(version))
    }

    pub fn value_was_null() -> (e: Error)
        ensures
            e@ == ErrorKind::ValueWasNull,
            e.cause() is None,
    {
        Error::new(ErrorKind::ValueWasNull)
    }

    pub fn wallet_password_missing_or_invalid(name: String, message: String) -> (e: Error)
        ensures
            e@ matches ErrorKind::WalletPasswordMissingOrInvalid(x0, x1) && x0@ == name@ && x1@ == message@,
            e.cause() is None,
    {
        Error::new(ErrorKind::WalletPasswordMissingOrInvalid(name, message))
    }

    pub fn wallet_private_key_invalid(reason: String) -> (e: Error)
        ensures
            e@ matches ErrorKind::WalletPrivateKeyInvalid(x0) && x0@ == reason@,
            e.cause() is None,
    {
        Error::new(ErrorKind::WalletPrivateKeyInvalid(reason))
    }

    pub fn wrong_num_positional_binds(expected_num: usize, actual_num: usize) -> (e: Error)
        ensures
            e@ matches ErrorKind::WrongNumPositionalBinds(x0, x1) && x0 == expected_num && x1 == actual_num,
            e.cause() is None,
    {
        Error::new(ErrorKind::WrongNumPositionalBinds(expected_num, actual_num))
    }

    /// The error returned when cancellation is requested on a connection
    /// that is not a plain TCP connection.
    pub fn cancel_not_supported() -> (e: Error)
        ensures
            e@ matches ErrorKind::NotImplemented(m) && m@
                == "query cancellation is only supported for plain TCP connections"@,
            e.cause() is None,
    {
        Error::new(
            ErrorKind::NotImplemented(
                "query cancellation is only supported for plain TCP connections".to_owned(),
            ),
        )
    }

    /// The error for a failed read or write on the network stream, with the
    /// text of the failure: a stream that would block or timed out means the
    /// call timeout was exceeded, and the failure's text is not kept.
    pub fn stream_failure(timed_out: bool, cause: String) -> (e: Error)
        ensures
            timed_out ==> e@ is CallTimeoutExceeded && e.cause() is None,
            !timed_out ==> e@ is StreamOperation && e.cause() == Some(cause@),
    {
        if timed_out {
            Error::new(ErrorKind::CallTimeoutExceeded)
        } else {
            Error::with_cause(ErrorKind::StreamOperation, cause)
        }
    }

    /// The error for bytes or code units that are not valid text, with the
    /// text of the decoding failure.
    pub fn encoding_failure(cause: String) -> (e: Error)
        ensures
            e@ is InvalidEncodedString,
            e.cause() == Some(cause@),
    {
        Error::with_cause(ErrorKind::InvalidEncodedString, cause)
    }

    pub fn tls_operation(cause: String) -> (e: Error)
        ensures
            e@ is TlsOperation,
            e.cause() == Some(cause@),
    {
        Error::with_cause(ErrorKind::TlsOperation, cause)
    }

    pub fn unexpected_error(cause: String) -> (e: Error)
        ensures
            e@ is UnexpectedError,
            e.cause() == Some(cause@),
    {
        Error::with_cause(ErrorKind::UnexpectedError, cause)
    }

    pub fn unsupported_arrow_type(arrow_type: String) -> (e: Error)
        ensures
            e@ matches ErrorKind::UnsupportedArrowType(t) && t@ == arrow_type@,
            e.cause() is None,
    {
        Error::new(ErrorKind::UnsupportedArrowType(arrow_type))
    }

    pub fn wallet_missing(cause: String, file_name: String) -> (e: Error)
        ensures
            e@ matches ErrorKind::WalletUnreadable(f) && f@ == file_name@,
            e.cause() == Some(cause@),
    {
        Error::with_cause(ErrorKind::WalletUnreadable(file_name), cause)
    }

    /// Returns a boolean indicating if the error is a call timeout exceeded
    /// error.
    pub fn is_call_timeout_exceeded(&self) -> (r: bool)
        ensures
            r == (self@ is CallTimeoutExceeded),
    {
        match self.kind {
            ErrorKind::CallTimeoutExceeded => true,
            _ => false,
        }
    }

    /// Returns a boolean indicating if the error is an out of data error.
    pub fn is_out_of_data(&self) -> (r: bool)
        ensures
            r == (self@ is OutOfData),
    {
        match self.kind {
            ErrorKind::OutOfData => true,
            _ => false,
        }
    }

    /// Returns the text that describes the error.
    pub fn message(&self) -> (r: String)
        ensures
            r@ == error_message(self@, self.cause()),
    {
        let mut text = String::new();
        match &self.kind {
            ErrorKind::AdvancedNegotiation(message) => {
                text.append("advanced negotiation error: ");
                text.append(message.as_str());
            },
            ErrorKind::ArrowOperation => {
                text.append("Arrow operation failed");
            },
            ErrorKind::CallTimeoutExceeded => {
                text.append("the configured call timeout was exceeded");
            },
            ErrorKind::Cancelled => {
                text.append("the database operation was cancelled");
            },
            ErrorKind::ColumnTruncated(col_value_size, actual_size) => {
                text.append("column truncated to ");
                append_decimal(&mut text, *col_value_size as u64);
                text.append(" bytes. Untruncated was ");
                append_decimal(&mut text, *actual_size as u64);
                text.append(" bytes.");
            },
            ErrorKind::DbError(message) => {
                text.append(message.as_str());
            },
            ErrorKind::DeadConnection => {
                text.append("the database or network closed the connection");
            },
            ErrorKind::DifferentTypes(initial_db_type, subsequent_db_type) => {
                text.append("database type ");
                append_decimal(&mut text, *subsequent_db_type as u64);
                text.append(" found when all earlier bind data was of database type ");
                append_decimal(&mut text, *initial_db_type as u64);
            },
            ErrorKind::EndUserSecurityContextRequiresTcps => {
                text.append("end_user_security_context requires use of the tcps protocol");
            },
            ErrorKind::IfileCycleDetected(including_file_name, included_file_name) => {
                text.append("file \"");
                text.append(including_file_name.as_str());
                text.append("\" includes file \"");
                text.append(included_file_name.as_str());
                text.append("\" which forms a cycle");
            },
            ErrorKind::IntegerTooLarge(max_size, actual_size) => {
                text.append("internal error: read integer of length ");
                append_decimal(&mut text, *actual_size as u64);
                text.append(" when expecting an integer of no more than length ");
                append_decimal(&mut text, *max_size as u64);
            },
            ErrorKind::InvalidBindName(name) => {
                text.append("no bind placeholder named \":");
                text.append(name.as_str());
                text.append("\" was found in the SQL text");
            },
            ErrorKind::InvalidColumnIndex(index) => {
                text.append("invalid column index ");
                append_decimal(&mut text, *index as u64);
                text.append(" (zero-based)");
            },
            ErrorKind::InvalidColumnName(name) => {
                text.append("invalid column name \"");
                text.append(name.as_str());
                text.append("\"");
            },
            ErrorKind::InvalidConnectString(connect_string, reason) => {
                text.append("invalid connect string: ");
                text.append(connect_string.as_str());
                text.append(": ");
                text.append(reason.as_str());
            },
            ErrorKind::InvalidDescriptorNode(key, expected_type) => {
                text.append("full descriptor node ");
                text.append(key.as_str());
                text.append(" is not a valid ");
                text.append(expected_type.as_str());
            },
            ErrorKind::InvalidEncodedString => {
                text.append("invalid encoded string");
            },
            ErrorKind::InvalidEncodedVector => {
                text.append("invalid encoded vector");
            },
            ErrorKind::InvalidEndUserSecurityContext(message) => {
                text.append(message.as_str());
            },
            ErrorKind::InvalidEndUserSecurityContextLength(actual_length) => {
                text.append("end user security context is too long: ");
                append_decimal(&mut text, *actual_length as u64);
                text.append(" bytes");
            },
            ErrorKind::InvalidNetworkName(value) => {
                text.append("\"");
                text.append(value.as_str());
                text.append("\" includes characters that are not allowed");
            },
            ErrorKind::InvalidOracleNumber(v) => {
                text.append("invalid number ");
                text.append(v.as_str());
            },
            ErrorKind::InvalidOsonEncodedBytes => {
                text.append("invalid OSON encoded bytes");
            },
            ErrorKind::InvalidRedirect(data) => {
                text.append("invalid redirect: ");
                text.append(data.as_str());
            },
            ErrorKind::InvalidServiceName(connection_id, service_name, host, port) => {
                text.append("service \"");
                text.append(service_name.as_str());
                text.append("\" is not registered with the listener at host \"");
                text.append(host.as_str());
                text.append("\" port ");
                append_decimal(&mut text, *port as u64);
                text.append(". (Similar to ORA-12514) (CONNECTION_ID=");
                text.append(connection_id.as_str());
                text.append(")");
            },
            ErrorKind::InvalidSid(connection_id, sid, host, port) => {
                text.append("SID \"");
                text.append(sid.as_str());
                text.append("\" is not registered with the listener at host \"");
                text.append(host.as_str());
                text.append("\" port ");
                append_decimal(&mut text, *port as u64);
                text.append(". (Similar to ORA-12505) (CONNECTION_ID=");
                text.append(connection_id.as_str());
                text.append(")");
            },
            ErrorKind::ListenerRefusedConnection(connection_id, host, port, error_num) => {
                text.append("listener at host \"");
                text.append(host.as_str());
                text.append("\" port ");
                append_decimal(&mut text, *port as u64);
                text.append(" refused connection. (Similar to ORA-");
                append_decimal(&mut text, *error_num as u64);
                text.append(") (CONNECTION_ID=");
                text.append(connection_id.as_str());
                text.append(")");
            },
            ErrorKind::MissingBindValue(name) => {
                text.append("a bind variable replacement value for placeholder \":");
                text.append(name.as_str());
                text.append("\" was not provided");
            },
            ErrorKind::NameHasEmbeddedQuotes => {
                text.append("name has embedded quotes");
            },
            ErrorKind::NoConfigDir => {
                text.append("no configuration directory specified");
            },
            ErrorKind::NoConnectString => {
                text.append("no connect string specified");
            },
            ErrorKind::NoCredentials => {
                text.append("no credentials specified");
            },
            ErrorKind::NoDataFound => {
                text.append("no data found");
            },
            ErrorKind::NotConnected => {
                text.append("not connected to database");
            },
            ErrorKind::NotImplemented(feature) => {
                text.append("not implemented: ");
                text.append(feature.as_str());
            },
            ErrorKind::OutOfData => {
                text.append("out of data");
            },
            ErrorKind::OutOfRange(m) => {
                text.append(m.as_str());
            },
            ErrorKind::ParseError(s, p) => {
                text.append("parse error at position ");
                append_decimal(&mut text, *p as u64);
                text.append(" in text ");
                text.append(s.as_str());
            },
            ErrorKind::PemFileOperation => {
                text.append("PEM file read operation failed");
            },
            ErrorKind::PoolHasBusyConnections => {
                text.append("pool cannot be closed because connections are busy");
            },
            ErrorKind::PoolIncrementZero => {
                text.append("dynamically sized pools must have a non-zero increment");
            },
            ErrorKind::PoolMaxInvalid => {
                text.append("pool max connections must be greater or equal to pool min connections and must be non-zero");
            },
            ErrorKind::PoolNotOpen => {
                text.append("pool is not open");
            },
            ErrorKind::ServerVersionNotSupported => {
                text.append("connections to this database server are not supported");
            },
            ErrorKind::StreamOperation => {
                text.append("stream operation failed");
            },
            ErrorKind::TlsOperation => {
                text.append("TLS operation failed");
            },
            ErrorKind::TnsAliasNotFound(file_name, alias) => {
                text.append("unable to find \"");
                text.append(alias.as_str());
                text.append("\" in ");
                text.append(file_name.as_str());
            },
            ErrorKind::UnableToRecover => {
                text.append("unable to recover from error: connection has been closed");
            },
            ErrorKind::UnexpectedError => {
                text.append("unexpected error");
            },
            ErrorKind::UnexpectedNegativeInteger => {
                text.append("internal error: read a negative integer when expecting a positive integer");
            },
            ErrorKind::UnexpectedRefuse(connection_id) => {
                text.append("the listener refused the connection but an unexpected error format was returned (CONNECTION_ID=");
                text.append(connection_id.as_str());
                text.append(")");
            },
            ErrorKind::UnexpectedResult => {
                text.append("unexpected result");
            },
            ErrorKind::UnknownServerSidePiggyback(opcode) => {
                text.append("internal error: unknown server-side piggyback opcode ");
                append_decimal(&mut text, *opcode as u64);
            },
            ErrorKind::UnknownTtcMessageType(ttc_message_type, location) => {
                text.append("internal error: unknown TTC message type ");
                append_decimal(&mut text, *ttc_message_type as u64);
                text.append(" at ");
                let place = location.text();
                text.append(place.as_str());
            },
            ErrorKind::UnsupportedArrowType(arrow_type) => {
                text.append("binding Arow type ");
                text.append(arrow_type.as_str());
            },
            ErrorKind::UnsupportedConversion(from_type, to_type) => {
                text.append("unsupported conversion from ");
                text.append(from_type.as_str());
                text.append(" to ");
                text.append(to_type.as_str());
            },
            ErrorKind::UnsupportedDbType(db_type) => {
                text.append("unsupported database type ");
                append_decimal(&mut text, *db_type as u64);
            },
            ErrorKind::UnsupportedDeepDataSecurityFeature => {
                text.append("database does not support the Oracle Deep Data Security feature");
            },
            ErrorKind::UnsupportedOsonNodeType(node_type) => {
                text.append("unsupported OSON node type ");
                append_decimal(&mut text, *node_type as u64);
            },
            ErrorKind::UnsupportedOsonVersion(version) => {
                text.append("unsupported OSON version ");
                append_decimal(&mut text, *version as u64);
            },
            ErrorKind::UnsupportedVectorFormat(vector_format) => {
                text.append("unsupported vector format ");
                append_decimal(&mut text, *vector_format as u64);
            },
            ErrorKind::UnsupportedVectorVersion(version) => {
                text.append("unsupported version: ");
                append_decimal(&mut text, *version as u64);
            },
            ErrorKind::ValueWasNull => {
                text.append("database value was null");
            },
            ErrorKind::WalletPasswordMissingOrInvalid(name, message) => {
                text.append("password for wallet file ");
                text.append(name.as_str());
                text.append(" is missing or invalid: ");
                text.append(message.as_str());
            },
            ErrorKind::WalletPrivateKeyInvalid(m) => {
                text.append("private key in wallet is invalid: ");
                text.append(m.as_str());
            },
            ErrorKind::WalletUnreadable(file_name) => {
                text.append("wallet with name ");
                text.append(file_name.as_str());
                text.append(" unreadable");
            },
            ErrorKind::WrongNumPositionalBinds(expected_num, actual_num) => {
                append_decimal(&mut text, *expected_num as u64);
                text.append(" positional bind values are required but ");
                append_decimal(&mut text, *actual_num as u64);
                text.append(" were provided");
            },
        }
        assert(text@ =~= error_text(self@));
        if let Some(cause) = &self.cause {
            text.append(": ");
            text.append(cause.as_str());
        }
        text
    }

    /// Returns the kind of error.
    pub fn kind(&self) -> (r: &ErrorKind)
        ensures
            *r == self@,
    {
        &self.kind
    }
}

} // verus!
