//! Verified core of a pure Rust Oracle Database thin-protocol client: TNS
//! packet framing, capability negotiation, the native network encryption
//! (ANO) handshake and packet cryptography, and the TTC message encodings.

pub mod advanced_nego;
pub mod bytes;
pub mod constants;
pub mod crypto;
pub mod encryption;
pub mod error;
pub mod response;
pub mod text;
pub mod utf8;
pub mod write_buffer;
pub mod packet;
pub mod read_buffer;
pub mod client;

pub mod messages;
