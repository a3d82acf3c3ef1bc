//! The messages exchanged with the server: how each is written and how the
//! server's answer to it is read.

pub mod connect;
pub mod execute;
pub mod auth;
