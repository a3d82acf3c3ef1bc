# oracledb

The core of a pure Rust client for Oracle Database (the thin network
protocol), written in Verus and verified.

- `src/` is the verified library: TNS packet framing, the read and write
  buffers and their encodings, capability negotiation, the connect, execute
  and authentication messages, the client's piggybacks, the native network
  encryption (ANO) handshake, AES packet encryption and integrity checksums,
  the O3LOGON and 12c password verifiers, and the library's errors.
  `src/crypto.rs` holds the calls into the cryptography crates, each behind a
  trusted contract.
- `app/` is ordinary Rust around the library: the error type with `Display`,
  interrupting an operation in flight over its TCP socket, and the loops that
  receive the packets of a response.
- `tests/` runs the library on concrete values.

Verify with Verus; the tests run with the outside crates linked.
