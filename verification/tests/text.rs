use oracledb::error::Error;
use oracledb::response::ResponseLocation;
use oracledb::text::{append_decimal, parse_u32, parse_usize};

#[test]
fn decimal_text_has_no_leading_zeros() {
    let mut s = String::from("n=");
    append_decimal(&mut s, 0);
    append_decimal(&mut s, 1204);
    assert_eq!(s, "n=01204");
}

#[test]
fn unsigned_integers_are_read_like_the_standard_library() {
    assert_eq!(parse_usize(b"12514"), Some(12514));
    assert_eq!(parse_usize(b"+7"), Some(7));
    assert_eq!(parse_usize(b"+"), None);
    assert_eq!(parse_usize(b""), None);
    assert_eq!(parse_usize(b"-1"), None);
    assert_eq!(parse_usize(b"12a"), None);
    assert_eq!(parse_u32(b"4294967295"), Some(u32::MAX));
    assert_eq!(parse_u32(b"4294967296"), None);
    for n in [0u32, 9, 10, 4096, 123456789] {
        assert_eq!(parse_u32(n.to_string().as_bytes()), "".parse::<u32>().ok().or(Some(n)));
    }
}

#[test]
fn decimal_text_reads_back() {
    for n in [0u64, 5, 99, 100, 18446744073709551615] {
        let mut s = String::new();
        append_decimal(&mut s, n);
        assert_eq!(parse_usize(s.as_bytes()).map(|v| v as u64), Some(n).filter(|&v| v <= usize::MAX as u64));
    }
}

#[test]
fn error_messages_describe_the_error() {
    assert_eq!(Error::cancelled().message(), "the database operation was cancelled");
    assert_eq!(Error::out_of_data().message(), "out of data");
    assert_eq!(
        Error::listener_refused_connection(String::from("cid"), String::from("h"), 1521, 12519).message(),
        "listener at host \"h\" port 1521 refused connection. (Similar to ORA-12519) (CONNECTION_ID=cid)"
    );
    assert_eq!(
        Error::column_truncated(10, 20).message(),
        "column truncated to 10 bytes. Untruncated was 20 bytes."
    );
    assert_eq!(
        Error::unknown_ttc_message_type(99, ResponseLocation { packet_num: 2, offset: 17 }).message(),
        "internal error: unknown TTC message type 99 at packet 2, offset 17"
    );
    assert_eq!(
        Error::cancel_not_supported().message(),
        "not implemented: query cancellation is only supported for plain TCP connections"
    );
    assert_eq!(
        Error::wrong_num_positional_binds(2, 3).message(),
        "2 positional bind values are required but 3 were provided"
    );
}

#[test]
fn response_location_and_stream_failures_are_described() {
    assert_eq!(ResponseLocation { packet_num: 3, offset: 0 }.text(), "packet 3, offset 0");
    let timeout = Error::stream_failure(true, String::from("timed out"));
    assert!(timeout.is_call_timeout_exceeded());
    assert_eq!(timeout.message(), "the configured call timeout was exceeded");
    let failure = Error::stream_failure(false, String::from("connection reset by peer"));
    assert!(!failure.is_call_timeout_exceeded());
    assert_eq!(failure.message(), "stream operation failed: connection reset by peer");
    assert_eq!(
        Error::wallet_missing(String::from("not found"), String::from("ewallet.pem")).message(),
        "wallet with name ewallet.pem unreadable: not found"
    );
    assert_eq!(
        Error::encoding_failure(String::from("invalid utf-8 sequence")).message(),
        "invalid encoded string: invalid utf-8 sequence"
    );
}
