use oracledb::constants;
use oracledb::packet::Packet;
use oracledb::read_buffer::ReadBuffer;
use oracledb::error::ErrorKind;
use oracledb::response::{ErrorInfo, Response};

/// Build a DATA packet whose body is `body` (the 10-byte header carries a
/// valid packet type so `Packet::new` strips it and keeps `body`).
fn data_packet(body: &[u8]) -> Packet {
    let mut buf = vec![0u8; 10];
    buf[4] = constants::PACKET_TYPE_DATA;
    buf.extend_from_slice(body);
    Packet::new(&buf)
}

/// Encode a `ub2` the way TTC does: a length byte followed by the bytes.
fn ttc_ub2(value: u16) -> Vec<u8> {
    if value <= 0xFF {
        vec![1, value as u8]
    } else {
        vec![2, (value >> 8) as u8, value as u8]
    }
}

#[test]
fn duplicate_data_uses_bit_vector_and_bounds() {
    let mut resp = Response::new();
    // Byte 0: bits 0 and 2 set (columns 0/2 have data); byte 1: bit 0 set.
    resp.bit_vector = Some(vec![0b0000_0101, 0b0000_0001]);
    assert!(!resp.is_duplicate_data(0)); // bit set -> data sent
    assert!(resp.is_duplicate_data(1)); // bit clear -> duplicate
    assert!(!resp.is_duplicate_data(2));
    assert!(resp.is_duplicate_data(3));
    assert!(!resp.is_duplicate_data(8)); // second byte, bit set
    // Out of range must not panic.
    assert!(!resp.is_duplicate_data(64));
    // No bit vector -> never a duplicate.
    resp.bit_vector = None;
    assert!(!resp.is_duplicate_data(1));
}

#[test]
fn bit_vector_length_uses_column_count_not_wire_value() {
    // Body: wire num_columns = 8 (informational), then 2 bitmap bytes.
    let mut body = ttc_ub2(8);
    body.extend_from_slice(&[0xFF, 0xFF]);
    let mut resp = Response::new();
    resp.buf = ReadBuffer::from_packets(&[data_packet(&body)]);
    resp.num_columns = 16; // full column count (from the metadata)
    resp.deserialize_bit_vector().unwrap();
    // Length is ceil(16/8) = 2, not ceil(8/8) = 1.
    assert_eq!(resp.bit_vector.as_ref().unwrap().len(), 2);
    assert!(!resp.is_duplicate_data(15));
}

#[test]
fn bit_vector_length_falls_back_to_wire_when_count_unknown() {
    let mut body = ttc_ub2(8);
    body.extend_from_slice(&[0xFF]);
    let mut resp = Response::new();
    resp.buf = ReadBuffer::from_packets(&[data_packet(&body)]);
    resp.num_columns = 0;
    resp.deserialize_bit_vector().unwrap();
    assert_eq!(resp.bit_vector.as_ref().unwrap().len(), 1);
    assert_eq!(resp.num_columns, 8);
}

#[test]
fn interrupted_operation_reports_cancellation() {
    let mut resp = Response::new();
    assert!(resp.check_for_error().is_ok());
    resp.error_info = Some(ErrorInfo {
        num: constants::DB_ERR_NUM_USER_REQUESTED_CANCEL,
        cursor_id: 0,
        rowcount: 0,
        message: String::from("ORA-01013: user requested cancel of current operation"),
    });
    assert!(matches!(resp.check_for_error().unwrap_err().kind(), ErrorKind::Cancelled));
    resp.error_info = Some(ErrorInfo {
        num: 942,
        cursor_id: 0,
        rowcount: 0,
        message: String::from("ORA-00942: table or view does not exist"),
    });
    let err = resp.check_for_error().unwrap_err();
    assert_eq!(err.message(), "ORA-00942: table or view does not exist");
}
