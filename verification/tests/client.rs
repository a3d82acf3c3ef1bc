use oracledb::client::{ano_decision, packet_disposition, wait_for_more, Client, PacketDisposition};
use oracledb::constants;
use oracledb::error::ErrorKind;
use oracledb::packet::Packet;
use oracledb::write_buffer::WriteBuffer;

fn packet(packet_type: u8, body: Vec<u8>) -> Packet {
    Packet { packet_type, packet_flags: 0, data_flags: 0, buf: body }
}

#[test]
fn end_to_end_piggyback_carries_the_action() {
    let mut client = Client::new(20, String::new());
    client.set_pending_action("act");
    let mut buf = WriteBuffer::new();
    client.write_piggybacks(&mut buf);
    assert_eq!(
        buf.buf,
        vec![
            17, 135, 1, 0, // header: piggyback, function, sequence number, token
            0, 0, 1, 0x10, // two null pointers, the flags (action)
            0, 0, 0, 0, 1, 1, 3, // client identifier, module, action (length 3)
            0, 0, 0, 0, 0, 0, 0, 0, 0, 0, 0, 0, // unused, client info, unused, db op
            3, b'a', b'c', b't',
        ]
    );
    assert_eq!(buf.seq_num, 1);
    assert!(client.pending_action.is_none());
}

#[test]
fn module_is_always_sent_with_the_action_flag() {
    let mut client = Client::new(20, String::new());
    client.set_pending_module("m");
    let mut buf = WriteBuffer::new();
    client.write_piggybacks(&mut buf);
    // flags: module | action
    assert_eq!(&buf.buf[4..8], &[0, 0, 1, 0x18]);
}

#[test]
fn nothing_pending_writes_no_piggyback() {
    let mut client = Client::new(20, String::new());
    let mut buf = WriteBuffer::new();
    client.write_piggybacks(&mut buf);
    assert!(buf.buf.is_empty());
    assert_eq!(buf.seq_num, 0);
}

#[test]
fn piggybacks_are_sent_once() {
    let mut client = Client::new(20, String::new());
    client.set_pending_client_info("info");
    client.pending_session_state = constants::TTC_SESSION_STATE_REQUEST_BEGIN;
    client.cursors_to_close = vec![3, 300];
    let mut first = WriteBuffer::new();
    client.write_piggybacks(&mut first);
    assert!(!first.buf.is_empty());
    assert_eq!(first.seq_num, 3);
    let mut second = WriteBuffer::new();
    client.write_piggybacks(&mut second);
    assert!(second.buf.is_empty());
}

#[test]
fn close_cursors_piggyback_lists_the_cursors() {
    let mut client = Client::new(20, String::new());
    client.cursors_to_close = vec![3, 300];
    let mut buf = WriteBuffer::new();
    client.write_piggybacks(&mut buf);
    assert_eq!(buf.buf, vec![17, 105, 1, 0, 1, 1, 2, 1, 3, 2, 1, 44]);
    assert!(client.cursors_to_close.is_empty());
}

#[test]
fn drcp_session_keeps_cursors_to_close() {
    let mut client = Client::new(20, String::new());
    client.cursors_to_close = vec![7];
    client.drcp_establish_session = true;
    let mut buf = WriteBuffer::new();
    client.write_piggybacks(&mut buf);
    assert!(buf.buf.is_empty());
    assert_eq!(client.cursors_to_close, vec![7]);
}

#[test]
fn session_state_piggyback_marks_an_explicit_boundary() {
    let mut client = Client::new(20, String::new());
    client.pending_session_state = constants::TTC_SESSION_STATE_REQUEST_END;
    let mut buf = WriteBuffer::new();
    client.write_piggybacks(&mut buf);
    assert_eq!(buf.buf, vec![17, 176, 1, 0, 1, 0x48]);
    assert_eq!(client.pending_session_state, 0);
}

#[test]
fn temp_lobs_piggyback_frees_the_locators() {
    let mut client = Client::new(20, String::new());
    client.add_lob_to_close(vec![0, 0, 0, 0, 0x40, 0, 0, 0]);
    client.add_lob_to_close(vec![0, 0, 0, 0, 0, 0, 0, 0]);
    assert_eq!(client.temp_lobs_to_close.len(), 1);
    let mut buf = WriteBuffer::new();
    client.write_piggybacks(&mut buf);
    let mut expected = vec![17, 96, 1, 0, 1, 1, 8];
    expected.extend_from_slice(&[0; 7]);
    expected.extend_from_slice(&[4, 0x00, 0x08, 0x01, 0x11]);
    expected.extend_from_slice(&[0; 11]);
    expected.extend_from_slice(&[0, 0, 0, 0, 0x40, 0, 0, 0]);
    assert_eq!(buf.buf, expected);
    assert!(client.temp_lobs_to_close.is_empty());
}

#[test]
fn ha_readiness_piggyback_names_the_pool() {
    let mut client = Client::new(20, String::from("p1"));
    client.pending_ha_readiness = true;
    let mut buf = WriteBuffer::new();
    client.write_piggybacks(&mut buf);
    let text = String::from_utf8_lossy(&buf.buf).to_string();
    assert!(text.contains("ORA$HA"));
    assert!(text.contains("CONNECTION_POOL_ID"));
    assert!(text.contains("INBAND_NOTIFICATION"));
    assert_eq!(&buf.buf[0..4], &[17, 154, 1, 0]);
    // namespace pointer and length, pairs pointer and count (three pairs)
    assert_eq!(&buf.buf[4..10], &[1, 1, 6, 1, 1, 3]);
    assert!(!client.pending_ha_readiness);
}

#[test]
fn control_packet_records_inband_error_number() {
    let mut client = Client::new(20, String::new());
    let body = vec![0, 8, 0, 0, 0, 0, 0, 0, 0x31, 0x1c];
    assert!(client.process_control_packet(packet(constants::PACKET_TYPE_CONTROL, body)).is_ok());
    assert_eq!(client.pending_error_num, 12572);
    assert!(client.requires_close());
}

#[test]
fn control_packet_of_another_type_changes_nothing() {
    let mut client = Client::new(20, String::new());
    let body = vec![0, 9, 1, 2, 3];
    assert!(client.process_control_packet(packet(constants::PACKET_TYPE_CONTROL, body)).is_ok());
    assert_eq!(client.pending_error_num, 0);
}

#[test]
fn short_control_packet_is_out_of_data() {
    let mut client = Client::new(20, String::new());
    let err = client.process_control_packet(packet(constants::PACKET_TYPE_CONTROL, vec![0, 8, 0]));
    assert!(matches!(err.unwrap_err().kind(), ErrorKind::OutOfData));
}

#[test]
fn call_status_tracks_transactions() {
    let mut client = Client::new(20, String::new());
    client.process_call_status(0x2);
    assert!(client.transaction_in_progress);
    client.process_call_status(0x1);
    assert!(!client.transaction_in_progress);
}

#[test]
fn ano_is_negotiated_when_offered() {
    assert!(ano_decision(0x01, 0x00, false).unwrap());
    assert!(!ano_decision(0x05, 0x00, false).unwrap());
    assert!(!ano_decision(0x01, 0x08, false).unwrap());
    let err = ano_decision(0x00, 0x00, true).unwrap_err();
    assert!(matches!(err.kind(), ErrorKind::AdvancedNegotiation(_)));
}

#[test]
fn packets_are_dispatched_by_type() {
    assert!(matches!(packet_disposition(constants::PACKET_TYPE_CONTROL), PacketDisposition::Control));
    assert!(matches!(packet_disposition(constants::PACKET_TYPE_MARKER), PacketDisposition::Marker));
    assert!(matches!(packet_disposition(constants::PACKET_TYPE_DATA), PacketDisposition::Data));
}

#[test]
fn more_packets_are_awaited_until_the_end_of_response() {
    let partial = Packet { packet_type: constants::PACKET_TYPE_DATA, packet_flags: 0, data_flags: 0, buf: vec![1, 2] };
    let last = Packet {
        packet_type: constants::PACKET_TYPE_DATA,
        packet_flags: 0,
        data_flags: 0,
        buf: vec![1, constants::TTC_MSG_TYPE_END_OF_RESPONSE],
    };
    assert!(wait_for_more(&partial, true, true));
    assert!(!wait_for_more(&last, true, true));
    assert!(!wait_for_more(&partial, false, true));
    assert!(!wait_for_more(&partial, true, false));
}

#[test]
fn end_request_rolls_back_open_requests() {
    let mut client = Client::new(20, String::from("pool"));
    client.in_request = true;
    client.last_warning = Some(String::from("w"));
    assert!(client.end_request());
    assert_eq!(client.pending_session_state, constants::TTC_SESSION_STATE_REQUEST_END);
    assert!(client.last_warning.is_none());

    let mut begun = Client::new(20, String::from("pool"));
    begun.in_request = true;
    begun.pending_session_state = constants::TTC_SESSION_STATE_REQUEST_BEGIN;
    assert!(!begun.end_request());
    assert!(!begun.in_request);
}

#[test]
fn post_connect_shrinks_the_statement_cache() {
    let mut client = Client::new(50, String::new());
    client.post_connect(Some([7u8; 32]), 10);
    assert_eq!(client.statement_cache_size, 10);
    assert_eq!(client.combo_key, Some([7u8; 32]));
    assert!(!client.in_request);
}

#[test]
fn security_context_requires_tls_and_server_support() {
    let mut client = Client::new(20, String::new());
    let err = client.set_end_user_security_context(vec![1], false).unwrap_err();
    assert!(matches!(err.kind(), ErrorKind::EndUserSecurityContextRequiresTcps));
    let err = client.set_end_user_security_context(vec![1], true).unwrap_err();
    assert!(matches!(err.kind(), ErrorKind::UnsupportedDeepDataSecurityFeature));
    let mut server_caps = vec![0u8; 46];
    server_caps[7] = 24;
    server_caps[45] = 0x02;
    client.adjust_for_server_compile_caps(&server_caps);
    assert!(client.set_end_user_security_context(vec![1], true).is_ok());
    assert_eq!(client.security_context, Some(vec![1]));
}

#[test]
fn override_decides_the_ttc_field_version() {
    let mut client = Client::new(20, String::new());
    assert!(client.supports_ttc_field_version(constants::TTC_FIELD_VERSION_23_4));
    client.override_ttc_field_version = constants::FAST_AUTH_TTC_FIELD_VERSION;
    assert!(!client.supports_ttc_field_version(constants::TTC_FIELD_VERSION_23_4));
    client.reset_ttc_field_version();
    assert!(client.supports_ttc_field_version(constants::TTC_FIELD_VERSION_23_4));
}

#[test]
fn interrupt_marker_packet_in_both_header_forms() {
    assert_eq!(
        oracledb::packet::interrupt_packet(true),
        vec![0, 0, 0, 11, 12, 0, 0, 0, 1, 0, 3]
    );
    assert_eq!(
        oracledb::packet::interrupt_packet(false),
        vec![0, 11, 0, 0, 12, 0, 0, 0, 1, 0, 3]
    );
}
