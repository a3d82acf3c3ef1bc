use oracledb::client::Client;
use oracledb::constants;
use oracledb::error::ErrorKind;
use oracledb::messages::auth::{AuthConfig, AuthMessage};
use oracledb::messages::connect::{connect_step, Address, ConnectAction, ConnectMessage, Description};
use oracledb::messages::execute::{ExecuteMessage, ExecuteStatement};
use oracledb::packet::Packet;
use oracledb::response::Response;
use oracledb::write_buffer::WriteBuffer;

fn response_with(packet_type: u8, packet_flags: u8, body: Vec<u8>) -> Response {
    let mut resp = Response::new();
    resp.add_packets(vec![Packet { packet_type, packet_flags, data_flags: 0, buf: body }]);
    resp
}

fn address() -> Address {
    Address { host: String::from("dbhost"), port: 1521 }
}

fn description() -> Description {
    Description {
        connection_id: String::from("cid"),
        service_name: String::from("orclpdb"),
        sid: String::from("orcl"),
        sdu: 8192,
    }
}

#[test]
fn connect_packet_holds_the_connect_data() {
    let address = address();
    let description = description();
    let message = ConnectMessage::new("(DESCRIPTION=)", &address, &description);
    let mut buf = WriteBuffer::new();
    message.serialize(&mut buf);
    assert_eq!(buf.buf.len(), 66 + 14);
    assert_eq!(&buf.buf[0..4], &[0x01, 0x3f, 0x01, 0x2c]);
    // service options: don't care | can receive attention
    assert_eq!(&buf.buf[4..6], &[0x04, 0x01]);
    // SDU twice as 16-bit values
    assert_eq!(&buf.buf[6..10], &[0x20, 0x00, 0x20, 0x00]);
    // length of the connect data and its offset
    assert_eq!(&buf.buf[16..20], &[0, 14, 0, 74]);
    // NSI flags
    assert_eq!(&buf.buf[24..26], &[0x84, 0x84]);
    // second connect flags: check for out-of-band breaks
    assert_eq!(&buf.buf[62..66], &[0, 0, 0, 1]);
    assert_eq!(&buf.buf[66..], b"(DESCRIPTION=)");
    assert!(!message.extended_data_needed());
}

#[test]
fn long_connect_data_follows_separately() {
    let address = address();
    let description = description();
    let data = "x".repeat(231);
    let message = ConnectMessage::new(&data, &address, &description);
    assert!(message.extended_data_needed());
    let mut buf = WriteBuffer::new();
    message.serialize(&mut buf);
    assert_eq!(buf.buf.len(), 66);
    let mut extended = WriteBuffer::new();
    message.serialize_extended_data(&mut extended);
    assert_eq!(extended.buf.len(), 231);
}

#[test]
fn large_sdu_is_capped_in_its_short_form() {
    let address = address();
    let mut description = description();
    description.sdu = 0x10000;
    let message = ConnectMessage::new("x", &address, &description);
    let mut buf = WriteBuffer::new();
    message.serialize(&mut buf);
    assert_eq!(&buf.buf[6..10], &[0xff, 0xff, 0xff, 0xff]);
    assert_eq!(&buf.buf[50..54], &[0, 1, 0, 0]);
}

fn accept_body(version: u16, na_flags: u8) -> Vec<u8> {
    let mut body = vec![(version >> 8) as u8, version as u8, 0x04, 0x01];
    body.extend_from_slice(&[0; 10]);
    body.push(na_flags);
    body.extend_from_slice(&[0; 9]);
    body.extend_from_slice(&[0, 0, 0x20, 0]);
    body.extend_from_slice(&[0; 5]);
    body.extend_from_slice(&[0, 0, 0, 1]);
    body
}

#[test]
fn accept_packet_is_taken() {
    let address = address();
    let description = description();
    let mut message = ConnectMessage::new("x", &address, &description);
    let mut resp = response_with(constants::PACKET_TYPE_ACCEPT, 0, accept_body(319, 0));
    assert!(message.deserialize(&mut resp).is_ok());
    assert!(message.accepted);
    assert_eq!(message.protocol_version, 319);
    assert_eq!(message.protocol_options, 0x0401);
    assert_eq!(message.sdu, 8192);
    assert_eq!(message.protocol_flags, 1);
}

#[test]
fn old_servers_are_refused() {
    let address = address();
    let description = description();
    let mut message = ConnectMessage::new("x", &address, &description);
    let mut resp = response_with(constants::PACKET_TYPE_ACCEPT, 0, accept_body(314, 0));
    let err = message.deserialize(&mut resp).unwrap_err();
    assert!(matches!(err.kind(), ErrorKind::ServerVersionNotSupported));
    assert!(!message.accepted);
}

#[test]
fn short_accept_packet_is_out_of_data() {
    let address = address();
    let description = description();
    let mut message = ConnectMessage::new("x", &address, &description);
    let mut body = accept_body(319, 0);
    body.truncate(30);
    let mut resp = response_with(constants::PACKET_TYPE_ACCEPT, 0, body);
    let err = message.deserialize(&mut resp).unwrap_err();
    assert!(matches!(err.kind(), ErrorKind::OutOfData));
}

fn refuse_body(text: &str) -> Vec<u8> {
    let mut body = vec![0, 0, (text.len() >> 8) as u8, text.len() as u8];
    body.extend_from_slice(text.as_bytes());
    body
}

#[test]
fn refusal_for_an_unknown_service_names_the_service() {
    let address = address();
    let description = description();
    let mut message = ConnectMessage::new("x", &address, &description);
    let mut resp = response_with(constants::PACKET_TYPE_REFUSE, 0, refuse_body("(DESCRIPTION=(ERR=12514)(VSNNUM=0))"));
    let err = message.deserialize(&mut resp).unwrap_err();
    match err.kind() {
        ErrorKind::InvalidServiceName(cid, service, host, port) => {
            assert_eq!(cid, "cid");
            assert_eq!(service, "orclpdb");
            assert_eq!(host, "dbhost");
            assert_eq!(*port, 1521);
        }
        other => panic!("unexpected error {:?}", other),
    }
}

#[test]
fn refusal_for_an_unknown_sid_names_the_sid() {
    let address = address();
    let description = description();
    let mut message = ConnectMessage::new("x", &address, &description);
    let mut resp = response_with(constants::PACKET_TYPE_REFUSE, 0, refuse_body("(ERR=12505)"));
    let err = message.deserialize(&mut resp).unwrap_err();
    assert!(matches!(err.kind(), ErrorKind::InvalidSid(_, sid, _, _) if sid == "orcl"));
}

#[test]
fn refusal_with_another_error_number() {
    let address = address();
    let description = description();
    let mut message = ConnectMessage::new("x", &address, &description);
    let mut resp = response_with(constants::PACKET_TYPE_REFUSE, 0, refuse_body("(ERR=12519)"));
    let err = message.deserialize(&mut resp).unwrap_err();
    assert!(matches!(err.kind(), ErrorKind::ListenerRefusedConnection(_, _, 1521, 12519)));
}

#[test]
fn refusal_without_an_error_number() {
    let address = address();
    let description = description();
    let mut message = ConnectMessage::new("x", &address, &description);
    let mut resp = response_with(constants::PACKET_TYPE_REFUSE, 0, refuse_body("no number here"));
    let err = message.deserialize(&mut resp).unwrap_err();
    assert!(matches!(err.kind(), ErrorKind::UnexpectedRefuse(cid) if cid == "cid"));
    let mut empty = response_with(constants::PACKET_TYPE_REFUSE, 0, vec![0, 0, 0, 0]);
    let err = message.deserialize(&mut empty).unwrap_err();
    assert!(matches!(err.kind(), ErrorKind::UnexpectedRefuse(_)));
}

#[test]
fn resend_asks_for_tls_renegotiation() {
    let address = address();
    let description = description();
    let mut message = ConnectMessage::new("x", &address, &description);
    let mut resp = response_with(constants::PACKET_TYPE_RESEND, constants::PACKET_FLAGS_TLS_RENEG, vec![]);
    assert!(message.deserialize(&mut resp).is_ok());
    assert!(message.tls_renegotiation_needed);
    assert!(!message.accepted);
}

#[test]
fn redirect_reads_its_length_then_its_data() {
    let address = address();
    let description = description();
    let mut message = ConnectMessage::new("x", &address, &description);
    let mut resp = response_with(constants::PACKET_TYPE_REDIRECT, 0, vec![0, 5]);
    assert!(message.deserialize(&mut resp).is_ok());
    assert_eq!(message.redirect_data_len, 5);
    let mut data = response_with(constants::PACKET_TYPE_DATA, 0, b"hello".to_vec());
    assert!(message.deserialize(&mut data).is_ok());
    assert_eq!(message.redirect_data.as_deref(), Some("hello"));
}

fn query(has_cursor: bool) -> ExecuteStatement {
    ExecuteStatement {
        sql: String::from("select 1 from dual"),
        sql_len: 18,
        cursor_id: if has_cursor { 5 } else { 0 },
        has_cursor,
        has_binds: false,
        num_binds: 0,
        num_out_metadata: 1,
        is_query: true,
        is_plsql: false,
        is_ddl: false,
        requires_define: false,
        no_prefetch: false,
        binds_changed: false,
        prefetch_rows: 2,
        fetch_array_size: 100,
    }
}

#[test]
fn full_execute_of_a_new_query() {
    let client = Client::new(20, String::new());
    let message = ExecuteMessage::new(query(false), 1);
    let mut buf = WriteBuffer::new();
    message.serialize(&client, &mut buf);
    // function header, options (execute | parse | fetch | not PL/SQL), cursor 0,
    // SQL pointer and length
    assert_eq!(&buf.buf[0..11], &[3, 94, 1, 0, 2, 0x80, 0x61, 0, 1, 1, 18]);
    // al8i4 length, null pointers, prefetch size, rows to fetch, long size
    assert_eq!(&buf.buf[11..24], &[1, 1, 13, 0, 0, 0, 1, 2, 4, 0x7f, 0xff, 0xff, 0xff]);
    let text = String::from_utf8_lossy(&buf.buf).to_string();
    assert!(text.contains("select 1 from dual"));
}

#[test]
fn open_cursor_is_reexecuted() {
    let client = Client::new(20, String::new());
    let message = ExecuteMessage::new(query(true), 1);
    let mut buf = WriteBuffer::new();
    message.serialize(&client, &mut buf);
    // re-execute and fetch of cursor 5, two rows, execute option
    assert_eq!(buf.buf, vec![3, 78, 1, 0, 1, 5, 1, 2, 1, 0x20, 0]);
}

#[test]
fn execute_message_takes_the_cursor_from_the_response() {
    let mut message = ExecuteMessage::new(query(false), 1);
    message.statement.binds_changed = true;
    let mut resp = Response::new();
    assert!(message.post_deserialize(&mut resp).is_ok());
    assert_eq!(message.statement.cursor_id, 0);
    assert!(!message.statement.binds_changed);
    message.pre_deserialize(&mut resp);
    assert_eq!(resp.num_columns, 1);
    assert!(!message.resend_needed());
}

fn auth_config() -> AuthConfig {
    AuthConfig {
        user: String::from("scott"),
        password: b"tiger".to_vec(),
        new_password: None,
        auth_mode: constants::AUTH_MODE_SYSDBA,
        terminal: String::from("unknown"),
        program: String::from("prog"),
        machine: String::from("host"),
        osuser: String::from("me"),
        driver_name: String::from("rust-oracledb"),
        cclass: None,
    }
}

#[test]
fn phase_one_describes_the_client() {
    let config = auth_config();
    let mut message = AuthMessage::new();
    assert!(message.get_is_phase_one());
    assert_eq!(message.get_ttc_message_type(), constants::TTC_RPC_AUTH_PHASE_ONE);
    assert_eq!(
        message.get_auth_mode(&config),
        constants::TTC_AUTH_MODE_LOGON | constants::TTC_AUTH_MODE_SYSDBA
    );
    message.pre_process(&config, 4242, (0, 1, 0));
    assert!(message.resend_needed());
    let keys: Vec<&[u8]> = message.pairs.iter().map(|p| p.key.as_slice()).collect();
    assert_eq!(
        keys,
        vec![&b"AUTH_TERMINAL"[..], b"AUTH_PROGRAM_NM", b"AUTH_MACHINE", b"AUTH_PID", b"AUTH_SID"]
    );
    assert_eq!(message.pairs[3].value, b"4242".to_vec());
    let client = Client::new(20, String::new());
    let mut buf = WriteBuffer::new();
    message.serialize(&client, &config, &mut buf);
    assert_eq!(&buf.buf[0..4], &[3, 118, 1, 0]);
    // user pointer and length, mode, pairs pointer and count
    assert_eq!(&buf.buf[4..7], &[1, 1, 5]);
    assert_eq!(&buf.buf[7..10], &[1, 0x21, 1]);
    assert_eq!(&buf.buf[10..12], &[1, 5]);
    assert_eq!(&buf.buf[12..20], &[1, 1, 5, b's', b'c', b'o', b't', b't']);
}

fn ub4(v: u32) -> Vec<u8> {
    if v == 0 {
        vec![0]
    } else if v <= 0xff {
        vec![1, v as u8]
    } else if v <= 0xffff {
        vec![2, (v >> 8) as u8, v as u8]
    } else {
        vec![4, (v >> 24) as u8, (v >> 16) as u8, (v >> 8) as u8, v as u8]
    }
}

fn text_with_double_length(text: &str) -> Vec<u8> {
    if text.is_empty() {
        return vec![0];
    }
    let mut out = ub4(text.len() as u32);
    out.push(text.len() as u8);
    out.extend_from_slice(text.as_bytes());
    out
}

#[test]
fn session_data_records_the_verifier_type() {
    let mut body = vec![1, 2];
    body.extend(text_with_double_length("AUTH_VFR_DATA"));
    body.extend(text_with_double_length("ABCD"));
    body.extend(ub4(0x939));
    body.extend(text_with_double_length("AUTH_SESSION_ID"));
    body.extend(text_with_double_length("77"));
    body.extend(ub4(0));
    let mut resp = response_with(constants::PACKET_TYPE_DATA, 0, body);
    let mut message = AuthMessage::new();
    assert!(message.deserialize_return_parameters(&mut resp).is_ok());
    assert_eq!(message.verifier_type, Some(0x939));
    assert_eq!(message.lookup("AUTH_VFR_DATA").map(|s| s.as_str()), Some("ABCD"));
    assert_eq!(message.get_session_id(), 77);
    assert_eq!(message.get_max_identifier_length(), 30);
    assert_eq!(message.get_db_name(), "");
    assert!(!message.get_is_phase_one());
    assert_eq!(message.get_ttc_message_type(), constants::TTC_RPC_AUTH_PHASE_TWO);
}

#[test]
fn later_session_values_replace_earlier_ones() {
    let mut body = vec![1, 2];
    body.extend(text_with_double_length("AUTH_SC_DB_DOMAIN"));
    body.extend(text_with_double_length("one"));
    body.extend(ub4(0));
    body.extend(text_with_double_length("AUTH_SC_DB_DOMAIN"));
    body.extend(text_with_double_length("two"));
    body.extend(ub4(0));
    let mut resp = response_with(constants::PACKET_TYPE_DATA, 0, body);
    let mut message = AuthMessage::new();
    assert!(message.deserialize_return_parameters(&mut resp).is_ok());
    assert_eq!(message.get_db_domain(), "two");
}

#[test]
fn truncated_session_data_is_out_of_data() {
    let mut body = vec![1, 1];
    body.extend(text_with_double_length("AUTH_VFR_DATA"));
    let mut resp = response_with(constants::PACKET_TYPE_DATA, 0, body);
    let mut message = AuthMessage::new();
    let err = message.deserialize_return_parameters(&mut resp).unwrap_err();
    assert!(matches!(err.kind(), ErrorKind::OutOfData));
}

#[test]
fn server_version_is_decoded_by_field_version() {
    let mut body = vec![1, 1];
    body.extend(text_with_double_length("AUTH_VERSION_NO"));
    let version = (23u32 << 24) | (4 << 16) | (0 << 12) | (25 << 4) | 1;
    body.extend(text_with_double_length(&version.to_string()));
    body.extend(ub4(0));
    let mut resp = response_with(constants::PACKET_TYPE_DATA, 0, body);
    let mut message = AuthMessage::new();
    assert!(message.deserialize_return_parameters(&mut resp).is_ok());
    let client = Client::new(20, String::new());
    let v = message.get_server_version(&client);
    assert_eq!((v.0, v.1, v.2, v.3, v.4), (23, 4, 0, 25, 1));
}

#[test]
fn combo_key_is_taken_once() {
    let mut message = AuthMessage::new();
    message.set_combo_key(&[9u8; 32]);
    assert!(!message.get_is_phase_one());
    assert_eq!(message.take_combo_key(), Some([9u8; 32]));
    assert_eq!(message.take_combo_key(), None);
}

fn hex(bytes: &[u8]) -> String {
    bytes.iter().map(|b| format!("{:02X}", b)).collect()
}

fn session(message: &mut AuthMessage, pairs: &[(&str, String)]) {
    let mut body = vec![1, pairs.len() as u8];
    for (k, v) in pairs {
        body.extend(text_with_double_length(k));
        body.extend(text_with_double_length(v));
        body.extend(ub4(0));
    }
    let mut resp = response_with(constants::PACKET_TYPE_DATA, 0, body);
    assert!(message.deserialize_return_parameters(&mut resp).is_ok());
}

#[test]
fn logon_12c_sends_the_verifier_exchange() {
    let config = auth_config();
    let mut message = AuthMessage::new();
    session(
        &mut message,
        &[
            ("AUTH_PBKDF2_VGEN_COUNT", String::from("4096")),
            ("AUTH_VFR_DATA", hex(&[0x11; 16])),
            ("AUTH_SESSKEY", hex(&[0x22; 32])),
            ("AUTH_PBKDF2_SDER_COUNT", String::from("3")),
            ("AUTH_PBKDF2_CSK_SALT", hex(&[0x33; 16])),
        ],
    );
    message.pre_process(&config, 1, (0, 1, 0));
    assert!(!message.resend_needed());
    let keys: Vec<String> = message.pairs.iter().map(|p| String::from_utf8(p.key.clone()).unwrap()).collect();
    assert_eq!(
        keys,
        vec![
            "AUTH_SESSKEY",
            "AUTH_PBKDF2_SPEEDY_KEY",
            "AUTH_PASSWORD",
            "SESSION_CLIENT_CHARSET",
            "SESSION_CLIENT_DRIVER_NAME",
            "SESSION_CLIENT_VERSION",
        ]
    );
    assert_eq!(message.pairs[0].flags, 1);
    assert_eq!(message.pairs[0].value.len(), 64);
    assert_eq!(message.pairs[1].value.len(), 160);
    assert_eq!(message.pairs[2].value.len(), 64);
    assert_eq!(message.pairs[3].value, b"873".to_vec());
    assert_eq!(message.pairs[5].value, (1u64 << 20).to_string().into_bytes());
    assert!(message.combo_key.is_some());
}

#[test]
fn logon_10g_sends_the_o3logon_exchange() {
    let config = auth_config();
    let mut message = AuthMessage::new();
    let mut body = vec![1, 1];
    body.extend(text_with_double_length("AUTH_VFR_DATA"));
    body.extend(text_with_double_length(""));
    body.extend(ub4(0x939));
    let mut resp = response_with(constants::PACKET_TYPE_DATA, 0, body);
    assert!(message.deserialize_return_parameters(&mut resp).is_ok());
    session(&mut message, &[("AUTH_SESSKEY", hex(&[0x44; 48]))]);
    message.pre_process(&config, 1, (0, 1, 0));
    let keys: Vec<String> = message.pairs.iter().map(|p| String::from_utf8(p.key.clone()).unwrap()).collect();
    assert_eq!(keys[0..2], ["AUTH_SESSKEY", "AUTH_PASSWORD"]);
    assert_eq!(message.pairs[0].value.len(), 64);
    // salt and "tiger" padded to two blocks
    assert_eq!(message.pairs[1].value.len(), 64);
    assert!(message.combo_key.is_none());
}

#[test]
fn execute_return_parameters_set_the_current_schema() {
    let mut body = vec![1, 2];
    body.extend(ub4(7));
    body.extend(ub4(0));
    body.extend([1, 3, 9, 9, 9]);
    body.extend([1, 1]);
    body.extend(text_with_double_length("HR"));
    body.push(0);
    body.extend([1, 168]);
    body.push(0);
    let len = body.len();
    let mut resp = response_with(constants::PACKET_TYPE_DATA, 0, body);
    let mut message = ExecuteMessage::new(query(false), 1);
    assert!(message.deserialize_return_parameters(&mut resp).is_ok());
    assert_eq!(resp.current_schema.as_deref(), Some("HR"));
    assert_eq!(resp.edition, None);
    assert_eq!(resp.buf.get_pos(), len);
}

#[test]
fn truncated_execute_return_parameters_are_out_of_data() {
    let body = vec![1, 2, 1, 7];
    let mut resp = response_with(constants::PACKET_TYPE_DATA, 0, body);
    let mut message = ExecuteMessage::new(query(false), 1);
    let err = message.deserialize_return_parameters(&mut resp).unwrap_err();
    assert!(matches!(err.kind(), ErrorKind::OutOfData));
}

#[test]
fn connect_loop_steps() {
    assert!(matches!(connect_step(true, None, true), Ok(ConnectAction::Done)));
    assert!(matches!(connect_step(false, None, true), Ok(ConnectAction::RenegotiateTls)));
    assert!(matches!(connect_step(false, None, false), Ok(ConnectAction::SendConnect)));
    match connect_step(false, Some("(ADDRESS=(HOST=db2))\u{0}(DESCRIPTION=x)\u{0}y"), false) {
        Ok(ConnectAction::Redirect { address, connect_data }) => {
            assert_eq!(address, "(ADDRESS=(HOST=db2))");
            assert_eq!(connect_data, "(DESCRIPTION=x)\u{0}y");
        }
        _ => panic!("expected a redirect"),
    }
    match connect_step(false, Some("h\u{e9}\u{0}"), false) {
        Ok(ConnectAction::Redirect { address, connect_data }) => {
            assert_eq!(address, "h\u{e9}");
            assert_eq!(connect_data, "");
        }
        _ => panic!("expected a redirect"),
    }
    let err = connect_step(false, Some("no separator"), false).err().unwrap();
    assert!(matches!(err.kind(), ErrorKind::InvalidRedirect(d) if d == "no separator"));
}

#[test]
fn logon_10g_with_given_keys_is_repeatable() {
    let config = auth_config();
    let run = |salt: [u8; 16]| {
        let mut message = AuthMessage::new();
        session(&mut message, &[("AUTH_SESSKEY", hex(&[0x44; 48]))]);
        message.generate_verifier_10g_with(&config, &[0x21; 32], &salt);
        message.pairs.iter().map(|p| (p.key.clone(), p.value.clone())).collect::<Vec<_>>()
    };
    let first = run([3; 16]);
    assert_eq!(first, run([3; 16]));
    assert_eq!(first.len(), 2);
    let other = run([4; 16]);
    assert_eq!(first[0], other[0]);
    assert_ne!(first[1], other[1]);
}
