use oracledb::advanced_nego::{build_client_request, parse_server_response};

#[test]
fn client_request_parses_back() {
    let request = build_client_request();
    assert_eq!(&request[0..4], &[0xde, 0xad, 0xbe, 0xef]);
    let info = parse_server_response(&request).unwrap();
    assert!(info.encrypt_algo.is_none());
    assert!(info.dh.is_none());
}
