use oracledb::client::capabilities::Capabilities;
use oracledb::constants;

fn server_compile_caps(field_version: u8, ttc4: u8) -> Vec<u8> {
    let mut caps = vec![0u8; 45];
    caps[7] = field_version;
    caps[40] = ttc4;
    caps
}

#[test]
fn older_server_lowers_the_field_version() {
    let mut caps = Capabilities::new();
    assert!(caps.supports_ttc_field_version(constants::TTC_FIELD_VERSION_23_4));
    assert_eq!(caps.compile_caps()[7], constants::TTC_FIELD_VERSION_23_4);
    caps.adjust_for_server_compile_caps(&server_compile_caps(constants::TTC_FIELD_VERSION_12_2, 0));
    assert!(!caps.supports_ttc_field_version(constants::TTC_FIELD_VERSION_12_2 + 1));
    assert_eq!(caps.compile_caps()[7], constants::TTC_FIELD_VERSION_12_2);
    assert!(caps.supports_ttc_field_version(constants::TTC_FIELD_VERSION_12_2));
    assert!(!caps.supports_ttc_field_version(constants::TTC_FIELD_VERSION_23_4));
    assert!(!caps.supports_request_boundaries());
}

#[test]
fn newer_server_keeps_the_field_version() {
    let mut caps = Capabilities::new();
    caps.adjust_for_server_compile_caps(&server_compile_caps(30, 0x40));
    assert!(caps.supports_ttc_field_version(constants::TTC_FIELD_VERSION_23_4));
    assert_eq!(caps.compile_caps()[7], constants::TTC_FIELD_VERSION_23_4);
    assert!(caps.supports_request_boundaries());
}

#[test]
fn negotiation_keeps_field_version_announced_and_runtime_caps() {
    let mut caps = Capabilities::new();
    let runtime_before = caps.runtime_caps().to_vec();
    assert_eq!(runtime_before, vec![2, 0, 0, 0, 0, 0, 5, 0, 0, 0, 0]);
    caps.adjust_for_protocol(319, 0x0400, 0x0200_0000);
    assert!(caps.supports_end_of_response());
    caps.adjust_for_server_compile_caps(&server_compile_caps(13, 0));
    caps.adjust_for_server_runtime_caps(&[0u8; 11]);
    caps.set_supports_end_of_response(false);
    assert_eq!(caps.compile_caps().len(), 55);
    assert_eq!(caps.compile_caps()[7], 13);
    assert!(caps.supports_ttc_field_version(13));
    assert!(!caps.supports_ttc_field_version(14));
    assert_eq!(caps.runtime_caps().to_vec(), runtime_before);
    assert_eq!(caps.max_string_size(), 4000);
}
