use oracledb::crypto::{hex_decode_upper, hex_encode_upper};
use oracledb::error::ErrorKind;
use oracledb::packet::Packet;
use oracledb::read_buffer::ReadBuffer;
use oracledb::write_buffer::WriteBuffer;

fn reader(bytes: Vec<u8>) -> ReadBuffer {
    let packet = Packet { packet_type: 6, packet_flags: 0, data_flags: 0, buf: bytes };
    ReadBuffer::from_packets(&[packet])
}

#[test]
fn fixed_width_values_read_back() {
    let mut buf = WriteBuffer::new();
    buf.write_u8(7);
    buf.write_u16be(0x1234);
    buf.write_u32be(0xdead_beef);
    assert_eq!(buf.buf, vec![7, 0x12, 0x34, 0xde, 0xad, 0xbe, 0xef]);
    let mut rb = reader(buf.buf.clone());
    assert_eq!(rb.read_u8().unwrap(), 7);
    assert_eq!(rb.read_u16be().unwrap(), 0x1234);
    assert_eq!(rb.read_u32be().unwrap(), 0xdead_beef);
    assert_eq!(rb.get_pos(), 7);
    assert!(matches!(rb.read_u8().unwrap_err().kind(), ErrorKind::OutOfData));
}

#[test]
fn variable_length_integers_read_back() {
    let values: [u64; 6] = [0, 1, 0xff, 0x100, 0x1_0000, 0x1_0000_0000];
    let mut buf = WriteBuffer::new();
    for v in values {
        buf.write_ub8(v);
    }
    assert_eq!(&buf.buf[0..5], &[0, 1, 1, 1, 0xff]);
    let mut rb = reader(buf.buf.clone());
    for v in values {
        assert_eq!(rb.read_ub8().unwrap(), v);
    }
    assert_eq!(rb.get_pos(), buf.buf.len());
}

#[test]
fn short_and_chunked_bytes_read_back() {
    let short: Vec<u8> = (0..10u8).collect();
    let long: Vec<u8> = (0..300u32).map(|i| (i % 256) as u8).collect();
    let mut buf = WriteBuffer::new();
    buf.write_bytes_with_length(&short);
    buf.write_bytes_with_length(&long);
    buf.write_bytes_with_length(&[]);
    assert_eq!(buf.buf[0], 10);
    assert_eq!(buf.buf[11], 0xfe);
    let mut rb = reader(buf.buf.clone());
    assert_eq!(rb.read_bytes_with_length().unwrap(), short);
    assert_eq!(rb.read_bytes_with_length().unwrap(), long);
    assert_eq!(rb.read_bytes_with_length().unwrap(), Vec::<u8>::new());
    assert_eq!(rb.get_pos(), buf.buf.len());
}

#[test]
fn double_length_bytes_read_back() {
    let mut buf = WriteBuffer::new();
    buf.write_bytes_with_double_length(Some(b"schema"));
    buf.write_bytes_with_double_length(None);
    let mut rb = reader(buf.buf.clone());
    assert_eq!(rb.read_bytes_with_double_length().unwrap(), b"schema".to_vec());
    assert_eq!(rb.read_bytes_with_double_length().unwrap(), Vec::<u8>::new());
    assert_eq!(rb.get_pos(), buf.buf.len());
}

#[test]
fn hex_text_decodes_back() {
    let bytes = vec![0x00, 0x0f, 0xa5, 0xff];
    let text = hex_encode_upper(&bytes);
    assert_eq!(text, b"000FA5FF".to_vec());
    assert_eq!(hex_decode_upper(&text), Some(bytes));
    assert_eq!(hex_decode_upper(b"0G"), None);
    assert_eq!(hex_decode_upper(b"ABC"), None);
}
