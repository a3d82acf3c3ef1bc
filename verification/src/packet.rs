//! A full TNS packet as received from the network.

use vstd::prelude::*;

use crate::constants;

verus! {

/// Big-endian value of two bytes.
pub open spec fn be16(hi: u8, lo: u8) -> int {
    hi as int * 256 + lo as int
}

/// A TNS packet: header fields and the body that follows the header.
pub struct Packet {
    pub packet_type: u8,
    pub packet_flags: u8,
    pub data_flags: u16,
    pub buf: Vec<u8>,
}

/// The length of the header of a packet of the given type: data packets
/// carry two more bytes (the data flags).
pub open spec fn spec_header_size(packet_type: u8) -> usize {
    if packet_type == constants::PACKET_TYPE_DATA { 10 } else { 8 }
}

/// Whether a packet of the given type, data flags and body holds the end of a
/// response.
pub open spec fn spec_has_end_of_response(packet_type: u8, data_flags: u16, body: Seq<u8>) -> bool {
    if packet_type != constants::PACKET_TYPE_DATA
        || data_flags & constants::TTC_DATA_FLAGS_END_OF_RESPONSE != 0
        || data_flags & constants::TTC_DATA_FLAGS_EOF != 0 {
        true
    } else {
        body.len() > 0 && body.last() == constants::TTC_MSG_TYPE_END_OF_RESPONSE
    }
}

/// Whether raw bytes are long enough to hold a whole packet header.
pub open spec fn holds_packet_header(data: Seq<u8>) -> bool {
    &&& data.len() >= 8
    &&& data[4] == constants::PACKET_TYPE_DATA ==> data.len() >= 10
}

impl Packet {
    /// Returns a boolean indicating if the packet contains the end of response
    /// marker.
    pub fn has_end_of_response(&self) -> (r: bool)
        ensures
            r == spec_has_end_of_response(self.packet_type, self.data_flags, self.buf@),
    {
        if self.packet_type != constants::PACKET_TYPE_DATA
            || self.data_flags & constants::TTC_DATA_FLAGS_END_OF_RESPONSE != 0
            || self.data_flags & constants::TTC_DATA_FLAGS_EOF != 0 {
            true
        } else if self.buf.len() > 0 {
            self.buf[self.buf.len() - 1] == constants::TTC_MSG_TYPE_END_OF_RESPONSE
        } else {
            false
        }
    }

    /// Returns the size of the header. Data packets are 10 bytes (because they
    /// include the data flags, unlike other packets).
    pub fn header_size(&self) -> (r: usize)
        ensures
            r == spec_header_size(self.packet_type),
    {
        if self.packet_type == constants::PACKET_TYPE_DATA {
            10
        } else {
            8
        }
    }

    /// Creates a new packet from the supplied buffer, which holds the whole
    /// packet including its header.
    pub fn new(data: &[u8]) -> (p: Packet)
        requires
            holds_packet_header(data@),
        ensures
            p.packet_type == data@[4],
            p.packet_flags == data@[5],
            p.packet_type == constants::PACKET_TYPE_DATA ==> p.data_flags == be16(data@[8], data@[9]),
            p.packet_type != constants::PACKET_TYPE_DATA ==> p.data_flags == 0,
            p.buf@ == data@.subrange(spec_header_size(p.packet_type) as int, data@.len() as int),
    {
        let packet_type = data[4];
        let packet_flags = data[5];
        let mut data_flags: u16 = 0;
        let mut start: usize = 8;
        if packet_type == constants::PACKET_TYPE_DATA {
            data_flags = (data[8] as u16) * 256 + (data[9] as u16);
            start = 10;
        }
        let mut buf: Vec<u8> = Vec::new();
        let mut i: usize = start;
        while i < data.len()
            invariant
                start <= i <= data@.len(),
                buf@ == data@.subrange(start as int, i as int),
            decreases data@.len() - i,
        {
            buf.push(data[i]);
            i = i + 1;
        }
        Packet { packet_type, packet_flags, data_flags, buf }
    }
}

/// The length of a marker packet: an eight byte header and three bytes of
/// marker data.
pub const MARKER_PACKET_SIZE: u8 = 11;

/// The marker packet that interrupts the operation in flight: its length in
/// the header (in four bytes once the connection uses the full packet size,
/// else in two bytes followed by a zero checksum), the marker packet type,
/// zero flags and checksum, then the marker data `1, 0, interrupt`.
pub open spec fn interrupt_packet_bytes(full_packet_size: bool) -> Seq<u8> {
    (if full_packet_size {
        seq![0u8, 0u8, 0u8, MARKER_PACKET_SIZE]
    } else {
        seq![0u8, MARKER_PACKET_SIZE, 0u8, 0u8]
    }) + seq![
        constants::PACKET_TYPE_MARKER,
        0u8,
        0u8,
        0u8,
        1u8,
        0u8,
        constants::MARKER_TYPE_INTERRUPT,
    ]
}

/// Builds the marker packet that asks the server to interrupt the operation
/// in flight.
pub fn interrupt_packet(full_packet_size: bool) -> (r: Vec<u8>)
    ensures
        r@ == interrupt_packet_bytes(full_packet_size),
        r@.len() == MARKER_PACKET_SIZE,
{
    let mut packet: Vec<u8> = Vec::new();
    if full_packet_size {
        packet.push(0);
        packet.push(0);
        packet.push(0);
        packet.push(MARKER_PACKET_SIZE);
    } else {
        packet.push(0);
        packet.push(MARKER_PACKET_SIZE);
        packet.push(0);
        packet.push(0);
    }
    packet.push(constants::PACKET_TYPE_MARKER);
    packet.push(0);
    packet.push(0);
    packet.push(0);
    packet.push(1);
    packet.push(0);
    packet.push(constants::MARKER_TYPE_INTERRUPT);
    assert(packet@ =~= interrupt_packet_bytes(full_packet_size));
    packet
}

} // verus!
