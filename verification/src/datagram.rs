//! The IPv4 datagram around an encoded packet.

use vstd::prelude::*;
use crate::error::ProbeError;
use crate::outside::{udp_in_ipv4, write_udp_in_ipv4};
use crate::wire::{high_byte, internet_checksum, low_byte};

verus! {

/// Length of an IPv4 header without options.
pub const IPV4_HEADER_LEN: usize = 20;

/// Length of a UDP header.
pub const UDP_HEADER_LEN: usize = 8;

/// The time to live that every datagram starts with.
pub const TIME_TO_LIVE: u8 = 20;

/// The longest payload that fits: the total length field of the IPv4 header
/// counts both headers too.
pub const MAX_PAYLOAD_LEN: usize = 65507;

/// The number of UDP in the protocol field of an IPv4 header.
pub const PROTOCOL_UDP: u8 = 17;

/// The destination address that a datagram's IPv4 header holds; none where
/// the bytes are too few for such a header.
pub open spec fn destination_in(datagram: Seq<u8>) -> Option<Seq<u8>> {
    if datagram.len() >= IPV4_HEADER_LEN {
        Some(datagram.subrange(16, 20))
    } else {
        None
    }
}

/// The checksum that belongs in the IPv4 header of a datagram: the Internet
/// checksum of the header with nothing in the checksum's place.
pub open spec fn ipv4_checksum_of(datagram: Seq<u8>) -> u16 {
    internet_checksum(datagram.subrange(0, 10) + seq![0u8, 0u8] + datagram.subrange(12, 20))
}

/// The checksum that belongs in the UDP header of a datagram: the Internet
/// checksum of the two addresses, the protocol, the UDP length, the UDP
/// header with nothing in the checksum's place, and the payload; where that
/// is zero, all bits set.
pub open spec fn udp_checksum_of(datagram: Seq<u8>) -> u16 {
    let sum = internet_checksum(
        datagram.subrange(12, 20) + seq![0u8, PROTOCOL_UDP] + datagram.subrange(24, 26)
            + datagram.subrange(20, 26) + seq![0u8, 0u8] + datagram.skip(28),
    );
    if sum == 0 {
        0xffff
    } else {
        sum
    }
}

/// Whether `datagram` is `payload` behind a UDP header behind an IPv4
/// header without options, with the given addresses and ports and with the
/// length fields and checksums that go with the payload.
pub open spec fn wraps(
    datagram: Seq<u8>,
    payload: Seq<u8>,
    source: Seq<u8>,
    destination: Seq<u8>,
    source_port: u16,
    destination_port: u16,
) -> bool {
    &&& datagram.len() == IPV4_HEADER_LEN + UDP_HEADER_LEN + payload.len()
    &&& datagram.skip(IPV4_HEADER_LEN + UDP_HEADER_LEN) == payload
    &&& datagram[0] == 0x45
    &&& datagram[2] == high_byte((IPV4_HEADER_LEN + UDP_HEADER_LEN + payload.len()) as u16)
    &&& datagram[3] == low_byte((IPV4_HEADER_LEN + UDP_HEADER_LEN + payload.len()) as u16)
    &&& datagram[8] == TIME_TO_LIVE
    &&& datagram[9] == PROTOCOL_UDP
    &&& datagram[10] == high_byte(ipv4_checksum_of(datagram))
    &&& datagram[11] == low_byte(ipv4_checksum_of(datagram))
    &&& datagram.subrange(12, 16) == source
    &&& datagram.subrange(16, 20) == destination
    &&& datagram[20] == high_byte(source_port)
    &&& datagram[21] == low_byte(source_port)
    &&& datagram[22] == high_byte(destination_port)
    &&& datagram[23] == low_byte(destination_port)
    &&& datagram[24] == high_byte((UDP_HEADER_LEN + payload.len()) as u16)
    &&& datagram[25] == low_byte((UDP_HEADER_LEN + payload.len()) as u16)
    &&& datagram[26] == high_byte(udp_checksum_of(datagram))
    &&& datagram[27] == low_byte(udp_checksum_of(datagram))
}

/// Wraps an encoded packet as the payload of a UDP datagram in an IPv4
/// datagram. A packet too long for the length fields is refused.
pub fn encapsulate(
    encoded: &Vec<u8>,
    source: [u8; 4],
    destination: [u8; 4],
    source_port: u16,
    destination_port: u16,
) -> (r: Result<Vec<u8>, ProbeError>)
    ensures
        r is Ok <==> encoded@.len() <= MAX_PAYLOAD_LEN,
        r matches Ok(d) ==> d@.len() == IPV4_HEADER_LEN + UDP_HEADER_LEN + encoded@.len(),
        r matches Ok(d) ==> {
            &&& wraps(d@, encoded@, source@, destination@, source_port, destination_port)
            &&& d@ == udp_in_ipv4(
                source@,
                destination@,
                TIME_TO_LIVE,
                source_port,
                destination_port,
                encoded@,
            )
            &&& destination_in(d@) == Some(destination@)
        },
        r matches Err(e) ==> e == ProbeError::DatagramTooLarge,
{
    match write_udp_in_ipv4(
        source,
        destination,
        TIME_TO_LIVE,
        source_port,
        destination_port,
        encoded,
    ) {
        Ok(d) => Ok(d),
        Err(_) => Err(ProbeError::DatagramTooLarge),
    }
}

/// Reads the destination address back out of a datagram's IPv4 header.
pub fn destination_of(datagram: &Vec<u8>) -> (r: Option<[u8; 4]>)
    ensures
        r matches Some(a) ==> destination_in(datagram@) == Some(a@),
        r is None ==> destination_in(datagram@) is None,
{
    if datagram.len() >= IPV4_HEADER_LEN {
        let a: [u8; 4] = [datagram[16], datagram[17], datagram[18], datagram[19]];
        proof {
            assert(a@ =~= datagram@.subrange(16, 20));
        }
        Some(a)
    } else {
        None
    }
}

} // verus!
