//! The calls that leave this library: the pattern engine, the protocol
//! encoder and the header writer. Their contracts are taken on trust.

use vstd::prelude::*;
use bytes::Bytes;
use etherparse::err::packet::BuildWriteError;
use etherparse::PacketBuilder;
use scion_proto::address::{HostAddr, IsdAsn, ScionAddr};
use scion_proto::packet::{ByEndpoint, ScionPacketScmp, ScmpEncodeError};
use scion_proto::path::{Path, PathParseError};
use scion_proto::scmp::{ScmpEchoRequest, ScmpMessage};
use scion_proto::wire_encoding::WireEncodeVec;
use scion_protobuf::daemon::v1::{Interface, Underlay};
use crate::datagram::{ipv4_checksum_of, udp_checksum_of};
use crate::wire::{high_byte, low_byte, views};

verus! {

#[verifier::external_type_specification]
#[verifier::external_body]
pub struct ExBytes(bytes::Bytes);

#[verifier::external_type_specification]
#[verifier::external_body]
#[verifier::reject_recursive_types(T)]
pub struct ExPath<T>(scion_proto::path::Path<T>);

#[verifier::external_type_specification]
#[verifier::external_body]
pub struct ExPathParseError(scion_proto::path::PathParseError);

#[verifier::external_type_specification]
#[verifier::external_body]
pub struct ExScmpEncodeError(scion_proto::packet::ScmpEncodeError);

#[verifier::external_type_specification]
#[verifier::external_body]
pub struct ExBuildWriteError(etherparse::err::packet::BuildWriteError);

#[verifier::external_type_specification]
#[verifier::external_body]
pub struct ExPatternError(regex::Error);

/// What the pattern engine says of a pattern and a text: nothing where the
/// pattern does not compile, else whether the text matches somewhere.
pub uninterp spec fn pattern_verdict(pattern: Seq<char>, text: Seq<char>) -> Option<bool>;

/// The path that the conversion makes of a raw path, the address of the
/// interface towards it and the two networks; nothing where it refuses.
pub uninterp spec fn converted_path(
    raw: Seq<u8>,
    next_hop: Option<Seq<char>>,
    source: u64,
    destination: u64,
) -> Option<Path<Bytes>>;

/// The chunks that the encoder makes of an echo request between two
/// endpoints along a path; nothing where it refuses.
pub uninterp spec fn echo_chunks(
    source: u64,
    source_host: Seq<u8>,
    destination: u64,
    destination_host: Seq<u8>,
    path: Path<Bytes>,
    identifier: u16,
    sequence: u16,
    payload: Seq<u8>,
) -> Option<Seq<Seq<u8>>>;

/// The characters of an address, where there is one.
pub open spec fn text_of(address: Option<String>) -> Option<Seq<char>> {
    match address {
        Some(text) => Some(text@),
        None => None,
    }
}

/// The IPv4 datagram that the header writer makes of its arguments.
pub uninterp spec fn udp_in_ipv4(
    source: Seq<u8>,
    destination: Seq<u8>,
    time_to_live: u8,
    source_port: u16,
    destination_port: u16,
    payload: Seq<u8>,
) -> Seq<u8>;

/// `regex::Regex::new` on the pattern, then `Regex::is_match` on the text.
/// Taken on trust: the outcome is the verdict named above, an error where
/// the pattern does not compile.
#[verifier::external_body]
pub(crate) fn match_pattern(pattern: &str, text: &str) -> (r: Result<bool, regex::Error>)
    ensures
        r matches Ok(b) ==> pattern_verdict(pattern@, text@) == Some(b),
        r is Err ==> pattern_verdict(pattern@, text@) is None,
{
    let compiled = regex::Regex::new(pattern)?;
    Ok(compiled.is_match(text))
}

/// `scion_proto::path::Path::try_from_grpc` on a path descriptor that holds
/// the raw path and the address of the interface towards it. Taken on trust:
/// the outcome is the conversion named above; it fails on an empty raw path
/// between two different networks, and on a raw path that comes without an
/// interface address.
#[verifier::external_body]
pub(crate) fn convert_path(
    raw: &Vec<u8>,
    next_hop: &Option<String>,
    source: u64,
    destination: u64,
) -> (r: Result<Path<Bytes>, PathParseError>)
    ensures
        r matches Ok(p) ==> converted_path(raw@, text_of(*next_hop), source, destination) == Some(
            p,
        ),
        r is Err ==> converted_path(raw@, text_of(*next_hop), source, destination) is None,
        raw@.len() == 0 && source != destination ==> r is Err,
        raw@.len() > 0 && next_hop is None ==> r is Err,
{
    let interface = match next_hop {
        Some(address) => Some(Interface { address: Some(Underlay { address: address.clone() }) }),
        None => None,
    };
    let descriptor =
        scion_protobuf::daemon::v1::Path { raw: raw.clone(), interface, ..Default::default() };
    let ends = ByEndpoint { source: IsdAsn(source), destination: IsdAsn(destination) };
    Path::try_from_grpc(descriptor, ends)
}

/// `scion_proto::packet::ScionPacketScmp::new` on an echo request, then
/// `encode_to_bytes_vec`. Taken on trust: the outcome is the encoding named
/// above; the encoder hands out three chunks, the headers of the packet, the
/// eight bytes of the message header, which start with the type of an echo
/// request, 128, and the code 0 and end with the identifier and the sequence
/// number, highest byte first, and the payload as it was given.
#[verifier::external_body]
pub(crate) fn encode_echo(
    source: u64,
    source_host: [u8; 4],
    destination: u64,
    destination_host: [u8; 4],
    path: &Path<Bytes>,
    identifier: u16,
    sequence: u16,
    payload: &Vec<u8>,
) -> (r: Result<Vec<Vec<u8>>, ScmpEncodeError>)
    ensures
        r matches Ok(chunks) ==> echo_chunks(
            source,
            source_host@,
            destination,
            destination_host@,
            *path,
            identifier,
            sequence,
            payload@,
        ) == Some(views(chunks@)),
        r is Err ==> echo_chunks(
            source,
            source_host@,
            destination,
            destination_host@,
            *path,
            identifier,
            sequence,
            payload@,
        ) is None,
        r matches Ok(chunks) ==> {
            &&& chunks@.len() == 3
            &&& chunks@[1]@.len() == 8
            &&& chunks@[1]@[0] == 128
            &&& chunks@[1]@[1] == 0
            &&& chunks@[1]@[4] == high_byte(identifier)
            &&& chunks@[1]@[5] == low_byte(identifier)
            &&& chunks@[1]@[6] == high_byte(sequence)
            &&& chunks@[1]@[7] == low_byte(sequence)
            &&& chunks@[2]@ == payload@
        },
{
    let source = ScionAddr::new(IsdAsn(source), HostAddr::V4(source_host.into()));
    let destination = ScionAddr::new(IsdAsn(destination), HostAddr::V4(destination_host.into()));
    let request = ScmpEchoRequest::new(identifier, sequence, Bytes::from(payload.clone()));
    let message = ScmpMessage::EchoRequest(request);
    let ends = ByEndpoint { source, destination };
    let packet = ScionPacketScmp::new(ends, path.data_plane_path.clone(), message)?;
    Ok(packet.encode_to_bytes_vec().iter().map(|chunk| chunk.to_vec()).collect())
}

/// `etherparse::PacketBuilder::ipv4`, `udp`, `size` and `write`. Taken on
/// trust: the writer fails exactly where the UDP header and the payload
/// exceed what the total length field of an IPv4 header without options
/// leaves, 65515 bytes; else it writes that header (20 bytes: version and
/// header length at 0, total length at 2, time to live at 8, protocol 17 at
/// 9, source address at 12, destination address at 16), the UDP header (8
/// bytes: the two ports at 0 and 2, the length of header and payload at 4)
/// and the payload. Fields of two bytes stand highest byte first. The
/// header checksum at 10 is the Internet checksum of the IPv4 header; the
/// UDP checksum at 6 of the UDP header is that of the addresses, the
/// protocol, the UDP length, the UDP header and the payload, with all bits
/// set in place of zero.
#[verifier::external_body]
pub(crate) fn write_udp_in_ipv4(
    source: [u8; 4],
    destination: [u8; 4],
    time_to_live: u8,
    source_port: u16,
    destination_port: u16,
    payload: &Vec<u8>,
) -> (r: Result<Vec<u8>, BuildWriteError>)
    ensures
        r is Ok <==> payload@.len() <= 65507,
        r matches Ok(d) ==> {
            &&& d@ == udp_in_ipv4(
                source@,
                destination@,
                time_to_live,
                source_port,
                destination_port,
                payload@,
            )
            &&& d@.len() == 28 + payload@.len()
            &&& d@[0] == 0x45
            &&& d@[2] == high_byte((28 + payload@.len()) as u16)
            &&& d@[3] == low_byte((28 + payload@.len()) as u16)
            &&& d@[8] == time_to_live
            &&& d@[9] == 17
            &&& d@[10] == high_byte(ipv4_checksum_of(d@))
            &&& d@[11] == low_byte(ipv4_checksum_of(d@))
            &&& d@.subrange(12, 16) == source@
            &&& d@.subrange(16, 20) == destination@
            &&& d@[20] == high_byte(source_port)
            &&& d@[21] == low_byte(source_port)
            &&& d@[22] == high_byte(destination_port)
            &&& d@[23] == low_byte(destination_port)
            &&& d@[24] == high_byte((8 + payload@.len()) as u16)
            &&& d@[25] == low_byte((8 + payload@.len()) as u16)
            &&& d@[26] == high_byte(udp_checksum_of(d@))
            &&& d@[27] == low_byte(udp_checksum_of(d@))
            &&& d@.skip(28) == payload@
        },
{
    let builder =
        PacketBuilder::ipv4(source, destination, time_to_live).udp(source_port, destination_port);
    let mut datagram = Vec::<u8>::with_capacity(builder.size(payload.len()));
    builder.write(&mut datagram, payload)?;
    Ok(datagram)
}

} // verus!
