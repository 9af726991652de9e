//! From the answer of the path-lookup service to the datagram that the loop
//! sends.

use vstd::prelude::*;
use crate::datagram::{
    destination_in, encapsulate, wraps, IPV4_HEADER_LEN, MAX_PAYLOAD_LEN, TIME_TO_LIVE,
    UDP_HEADER_LEN,
};
use crate::echo::{
    carries, encode_packet, encoded_packet, payload_bytes, EchoMessage, ECHO_IDENTIFIER,
    ECHO_SEQUENCE,
};
use crate::error::ProbeError;
use crate::outside::udp_in_ipv4;
use crate::route::{resolve_path, resolved, CandidatePath, EndpointPair};

verus! {

/// The datagram of a probe that goes along a candidate path with a payload:
/// the candidate is converted, the echo request with that payload is
/// encoded along the path, and the packet is wrapped as a UDP datagram. The first step that
/// fails gives its error.
pub open spec fn crafted(
    pair: EndpointPair,
    source_port: u16,
    destination_port: u16,
    candidate: CandidatePath,
    payload: Seq<u8>,
) -> Result<Seq<u8>, ProbeError> {
    match resolved(candidate, pair) {
        Err(e) => Err(e),
        Ok(path) => match encoded_packet(pair, path, ECHO_IDENTIFIER, ECHO_SEQUENCE, payload) {
            Err(e) => Err(e),
            Ok(packet) => if packet.len() <= MAX_PAYLOAD_LEN {
                Ok(
                    udp_in_ipv4(
                        pair.source.host@,
                        pair.destination.host@,
                        TIME_TO_LIVE,
                        source_port,
                        destination_port,
                        packet,
                    ),
                )
            } else {
                Err(ProbeError::DatagramTooLarge)
            },
        },
    }
}

/// Builds the datagram of a probe: selects the path, builds the echo
/// request, encodes both into a packet and wraps the packet. Each step that
/// fails ends the work with its own error, an index out of range first.
pub fn craft_datagram(
    pair: &EndpointPair,
    source_port: u16,
    destination_port: u16,
    candidates: &Vec<CandidatePath>,
    index: usize,
    payload: Option<&str>,
) -> (r: Result<Vec<u8>, ProbeError>)
    requires
        pair.well_formed(),
    ensures
        index >= candidates@.len() ==> (r matches Err(e) && e == (ProbeError::PathIndexOutOfRange {
            requested: index,
            available: candidates@.len() as usize,
        })),
        index < candidates@.len() ==> match crafted(
            *pair,
            source_port,
            destination_port,
            candidates@[index as int],
            payload_bytes(payload),
        ) {
            Ok(bytes) => r matches Ok(d) && d@ == bytes,
            Err(e) => r == Err::<Vec<u8>, ProbeError>(e),
        },
        r matches Ok(d) ==> d@.len() >= IPV4_HEADER_LEN + UDP_HEADER_LEN,
        r matches Ok(d) ==> exists|packet: Seq<u8>, message: EchoMessage|
            {
                &&& message.identifier == ECHO_IDENTIFIER
                &&& message.sequence == ECHO_SEQUENCE
                &&& message.payload@ == payload_bytes(payload)
                &&& packet.len() <= MAX_PAYLOAD_LEN
                &&& #[trigger] carries(packet, message)
                &&& #[trigger] wraps(
                    d@,
                    packet,
                    pair.source.host@,
                    pair.destination.host@,
                    source_port,
                    destination_port,
                )
            },
        r matches Ok(d) ==> destination_in(d@) == Some(pair.destination.host@),
        index < candidates@.len() && candidates@[index as int].raw@.len() == 0
            && pair.source.id.packed() != pair.destination.id.packed() ==> (r matches Err(e)
            && e == ProbeError::PathConversionError),
        index < candidates@.len() && candidates@[index as int].raw@.len() > 0
            && candidates@[index as int].next_hop is None ==> (r matches Err(e)
            && e == ProbeError::PathConversionError),
{
    let path = match resolve_path(candidates, index, pair) {
        Ok(p) => p,
        Err(e) => {
            return Err(e);
        },
    };
    let message = EchoMessage::build(payload);
    let packet = match encode_packet(pair, &path, &message) {
        Ok(p) => p,
        Err(e) => {
            return Err(e);
        },
    };
    let r = encapsulate(
        &packet,
        pair.source.host,
        pair.destination.host,
        source_port,
        destination_port,
    );
    proof {
        if let Ok(d) = &r {
            assert(carries(packet@, message));
            assert(wraps(
                d@,
                packet@,
                pair.source.host@,
                pair.destination.host@,
                source_port,
                destination_port,
            ));
        }
    }
    r
}

} // verus!
