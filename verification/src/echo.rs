//! The echo request that the probe carries, and its encoding along a path.

use vstd::prelude::*;
use vstd::string::StringSliceAdditionalSpecFns;
use bytes::Bytes;
use scion_proto::path::Path;
use crate::error::ProbeError;
use crate::outside::{echo_chunks, encode_echo};
use crate::route::EndpointPair;
use crate::wire::{flatten, high_byte, joined, lemma_joined_three, low_byte, views};

verus! {

/// The identifier that every echo request carries.
pub const ECHO_IDENTIFIER: u16 = 1;

/// The sequence number that every echo request carries.
pub const ECHO_SEQUENCE: u16 = 1;

/// The length of the message header that stands before the payload.
pub const ECHO_HEADER_LEN: usize = 8;

/// The type that the message header of an echo request starts with.
pub const ECHO_REQUEST_TYPE: u8 = 128;

/// The code that follows the type.
pub const ECHO_REQUEST_CODE: u8 = 0;

/// An echo request: identifier, sequence number and payload.
#[derive(Debug, Clone, PartialEq, Eq)]
pub struct EchoMessage {
    pub identifier: u16,
    pub sequence: u16,
    pub payload: Vec<u8>,
}

/// The bytes that a payload given as text stands for; none where no text is
/// given.
pub open spec fn payload_bytes(text: Option<&str>) -> Seq<u8> {
    match text {
        Some(t) => t.spec_bytes(),
        None => Seq::empty(),
    }
}

impl EchoMessage {
    /// The echo request with the given payload. Identifier and sequence
    /// number are the same for every request.
    pub fn build(payload: Option<&str>) -> (m: EchoMessage)
        ensures
            m.identifier == ECHO_IDENTIFIER,
            m.sequence == ECHO_SEQUENCE,
            m.payload@ == payload_bytes(payload),
    {
        let bytes = match payload {
            Some(text) => text.as_bytes_vec(),
            None => Vec::new(),
        };
        EchoMessage { identifier: ECHO_IDENTIFIER, sequence: ECHO_SEQUENCE, payload: bytes }
    }
}

/// What an encoded packet shows of the message in it: the packet ends with
/// the message header and the payload; the header starts with type and code
/// and ends with the identifier and the sequence number.
pub open spec fn carries(packet: Seq<u8>, message: EchoMessage) -> bool {
    let at = packet.len() - message.payload@.len();
    &&& at >= ECHO_HEADER_LEN
    &&& packet.skip(at) == message.payload@
    &&& packet[at - 8] == ECHO_REQUEST_TYPE
    &&& packet[at - 7] == ECHO_REQUEST_CODE
    &&& packet[at - 4] == high_byte(message.identifier)
    &&& packet[at - 3] == low_byte(message.identifier)
    &&& packet[at - 2] == high_byte(message.sequence)
    &&& packet[at - 1] == low_byte(message.sequence)
}

/// The chunks of an encoder that worked as it should: packet headers,
/// message header, payload.
pub open spec fn chunks_of(chunks: Seq<Seq<u8>>, message: EchoMessage) -> bool {
    &&& chunks.len() == 3
    &&& chunks[1].len() == ECHO_HEADER_LEN
    &&& chunks[1][0] == ECHO_REQUEST_TYPE
    &&& chunks[1][1] == ECHO_REQUEST_CODE
    &&& chunks[1][4] == high_byte(message.identifier)
    &&& chunks[1][5] == low_byte(message.identifier)
    &&& chunks[1][6] == high_byte(message.sequence)
    &&& chunks[1][7] == low_byte(message.sequence)
    &&& chunks[2] == message.payload@
}

/// Chunks of the right shape, laid end to end, carry the message.
pub proof fn lemma_joined_carries(chunks: Seq<Seq<u8>>, message: EchoMessage)
    requires
        chunks_of(chunks, message),
    ensures
        carries(joined(chunks), message),
        joined(chunks).len() == chunks[0].len() + ECHO_HEADER_LEN + message.payload@.len(),
{
    lemma_joined_three(chunks);
    let packet = joined(chunks);
    let at = packet.len() - message.payload@.len();
    assert(packet.skip(at) =~= message.payload@);
}

/// The packet that the encoder makes of a message between two endpoints
/// along a path: its chunks end to end, or an encoding error where it
/// refuses.
pub open spec fn encoded_packet(
    pair: EndpointPair,
    path: Path<Bytes>,
    identifier: u16,
    sequence: u16,
    payload: Seq<u8>,
) -> Result<
    Seq<u8>,
    ProbeError,
> {
    match echo_chunks(
        pair.source.id.packed() as u64,
        pair.source.host@,
        pair.destination.id.packed() as u64,
        pair.destination.host@,
        path,
        identifier,
        sequence,
        payload,
    ) {
        Some(chunks) => Ok(joined(chunks)),
        None => Err(ProbeError::EncodingFailed),
    }
}

/// Makes one packet of the chunks that the encoder handed out, in their
/// order and with nothing between them; an encoder's failure is reported.
pub fn assemble_packet(encoded: Option<Vec<Vec<u8>>>) -> (r: Result<Vec<u8>, ProbeError>)
    ensures
        encoded matches Some(chunks) ==> (r matches Ok(packet) && packet@ == joined(
            views(chunks@),
        )),
        encoded is None ==> r == Err::<Vec<u8>, ProbeError>(ProbeError::EncodingFailed),
{
    match encoded {
        Some(chunks) => Ok(flatten(&chunks)),
        None => Err(ProbeError::EncodingFailed),
    }
}

/// Encodes the message for the way along `path` between the two endpoints.
pub fn encode_packet(pair: &EndpointPair, path: &Path<Bytes>, message: &EchoMessage) -> (r: Result<
    Vec<u8>,
    ProbeError,
>)
    requires
        pair.well_formed(),
    ensures
        match encoded_packet(
            *pair,
            *path,
            message.identifier,
            message.sequence,
            message.payload@,
        ) {
            Ok(bytes) => r matches Ok(packet) && packet@ == bytes,
            Err(e) => r == Err::<Vec<u8>, ProbeError>(e),
        },
        r matches Ok(packet) ==> carries(packet@, *message),
{
    let encoded = match encode_echo(
        pair.source.id.to_u64(),
        pair.source.host,
        pair.destination.id.to_u64(),
        pair.destination.host,
        path,
        message.identifier,
        message.sequence,
        &message.payload,
    ) {
        Ok(chunks) => {
            proof {
                lemma_joined_carries(views(chunks@), *message);
            }
            Some(chunks)
        },
        Err(_) => None,
    };
    assemble_packet(encoded)
}

} // verus!
