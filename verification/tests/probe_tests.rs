use scmp_probe::datagram::{destination_of, encapsulate, IPV4_HEADER_LEN, UDP_HEADER_LEN};
use scmp_probe::echo::{assemble_packet, encode_packet, EchoMessage, ECHO_HEADER_LEN};
use scmp_probe::error::ProbeError;
use scmp_probe::identifier::parse_identifier;
use scmp_probe::probe::craft_datagram;
use scmp_probe::route::{
    path_query, resolve_path, select_path, CandidatePath, Endpoint, EndpointPair,
};
use scmp_probe::transmit::{step, LoopAction, LoopEvent, LoopState};
use scmp_probe::wire::{checksum_of, flatten};

fn pair() -> EndpointPair {
    EndpointPair {
        source: Endpoint { id: parse_identifier("18-ffaa:1:117c").unwrap(), host: [127, 0, 0, 1] },
        destination: Endpoint {
            id: parse_identifier("17-ffaa:1:117b").unwrap(),
            host: [127, 0, 0, 1],
        },
    }
}

/// A raw path of one segment with two hops.
fn raw_path() -> Vec<u8> {
    let mut raw = vec![0x00, 0x00, 0x20, 0x00];
    raw.extend(std::iter::repeat(7u8).take(8 + 2 * 12));
    raw
}

fn candidate() -> CandidatePath {
    CandidatePath { raw: raw_path(), next_hop: Some("127.0.0.1:31000".to_string()) }
}

#[test]
fn query_asks_for_fresh_and_visible_paths() {
    let q = path_query(&pair());
    assert_eq!(q.source, 0x0012_ffaa_0001_117c);
    assert_eq!(q.destination, 0x0011_ffaa_0001_117b);
    assert!(q.refresh);
    assert!(!q.hidden);
}

#[test]
fn selection_beyond_the_end_fails() {
    let none: Vec<CandidatePath> = vec![];
    assert_eq!(
        select_path(&none, 0),
        Err(ProbeError::PathIndexOutOfRange { requested: 0, available: 0 })
    );
    let three = vec![candidate(), candidate(), candidate()];
    assert_eq!(
        select_path(&three, 3),
        Err(ProbeError::PathIndexOutOfRange { requested: 3, available: 3 })
    );
    assert_eq!(
        select_path(&three, usize::MAX),
        Err(ProbeError::PathIndexOutOfRange { requested: usize::MAX, available: 3 })
    );
    assert_eq!(
        resolve_path(&three, 7, &pair()).err(),
        Some(ProbeError::PathIndexOutOfRange { requested: 7, available: 3 })
    );
    assert_eq!(
        craft_datagram(&pair(), 32766, 30001, &none, 0, None),
        Err(ProbeError::PathIndexOutOfRange { requested: 0, available: 0 })
    );
}

#[test]
fn selection_takes_the_candidate_at_the_index() {
    let other = CandidatePath { raw: vec![1, 2, 3], next_hop: None };
    let list = vec![candidate(), other.clone()];
    assert_eq!(select_path(&list, 0), Ok(&list[0]));
    assert_eq!(select_path(&list, 1), Ok(&other));
}

#[test]
fn conversion_failures_are_reported() {
    let empty = vec![CandidatePath { raw: vec![], next_hop: Some("127.0.0.1:31000".to_string()) }];
    assert_eq!(resolve_path(&empty, 0, &pair()).err(), Some(ProbeError::PathConversionError));
    let no_hop = vec![CandidatePath { raw: raw_path(), next_hop: None }];
    assert_eq!(resolve_path(&no_hop, 0, &pair()).err(), Some(ProbeError::PathConversionError));
    let bad_hop = vec![CandidatePath { raw: raw_path(), next_hop: Some("nowhere".to_string()) }];
    assert_eq!(resolve_path(&bad_hop, 0, &pair()).err(), Some(ProbeError::PathConversionError));
    let hop = Some("127.0.0.1:31000".to_string());
    for raw in [vec![0u8], vec![0, 0, 0x20], vec![0, 0, 0x20, 0], vec![0, 0, 0x20, 0, 7]] {
        let short = vec![CandidatePath { raw, next_hop: hop.clone() }];
        assert_eq!(resolve_path(&short, 0, &pair()).err(), Some(ProbeError::PathConversionError));
    }
    let truncated = vec![CandidatePath { raw: vec![0, 0, 0x20, 0, 7], next_hop: None }];
    assert_eq!(resolve_path(&truncated, 0, &pair()).err(), Some(ProbeError::PathConversionError));
}

#[test]
fn conversion_keeps_the_raw_path() {
    let path = resolve_path(&vec![candidate()], 0, &pair()).unwrap();
    assert_eq!(path.data_plane_path.raw(), raw_path().as_slice());
    assert_eq!(path.isd_asn.source.to_u64(), 0x0012_ffaa_0001_117c);
    assert_eq!(path.isd_asn.destination.to_u64(), 0x0011_ffaa_0001_117b);
}

#[test]
fn echo_without_payload_is_empty() {
    let m = EchoMessage::build(None);
    assert_eq!(m.identifier, 1);
    assert_eq!(m.sequence, 1);
    assert!(m.payload.is_empty());
}

#[test]
fn echo_with_payload_holds_its_bytes() {
    let m = EchoMessage::build(Some("hello"));
    assert_eq!(m.identifier, 1);
    assert_eq!(m.sequence, 1);
    assert_eq!(m.payload, vec![b'h', b'e', b'l', b'l', b'o']);
    assert_eq!(EchoMessage::build(Some("é")).payload, vec![0xc3, 0xa9]);
}

#[test]
fn flatten_keeps_order_and_adds_nothing() {
    assert_eq!(flatten(&vec![]), Vec::<u8>::new());
    assert_eq!(flatten(&vec![vec![], vec![]]), Vec::<u8>::new());
    assert_eq!(flatten(&vec![vec![1, 2], vec![], vec![3], vec![4, 5, 6]]), vec![1, 2, 3, 4, 5, 6]);
    assert_eq!(assemble_packet(Some(vec![vec![9], vec![8, 7]])), Ok(vec![9, 8, 7]));
    assert_eq!(assemble_packet(None), Err(ProbeError::EncodingFailed));
}

#[test]
fn payload_follows_the_message_header() {
    let path = resolve_path(&vec![candidate()], 0, &pair()).unwrap();
    let bare = encode_packet(&pair(), &path, &EchoMessage::build(None)).unwrap();
    let full = encode_packet(&pair(), &path, &EchoMessage::build(Some("hello"))).unwrap();
    assert_eq!(full.len(), bare.len() + 5);
    let at = bare.len();
    assert_eq!(&full[at..], "hello".as_bytes());
    // common header, address header with two IPv4 hosts, path, message header
    assert_eq!(at, 12 + 24 + raw_path().len() + ECHO_HEADER_LEN);
    let header = &bare[at - ECHO_HEADER_LEN..];
    assert_eq!(header[0], 128);
    assert_eq!(header[1], 0);
    assert_eq!(&header[4..], &[0, 1, 0, 1]);
    assert_eq!(&full[at - 4..at], &[0, 1, 0, 1]);
    // the path, unchanged, stands right before the message header
    assert_eq!(&bare[36..36 + raw_path().len()], raw_path().as_slice());
    // the two identifiers open the address header
    assert_eq!(&bare[12..20], &[0x00, 0x11, 0xff, 0xaa, 0x00, 0x01, 0x11, 0x7b]);
    assert_eq!(&bare[20..28], &[0x00, 0x12, 0xff, 0xaa, 0x00, 0x01, 0x11, 0x7c]);
}

#[test]
fn encoding_refuses_a_payload_too_long() {
    let path = resolve_path(&vec![candidate()], 0, &pair()).unwrap();
    let message = EchoMessage { identifier: 1, sequence: 1, payload: vec![0; 70000] };
    assert_eq!(encode_packet(&pair(), &path, &message), Err(ProbeError::EncodingFailed));
}

#[test]
fn datagram_length_is_headers_plus_packet() {
    for n in [0usize, 1, 5, 100, 1472, 65507] {
        let packet = vec![0xabu8; n];
        let d = encapsulate(&packet, [10, 0, 0, 1], [10, 0, 0, 2], 32766, 30001).unwrap();
        assert_eq!(d.len(), 20 + 8 + n);
        assert_eq!(d.len(), IPV4_HEADER_LEN + UDP_HEADER_LEN + packet.len());
        assert_eq!(&d[28..], packet.as_slice());
    }
}

#[test]
fn datagram_headers_hold_addresses_and_ports() {
    let d = encapsulate(&vec![1, 2, 3], [10, 0, 0, 1], [192, 168, 7, 9], 32766, 30001).unwrap();
    assert_eq!(d[0], 0x45);
    assert_eq!(&d[2..4], &[0, 31]);
    assert_eq!(d[8], 20);
    assert_eq!(d[9], 17);
    assert_eq!(&d[12..16], &[10, 0, 0, 1]);
    assert_eq!(&d[16..20], &[192, 168, 7, 9]);
    assert_eq!(&d[20..22], &[0x7f, 0xfe]);
    assert_eq!(&d[22..24], &[0x75, 0x31]);
    assert_eq!(&d[24..26], &[0, 11]);
    assert_eq!(destination_of(&d), Some([192, 168, 7, 9]));
    let seen = etherparse::PacketHeaders::from_ip_slice(&d).unwrap();
    let udp = seen.transport.unwrap().udp().unwrap();
    assert_eq!(udp.source_port, 32766);
    assert_eq!(udp.destination_port, 30001);
    assert_eq!(
        udp.checksum,
        udp.calc_checksum_ipv4_raw([10, 0, 0, 1], [192, 168, 7, 9], &[1, 2, 3]).unwrap()
    );
}

#[test]
fn datagram_too_large_is_refused() {
    let packet = vec![0u8; 65508];
    assert_eq!(
        encapsulate(&packet, [10, 0, 0, 1], [10, 0, 0, 2], 1, 2),
        Err(ProbeError::DatagramTooLarge)
    );
    assert_eq!(
        encapsulate(&vec![0u8; 70000], [10, 0, 0, 1], [10, 0, 0, 2], 1, 2),
        Err(ProbeError::DatagramTooLarge)
    );
}

#[test]
fn destination_needs_a_whole_header() {
    assert_eq!(destination_of(&vec![]), None);
    assert_eq!(destination_of(&vec![0u8; 19]), None);
    let mut d = vec![0u8; 20];
    d[16] = 1;
    d[17] = 2;
    d[18] = 3;
    d[19] = 4;
    assert_eq!(destination_of(&d), Some([1, 2, 3, 4]));
}

#[test]
fn loop_starts_once_and_keeps_sending() {
    let d = encapsulate(&vec![1, 2, 3], [10, 0, 0, 1], [10, 0, 0, 2], 32766, 30001).unwrap();
    let to = LoopAction::Transmit { destination: [10, 0, 0, 2] };
    assert_eq!(step(LoopState::Idle, LoopEvent::Ready, &d, 1000), (LoopState::Sending, to));
    assert_eq!(
        step(LoopState::Sending, LoopEvent::Sent, &d, 1000),
        (LoopState::Sending, LoopAction::Sleep { millis: 1000 })
    );
    assert_eq!(step(LoopState::Sending, LoopEvent::Woke, &d, 1000), (LoopState::Sending, to));
    assert_eq!(
        step(LoopState::Sending, LoopEvent::Ready, &d, 1000),
        (LoopState::Sending, LoopAction::Wait)
    );
    assert_eq!(step(LoopState::Idle, LoopEvent::Sent, &d, 5), (LoopState::Idle, LoopAction::Wait));
    assert_eq!(step(LoopState::Idle, LoopEvent::Woke, &d, 5), (LoopState::Idle, LoopAction::Wait));
}

#[test]
fn loop_ends_on_failure_or_broken_datagram() {
    let d = vec![0u8; 28];
    assert_eq!(
        step(LoopState::Sending, LoopEvent::Failed, &d, 1000),
        (LoopState::Sending, LoopAction::Abort)
    );
    assert_eq!(
        step(LoopState::Idle, LoopEvent::Failed, &d, 1000),
        (LoopState::Idle, LoopAction::Abort)
    );
    assert_eq!(
        step(LoopState::Idle, LoopEvent::Ready, &vec![0u8; 19], 1000),
        (LoopState::Sending, LoopAction::Abort)
    );
}

#[test]
fn end_to_end_datagram_is_the_same_on_every_tick() {
    let candidates = vec![candidate()];
    let d = craft_datagram(&pair(), 32766, 30001, &candidates, 0, None).unwrap();
    let again = craft_datagram(&pair(), 32766, 30001, &candidates, 0, None).unwrap();
    assert_eq!(d, again);
    assert_eq!(d.len(), 20 + 8 + 12 + 24 + raw_path().len() + 8);
    assert_eq!(&d[12..16], &[127, 0, 0, 1]);
    assert_eq!(&d[16..20], &[127, 0, 0, 1]);
    assert_eq!(&d[20..24], &[0x7f, 0xfe, 0x75, 0x31]);
    assert_eq!(&d[d.len() - 4..], &[0, 1, 0, 1]);

    let kept = d.clone();
    let (mut state, mut action) = step(LoopState::Idle, LoopEvent::Ready, &d, 1000);
    for _ in 0..5 {
        assert_eq!(state, LoopState::Sending);
        assert_eq!(action, LoopAction::Transmit { destination: [127, 0, 0, 1] });
        assert_eq!(d, kept);
        (state, action) = step(state, LoopEvent::Sent, &d, 1000);
        assert_eq!(action, LoopAction::Sleep { millis: 1000 });
        (state, action) = step(state, LoopEvent::Woke, &d, 1000);
    }
}

#[test]
fn end_to_end_with_payload_ends_with_it() {
    let candidates = vec![candidate()];
    let bare = craft_datagram(&pair(), 32766, 30001, &candidates, 0, None).unwrap();
    let d = craft_datagram(&pair(), 32766, 30001, &candidates, 0, Some("hello")).unwrap();
    assert_eq!(d.len(), bare.len() + 5);
    assert_eq!(&d[bare.len()..], "hello".as_bytes());
    assert_eq!(&d[bare.len() - 4..bare.len()], &[0, 1, 0, 1]);
}

#[test]
fn checksum_of_known_bytes() {
    assert_eq!(checksum_of(&vec![]), 0xffff);
    assert_eq!(checksum_of(&vec![0, 0]), 0xffff);
    assert_eq!(checksum_of(&vec![0xff, 0xff]), 0);
    assert_eq!(checksum_of(&vec![0x00, 0x01, 0xf2, 0x03, 0xf4, 0xf5, 0xf6, 0xf7]), 0x220d);
    assert_eq!(checksum_of(&vec![0x12]), 0xedff);
    assert_eq!(checksum_of(&vec![0xff, 0xff, 0x00, 0x01]), 0xfffe);
}

#[test]
fn datagram_checksums_are_internet_checksums() {
    let payloads: Vec<Vec<u8>> = vec![
        vec![],
        vec![1],
        vec![1, 2, 3],
        vec![0xff; 1000],
        vec![0xff; 1001],
        (0..=255).collect(),
        vec![0; 65507],
    ];
    for payload in payloads {
        let d = encapsulate(&payload, [10, 0, 0, 1], [192, 168, 7, 9], 32766, 30001).unwrap();
        let mut header = d[..20].to_vec();
        header[10] = 0;
        header[11] = 0;
        assert_eq!(&d[10..12], &checksum_of(&header).to_be_bytes());
        let mut summed = d[12..20].to_vec();
        summed.extend([0, 17]);
        summed.extend(&d[24..26]);
        summed.extend(&d[20..26]);
        summed.extend([0, 0]);
        summed.extend(&d[28..]);
        let sum = checksum_of(&summed);
        let expected = if sum == 0 { 0xffff } else { sum };
        assert_eq!(&d[26..28], &expected.to_be_bytes());
    }
}

#[test]
fn longest_datagram_fills_the_length_field() {
    let d = encapsulate(&vec![7u8; 65507], [10, 0, 0, 1], [10, 0, 0, 2], 1, 2).unwrap();
    assert_eq!(d.len(), 65535);
    assert_eq!(&d[2..4], &[0xff, 0xff]);
    assert_eq!(&d[24..26], &[0xff, 0xeb]);
}

#[test]
fn encoding_is_the_same_for_the_same_input() {
    let path = resolve_path(&vec![candidate()], 0, &pair()).unwrap();
    let again = resolve_path(&vec![candidate()], 0, &pair()).unwrap();
    let message = EchoMessage::build(Some("hello"));
    assert_eq!(encode_packet(&pair(), &path, &message), encode_packet(&pair(), &again, &message));
    let swapped = EndpointPair { source: pair().destination, destination: pair().source };
    assert_ne!(encode_packet(&pair(), &path, &message), encode_packet(&swapped, &path, &message));
}
