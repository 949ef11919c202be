use bytes::Bytes;
use iroh_rtp::flow::{
    forward_marshalled, receive_flow_task, send_flow_task, send_parsed, FlowError, ReceiveAction,
    ReceiveEvent, SendAction, SendEvent,
};
use iroh_rtp::rtp::{can_parse, can_write, parse, remarshal, RtpExtension, RtpPacket};

const PLAIN: [u8; 16] = [
    0x80, 0xe0, 0x12, 0x34, 0x00, 0x00, 0x03, 0xe8, 0xde, 0xad, 0xbe, 0xef, 1, 2, 3, 4,
];

fn packet() -> RtpPacket {
    RtpPacket {
        version: 2,
        padding: false,
        extension: false,
        marker: true,
        payload_type: 96,
        sequence_number: 0x1234,
        timestamp: 1000,
        ssrc: 0xdeadbeef,
        csrc: vec![],
        extension_profile: 0,
        extensions: vec![],
        extensions_padding: 0,
        payload: vec![1, 2, 3, 4],
    }
}

fn bytes(raw: &[u8]) -> Bytes {
    Bytes::copy_from_slice(raw)
}

fn with_header(first: u8, rest: &[u8]) -> Vec<u8> {
    let mut raw = PLAIN[..12].to_vec();
    raw[0] = first;
    raw.extend_from_slice(rest);
    raw
}

fn passes(raw: &[u8]) {
    assert!(can_parse(&bytes(raw)));
    let p = parse(bytes(raw)).unwrap();
    assert!(can_write(&p));
    assert_eq!(remarshal(&p).unwrap(), bytes(raw));
}

#[test]
fn packet_is_read() {
    let p = parse(bytes(&PLAIN)).unwrap();
    assert_eq!(p.version, 2);
    assert!(!p.padding && !p.extension && p.marker);
    assert_eq!(p.payload_type, 96);
    assert_eq!(p.sequence_number, 0x1234);
    assert_eq!(p.timestamp, 1000);
    assert_eq!(p.ssrc, 0xdeadbeef);
    assert!(p.csrc.is_empty() && p.extensions.is_empty());
    assert_eq!(p.extension_profile, 0);
    assert_eq!(p.extensions_padding, 0);
    assert_eq!(p.payload, vec![1, 2, 3, 4]);
}

#[test]
fn packet_is_written() {
    assert!(can_write(&packet()));
    assert_eq!(remarshal(&packet()).unwrap(), bytes(&PLAIN));
}

#[test]
fn padding_fills_the_last_word() {
    let mut p = packet();
    p.padding = true;
    p.payload = vec![1, 2, 3, 4, 5];
    p.csrc = vec![7];
    let raw = remarshal(&p).unwrap();
    assert_eq!(raw[0], 0xa1);
    assert_eq!(&raw[12..], &[0, 0, 0, 7, 1, 2, 3, 4, 5, 0, 0, 3]);
    let back = parse(raw).unwrap();
    assert_eq!(back.payload, p.payload);
    assert_eq!(back.csrc, p.csrc);
    p.payload = vec![1, 2, 3, 4];
    assert_eq!(&remarshal(&p).unwrap()[16..], &[1, 2, 3, 4, 0, 0, 0, 4]);
}

#[test]
fn bytes_that_are_no_packet_are_refused() {
    assert!(parse(bytes(&[])).is_err());
    assert!(parse(bytes(&PLAIN[..11])).is_err());
    assert!(parse(bytes(&with_header(0x82, &[0; 7]))).is_err());
    assert!(parse(bytes(&with_header(0xa0, &[]))).is_err());
    assert!(parse(bytes(&with_header(0xa0, &[1, 2, 4]))).is_err());
    assert!(parse(bytes(&with_header(0x90, &[0xbe, 0xde, 0, 2, 0, 0, 0, 0]))).is_err());
}

#[test]
fn header_without_payload_is_a_packet() {
    assert!(parse(bytes(&PLAIN[..12])).unwrap().payload.is_empty());
}

#[test]
fn tidy_packets_pass_unchanged() {
    passes(&PLAIN);
    passes(&PLAIN[..12]);
    // contributing sources
    passes(&with_header(0x82, &[0, 0, 0, 1, 0, 0, 0, 2, 9, 9]));
    // padding
    passes(&with_header(0xa0, &[7, 0, 0, 3]));
    passes(&with_header(0xa0, &[0, 0, 0, 4]));
    passes(&with_header(0xa0, &[7, 7, 7, 1]));
    // a header extension of no known profile
    passes(&with_header(0x90, &[0xab, 0xcd, 0, 1, 1, 2, 3, 4, 5]));
    passes(&with_header(0x90, &[0xab, 0xcd, 0, 0, 5]));
    // elements with headers of one byte
    passes(&with_header(0x90, &[0xbe, 0xde, 0, 0, 5]));
    passes(&with_header(0x90, &[0xbe, 0xde, 0, 1, 0x10, 0xaa, 0x20, 0xbb, 5]));
    passes(&with_header(0x90, &[0xbe, 0xde, 0, 2, 0x10, 0xaa, 0x21, 0xbb, 0xcc, 0, 0, 0, 5]));
    passes(&with_header(0x90, &[0xbe, 0xde, 0, 1, 0x02, 0xaa, 0xbb, 0xcc, 5]));
    // elements with headers of two bytes
    passes(&with_header(0x90, &[0x10, 0x00, 0, 1, 1, 0, 2, 0, 5]));
    passes(&with_header(0x90, &[0x10, 0x00, 0, 2, 1, 3, 0xaa, 0xbb, 0xcc, 0, 0, 0, 5]));
    // everything at once
    passes(&with_header(
        0xb1,
        &[0, 0, 0, 1, 0xbe, 0xde, 0, 1, 0x10, 0xaa, 0, 0, 5, 5, 0, 2],
    ));
}

#[test]
fn longest_tidy_extension_passes_unchanged() {
    let mut rest = vec![0xab, 0xcd, 0x3f, 0xff];
    rest.resize(4 + 4 * 16383, 3);
    rest.push(5);
    passes(&with_header(0x90, &rest));
}

#[test]
fn loose_extension_is_filled_up_with_zeros() {
    // a word of zeros behind the only element
    let raw = with_header(0x90, &[0xbe, 0xde, 0, 2, 0x12, 0xaa, 0xbb, 0xcc, 0, 0, 0, 0, 5]);
    let p = parse(bytes(&raw)).unwrap();
    assert_eq!(p.extensions_padding, 4);
    assert!(can_write(&p));
    let expected = with_header(0x90, &[0xbe, 0xde, 0, 1, 0x12, 0xaa, 0xbb, 0xcc, 5, 0, 0, 0, 0]);
    assert_eq!(remarshal(&p).unwrap(), bytes(&expected));
}

#[test]
fn element_beyond_the_end_cannot_be_parsed() {
    assert!(!can_parse(&bytes(&with_header(0x90, &[0xbe, 0xde, 0, 1, 0x14, 1, 2, 3]))));
    assert!(can_parse(&bytes(&with_header(0x90, &[0xbe, 0xde, 0, 1, 0x14, 1, 2, 3, 4, 5]))));
    assert!(can_parse(&bytes(&with_header(0x90, &[0xbe, 0xde, 0, 1, 0xf4, 1, 2, 3]))));
    assert!(can_parse(&bytes(&with_header(0x90, &[0xbe, 0xde, 0, 2, 0x14, 1, 2, 3]))));
    assert!(!can_parse(&bytes(&with_header(0x90, &[0x10, 0x00, 0, 1, 1, 3, 2, 2]))));
    assert!(!can_parse(&bytes(&with_header(0x90, &[0x10, 0x00, 0, 1, 0, 0, 0, 1]))));
    assert!(can_parse(&bytes(&with_header(0x90, &[0x10, 0x00, 0, 1, 0, 0, 1, 0]))));
    assert!(can_parse(&bytes(&[])));
    assert!(can_parse(&bytes(&[0x90])));
}

#[test]
fn stop_element_ends_the_extension() {
    let raw = with_header(0x90, &[0xbe, 0xde, 0, 1, 0x10, 0xaa, 0xf0, 0]);
    let p = parse(bytes(&raw)).unwrap();
    assert_eq!(p.extensions.len(), 1);
    assert_eq!(p.extensions[0].id, 1);
    assert_eq!(p.extensions[0].payload, vec![0xaa]);
}

#[test]
fn extension_that_cannot_be_written_is_refused() {
    let mut p = packet();
    p.extension = true;
    p.extension_profile = 7;
    assert!(can_write(&p));
    assert!(remarshal(&p).is_err());
    p.extensions = vec![RtpExtension { id: 0, payload: vec![1, 2, 3] }];
    assert!(remarshal(&p).is_err());
    p.extensions = vec![RtpExtension { id: 0, payload: vec![1, 2, 3, 4] }];
    assert_eq!(
        &remarshal(&p).unwrap()[12..],
        &[0, 7, 0, 1, 1, 2, 3, 4, 1, 2, 3, 4]
    );
}

#[test]
fn lengths_that_the_writer_cannot_count_are_found() {
    let mut p = packet();
    p.extension = true;
    p.extension_profile = 0xBEDE;
    p.extensions = vec![RtpExtension { id: 1, payload: vec![] }];
    assert!(!can_write(&p));
    p.extensions = vec![RtpExtension { id: 1, payload: vec![0; 256] }];
    assert!(!can_write(&p));
    p.extensions = vec![RtpExtension { id: 1, payload: vec![0; 16] }];
    assert!(can_write(&p));
    p.extensions = vec![RtpExtension { id: 1, payload: vec![0; 65533] }];
    assert!(!can_write(&p));
    p.extension_profile = 0x1000;
    p.extensions = vec![RtpExtension { id: 1, payload: vec![] }];
    assert!(can_write(&p));
    p.extensions_padding = usize::MAX;
    assert!(!can_write(&p));
    p.extension = false;
    assert!(can_write(&p));
}

#[test]
fn receiving_flow_hands_packets_on() {
    assert!(matches!(
        receive_flow_task::<()>(ReceiveEvent::Started(Ok(()))),
        ReceiveAction::ReadPacket
    ));
    match receive_flow_task::<()>(ReceiveEvent::Packet(Ok(packet()))) {
        ReceiveAction::Forward(b) => assert_eq!(b, bytes(&PLAIN)),
        _ => panic!("not handed on"),
    }
    assert!(matches!(
        receive_flow_task::<()>(ReceiveEvent::Forwarded(true)),
        ReceiveAction::ReadPacket
    ));
    assert!(matches!(
        receive_flow_task::<()>(ReceiveEvent::Forwarded(false)),
        ReceiveAction::Finish(None)
    ));
}

#[test]
fn receiving_flow_ends_with_its_error() {
    assert!(matches!(
        receive_flow_task(ReceiveEvent::Started(Err(1u8))),
        ReceiveAction::Finish(Some(FlowError::StartReceive(1)))
    ));
    assert!(matches!(
        receive_flow_task(ReceiveEvent::Packet(Err(2u8))),
        ReceiveAction::Finish(Some(FlowError::Read(2)))
    ));
    let mut p = packet();
    p.extension = true;
    assert!(matches!(
        receive_flow_task::<u8>(ReceiveEvent::Packet(Ok(p))),
        ReceiveAction::Finish(Some(FlowError::Remarshal(_)))
    ));
    assert!(matches!(
        forward_marshalled::<u8>(Ok(bytes(&[9]))),
        ReceiveAction::Forward(b) if b[..] == [9]
    ));
}

#[test]
fn sending_flow_sends_packets_and_passes_over_the_rest() {
    assert!(matches!(
        send_flow_task::<()>(SendEvent::Started(Ok(()))),
        SendAction::ReceiveData
    ));
    match send_flow_task::<()>(SendEvent::Data(Some(bytes(&PLAIN)))) {
        SendAction::SendRtp(p) => {
            assert_eq!(p.sequence_number, 0x1234);
            assert_eq!(p.payload, vec![1, 2, 3, 4]);
        }
        _ => panic!("not sent"),
    }
    assert!(matches!(
        send_flow_task::<()>(SendEvent::Data(Some(bytes(b"no packet")))),
        SendAction::ReceiveData
    ));
    assert!(matches!(
        send_flow_task::<()>(SendEvent::Sent(Ok(()))),
        SendAction::ReceiveData
    ));
    assert!(matches!(
        send_flow_task::<()>(SendEvent::Data(None)),
        SendAction::Finish(None)
    ));
    assert!(matches!(send_parsed::<()>(Ok(packet())), SendAction::SendRtp(_)));
}

#[test]
fn sending_flow_ends_with_its_error() {
    assert!(matches!(
        send_flow_task(SendEvent::Started(Err(1u8))),
        SendAction::Finish(Some(FlowError::StartSend(1)))
    ));
    assert!(matches!(
        send_flow_task(SendEvent::Sent(Err(2u8))),
        SendAction::Finish(Some(FlowError::Send(2)))
    ));
}

#[test]
fn what_is_sent_is_what_is_received() {
    let raw = with_header(0x90, &[0xbe, 0xde, 0, 1, 0x10, 0xaa, 0, 0, 1, 2, 3]);
    let p = match send_flow_task::<()>(SendEvent::Data(Some(bytes(&raw)))) {
        SendAction::SendRtp(p) => p,
        _ => panic!("not sent"),
    };
    match receive_flow_task::<()>(ReceiveEvent::Packet(Ok(p))) {
        ReceiveAction::Forward(b) => assert_eq!(b, bytes(&raw)),
        _ => panic!("not handed on"),
    }
}

#[test]
fn plain_packet_that_is_handed_on_can_be_sent() {
    let handed_on = match receive_flow_task::<()>(ReceiveEvent::Packet(Ok(packet()))) {
        ReceiveAction::Forward(bytes) => bytes,
        _ => panic!("not handed on"),
    };
    assert!(can_parse(&handed_on));
    match send_flow_task::<()>(SendEvent::Data(Some(handed_on))) {
        SendAction::SendRtp(sent) => {
            assert_eq!(sent.payload, packet().payload);
            assert_eq!(sent.csrc, packet().csrc);
            assert_eq!(sent.sequence_number, packet().sequence_number);
        }
        _ => panic!("not sent"),
    }
}

#[test]
fn flow_errors_have_words() {
    assert_eq!(FlowError::StartReceive(1).words(), Some("failed to start receive flow"));
    assert_eq!(FlowError::StartSend(1).words(), Some("failed to start send flow"));
    assert_eq!(FlowError::Read(1).words(), None);
    assert_eq!(FlowError::Send(1).words(), None);
    let mut p = packet();
    p.extension = true;
    match receive_flow_task::<u8>(ReceiveEvent::Packet(Ok(p))) {
        ReceiveAction::Finish(Some(err)) => {
            assert_eq!(err.words(), Some("failed to remarshal packet"))
        }
        _ => panic!("does not end"),
    }
}
