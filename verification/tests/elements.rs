use bytes::Bytes;
use iroh_rtp::canceller::Canceller;
use iroh_rtp::command::SendFlowReply;
use iroh_rtp::element::{
    flow_target, invalid_peer_kind, invalid_peer_words, same_text, target_of, ErrorKind,
    PadDirection, PropertyKind, StartError,
};
use iroh_rtp::irohrtpsink;
use iroh_rtp::irohrtpsink::{after_poll, ErrorPoll, RenderAction, RenderError, RenderEvent};
use iroh_rtp::irohrtpsrc;
use iroh_rtp::irohrtpsrc::{CreateAction, CreateError, CreateEvent};
use iroh_rtp::node::NodeId;

const KEY: &str = "ae58ff8833241ac82d6ff7611046ed67b5072d142c588d0063e942d9a75502b6";

type Sink = irohrtpsink::IrohRtpSink<&'static str, u8>;
type Src = irohrtpsrc::IrohRtpSrc<&'static str, &'static str>;

#[test]
fn texts_are_compared() {
    assert!(same_text("peer", "peer"));
    assert!(!same_text("peer", "peers"));
    assert!(!same_text("peer", "Peer"));
}

#[test]
fn target_needs_a_peer() {
    let target = flow_target(KEY, 4).unwrap();
    assert_eq!(target.node_id.bytes[..2], [0xae, 0x58]);
    assert_eq!(target.flow_id, 4);
    assert!(flow_target("", 4).is_err());
    let node_id = NodeId { bytes: [3; 32] };
    assert_eq!(target_of(Ok(node_id), 9).unwrap().flow_id, 9);
}

#[test]
fn new_elements_have_no_peer_and_are_stopped() {
    let sink = Sink::default();
    assert!(sink.settings.flow_target().is_err());
    assert_eq!(sink.settings.flow_id, 0);
    assert!(matches!(sink.state, irohrtpsink::State::Stopped));
    assert!(matches!(sink.canceller, Canceller::Idle));
    let src = Src::default();
    assert!(src.settings.flow_target().is_err());
    assert!(src.settings.caps.is_none());
    assert!(matches!(src.state, irohrtpsrc::State::Stopped));
}

#[test]
fn sink_properties_read_back() {
    let mut sink = Sink::default();
    sink.settings.set_property("peer", irohrtpsink::PropertyValue::Text(KEY.to_string()));
    sink.settings.set_property("flow-id", irohrtpsink::PropertyValue::UInt(7));
    assert!(matches!(
        sink.settings.property("peer"),
        irohrtpsink::PropertyRef::Text(text) if text == KEY
    ));
    assert!(matches!(sink.settings.property("flow-id"), irohrtpsink::PropertyRef::UInt(7)));
    assert_eq!(sink.settings.flow_target().unwrap().flow_id, 7);
}

#[test]
fn src_properties_read_back() {
    let mut src = Src::default();
    let s = &mut src.settings;
    assert_eq!(
        s.set_property("peer", irohrtpsrc::PropertyValue::Text(KEY.to_string())),
        irohrtpsrc::PropertyChange::Stored
    );
    assert_eq!(
        s.set_property("flow-id", irohrtpsrc::PropertyValue::UInt(7)),
        irohrtpsrc::PropertyChange::Stored
    );
    assert_eq!(
        s.set_property("caps", irohrtpsrc::PropertyValue::Caps(Some("video"))),
        irohrtpsrc::PropertyChange::StoredCaps
    );
    assert_eq!(
        s.set_property("colour", irohrtpsrc::PropertyValue::UInt(9)),
        irohrtpsrc::PropertyChange::Unimplemented
    );
    assert!(matches!(s.property("peer"), irohrtpsrc::PropertyRef::Text(text) if text == KEY));
    assert!(matches!(s.property("flow-id"), irohrtpsrc::PropertyRef::UInt(7)));
    assert!(matches!(s.property("caps"), irohrtpsrc::PropertyRef::Caps(Some("video"))));
    s.set_property("caps", irohrtpsrc::PropertyValue::Caps(None));
    assert!(matches!(s.property("caps"), irohrtpsrc::PropertyRef::Caps(None)));
    assert_eq!(s.flow_target().unwrap().flow_id, 7);
}

#[test]
fn src_offers_its_media() {
    let mut src = Src::default();
    src.settings.set_property("caps", irohrtpsrc::PropertyValue::Caps(Some("video")));
    assert!(matches!(
        src.settings.caps(None),
        irohrtpsrc::CapsAnswer::Own(Some("video"))
    ));
    assert!(matches!(
        src.settings.caps(Some("audio")),
        irohrtpsrc::CapsAnswer::Intersection { first: "audio", second: Some("video") }
    ));
    assert!(!irohrtpsrc::is_seekable());
}

#[test]
fn sink_starts_with_its_flow() {
    let mut sink = Sink::default();
    assert!(matches!(
        sink.state.start::<_, u8>(Err("no endpoint")),
        Err(StartError::NoGlobalState("no endpoint"))
    ));
    assert!(matches!(sink.state.start::<u8, _>(Ok(Err(3u8))), Err(StartError::Flow(3))));
    assert!(matches!(sink.state, irohrtpsink::State::Stopped));
    let (error_sender, error_receiver) = async_channel::bounded(1);
    let reply = SendFlowReply { data_sender: "data", error_receiver };
    assert!(sink.state.start::<u8, u8>(Ok(Ok(reply))).is_ok());
    match &sink.state {
        irohrtpsink::State::Started(started) => {
            assert_eq!(started.data_sender, "data");
            assert!(error_sender.try_send(4).is_ok());
            assert_eq!(started.error_receiver.try_recv(), Ok(4));
        }
        irohrtpsink::State::Stopped => panic!("not started"),
    }
    sink.state.stop();
    assert!(matches!(sink.state, irohrtpsink::State::Stopped));
}

#[test]
fn src_starts_with_its_flow() {
    let mut src = Src::default();
    assert!(matches!(
        src.state.start::<_, u8>(Err("no endpoint")),
        Err(StartError::NoGlobalState("no endpoint"))
    ));
    assert!(matches!(src.state.start::<u8, _>(Ok(Err(3u8))), Err(StartError::Flow(3))));
    assert!(src.state.start::<u8, u8>(Ok(Ok("packets"))).is_ok());
    assert!(matches!(
        &src.state,
        irohrtpsrc::State::Started(started) if started.receiver == "packets"
    ));
    src.state.stop();
    assert!(matches!(src.state, irohrtpsrc::State::Stopped));
}

#[test]
fn sink_renders_a_buffer() {
    let mut sink = Sink::default();
    assert!(matches!(
        sink.state.render(RenderEvent::Begin),
        RenderAction::Fail(RenderError::NotStarted)
    ));
    let (error_sender, error_receiver) = async_channel::bounded(1);
    let reply = SendFlowReply { data_sender: "data", error_receiver };
    let _ = sink.state.start::<u8, u8>(Ok(Ok(reply)));
    assert!(matches!(sink.state.render(RenderEvent::Begin), RenderAction::MapBuffer));
    assert!(error_sender.try_send(5).is_ok());
    assert!(matches!(
        sink.state.render(RenderEvent::Begin),
        RenderAction::Fail(RenderError::FlowFailed(5))
    ));
    assert!(matches!(sink.state.render(RenderEvent::Begin), RenderAction::MapBuffer));
    drop(error_sender);
    assert!(matches!(sink.state.render(RenderEvent::Begin), RenderAction::MapBuffer));
    match sink.state.render(RenderEvent::Mapped(Some(vec![1, 2, 3]))) {
        RenderAction::Send(bytes) => assert_eq!(bytes, Bytes::from_static(&[1, 2, 3])),
        _ => panic!("not sent"),
    }
    assert!(matches!(
        sink.state.render(RenderEvent::Mapped(None)),
        RenderAction::Fail(RenderError::MapFailed)
    ));
    assert!(matches!(
        sink.state.render(RenderEvent::Sent(true)),
        RenderAction::Done
    ));
    assert!(matches!(
        sink.state.render(RenderEvent::Sent(false)),
        RenderAction::Fail(RenderError::ConnectionLost)
    ));
}

#[test]
fn failed_flow_takes_no_buffer() {
    assert!(matches!(after_poll::<u8>(ErrorPoll::Empty), RenderAction::MapBuffer));
    assert!(matches!(after_poll::<u8>(ErrorPoll::Closed), RenderAction::MapBuffer));
    assert!(matches!(
        after_poll(ErrorPoll::Failed(5u8)),
        RenderAction::Fail(RenderError::FlowFailed(5))
    ));
}

#[test]
fn src_creates_a_buffer() {
    let mut src = Src::default();
    assert!(matches!(
        src.state.create::<u8>(CreateEvent::Begin),
        CreateAction::Fail(CreateError::NotStarted)
    ));
    let _ = src.state.start::<u8, u8>(Ok(Ok("packets")));
    assert!(matches!(src.state.create::<u8>(CreateEvent::Begin), CreateAction::Receive));
    match src.state.create::<u8>(CreateEvent::Received(Some(Ok(Bytes::from_static(&[4]))))) {
        CreateAction::Push(bytes) => assert_eq!(bytes, Bytes::from_static(&[4])),
        _ => panic!("no buffer"),
    }
    assert!(matches!(
        src.state.create(CreateEvent::Received(Some(Err(6u8)))),
        CreateAction::Fail(CreateError::FlowFailed(6))
    ));
    assert!(matches!(
        src.state.create::<u8>(CreateEvent::Received(None)),
        CreateAction::Fail(CreateError::ConnectionLost)
    ));
}

#[test]
fn elements_present_themselves() {
    let sink = irohrtpsink::metadata();
    assert_eq!(sink.long_name, "Iroh RTP sink");
    assert_eq!(sink.classification, "Source/Network/QUIC");
    assert_eq!(sink.description, "Send data over the network via Iroh");
    assert_eq!(sink.author, "Frando <franz@n0.computer>");
    let src = irohrtpsrc::metadata();
    assert_eq!(src.long_name, "Iroh RTP source");
    assert_eq!(src.classification, "Source/Network/QUIC");
    assert_eq!(src.description, "Receive data over the network via Iroh");
    assert_eq!(src.author, "Frando <franz@n0.computer>");
    let pads = irohrtpsink::pad_templates();
    assert_eq!(pads.len(), 1);
    assert_eq!((pads[0].name, pads[0].direction), ("sink", PadDirection::Sink));
    assert_eq!(pads[0].media_type, "application/x-rtp");
    let pads = irohrtpsrc::pad_templates();
    assert_eq!(pads.len(), 1);
    assert_eq!((pads[0].name, pads[0].direction), ("src", PadDirection::Src));
    assert_eq!(pads[0].media_type, "application/x-rtp");
    let properties = irohrtpsink::properties();
    assert_eq!(properties.len(), 2);
    assert_eq!((properties[0].name, properties[0].kind), ("peer", PropertyKind::Text));
    assert_eq!((properties[1].name, properties[1].kind), ("flow-id", PropertyKind::UInt));
    assert!(properties.iter().all(|p| p.readable && p.writable));
    let properties = irohrtpsrc::properties();
    assert_eq!(properties.len(), 3);
    assert_eq!((properties[2].name, properties[2].kind), ("caps", PropertyKind::Caps));
    assert_eq!(properties[2].nick, "caps");
    assert!(properties.iter().all(|p| p.readable && p.writable));
    assert_eq!(properties[2].blurb, "The caps of the source pad");
}

#[test]
fn element_errors_have_words() {
    assert_eq!(invalid_peer_words(), "missing or invalid peer node id: ");
    assert_eq!(invalid_peer_kind(), ErrorKind::ResourceFailed);
    let err: StartError<u8, u8> = StartError::Flow(1);
    assert_eq!(err.words(PadDirection::Src), "failed to init recv eflow: ");
    assert_eq!(err.words(PadDirection::Sink), "");
    assert_eq!(err.kind(), ErrorKind::ResourceFailed);
    assert_eq!(RenderError::<u8>::NotStarted.words(), "Not started yet");
    assert_eq!(RenderError::FlowFailed(1u8).words(), "Send flow failed: ");
    assert_eq!(RenderError::<u8>::MapFailed.words(), "Failed to map buffer");
    assert_eq!(RenderError::<u8>::ConnectionLost.words(), "Failed to send: connection lost");
    assert_eq!(RenderError::<u8>::MapFailed.kind(), ErrorKind::CoreFailed);
    assert_eq!(
        CreateError::<u8>::NotStarted.words(),
        "Could not get buffer from source pad: not started"
    );
    assert_eq!(
        CreateError::<u8>::ConnectionLost.words(),
        "Could not get buffer from source pad: connection lost"
    );
    assert_eq!(CreateError::FlowFailed(1u8).words(), "Could not get buffer from source pad: ");
}
