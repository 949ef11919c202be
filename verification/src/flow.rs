//! The tasks that carry the packets of a flow.

use crate::octets::octets;
use crate::rtp::{
    announces_extension, elements_fit, holds_packet, packet_len, parse, plain, remarshal,
    remarshalled, rtp_parsed, tidy, unwritable, writer_can_count, RtpPacket,
};
use bytes::Bytes;
use vstd::prelude::*;

verus! {

/// Why a flow has ended.
pub enum FlowError<E> {
    /// The receiving flow could not be started.
    StartReceive(E),
    /// The sending flow could not be started.
    StartSend(E),
    /// No packet could be read from the flow.
    Read(E),
    /// A packet could not be written for the media element.
    Remarshal(webrtc_util::Error),
    /// A packet could not be sent on the flow.
    Send(E),
}

impl<E> FlowError<E> {
    /// The words of the report, before those of the error that it carries. An
    /// error of a flow that was started speaks for itself.
    pub fn words(&self) -> (words: Option<&'static str>)
        ensures
            self is StartReceive ==> (words matches Some(w) && w@
                == "failed to start receive flow"@),
            self is StartSend ==> (words matches Some(w) && w@ == "failed to start send flow"@),
            self is Remarshal ==> (words matches Some(w) && w@ == "failed to remarshal packet"@),
            self is Read || self is Send ==> words is None,
    {
        match self {
            FlowError::StartReceive(_) => Some("failed to start receive flow"),
            FlowError::StartSend(_) => Some("failed to start send flow"),
            FlowError::Remarshal(_) => Some("failed to remarshal packet"),
            FlowError::Read(_) => None,
            FlowError::Send(_) => None,
        }
    }
}

/// What has happened to a receiving flow.
pub enum ReceiveEvent<E> {
    /// The flow was started, or could not be.
    Started(Result<(), E>),
    /// A packet came, or none can come any more.
    Packet(Result<RtpPacket, E>),
    /// The media element has been given the packet, or is gone.
    Forwarded(bool),
}

/// What a receiving flow does next.
pub enum ReceiveAction<E> {
    /// Read the next packet.
    ReadPacket,
    /// Give the bytes to the media element.
    Forward(Bytes),
    /// End, and give the error, if there is one, to the media element.
    Finish(Option<FlowError<E>>),
}

/// What has happened to a sending flow.
pub enum SendEvent<E> {
    /// The flow was started, or could not be.
    Started(Result<(), E>),
    /// The media element gives bytes, or is gone.
    Data(Option<Bytes>),
    /// The packet was sent, or could not be.
    Sent(Result<(), E>),
}

/// What a sending flow does next.
pub enum SendAction<E> {
    /// Wait for bytes from the media element.
    ReceiveData,
    /// Send the packet.
    SendRtp(RtpPacket),
    /// End, and give the error, if there is one, to the media element.
    Finish(Option<FlowError<E>>),
}

/// Gives a packet that was written to the media element, and ends the flow
/// where it was not.
pub fn forward_marshalled<E>(marshalled: Result<Bytes, webrtc_util::Error>) -> (action:
    ReceiveAction<E>)
    ensures
        action == match marshalled {
            Ok(bytes) => ReceiveAction::Forward(bytes),
            Err(err) => ReceiveAction::<E>::Finish(Some(FlowError::Remarshal(err))),
        },
{
    match marshalled {
        Ok(bytes) => ReceiveAction::Forward(bytes),
        Err(err) => ReceiveAction::Finish(Some(FlowError::Remarshal(err))),
    }
}

/// Sends a packet that was read, and waits for the next bytes where none was.
pub fn send_parsed<E>(parsed: Result<RtpPacket, webrtc_util::Error>) -> (action: SendAction<E>)
    ensures
        action == match parsed {
            Ok(packet) => SendAction::SendRtp(packet),
            Err(_) => SendAction::<E>::ReceiveData,
        },
{
    match parsed {
        Ok(packet) => SendAction::SendRtp(packet),
        Err(_) => SendAction::ReceiveData,
    }
}

/// Decides what a receiving flow does next. It reads packet after packet and
/// hands each on as bytes, until an error comes or the media element is gone. What
/// it hands on for a plain packet a sending flow can be given, and sends as that
/// packet.
pub fn receive_flow_task<E>(event: ReceiveEvent<E>) -> (action: ReceiveAction<E>)
    requires
        event matches ReceiveEvent::Packet(Ok(packet)) ==> writer_can_count(packet@),
    ensures
        event matches ReceiveEvent::Started(Ok(())) ==> action == ReceiveAction::<E>::ReadPacket,
        event matches ReceiveEvent::Started(Err(err)) ==> action == ReceiveAction::Finish(
            Some(FlowError::StartReceive(err)),
        ),
        event matches ReceiveEvent::Packet(Err(err)) ==> action == ReceiveAction::Finish(
            Some(FlowError::Read(err)),
        ),
        event matches ReceiveEvent::Packet(Ok(packet)) ==> if unwritable(packet@) {
            action matches ReceiveAction::Finish(Some(FlowError::Remarshal(_)))
        } else {
            &&& action matches ReceiveAction::Forward(bytes)
            &&& octets(bytes) == remarshalled(packet@)
            &&& octets(bytes).len() == packet_len(packet@)
            &&& plain(packet@) ==> elements_fit(octets(bytes)) && rtp_parsed(octets(bytes)) == Some(
                packet@,
            )
        },
        event matches ReceiveEvent::Forwarded(given) ==> action == if given {
            ReceiveAction::<E>::ReadPacket
        } else {
            ReceiveAction::<E>::Finish(None)
        },
{
    match event {
        ReceiveEvent::Started(Ok(())) => ReceiveAction::ReadPacket,
        ReceiveEvent::Started(Err(err)) => ReceiveAction::Finish(Some(FlowError::StartReceive(err))),
        ReceiveEvent::Packet(Ok(packet)) => forward_marshalled(remarshal(&packet)),
        ReceiveEvent::Packet(Err(err)) => ReceiveAction::Finish(Some(FlowError::Read(err))),
        ReceiveEvent::Forwarded(given) => if given {
            ReceiveAction::ReadPacket
        } else {
            ReceiveAction::Finish(None)
        },
    }
}

/// Decides what a sending flow does next. It reads the bytes that the media
/// element gives as packets, passes over those that are none, and sends the
/// others, until an error comes or the media element is gone. A tidy packet is
/// sent, and what the receiving flow hands on for it are the bytes that were
/// given.
pub fn send_flow_task<E>(event: SendEvent<E>) -> (action: SendAction<E>)
    requires
        event matches SendEvent::Data(Some(bytes)) ==> elements_fit(octets(bytes)),
    ensures
        event matches SendEvent::Started(Ok(())) ==> action == SendAction::<E>::ReceiveData,
        event matches SendEvent::Started(Err(err)) ==> action == SendAction::Finish(
            Some(FlowError::StartSend(err)),
        ),
        event matches SendEvent::Data(None) ==> action == SendAction::<E>::Finish(None),
        event matches SendEvent::Data(Some(bytes)) ==> match rtp_parsed(octets(bytes)) {
            Some(p) => {
                &&& action matches SendAction::SendRtp(packet)
                &&& packet@ == p
                &&& !p.extension ==> plain(p)
                &&& tidy(octets(bytes)) ==> remarshalled(p) == octets(bytes) && !unwritable(p)
                &&& tidy(octets(bytes)) && octets(bytes).len() <= isize::MAX / 2
                    ==> writer_can_count(p)
            },
            None => action == SendAction::<E>::ReceiveData,
        },
        event matches SendEvent::Data(Some(bytes)) ==> (tidy(octets(bytes)) ==> action is SendRtp),
        event matches SendEvent::Data(Some(bytes)) ==> (octets(bytes).len() < 12 ==> action
            == SendAction::<E>::ReceiveData),
        event matches SendEvent::Data(Some(bytes)) ==> (octets(bytes).len() >= 12
            && !announces_extension(octets(bytes)[0]) ==> (action is SendRtp <==> holds_packet(
            octets(bytes),
        ))),
        event matches SendEvent::Sent(Ok(())) ==> action == SendAction::<E>::ReceiveData,
        event matches SendEvent::Sent(Err(err)) ==> action == SendAction::Finish(
            Some(FlowError::Send(err)),
        ),
{
    match event {
        SendEvent::Started(Ok(())) => SendAction::ReceiveData,
        SendEvent::Started(Err(err)) => SendAction::Finish(Some(FlowError::StartSend(err))),
        SendEvent::Data(Some(bytes)) => send_parsed(parse(bytes)),
        SendEvent::Data(None) => SendAction::Finish(None),
        SendEvent::Sent(Ok(())) => SendAction::ReceiveData,
        SendEvent::Sent(Err(err)) => SendAction::Finish(Some(FlowError::Send(err))),
    }
}

/// What a receiving flow hands on for a plain packet, a sending flow sends as that
/// packet.
pub proof fn law_received_packet_can_be_sent_on<E, F>(
    packet: RtpPacket,
    handed_on: Bytes,
    action: SendAction<F>,
)
    requires
        plain(packet@),
        !unwritable(packet@),
        writer_can_count(packet@),
        call_ensures(
            receive_flow_task::<E>,
            (ReceiveEvent::Packet(Ok(packet)),),
            ReceiveAction::Forward(handed_on),
        ),
        call_ensures(send_flow_task::<F>, (SendEvent::Data(Some(handed_on)),), action),
    ensures
        action matches SendAction::SendRtp(sent) && sent@ == packet@,
{
}

/// What is sent is what is received: a tidy packet that a media element gives to
/// its sending flow is sent, and the receiving flow that gets what was sent hands
/// the same bytes on.
pub proof fn law_sent_is_received<E, F>(
    data: Bytes,
    sending: SendAction<F>,
    arrived: RtpPacket,
    receiving: ReceiveAction<E>,
)
    requires
        tidy(octets(data)),
        octets(data).len() <= isize::MAX / 2,
        call_ensures(send_flow_task::<F>, (SendEvent::Data(Some(data)),), sending),
        sending matches SendAction::SendRtp(sent) ==> arrived@ == sent@,
        call_ensures(receive_flow_task::<E>, (ReceiveEvent::Packet(Ok(arrived)),), receiving),
    ensures
        sending is SendRtp,
        receiving matches ReceiveAction::Forward(handed_on) && octets(handed_on) == octets(data),
{
}

/// A receiving flow ends without an error exactly where the media element is gone,
/// ends with the very error that came, and reads on otherwise.
pub proof fn law_receiving_flow_ends<E>(event: ReceiveEvent<E>, action: ReceiveAction<E>, err: E)
    requires
        event matches ReceiveEvent::Packet(Ok(packet)) ==> writer_can_count(packet@),
        call_ensures(receive_flow_task::<E>, (event,), action),
    ensures
        action == ReceiveAction::<E>::Finish(None) <==> event == ReceiveEvent::<E>::Forwarded(false),
        action == ReceiveAction::Finish(Some(FlowError::StartReceive(err))) <==> event
            == ReceiveEvent::Started(Err::<(), E>(err)),
        action == ReceiveAction::Finish(Some(FlowError::Read(err))) <==> event
            == ReceiveEvent::Packet(Err::<RtpPacket, E>(err)),
        action is ReadPacket <==> (event matches ReceiveEvent::Started(Ok(_))) || event
            == ReceiveEvent::<E>::Forwarded(true),
        action is Forward ==> event is Packet,
{
}

/// A sending flow ends without an error exactly where the media element is gone,
/// ends with the very error that came, and never ends over bytes that are no
/// packet.
pub proof fn law_sending_flow_ends<E>(event: SendEvent<E>, action: SendAction<E>, err: E)
    requires
        event matches SendEvent::Data(Some(bytes)) ==> elements_fit(octets(bytes)),
        call_ensures(send_flow_task::<E>, (event,), action),
    ensures
        action == SendAction::<E>::Finish(None) <==> event == SendEvent::<E>::Data(None),
        action == SendAction::Finish(Some(FlowError::StartSend(err))) <==> event
            == SendEvent::Started(Err::<(), E>(err)),
        action == SendAction::Finish(Some(FlowError::Send(err))) <==> event == SendEvent::Sent(
            Err::<(), E>(err),
        ),
        event matches SendEvent::Data(Some(bytes)) ==> !(action is Finish) && (action is SendRtp
            <==> rtp_parsed(octets(bytes)) is Some),
        event matches SendEvent::Started(Ok(_)) ==> action is ReceiveData,
        event matches SendEvent::Sent(Ok(_)) ==> action is ReceiveData,
{
}

} // verus!
