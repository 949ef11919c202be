//! The element that sends the packets of a pipeline to a remote node.

use crate::canceller::Canceller;
use crate::command::SendFlowReply;
use crate::element::{
    flow_target, same_text, ElementMetadata, ErrorKind, FlowTarget, PadDirection, PadTemplate, PropertyKind,
    PropertySpec, StartError,
};
use crate::node::parsed_node_id;
use crate::octets::{bytes_from_vec, octets};
use async_channel::{Receiver, TryRecvError};
use bytes::Bytes;
use iroh_base::KeyParsingError;
use vstd::prelude::*;

verus! {

/// What a user sets on the element.
pub struct Settings {
    pub peer: String,
    pub flow_id: u32,
}

/// What a user has set on the element.
pub struct SettingsView {
    pub peer: Seq<char>,
    pub flow_id: u32,
}

/// A value that a property is given.
pub enum PropertyValue {
    Text(String),
    UInt(u32),
}

/// A value that a property has.
pub enum PropertyRef<'a> {
    Text(&'a str),
    UInt(u32),
}

/// What a property holds.
pub enum PropertyContent {
    Text(Seq<char>),
    UInt(u32),
}

impl View for Settings {
    type V = SettingsView;

    open spec fn view(&self) -> SettingsView {
        SettingsView { peer: self.peer@, flow_id: self.flow_id }
    }
}

impl View for PropertyValue {
    type V = PropertyContent;

    open spec fn view(&self) -> PropertyContent {
        match self {
            PropertyValue::Text(text) => PropertyContent::Text(text@),
            PropertyValue::UInt(number) => PropertyContent::UInt(*number),
        }
    }
}

impl<'a> View for PropertyRef<'a> {
    type V = PropertyContent;

    open spec fn view(&self) -> PropertyContent {
        match self {
            PropertyRef::Text(text) => PropertyContent::Text(text@),
            PropertyRef::UInt(number) => PropertyContent::UInt(*number),
        }
    }
}

/// The element has a property of this name.
pub open spec fn is_property(name: Seq<char>) -> bool {
    name == "peer"@ || name == "flow-id"@
}

/// The property of this name takes this value.
pub open spec fn takes(name: Seq<char>, value: PropertyContent) -> bool {
    ||| name == "peer"@ && value is Text
    ||| name == "flow-id"@ && value is UInt
}

/// What the property of this name holds.
pub open spec fn property_of(settings: SettingsView, name: Seq<char>) -> PropertyContent {
    if name == "peer"@ {
        PropertyContent::Text(settings.peer)
    } else {
        PropertyContent::UInt(settings.flow_id)
    }
}

/// The settings after the property of this name was given a value.
pub open spec fn with_property(
    settings: SettingsView,
    name: Seq<char>,
    value: PropertyContent,
) -> SettingsView {
    if name == "peer"@ {
        SettingsView { peer: value->Text_0, ..settings }
    } else {
        SettingsView { flow_id: value->UInt_0, ..settings }
    }
}

/// A property that was given a value has that value, and the other has the one
/// that it had.
pub proof fn law_property_reads_back(
    settings: SettingsView,
    name: Seq<char>,
    value: PropertyContent,
    other: Seq<char>,
)
    requires
        takes(name, value),
        is_property(other),
        other != name,
    ensures
        property_of(with_property(settings, name, value), name) == value,
        property_of(with_property(settings, name, value), other) == property_of(settings, other),
{
    lemma_names_differ();
}

proof fn lemma_names_differ()
    ensures
        "peer"@ != "flow-id"@,
{
    reveal_strlit("peer");
    reveal_strlit("flow-id");
    assert("peer"@.len() != "flow-id"@.len());
}

impl Default for Settings {
    fn default() -> (settings: Self)
        ensures
            settings@ == (SettingsView { peer: Seq::empty(), flow_id: 0 }),
    {
        Settings { peer: String::new(), flow_id: 0 }
    }
}

impl Settings {
    /// Gives a property a value.
    pub fn set_property(&mut self, name: &str, value: PropertyValue)
        requires
            takes(name@, value@),
        ensures
            final(self)@ == with_property(old(self)@, name@, value@),
    {
        proof {
            lemma_names_differ();
        }
        if same_text(name, "peer") {
            if let PropertyValue::Text(peer) = value {
                self.peer = peer;
            }
        } else {
            if let PropertyValue::UInt(flow_id) = value {
                self.flow_id = flow_id;
            }
        }
    }

    /// What a property holds.
    pub fn property(&self, name: &str) -> (value: PropertyRef<'_>)
        requires
            is_property(name@),
        ensures
            value@ == property_of(self@, name@),
    {
        if same_text(name, "peer") {
            PropertyRef::Text(self.peer.as_str())
        } else {
            PropertyRef::UInt(self.flow_id)
        }
    }

    /// The flow that the element is to start, or why its peer is none.
    pub fn flow_target(&self) -> (target: Result<FlowTarget, KeyParsingError>)
        ensures
            target matches Ok(t) ==> parsed_node_id(self@.peer) == Some(t.node_id@) && t.flow_id
                == self@.flow_id,
            target is Err ==> parsed_node_id(self@.peer) is None,
            self@.peer.len() == 0 ==> target is Err,
    {
        flow_target(self.peer.as_str(), self.flow_id)
    }
}

/// The end of a channel from which its messages are taken.
#[verifier::external_type_specification]
#[verifier::external_body]
#[verifier::reject_recursive_types(T)]
pub struct ExReceiver<T>(Receiver<T>);

/// The flow that a started element feeds.
#[verifier::reject_recursive_types(E)]
pub struct Started<D, E> {
    pub data_sender: D,
    pub error_receiver: Receiver<E>,
}

/// Whether the element is started. Packets go to `D`; the flow fails with `E`.
#[verifier::reject_recursive_types(E)]
pub enum State<D, E> {
    Stopped,
    Started(Started<D, E>),
}

/// What a look at the flow's error has shown.
pub enum ErrorPoll<E> {
    /// The flow has failed.
    Failed(E),
    /// No error has come.
    Empty,
    /// No error can come any more.
    Closed,
}

/// What has happened to a buffer that the pipeline hands over.
pub enum RenderEvent {
    /// It was handed over.
    Begin,
    /// Its bytes were read, or could not be.
    Mapped(Option<Vec<u8>>),
    /// Its bytes were given to the flow, or the flow is gone.
    Sent(bool),
}

/// Why a buffer was not sent.
pub enum RenderError<E> {
    NotStarted,
    FlowFailed(E),
    MapFailed,
    ConnectionLost,
}

impl<E> RenderError<E> {
    /// The words of the report, before those of the error that it carries, if
    /// any.
    pub fn words(&self) -> (words: &'static str)
        ensures
            words@ == match self {
                RenderError::NotStarted => "Not started yet"@,
                RenderError::FlowFailed(_) => "Send flow failed: "@,
                RenderError::MapFailed => "Failed to map buffer"@,
                RenderError::ConnectionLost => "Failed to send: connection lost"@,
            },
    {
        match self {
            RenderError::NotStarted => "Not started yet",
            RenderError::FlowFailed(_) => "Send flow failed: ",
            RenderError::MapFailed => "Failed to map buffer",
            RenderError::ConnectionLost => "Failed to send: connection lost",
        }
    }

    /// What the report is filed under.
    pub fn kind(&self) -> (kind: ErrorKind)
        ensures
            kind == ErrorKind::CoreFailed,
    {
        ErrorKind::CoreFailed
    }
}

/// What to do next with a buffer.
pub enum RenderAction<E> {
    /// Read the bytes of the buffer.
    MapBuffer,
    /// Give the bytes to the flow.
    Send(Bytes),
    /// Report why it was not sent.
    Fail(RenderError<E>),
    /// Report that it was sent.
    Done,
}

/// `async_channel::Receiver::try_recv`: takes the next message of the channel,
/// if one is there. What is there, the other end of the channel decides, so
/// nothing is promised. `shown_by` is what a call of it makes known.
#[verifier::external_body]
fn try_recv<E>(receiver: &Receiver<E>) -> (poll: ErrorPoll<E>)
{
    match receiver.try_recv() {
        Ok(err) => ErrorPoll::Failed(err),
        Err(TryRecvError::Empty) => ErrorPoll::Empty,
        Err(TryRecvError::Closed) => ErrorPoll::Closed,
    }
}

/// This is a possible outcome of a look at the channel. Only a look that shows it
/// makes this known.
pub closed spec fn shown_by<E>(receiver: Receiver<E>, poll: ErrorPoll<E>) -> bool {
    call_ensures(try_recv::<E>, (&receiver,), poll)
}

/// What to do with a buffer once the flow's error was looked at: it is read
/// unless the flow has failed.
pub open spec fn polled<E>(poll: ErrorPoll<E>) -> RenderAction<E> {
    match poll {
        ErrorPoll::Failed(err) => RenderAction::Fail(RenderError::FlowFailed(err)),
        _ => RenderAction::MapBuffer,
    }
}

/// Decides what to do with a buffer once the flow's error was looked at.
pub fn after_poll<E>(poll: ErrorPoll<E>) -> (action: RenderAction<E>)
    ensures
        action == polled(poll),
{
    match poll {
        ErrorPoll::Failed(err) => RenderAction::Fail(RenderError::FlowFailed(err)),
        _ => RenderAction::MapBuffer,
    }
}

impl<D, E> Default for State<D, E> {
    fn default() -> (state: Self)
        ensures
            state == State::<D, E>::Stopped,
    {
        State::Stopped
    }
}

impl<D, E> State<D, E> {
    /// Starts the element with the flow that it was given, or tells why it was
    /// given none.
    pub fn start<G, F>(
        &mut self,
        answer: Result<Result<SendFlowReply<D, Receiver<E>>, F>, G>,
    ) -> (started: Result<(), StartError<G, F>>)
        requires
            *old(self) is Stopped,
        ensures
            answer matches Ok(Ok(reply)) ==> started == Ok::<(), StartError<G, F>>(())
                && *final(self) == State::Started(
                (Started { data_sender: reply.data_sender, error_receiver: reply.error_receiver }),
            ),
            answer matches Ok(Err(err)) ==> started == Err::<(), StartError<G, F>>(
                StartError::Flow(err),
            ) && *final(self) == *old(self),
            answer matches Err(err) ==> started == Err::<(), StartError<G, F>>(
                StartError::NoGlobalState(err),
            ) && *final(self) == *old(self),
    {
        match answer {
            Ok(Ok(reply)) => {
                *self = State::Started(
                    Started {
                        data_sender: reply.data_sender,
                        error_receiver: reply.error_receiver,
                    },
                );
                Ok(())
            },
            Ok(Err(err)) => Err(StartError::Flow(err)),
            Err(err) => Err(StartError::NoGlobalState(err)),
        }
    }

    /// Stops the element.
    pub fn stop(&mut self)
        ensures
            *final(self) == State::<D, E>::Stopped,
    {
        *self = State::Stopped;
    }

    /// Decides what to do next with a buffer that the pipeline hands over. A
    /// started element looks at its flow's error first; `after_poll` says what
    /// it does for each outcome.
    pub fn render(&self, event: RenderEvent) -> (action: RenderAction<E>)
        ensures
            event is Begin && self is Stopped ==> action == RenderAction::<E>::Fail(
                RenderError::NotStarted,
            ),
            event is Begin ==> (self matches State::Started(started) ==> exists|poll: ErrorPoll<E>|
                #[trigger] shown_by(started.error_receiver, poll) && action == polled(poll)),
            event matches RenderEvent::Mapped(Some(data)) ==> (action matches RenderAction::Send(
                bytes,
            ) && octets(bytes) == data@),
            event matches RenderEvent::Mapped(None) ==> action == RenderAction::<E>::Fail(
                RenderError::MapFailed,
            ),
            event matches RenderEvent::Sent(sent) ==> action == if sent {
                RenderAction::<E>::Done
            } else {
                RenderAction::<E>::Fail(RenderError::ConnectionLost)
            },
    {
        match event {
            RenderEvent::Begin => match self {
                State::Stopped => RenderAction::Fail(RenderError::NotStarted),
                State::Started(started) => {
                    let look = try_recv::<E>;
                    let poll = look(&started.error_receiver);
                    assert(shown_by(started.error_receiver, poll));
                    after_poll(poll)
                },
            },
            RenderEvent::Mapped(Some(data)) => RenderAction::Send(bytes_from_vec(data)),
            RenderEvent::Mapped(None) => RenderAction::Fail(RenderError::MapFailed),
            RenderEvent::Sent(sent) => if sent {
                RenderAction::Done
            } else {
                RenderAction::Fail(RenderError::ConnectionLost)
            },
        }
    }
}

/// The element.
#[verifier::reject_recursive_types(E)]
pub struct IrohRtpSink<D, E> {
    pub settings: Settings,
    pub state: State<D, E>,
    pub canceller: Canceller,
}

impl<D, E> Default for IrohRtpSink<D, E> {
    fn default() -> (sink: Self)
        ensures
            sink.settings@ == (SettingsView { peer: Seq::empty(), flow_id: 0 }),
            sink.state == State::<D, E>::Stopped,
            sink.canceller == Canceller::Idle,
    {
        IrohRtpSink {
            settings: Settings::default(),
            state: State::default(),
            canceller: Canceller::default(),
        }
    }
}

/// How the element presents itself.
pub fn metadata() -> (metadata: ElementMetadata)
    ensures
        metadata.long_name@ == "Iroh RTP sink"@,
        metadata.classification@ == "Source/Network/QUIC"@,
        metadata.description@ == "Send data over the network via Iroh"@,
        metadata.author@ == "Frando <franz@n0.computer>"@,
{
    ElementMetadata {
        long_name: "Iroh RTP sink",
        classification: "Source/Network/QUIC",
        description: "Send data over the network via Iroh",
        author: "Frando <franz@n0.computer>",
    }
}

/// The pads that the element has: one that takes RTP packets.
pub fn pad_templates() -> (templates: Vec<PadTemplate>)
    ensures
        templates@.len() == 1,
        templates@[0].name@ == "sink"@,
        templates@[0].direction == PadDirection::Sink,
        templates@[0].media_type@ == "application/x-rtp"@,
{
    vec![
        PadTemplate {
            name: "sink",
            direction: PadDirection::Sink,
            media_type: "application/x-rtp",
        },
    ]
}

/// The properties that the element has.
pub fn properties() -> (properties: Vec<PropertySpec>)
    ensures
        properties@.len() == 2,
        forall|name: Seq<char>|
            is_property(name) <==> exists|i: int|
                0 <= i < properties@.len() && (#[trigger] properties@[i]).name@ == name,
        properties@[0].name@ == "peer"@,
        properties@[0].nick@ == "Peer node id"@,
        properties@[0].blurb@ == "Node id of peer to connect with"@,
        properties@[0].kind == PropertyKind::Text,
        properties@[0].readable && properties@[0].writable,
        properties@[1].name@ == "flow-id"@,
        properties@[1].nick@ == "Flow id"@,
        properties@[1].blurb@ == "Flow id to receive data on"@,
        properties@[1].kind == PropertyKind::UInt,
        properties@[1].readable && properties@[1].writable,
{
    let properties = vec![
        PropertySpec {
            name: "peer",
            nick: "Peer node id",
            blurb: "Node id of peer to connect with",
            kind: PropertyKind::Text,
            readable: true,
            writable: true,
        },
        PropertySpec {
            name: "flow-id",
            nick: "Flow id",
            blurb: "Flow id to receive data on",
            kind: PropertyKind::UInt,
            readable: true,
            writable: true,
        },
    ];
    assert forall|name: Seq<char>| is_property(name) implies exists|i: int|
        0 <= i < properties@.len() && (#[trigger] properties@[i]).name@ == name by {
        assert(properties@[0].name@ == name || properties@[1].name@ == name);
    }
    properties
}

/// What a user sets is what the element has: the flow and the peer are those that
/// were given, and setting the one leaves the other.
pub proof fn law_settings_are_what_was_set(settings: SettingsView, peer: Seq<char>, flow_id: u32)
    ensures
        with_property(settings, "flow-id"@, PropertyContent::UInt(flow_id)).flow_id == flow_id,
        with_property(settings, "flow-id"@, PropertyContent::UInt(flow_id)).peer == settings.peer,
        with_property(settings, "peer"@, PropertyContent::Text(peer)).peer == peer,
        with_property(settings, "peer"@, PropertyContent::Text(peer)).flow_id == settings.flow_id,
        property_of(settings, "flow-id"@) == PropertyContent::UInt(settings.flow_id),
        property_of(settings, "peer"@) == PropertyContent::Text(settings.peer),
{
    lemma_names_differ();
}

/// The flow that the element starts is the one that was set: on the flow number
/// that was given, with the node that the given peer spells.
pub proof fn law_flow_started_is_the_one_set(
    before: SettingsView,
    peer: Seq<char>,
    flow_id: u32,
    settings: Settings,
    target: Result<FlowTarget, KeyParsingError>,
)
    requires
        settings@ == with_property(
            with_property(before, "peer"@, PropertyContent::Text(peer)),
            "flow-id"@,
            PropertyContent::UInt(flow_id),
        ) || settings@ == with_property(
            with_property(before, "flow-id"@, PropertyContent::UInt(flow_id)),
            "peer"@,
            PropertyContent::Text(peer),
        ),
        call_ensures(Settings::flow_target, (&settings,), target),
    ensures
        target matches Ok(t) ==> t.flow_id == flow_id && parsed_node_id(peer) == Some(t.node_id@),
        target is Ok <==> parsed_node_id(peer) is Some,
{
    lemma_names_differ();
}

/// The element has the properties `peer`, a text, and `flow-id`, a number, and no
/// others.
pub proof fn law_properties_are_peer_and_flow_id(name: Seq<char>, value: PropertyContent)
    ensures
        is_property(name) <==> exists|v: PropertyContent| takes(name, v),
        takes("peer"@, value) <==> value is Text,
        takes("flow-id"@, value) <==> value is UInt,
        takes(name, value) ==> name == "peer"@ || name == "flow-id"@,
{
    lemma_names_differ();
    assert(takes("peer"@, PropertyContent::Text(Seq::empty())));
    assert(takes("flow-id"@, PropertyContent::UInt(0)));
}

/// A buffer is not sent exactly where the flow has failed, and the report carries
/// the flow's error.
pub proof fn law_failed_flow_takes_no_buffer<E>(poll: ErrorPoll<E>, err: E)
    ensures
        polled(poll) == RenderAction::<E>::Fail(RenderError::FlowFailed(err)) <==> poll
            == ErrorPoll::Failed(err),
        polled(poll) is MapBuffer <==> !(poll is Failed),
{
}

/// What the flow is given are the bytes of the buffer. A buffer is reported as
/// sent exactly where the flow took it, as lost exactly where the flow is gone,
/// and as not started exactly where the element is not.
pub proof fn law_flow_is_given_the_buffer<D, E>(
    state: State<D, E>,
    event: RenderEvent,
    action: RenderAction<E>,
)
    requires
        call_ensures(State::<D, E>::render, (&state, event), action),
    ensures
        action is Send <==> (event matches RenderEvent::Mapped(Some(_))),
        action matches RenderAction::Send(bytes) ==> (event matches RenderEvent::Mapped(Some(data))
            && octets(bytes) == data@),
        action is Done <==> event == RenderEvent::Sent(true),
        action == RenderAction::<E>::Fail(RenderError::ConnectionLost) <==> event
            == RenderEvent::Sent(false),
        action == RenderAction::<E>::Fail(RenderError::MapFailed) <==> event
            == RenderEvent::Mapped(None),
        action == RenderAction::<E>::Fail(RenderError::NotStarted) <==> event is Begin
            && state is Stopped,
        action is MapBuffer ==> event is Begin && state is Started,
{
}

} // verus!
