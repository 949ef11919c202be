//! The element that receives packets from a remote node for a pipeline.

use crate::element::{
    flow_target, same_text, ElementMetadata, FlowTarget, PadDirection, PadTemplate, PropertyKind,
    PropertySpec, StartError,
};
use crate::node::parsed_node_id;
use bytes::Bytes;
use iroh_base::KeyParsingError;
use vstd::prelude::*;

verus! {

/// What a user sets on the element. `K` describes media; where there are no
/// `caps`, any media goes.
pub struct Settings<K> {
    pub peer: String,
    pub flow_id: u32,
    pub caps: Option<K>,
}

/// What a user has set on the element.
pub struct SettingsView<K> {
    pub peer: Seq<char>,
    pub flow_id: u32,
    pub caps: Option<K>,
}

/// A value that a property is given.
pub enum PropertyValue<K> {
    Text(String),
    UInt(u32),
    Caps(Option<K>),
}

/// A value that a property has.
pub enum PropertyRef<'a, K> {
    Text(&'a str),
    UInt(u32),
    Caps(&'a Option<K>),
}

/// What a property holds.
pub enum PropertyContent<K> {
    Text(Seq<char>),
    UInt(u32),
    Caps(Option<K>),
}

/// What giving a property a value has done.
#[derive(Clone, Copy, Debug, PartialEq, Eq, Structural)]
pub enum PropertyChange {
    /// The property has the value.
    Stored,
    /// The property has the value, and the source pad is to be negotiated anew.
    StoredCaps,
    /// There is no such property.
    Unimplemented,
}

/// What the element offers when it is asked for its media.
pub enum CapsAnswer<'a, K> {
    /// The media that were set.
    Own(&'a Option<K>),
    /// Those of the first that are among the second, in the order of the first.
    Intersection { first: K, second: &'a Option<K> },
}

impl<K> View for Settings<K> {
    type V = SettingsView<K>;

    open spec fn view(&self) -> SettingsView<K> {
        SettingsView { peer: self.peer@, flow_id: self.flow_id, caps: self.caps }
    }
}

impl<K> View for PropertyValue<K> {
    type V = PropertyContent<K>;

    open spec fn view(&self) -> PropertyContent<K> {
        match self {
            PropertyValue::Text(text) => PropertyContent::Text(text@),
            PropertyValue::UInt(number) => PropertyContent::UInt(*number),
            PropertyValue::Caps(caps) => PropertyContent::Caps(*caps),
        }
    }
}

impl<'a, K> View for PropertyRef<'a, K> {
    type V = PropertyContent<K>;

    open spec fn view(&self) -> PropertyContent<K> {
        match self {
            PropertyRef::Text(text) => PropertyContent::Text(text@),
            PropertyRef::UInt(number) => PropertyContent::UInt(*number),
            PropertyRef::Caps(caps) => PropertyContent::Caps(**caps),
        }
    }
}

/// The element has a property of this name.
pub open spec fn is_property(name: Seq<char>) -> bool {
    name == "peer"@ || name == "flow-id"@ || name == "caps"@
}

/// The property of this name, if there is one, takes this value.
pub open spec fn takes<K>(name: Seq<char>, value: PropertyContent<K>) -> bool {
    &&& name == "peer"@ ==> value is Text
    &&& name == "flow-id"@ ==> value is UInt
    &&& name == "caps"@ ==> value is Caps
}

/// What the property of this name holds.
pub open spec fn property_of<K>(settings: SettingsView<K>, name: Seq<char>) -> PropertyContent<K> {
    if name == "peer"@ {
        PropertyContent::Text(settings.peer)
    } else if name == "flow-id"@ {
        PropertyContent::UInt(settings.flow_id)
    } else {
        PropertyContent::Caps(settings.caps)
    }
}

/// The settings after the property of this name was given a value. Where there
/// is no such property, they are as before.
pub open spec fn with_property<K>(
    settings: SettingsView<K>,
    name: Seq<char>,
    value: PropertyContent<K>,
) -> SettingsView<K> {
    if name == "peer"@ {
        SettingsView { peer: value->Text_0, ..settings }
    } else if name == "flow-id"@ {
        SettingsView { flow_id: value->UInt_0, ..settings }
    } else if name == "caps"@ {
        SettingsView { caps: value->Caps_0, ..settings }
    } else {
        settings
    }
}

/// A property that was given a value has that value, and every other has the
/// one that it had.
pub proof fn law_property_reads_back<K>(
    settings: SettingsView<K>,
    name: Seq<char>,
    value: PropertyContent<K>,
    other: Seq<char>,
)
    requires
        takes(name, value),
        is_property(other),
        other != name,
    ensures
        is_property(name) ==> property_of(with_property(settings, name, value), name) == value,
        property_of(with_property(settings, name, value), other) == property_of(settings, other),
{
    lemma_names_differ();
}

proof fn lemma_names_differ()
    ensures
        "peer"@ != "flow-id"@,
        "peer"@ != "caps"@,
        "flow-id"@ != "caps"@,
{
    reveal_strlit("peer");
    reveal_strlit("flow-id");
    reveal_strlit("caps");
    assert("peer"@.len() != "flow-id"@.len());
    assert("peer"@[0] != "caps"@[0]);
    assert("flow-id"@.len() != "caps"@.len());
}

impl<K> Default for Settings<K> {
    fn default() -> (settings: Self)
        ensures
            settings@ == (SettingsView::<K> { peer: Seq::empty(), flow_id: 0, caps: None }),
    {
        Settings { peer: String::new(), flow_id: 0, caps: None }
    }
}

impl<K> Settings<K> {
    /// Gives a property a value, and tells what that has done.
    pub fn set_property(&mut self, name: &str, value: PropertyValue<K>) -> (change: PropertyChange)
        requires
            takes(name@, value@),
        ensures
            final(self)@ == with_property(old(self)@, name@, value@),
            change == if name@ == "caps"@ {
                PropertyChange::StoredCaps
            } else if is_property(name@) {
                PropertyChange::Stored
            } else {
                PropertyChange::Unimplemented
            },
    {
        proof {
            lemma_names_differ();
        }
        if same_text(name, "peer") {
            if let PropertyValue::Text(peer) = value {
                self.peer = peer;
            }
            PropertyChange::Stored
        } else if same_text(name, "flow-id") {
            if let PropertyValue::UInt(flow_id) = value {
                self.flow_id = flow_id;
            }
            PropertyChange::Stored
        } else if same_text(name, "caps") {
            if let PropertyValue::Caps(caps) = value {
                self.caps = caps;
            }
            PropertyChange::StoredCaps
        } else {
            PropertyChange::Unimplemented
        }
    }

    /// What a property holds.
    pub fn property(&self, name: &str) -> (value: PropertyRef<'_, K>)
        requires
            is_property(name@),
        ensures
            value@ == property_of(self@, name@),
    {
        if same_text(name, "peer") {
            PropertyRef::Text(self.peer.as_str())
        } else if same_text(name, "flow-id") {
            PropertyRef::UInt(self.flow_id)
        } else {
            PropertyRef::Caps(&self.caps)
        }
    }

    /// The media that the element offers to one that would take `filter`.
    pub fn caps(&self, filter: Option<K>) -> (answer: CapsAnswer<'_, K>)
        ensures
            answer == match filter {
                None => CapsAnswer::Own(&self.caps),
                Some(first) => CapsAnswer::Intersection { first, second: &self.caps },
            },
    {
        match filter {
            None => CapsAnswer::Own(&self.caps),
            Some(first) => CapsAnswer::Intersection { first, second: &self.caps },
        }
    }

    /// The flow that the element is to start, or why its peer is none.
    pub fn flow_target(&self) -> (target: Result<FlowTarget, KeyParsingError>)
        ensures
            target matches Ok(t) ==> parsed_node_id(self@.peer) == Some(t.node_id@) && t.flow_id
                == self@.flow_id,
            target is Err ==> parsed_node_id(self@.peer) is None,
            self@.peer.len() == 0 ==> target is Err,
    {
        flow_target(self.peer.as_str(), self.flow_id)
    }
}

/// The flow that a started element takes packets from.
pub struct Started<P> {
    pub receiver: P,
}

/// Whether the element is started. Packets come from `P`.
pub enum State<P> {
    Stopped,
    Started(Started<P>),
}

/// What has happened to a buffer that the pipeline asks for.
pub enum CreateEvent<E> {
    /// It was asked for.
    Begin,
    /// The flow gives bytes, or its error, or is gone.
    Received(Option<Result<Bytes, E>>),
}

/// Why there is no buffer.
pub enum CreateError<E> {
    NotStarted,
    FlowFailed(E),
    ConnectionLost,
}

impl<E> CreateError<E> {
    /// The words of the report, before those of the error that it carries, if
    /// any.
    pub fn words(&self) -> (words: &'static str)
        ensures
            words@ == match self {
                CreateError::NotStarted => "Could not get buffer from source pad: not started"@,
                CreateError::FlowFailed(_) => "Could not get buffer from source pad: "@,
                CreateError::ConnectionLost
                    => "Could not get buffer from source pad: connection lost"@,
            },
    {
        match self {
            CreateError::NotStarted => "Could not get buffer from source pad: not started",
            CreateError::FlowFailed(_) => "Could not get buffer from source pad: ",
            CreateError::ConnectionLost => "Could not get buffer from source pad: connection lost",
        }
    }
}

/// What to do next for a buffer that the pipeline asks for.
pub enum CreateAction<E> {
    /// Wait for what the flow gives.
    Receive,
    /// Make a buffer of the bytes.
    Push(Bytes),
    /// Report why there is none.
    Fail(CreateError<E>),
}

impl<P> Default for State<P> {
    fn default() -> (state: Self)
        ensures
            state == State::<P>::Stopped,
    {
        State::Stopped
    }
}

impl<P> State<P> {
    /// Starts the element with the flow that it was given, or tells why it was
    /// given none.
    pub fn start<G, E>(&mut self, answer: Result<Result<P, E>, G>) -> (started: Result<
        (),
        StartError<G, E>,
    >)
        requires
            *old(self) is Stopped,
        ensures
            answer matches Ok(Ok(receiver)) ==> started == Ok::<(), StartError<G, E>>(())
                && *final(self) == State::Started((Started { receiver })),
            answer matches Ok(Err(err)) ==> started == Err::<(), StartError<G, E>>(
                StartError::Flow(err),
            ) && *final(self) == *old(self),
            answer matches Err(err) ==> started == Err::<(), StartError<G, E>>(
                StartError::NoGlobalState(err),
            ) && *final(self) == *old(self),
    {
        match answer {
            Ok(Ok(receiver)) => {
                *self = State::Started(Started { receiver });
                Ok(())
            },
            Ok(Err(err)) => Err(StartError::Flow(err)),
            Err(err) => Err(StartError::NoGlobalState(err)),
        }
    }

    /// Stops the element.
    pub fn stop(&mut self)
        ensures
            *final(self) == State::<P>::Stopped,
    {
        *self = State::Stopped;
    }

    /// Decides what to do next for a buffer that the pipeline asks for.
    pub fn create<E>(&self, event: CreateEvent<E>) -> (action: CreateAction<E>)
        ensures
            action == match event {
                CreateEvent::Begin => match self {
                    State::Stopped => CreateAction::<E>::Fail(CreateError::NotStarted),
                    State::Started(_) => CreateAction::<E>::Receive,
                },
                CreateEvent::Received(Some(Ok(bytes))) => CreateAction::<E>::Push(bytes),
                CreateEvent::Received(Some(Err(err))) => CreateAction::Fail(
                    CreateError::FlowFailed(err),
                ),
                CreateEvent::Received(None) => CreateAction::<E>::Fail(CreateError::ConnectionLost),
            },
    {
        match event {
            CreateEvent::Begin => match self {
                State::Stopped => CreateAction::Fail(CreateError::NotStarted),
                State::Started(_) => CreateAction::Receive,
            },
            CreateEvent::Received(Some(Ok(bytes))) => CreateAction::Push(bytes),
            CreateEvent::Received(Some(Err(err))) => CreateAction::Fail(
                CreateError::FlowFailed(err),
            ),
            CreateEvent::Received(None) => CreateAction::Fail(CreateError::ConnectionLost),
        }
    }
}

/// The element.
pub struct IrohRtpSrc<K, P> {
    pub settings: Settings<K>,
    pub state: State<P>,
}

impl<K, P> Default for IrohRtpSrc<K, P> {
    fn default() -> (src: Self)
        ensures
            src.settings@ == (SettingsView::<K> { peer: Seq::empty(), flow_id: 0, caps: None }),
            src.state == State::<P>::Stopped,
    {
        IrohRtpSrc { settings: Settings::default(), state: State::default() }
    }
}

/// Whether a user can move to another place in what the element receives: no.
pub fn is_seekable() -> (r: bool)
    ensures
        !r,
{
    false
}

/// How the element presents itself.
pub fn metadata() -> (metadata: ElementMetadata)
    ensures
        metadata.long_name@ == "Iroh RTP source"@,
        metadata.classification@ == "Source/Network/QUIC"@,
        metadata.description@ == "Receive data over the network via Iroh"@,
        metadata.author@ == "Frando <franz@n0.computer>"@,
{
    ElementMetadata {
        long_name: "Iroh RTP source",
        classification: "Source/Network/QUIC",
        description: "Receive data over the network via Iroh",
        author: "Frando <franz@n0.computer>",
    }
}

/// The pads that the element has: one that gives RTP packets.
pub fn pad_templates() -> (templates: Vec<PadTemplate>)
    ensures
        templates@.len() == 1,
        templates@[0].name@ == "src"@,
        templates@[0].direction == PadDirection::Src,
        templates@[0].media_type@ == "application/x-rtp"@,
{
    vec![
        PadTemplate { name: "src", direction: PadDirection::Src, media_type: "application/x-rtp" },
    ]
}

/// The properties that the element has.
pub fn properties() -> (properties: Vec<PropertySpec>)
    ensures
        properties@.len() == 3,
        forall|name: Seq<char>|
            is_property(name) <==> exists|i: int|
                0 <= i < properties@.len() && (#[trigger] properties@[i]).name@ == name,
        properties@[0].name@ == "peer"@,
        properties@[0].nick@ == "Peer node id"@,
        properties@[0].blurb@ == "Node id of peer to connect with"@,
        properties@[0].kind == PropertyKind::Text,
        properties@[0].readable && properties@[0].writable,
        properties@[1].name@ == "flow-id"@,
        properties@[1].nick@ == "Flow id"@,
        properties@[1].blurb@ == "Flow id to receive data on"@,
        properties@[1].kind == PropertyKind::UInt,
        properties@[1].readable && properties@[1].writable,
        properties@[2].name@ == "caps"@,
        properties@[2].nick@ == "caps"@,
        properties@[2].blurb@ == "The caps of the source pad"@,
        properties@[2].kind == PropertyKind::Caps,
        properties@[2].readable && properties@[2].writable,
{
    let properties = vec![
        PropertySpec {
            name: "peer",
            nick: "Peer node id",
            blurb: "Node id of peer to connect with",
            kind: PropertyKind::Text,
            readable: true,
            writable: true,
        },
        PropertySpec {
            name: "flow-id",
            nick: "Flow id",
            blurb: "Flow id to receive data on",
            kind: PropertyKind::UInt,
            readable: true,
            writable: true,
        },
        PropertySpec {
            name: "caps",
            nick: "caps",
            blurb: "The caps of the source pad",
            kind: PropertyKind::Caps,
            readable: true,
            writable: true,
        },
    ];
    assert forall|name: Seq<char>| is_property(name) implies exists|i: int|
        0 <= i < properties@.len() && (#[trigger] properties@[i]).name@ == name by {
        assert(properties@[0].name@ == name || properties@[1].name@ == name || properties@[2].name@
            == name);
    }
    properties
}

/// What a user sets is what the element has: the peer, the flow and the media are
/// those that were given, and setting one leaves the others.
pub proof fn law_settings_are_what_was_set<K>(
    settings: SettingsView<K>,
    peer: Seq<char>,
    flow_id: u32,
    caps: Option<K>,
)
    ensures
        ({
            let set = with_property(settings, "flow-id"@, PropertyContent::<K>::UInt(flow_id));
            set.flow_id == flow_id && set.peer == settings.peer && set.caps == settings.caps
        }),
        ({
            let set = with_property(settings, "peer"@, PropertyContent::<K>::Text(peer));
            set.peer == peer && set.flow_id == settings.flow_id && set.caps == settings.caps
        }),
        ({
            let set = with_property(settings, "caps"@, PropertyContent::Caps(caps));
            set.caps == caps && set.peer == settings.peer && set.flow_id == settings.flow_id
        }),
        property_of(settings, "flow-id"@) == PropertyContent::<K>::UInt(settings.flow_id),
        property_of(settings, "peer"@) == PropertyContent::<K>::Text(settings.peer),
        property_of(settings, "caps"@) == PropertyContent::Caps(settings.caps),
{
    lemma_names_differ();
}

/// A name that is none of the element's properties changes nothing.
pub proof fn law_other_names_change_nothing<K>(
    settings: SettingsView<K>,
    name: Seq<char>,
    value: PropertyContent<K>,
)
    requires
        name != "peer"@,
        name != "flow-id"@,
        name != "caps"@,
    ensures
        with_property(settings, name, value) == settings,
        !is_property(name),
{
}

/// The flow that the element starts is the one that was set: on the flow number
/// that was given, with the node that the given peer spells.
pub proof fn law_flow_started_is_the_one_set<K>(
    before: SettingsView<K>,
    peer: Seq<char>,
    flow_id: u32,
    settings: Settings<K>,
    target: Result<FlowTarget, KeyParsingError>,
)
    requires
        settings@ == with_property(
            with_property(before, "peer"@, PropertyContent::Text(peer)),
            "flow-id"@,
            PropertyContent::UInt(flow_id),
        ) || settings@ == with_property(
            with_property(before, "flow-id"@, PropertyContent::UInt(flow_id)),
            "peer"@,
            PropertyContent::Text(peer),
        ),
        call_ensures(Settings::<K>::flow_target, (&settings,), target),
    ensures
        target matches Ok(t) ==> t.flow_id == flow_id && parsed_node_id(peer) == Some(t.node_id@),
        target is Ok <==> parsed_node_id(peer) is Some,
{
    lemma_names_differ();
}

/// The media that the element offers are those that were set; where the other side
/// takes only some, it is among those, in the other side's order.
pub proof fn law_media_offered_are_those_set<K>(
    settings: Settings<K>,
    filter: Option<K>,
    answer: CapsAnswer<'static, K>,
)
    requires
        call_ensures(Settings::<K>::caps, (&settings, filter), answer),
    ensures
        match answer {
            CapsAnswer::Own(own) => filter is None && *own == settings.caps,
            CapsAnswer::Intersection { first, second } => filter == Some(first) && *second
                == settings.caps,
        },
{
}

/// The pipeline is given a buffer exactly of the bytes that the flow gave. It is
/// told the very error of the flow, that the connection is lost exactly where no
/// more can come, and that the element is not started exactly where it is not.
pub proof fn law_buffer_is_what_the_flow_gave<P, E>(
    state: State<P>,
    event: CreateEvent<E>,
    action: CreateAction<E>,
    bytes: Bytes,
    err: E,
)
    requires
        call_ensures(State::<P>::create::<E>, (&state, event), action),
    ensures
        action == CreateAction::<E>::Push(bytes) <==> event == CreateEvent::Received(
            Some(Ok::<Bytes, E>(bytes)),
        ),
        action == CreateAction::Fail(CreateError::FlowFailed(err)) <==> event
            == CreateEvent::Received(Some(Err::<Bytes, E>(err))),
        action == CreateAction::<E>::Fail(CreateError::ConnectionLost) <==> event
            == CreateEvent::<E>::Received(None),
        action == CreateAction::<E>::Fail(CreateError::NotStarted) <==> event is Begin
            && state is Stopped,
        action is Receive <==> event is Begin && state is Started,
{
}

} // verus!
