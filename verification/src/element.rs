//! What the two media elements have in common.

use crate::node::{parsed_node_id, NodeId};
use iroh_base::KeyParsingError;
use vstd::prelude::*;

verus! {

/// How an element presents itself.
#[derive(Clone, Copy, Debug)]
pub struct ElementMetadata {
    pub long_name: &'static str,
    pub classification: &'static str,
    pub description: &'static str,
    pub author: &'static str,
}

/// Which way data goes through a pad.
#[derive(Clone, Copy, Debug, PartialEq, Eq, Structural)]
pub enum PadDirection {
    Src,
    Sink,
}

/// A pad that an element always has.
#[derive(Clone, Copy, Debug)]
pub struct PadTemplate {
    pub name: &'static str,
    pub direction: PadDirection,
    pub media_type: &'static str,
}

/// What a property holds.
#[derive(Clone, Copy, Debug, PartialEq, Eq, Structural)]
pub enum PropertyKind {
    Text,
    UInt,
    Caps,
}

/// How a property presents itself.
#[derive(Clone, Copy, Debug)]
pub struct PropertySpec {
    pub name: &'static str,
    pub nick: &'static str,
    pub blurb: &'static str,
    pub kind: PropertyKind,
    /// Whether a user can read it.
    pub readable: bool,
    /// Whether a user can give it a value.
    pub writable: bool,
}

/// What an error is filed under when it is reported to the pipeline.
#[derive(Clone, Copy, Debug, PartialEq, Eq, Structural)]
pub enum ErrorKind {
    /// A resource has failed.
    ResourceFailed,
    /// A resource could not be read.
    ResourceRead,
    /// The element has failed.
    CoreFailed,
}

/// The flow that an element is to start.
pub struct FlowTarget {
    pub node_id: NodeId,
    pub flow_id: u32,
}

/// Why an element that knows its peer has not started.
pub enum StartError<G, E> {
    /// There is no connection state.
    NoGlobalState(G),
    /// The request for the flow has come to nothing.
    Flow(E),
}

impl<G, E> StartError<G, E> {
    /// The words of the report, before those of the error that it carries, for an
    /// element whose pad has this direction. The sink reports the error alone.
    pub fn words(&self, direction: PadDirection) -> (words: &'static str)
        ensures
            words@ == match direction {
                PadDirection::Src => "failed to init recv eflow: "@,
                PadDirection::Sink => ""@,
            },
    {
        match direction {
            PadDirection::Src => "failed to init recv eflow: ",
            PadDirection::Sink => "",
        }
    }

    /// What the report is filed under.
    pub fn kind(&self) -> (kind: ErrorKind)
        ensures
            kind == ErrorKind::ResourceFailed,
    {
        ErrorKind::ResourceFailed
    }
}

/// The words of the report that the peer of an element is none, before those of
/// the error.
pub fn invalid_peer_words() -> (words: &'static str)
    ensures
        words@ == "missing or invalid peer node id: "@,
{
    "missing or invalid peer node id: "
}

/// What the report that the peer of an element is none is filed under.
pub fn invalid_peer_kind() -> (kind: ErrorKind)
    ensures
        kind == ErrorKind::ResourceFailed,
{
    ErrorKind::ResourceFailed
}

/// Whether two texts are the same.
pub fn same_text(a: &str, b: &str) -> (r: bool)
    ensures
        r == (a@ == b@),
{
    a.to_owned() == b.to_owned()
}

/// The flow with a peer that was read, or why none was.
pub fn target_of(parsed: Result<NodeId, KeyParsingError>, flow_id: u32) -> (target: Result<
    FlowTarget,
    KeyParsingError,
>)
    ensures
        target == match parsed {
            Ok(node_id) => Ok(FlowTarget { node_id, flow_id }),
            Err(err) => Err(err),
        },
{
    match parsed {
        Ok(node_id) => Ok(FlowTarget { node_id, flow_id }),
        Err(err) => Err(err),
    }
}

/// The flow that the settings of an element ask for, or why their peer is none.
pub fn flow_target(peer: &str, flow_id: u32) -> (target: Result<FlowTarget, KeyParsingError>)
    ensures
        target matches Ok(t) ==> parsed_node_id(peer@) == Some(t.node_id@) && t.flow_id == flow_id,
        target is Err ==> parsed_node_id(peer@) is None,
        peer@.len() == 0 ==> target is Err,
{
    target_of(NodeId::parse(peer), flow_id)
}

} // verus!
