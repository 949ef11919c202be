//! The commands that the media elements send to the connection state, and the
//! requests that carry them.

use crate::node::NodeId;
use vstd::prelude::*;

verus! {

/// How many commands may wait for the connection state.
pub const COMMAND_CAPACITY: usize = 16;

/// How many answers a request waits for.
pub const REPLY_CAPACITY: usize = 1;

/// How many packets may wait between a media element and its flow.
pub const DATA_CAPACITY: usize = 16;

/// How many errors may wait between a sending flow and its media element.
pub const ERROR_CAPACITY: usize = 1;

/// A wish for a flow with a remote node. `R` answers for a receiving flow, `T`
/// for a sending one.
pub enum FlowCommand<R, T> {
    ReceiveFlow { node_id: NodeId, flow_id: u32, reply: R },
    SendFlow { node_id: NodeId, flow_id: u32, reply: T },
}

/// What the connection state is asked for. `Q` answers for a shutdown.
pub enum Command<R, T, Q> {
    Flow(FlowCommand<R, T>),
    Shutdown { reply: Q },
}

/// What a media element gets for a sending flow: where its packets go, and
/// where the flow's error comes from.
pub struct SendFlowReply<D, E> {
    pub data_sender: D,
    pub error_receiver: E,
}

impl<R, T> FlowCommand<R, T> {
    /// The node that the flow is with.
    pub open spec fn node(self) -> NodeId {
        match self {
            FlowCommand::ReceiveFlow { node_id, .. } => node_id,
            FlowCommand::SendFlow { node_id, .. } => node_id,
        }
    }

    /// The node that the flow is with.
    pub fn node_id(&self) -> (node_id: NodeId)
        ensures
            node_id == self.node(),
    {
        match self {
            FlowCommand::ReceiveFlow { node_id, .. } => *node_id,
            FlowCommand::SendFlow { node_id, .. } => *node_id,
        }
    }
}

/// What to set up for a flow whose session is there: the channels with their
/// capacities, the task, and the answer that hands the other ends out.
pub enum FlowStart<R, T> {
    Receive { node_id: NodeId, flow_id: u32, data_capacity: usize, reply: R },
    Send {
        node_id: NodeId,
        flow_id: u32,
        data_capacity: usize,
        error_capacity: usize,
        reply: T,
    },
}

/// A command is for the node that it names.
pub proof fn law_command_is_for_the_node_it_names<R, T>(
    node_id: NodeId,
    flow_id: u32,
    receive: R,
    send: T,
)
    ensures
        (FlowCommand::<R, T>::ReceiveFlow { node_id, flow_id, reply: receive }).node() == node_id,
        (FlowCommand::<R, T>::SendFlow { node_id, flow_id, reply: send }).node() == node_id,
{
}

/// Turns a command whose session is there into what its flow needs.
pub fn handle_flow_command<R, T>(command: FlowCommand<R, T>) -> (start: FlowStart<R, T>)
    ensures
        command matches FlowCommand::ReceiveFlow { node_id, flow_id, reply } ==> start
            == (FlowStart::<R, T>::Receive { node_id, flow_id, data_capacity: 16, reply }),
        command matches FlowCommand::SendFlow { node_id, flow_id, reply } ==> start == (FlowStart::<
            R,
            T,
        >::Send { node_id, flow_id, data_capacity: 16, error_capacity: 1, reply }),
{
    match command {
        FlowCommand::ReceiveFlow { node_id, flow_id, reply } => FlowStart::Receive {
            node_id,
            flow_id,
            data_capacity: DATA_CAPACITY,
            reply,
        },
        FlowCommand::SendFlow { node_id, flow_id, reply } => FlowStart::Send {
            node_id,
            flow_id,
            data_capacity: DATA_CAPACITY,
            error_capacity: ERROR_CAPACITY,
            reply,
        },
    }
}

/// What is set up for a command is of its direction, with its node, its flow and
/// its answer. Sixteen packets may wait on the way, and one error.
pub proof fn law_flow_is_the_one_asked_for<R, T>(
    command: FlowCommand<R, T>,
    start: FlowStart<R, T>,
)
    requires
        call_ensures(handle_flow_command::<R, T>, (command,), start),
    ensures
        match (command, start) {
            (
                FlowCommand::ReceiveFlow { node_id, flow_id, reply },
                FlowStart::Receive { node_id: n, flow_id: f, data_capacity, reply: r },
            ) => n == node_id && f == flow_id && r == reply && data_capacity == 16,
            (
                FlowCommand::SendFlow { node_id, flow_id, reply },
                FlowStart::Send { node_id: n, flow_id: f, data_capacity, error_capacity, reply: r },
            ) => n == node_id && f == flow_id && r == reply && data_capacity == 16 && error_capacity
                == 1,
            _ => false,
        },
{
}

} // verus!
