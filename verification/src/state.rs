//! The connections of a node: which peers are dialled, which connections wait,
//! which sessions are open, and which commands wait for a session.

use crate::command::{Command, FlowCommand};
use crate::node::{comes_before, NodeId};
use crate::node_map::NodeMap;
use vstd::prelude::*;

verus! {

/// Why a connection is closed.
#[derive(Clone, Copy, Debug, PartialEq, Eq, Structural)]
pub enum CloseReason {
    /// There is a session with the peer.
    AlreadyConnected,
    /// The own dial to the peer goes before the peer's dial.
    PreferMine,
    /// The greeting could not be sent.
    InitFailure,
}

impl CloseReason {
    /// The code that the peer sees.
    pub fn code(&self) -> (code: u32)
        ensures
            code == match self {
                CloseReason::AlreadyConnected => 1u32,
                CloseReason::PreferMine => 2u32,
                CloseReason::InitFailure => 3u32,
            },
    {
        match self {
            CloseReason::AlreadyConnected => 1,
            CloseReason::PreferMine => 2,
            CloseReason::InitFailure => 3,
        }
    }

    /// The words that the peer sees.
    pub fn words(&self) -> (words: &'static str)
        ensures
            words@ == match self {
                CloseReason::AlreadyConnected => "already-connected"@,
                CloseReason::PreferMine => "prefer-mine"@,
                CloseReason::InitFailure => "init-failure"@,
            },
    {
        match self {
            CloseReason::AlreadyConnected => "already-connected",
            CloseReason::PreferMine => "prefer-mine",
            CloseReason::InitFailure => "init-failure",
        }
    }
}

/// What becomes of a flow command.
pub enum CommandAction<C, R, T> {
    /// The session of the command's node takes it.
    Handle(FlowCommand<R, T>),
    /// The peer has dialled before: make a session of its connection.
    Activate { node_id: NodeId, conn: C },
    /// Dial the peer.
    Connect { node_id: NodeId },
    /// The command waits for a dial under way.
    Hold,
}

/// What becomes of a dial that has ended.
pub enum ConnectedAction<C, E> {
    /// There is no connection.
    Failed(E),
    /// The connection is not needed.
    Close { conn: C, reason: CloseReason },
    /// Make a session of the connection.
    Activate { node_id: NodeId, conn: C },
}

/// What has happened to a connection that a peer opens.
pub enum IncomingEvent<C> {
    /// The attempt was taken on, or could not be.
    Accepted(bool),
    /// The protocol that the peer asks for, where it could be read.
    Alpn(Option<Vec<u8>>),
    /// The connection, where it came about.
    Connected(Option<C>),
    /// Who the peer is, where that could be read.
    Identified { conn: C, node_id: Option<NodeId> },
    /// The greeting was sent, or could not be.
    Greeted { conn: C, node_id: NodeId, sent: bool },
}

/// What to do next with a connection that a peer opens.
pub enum IncomingAction<C> {
    /// Nothing more.
    Drop,
    /// Read the protocol that the peer asks for.
    ReadAlpn,
    /// Wait for the connection.
    AwaitConnection,
    /// Read who the peer is.
    Identify(C),
    /// Send the greeting.
    Greet { conn: C, node_id: NodeId },
    /// Refuse the connection.
    Close { conn: C, reason: CloseReason },
    /// Make a session of the connection.
    Activate { node_id: NodeId, conn: C },
    /// The connection waits for a command.
    Held,
}

/// What wakes the connection state up.
pub enum Event<C, R, T, Q, E> {
    /// A command, or nothing where no command can come any more.
    Command(Option<Command<R, T, Q>>),
    /// A peer opens a connection, or none can any more.
    Incoming { open: bool },
    /// A dial has ended.
    Connected { node_id: NodeId, conn: Result<C, E> },
    /// The endpoint is closed, as a shutdown asked for.
    Closed { reply: Q },
}

/// What the connection state does when it is woken up.
pub enum RunAction<C, R, T, Q, E> {
    /// See to a flow command.
    Flow(CommandAction<C, R, T>),
    /// Take on the connection that a peer opens.
    Accept,
    /// See to a dial that has ended.
    Connected(ConnectedAction<C, E>),
    /// Close the endpoint.
    Shutdown { reply: Q },
    /// Answer that the endpoint is closed, and stop.
    Answer { reply: Q },
    /// Stop.
    Stop,
}

impl<C, R, T, Q, E> RunAction<C, R, T, Q, E> {
    /// Whether the connection state does nothing after this.
    pub open spec fn last(self) -> bool {
        self is Answer || self is Stop
    }

    /// Whether the connection state does nothing after this.
    pub fn is_last(&self) -> (r: bool)
        ensures
            r == self.last(),
    {
        match self {
            RunAction::Answer { .. } => true,
            RunAction::Stop => true,
            _ => false,
        }
    }
}

/// The connections of a node. `C` is a connection, `S` a session.
pub struct State<C, S, R, T> {
    own_id: NodeId,
    alpn: Vec<u8>,
    pending_commands: NodeMap<Vec<FlowCommand<R, T>>>,
    connecting: NodeMap<()>,
    incoming: NodeMap<C>,
    sessions: NodeMap<S>,
}

/// What the connections of a node are, as sets and maps over node identifiers.
#[verifier::ext_equal]
pub struct StateView<C, S, R, T> {
    /// The identifier of the node itself.
    pub own_id: Seq<u8>,
    /// The protocol that the node speaks.
    pub alpn: Seq<u8>,
    /// The commands that wait for a session, oldest first.
    pub pending: Map<Seq<u8>, Seq<FlowCommand<R, T>>>,
    /// The peers that are dialled.
    pub connecting: Set<Seq<u8>>,
    /// The connections that peers opened and that wait for a command.
    pub incoming: Map<Seq<u8>, C>,
    /// The open sessions.
    pub sessions: Map<Seq<u8>, S>,
}

impl<C, S, R, T> StateView<C, S, R, T> {
    /// The commands that wait for a session with `node`.
    pub open spec fn waiting(self, node: Seq<u8>) -> Seq<FlowCommand<R, T>> {
        if self.pending.dom().contains(node) {
            self.pending[node]
        } else {
            Seq::empty()
        }
    }

    /// The same connections with one more command that waits.
    pub open spec fn hold(self, command: FlowCommand<R, T>) -> Self {
        let node = command.node()@;
        StateView { pending: self.pending.insert(node, self.waiting(node).push(command)), ..self }
    }
}

/// A flow command: it is handled where there is a session. Otherwise it waits,
/// and the connection that the peer opened is used, or a dial under way is
/// waited for, or the peer is dialled.
pub open spec fn command_step<C, S, R, T>(
    s: StateView<C, S, R, T>,
    command: FlowCommand<R, T>,
) -> (StateView<C, S, R, T>, CommandAction<C, R, T>) {
    let node_id = command.node();
    let node = node_id@;
    if s.sessions.dom().contains(node) {
        (s, CommandAction::Handle(command))
    } else if s.incoming.dom().contains(node) {
        (
            StateView { incoming: s.incoming.remove(node), ..s.hold(command) },
            CommandAction::Activate { node_id, conn: s.incoming[node] },
        )
    } else if s.connecting.contains(node) {
        (s.hold(command), CommandAction::Hold)
    } else {
        (
            StateView { connecting: s.connecting.insert(node), ..s.hold(command) },
            CommandAction::Connect { node_id },
        )
    }
}

/// The end of a dial: its connection is closed where there is a session, and
/// becomes the session otherwise.
pub open spec fn connected_step<C, S, R, T, E>(
    s: StateView<C, S, R, T>,
    node_id: NodeId,
    conn: Result<C, E>,
) -> (StateView<C, S, R, T>, ConnectedAction<C, E>) {
    (
        StateView { connecting: s.connecting.remove(node_id@), ..s },
        match conn {
            Err(err) => ConnectedAction::Failed(err),
            Ok(conn) => if s.sessions.dom().contains(node_id@) {
                ConnectedAction::Close { conn, reason: CloseReason::AlreadyConnected }
            } else {
                ConnectedAction::Activate { node_id, conn }
            },
        },
    )
}

/// The node declines a connection that the peer opens: it dials the peer
/// itself, and the peer's identifier comes before its own.
pub open spec fn prefers_own_dial<C, S, R, T>(s: StateView<C, S, R, T>, peer: Seq<u8>) -> bool {
    s.connecting.contains(peer) && comes_before(peer, s.own_id)
}

/// A connection that a peer opens, step by step.
pub open spec fn incoming_step<C, S, R, T>(
    s: StateView<C, S, R, T>,
    event: IncomingEvent<C>,
) -> (StateView<C, S, R, T>, IncomingAction<C>) {
    match event {
        IncomingEvent::Accepted(true) => (s, IncomingAction::ReadAlpn),
        IncomingEvent::Alpn(Some(alpn)) if alpn@ == s.alpn => (s, IncomingAction::AwaitConnection),
        IncomingEvent::Connected(Some(conn)) => (s, IncomingAction::Identify(conn)),
        IncomingEvent::Identified { conn, node_id: Some(node_id) } => {
            if prefers_own_dial(s, node_id@) {
                (s, IncomingAction::Close { conn, reason: CloseReason::PreferMine })
            } else {
                (s, IncomingAction::Greet { conn, node_id })
            }
        },
        IncomingEvent::Greeted { conn, node_id, sent } => {
            if !sent {
                (s, IncomingAction::Close { conn, reason: CloseReason::InitFailure })
            } else if s.sessions.dom().contains(node_id@) {
                (s, IncomingAction::Close { conn, reason: CloseReason::AlreadyConnected })
            } else if s.pending.dom().contains(node_id@) {
                (s, IncomingAction::Activate { node_id, conn })
            } else {
                (
                    StateView { incoming: s.incoming.insert(node_id@, conn), ..s },
                    IncomingAction::Held,
                )
            }
        },
        _ => (s, IncomingAction::Drop),
    }
}

/// A session comes about: it is kept, and the commands that waited for it are
/// handed out, oldest first.
pub open spec fn activate_step<C, S, R, T>(
    s: StateView<C, S, R, T>,
    node: Seq<u8>,
    session: S,
) -> (StateView<C, S, R, T>, Seq<FlowCommand<R, T>>) {
    (
        StateView {
            sessions: s.sessions.insert(node, session),
            pending: s.pending.remove(node),
            ..s
        },
        s.waiting(node),
    )
}

/// Whatever wakes the connection state up.
pub open spec fn run_step<C, S, R, T, Q, E>(
    s: StateView<C, S, R, T>,
    event: Event<C, R, T, Q, E>,
) -> (StateView<C, S, R, T>, RunAction<C, R, T, Q, E>) {
    match event {
        Event::Command(Some(Command::Flow(command))) => {
            let (next, action) = command_step(s, command);
            (next, RunAction::Flow(action))
        },
        Event::Command(Some(Command::Shutdown { reply })) => (s, RunAction::Shutdown { reply }),
        Event::Command(None) => (s, RunAction::Stop),
        Event::Incoming { open } => (s, if open { RunAction::Accept } else { RunAction::Stop }),
        Event::Connected { node_id, conn } => {
            let (next, action) = connected_step(s, node_id, conn);
            (next, RunAction::Connected(action))
        },
        Event::Closed { reply } => (s, RunAction::Answer { reply }),
    }
}

impl<C, S, R, T> View for State<C, S, R, T> {
    type V = StateView<C, S, R, T>;

    closed spec fn view(&self) -> StateView<C, S, R, T> {
        StateView {
            own_id: self.own_id@,
            alpn: self.alpn@,
            pending: self.pending_commands@.map_values(|v: Vec<FlowCommand<R, T>>| v@),
            connecting: self.connecting@.dom(),
            incoming: self.incoming@,
            sessions: self.sessions@,
        }
    }
}

impl<C, S, R, T> State<C, S, R, T> {
    /// No node has two entries in one map.
    pub closed spec fn wf(&self) -> bool {
        &&& self.pending_commands.wf()
        &&& self.connecting.wf()
        &&& self.incoming.wf()
        &&& self.sessions.wf()
    }

    /// The connections of a node that has just bound its endpoint: none.
    pub fn new(own_id: NodeId, alpn: Vec<u8>) -> (state: Self)
        ensures
            state.wf(),
            state@ == (StateView::<C, S, R, T> {
                own_id: own_id@,
                alpn: alpn@,
                pending: Map::empty(),
                connecting: Set::empty(),
                incoming: Map::empty(),
                sessions: Map::empty(),
            }),
    {
        let state = State {
            own_id,
            alpn,
            pending_commands: NodeMap::new(),
            connecting: NodeMap::new(),
            incoming: NodeMap::new(),
            sessions: NodeMap::new(),
        };
        assert(state@.pending =~= Map::empty());
        assert(state@.connecting =~= Set::empty());
        state
    }

    /// The session with a node.
    pub fn session(&self, node_id: &NodeId) -> (session: Option<&S>)
        requires
            self.wf(),
        ensures
            session is Some <==> self@.sessions.dom().contains(node_id@),
            session matches Some(s) ==> *s == self@.sessions[node_id@],
    {
        self.sessions.get(node_id)
    }

    /// Whether the end of some dial is to be waited for.
    pub fn is_dialling(&self) -> (r: bool)
        requires
            self.wf(),
        ensures
            r == (self@.connecting != Set::<Seq<u8>>::empty()),
    {
        let r = !self.connecting.is_empty();
        proof {
            if !r {
                assert(self@.connecting =~= Set::empty());
            } else if self@.connecting == Set::<Seq<u8>>::empty() {
                assert(self.connecting@ =~= Map::empty());
            }
        }
        r
    }

    /// Puts a command behind those that wait for a session with its node.
    fn hold(&mut self, command: FlowCommand<R, T>)
        requires
            old(self).wf(),
        ensures
            final(self).wf(),
            final(self)@ == old(self)@.hold(command),
    {
        let node_id = command.node_id();
        let ghost before = self@;
        let mut waiting = match self.pending_commands.remove(&node_id) {
            Some(waiting) => waiting,
            None => Vec::new(),
        };
        assert(waiting@ =~= before.waiting(node_id@));
        waiting.push(command);
        self.pending_commands.insert(node_id, waiting);
        assert(self@ =~= before.hold(command)) by {
            assert(self@.pending =~= before.hold(command).pending);
        }
    }

    /// Sees to a flow command.
    pub fn on_command(&mut self, command: FlowCommand<R, T>) -> (action: CommandAction<C, R, T>)
        requires
            old(self).wf(),
        ensures
            final(self).wf(),
            (final(self)@, action) == command_step(old(self)@, command),
    {
        let node_id = command.node_id();
        let ghost before = self@;
        if self.sessions.contains(&node_id) {
            return CommandAction::Handle(command);
        }
        self.hold(command);
        match self.incoming.remove(&node_id) {
            Some(conn) => {
                assert(self@ =~= command_step(before, command).0);
                CommandAction::Activate { node_id, conn }
            },
            None => {
                assert(self@ =~= before.hold(command));
                if self.connecting.contains(&node_id) {
                    CommandAction::Hold
                } else {
                    self.connecting.insert(node_id, ());
                    assert(self@ =~= command_step(before, command).0);
                    CommandAction::Connect { node_id }
                }
            },
        }
    }

    /// Sees to a dial that has ended.
    pub fn on_connected<E>(&mut self, node_id: NodeId, conn: Result<C, E>) -> (action:
        ConnectedAction<C, E>)
        requires
            old(self).wf(),
        ensures
            final(self).wf(),
            (final(self)@, action) == connected_step(old(self)@, node_id, conn),
    {
        let ghost before = self@;
        let _ = self.connecting.remove(&node_id);
        assert(self@ =~= connected_step(before, node_id, conn).0);
        match conn {
            Ok(conn) => {
                if self.sessions.contains(&node_id) {
                    ConnectedAction::Close { conn, reason: CloseReason::AlreadyConnected }
                } else {
                    ConnectedAction::Activate { node_id, conn }
                }
            },
            Err(err) => ConnectedAction::Failed(err),
        }
    }

    /// Sees to a connection that a peer opens, one step at a time.
    pub fn on_incoming(&mut self, event: IncomingEvent<C>) -> (action: IncomingAction<C>)
        requires
            old(self).wf(),
        ensures
            final(self).wf(),
            (final(self)@, action) == incoming_step(old(self)@, event),
    {
        let ghost before = self@;
        match event {
            IncomingEvent::Accepted(accepted) => if accepted {
                IncomingAction::ReadAlpn
            } else {
                IncomingAction::Drop
            },
            IncomingEvent::Alpn(None) => IncomingAction::Drop,
            IncomingEvent::Alpn(Some(alpn)) => {
                if same_bytes(alpn.as_slice(), self.alpn.as_slice()) {
                    IncomingAction::AwaitConnection
                } else {
                    IncomingAction::Drop
                }
            },
            IncomingEvent::Connected(None) => IncomingAction::Drop,
            IncomingEvent::Connected(Some(conn)) => IncomingAction::Identify(conn),
            IncomingEvent::Identified { conn: _, node_id: None } => IncomingAction::Drop,
            IncomingEvent::Identified { conn, node_id: Some(node_id) } => {
                if self.connecting.contains(&node_id) && node_id.less_than(&self.own_id) {
                    IncomingAction::Close { conn, reason: CloseReason::PreferMine }
                } else {
                    IncomingAction::Greet { conn, node_id }
                }
            },
            IncomingEvent::Greeted { conn, node_id, sent } => {
                if !sent {
                    IncomingAction::Close { conn, reason: CloseReason::InitFailure }
                } else if self.sessions.contains(&node_id) {
                    IncomingAction::Close { conn, reason: CloseReason::AlreadyConnected }
                } else if self.pending_commands.contains(&node_id) {
                    IncomingAction::Activate { node_id, conn }
                } else {
                    self.incoming.insert(node_id, conn);
                    assert(self@ =~= incoming_step(before, event).0);
                    IncomingAction::Held
                }
            },
        }
    }

    /// Keeps the session that a connection has become, and hands out the
    /// commands that waited for it.
    pub fn activate_conn(&mut self, node_id: NodeId, session: S) -> (commands: Vec<
        FlowCommand<R, T>,
    >)
        requires
            old(self).wf(),
        ensures
            final(self).wf(),
            (final(self)@, commands@) == activate_step(old(self)@, node_id@, session),
    {
        let ghost before = self@;
        self.sessions.insert(node_id, session);
        let commands = match self.pending_commands.remove(&node_id) {
            Some(commands) => commands,
            None => Vec::new(),
        };
        assert(commands@ =~= before.waiting(node_id@));
        assert(self@ =~= activate_step(before, node_id@, session).0) by {
            assert(self@.pending =~= before.pending.remove(node_id@));
        }
        commands
    }

    /// Decides what to do about whatever wakes the connection state up.
    pub fn run<Q, E>(&mut self, event: Event<C, R, T, Q, E>) -> (action: RunAction<C, R, T, Q, E>)
        requires
            old(self).wf(),
        ensures
            final(self).wf(),
            (final(self)@, action) == run_step(old(self)@, event),
    {
        match event {
            Event::Command(Some(Command::Flow(command))) => RunAction::Flow(
                self.on_command(command),
            ),
            Event::Command(Some(Command::Shutdown { reply })) => RunAction::Shutdown { reply },
            Event::Command(None) => RunAction::Stop,
            Event::Incoming { open } => if open {
                RunAction::Accept
            } else {
                RunAction::Stop
            },
            Event::Connected { node_id, conn } => RunAction::Connected(
                self.on_connected(node_id, conn),
            ),
            Event::Closed { reply } => RunAction::Answer { reply },
        }
    }
}

/// Whether two byte strings are the same.
fn same_bytes(a: &[u8], b: &[u8]) -> (r: bool)
    ensures
        r == (a@ == b@),
{
    if a.len() != b.len() {
        return false;
    }
    let mut i: usize = 0;
    while i < a.len()
        invariant
            i <= a@.len(),
            a@.len() == b@.len(),
            forall|j: int| 0 <= j < i ==> a@[j] == b@[j],
        decreases a@.len() - i,
    {
        if a[i] != b[i] {
            return false;
        }
        i += 1;
    }
    assert(a@ =~= b@);
    true
}

/// The code and the words that a peer sees tell why its connection was closed, and
/// tell the same.
pub proof fn law_peer_sees_why(reason: CloseReason, code: u32, words: &'static str)
    requires
        call_ensures(CloseReason::code, (&reason,), code),
        call_ensures(CloseReason::words, (&reason,), words),
    ensures
        code == 1 <==> reason is AlreadyConnected,
        code == 2 <==> reason is PreferMine,
        code == 3 <==> reason is InitFailure,
        code == 1 ==> words@ == "already-connected"@,
        code == 2 ==> words@ == "prefer-mine"@,
        code == 3 ==> words@ == "init-failure"@,
{
}

} // verus!
