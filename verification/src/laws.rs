//! What holds of the connections of a node whatever happens to them.

use crate::command::{Command, FlowCommand};
use crate::global::{RequestAction, RequestError, RequestEvent};
use crate::node::{as_number, NodeId};
use crate::state::{
    CloseReason, CommandAction, ConnectedAction, Event, IncomingAction, IncomingEvent, RunAction,
    StateView,
};
use vstd::prelude::*;

verus! {

/// One turn of the connection state, with the session that the connection
/// becomes if the turn makes one.
pub enum Turn<C, S, R, T, E> {
    /// A flow command.
    Command { command: FlowCommand<R, T>, session: S },
    /// The end of a dial.
    Connected { node_id: NodeId, conn: Result<C, E>, session: S },
    /// A connection that a known peer has opened, and whether the greeting can
    /// be sent on it.
    Incoming { conn: C, node_id: NodeId, sent: bool, session: S },
}

/// What holds between the parts of the connections: commands wait only where
/// there is no session; a connection waits only where there is neither a
/// session nor a command; a dial is under way only where commands wait or there
/// is a session by now.
pub open spec fn coherent<C, S, R, T>(s: StateView<C, S, R, T>) -> bool {
    &&& forall|n: Seq<u8>| #[trigger]
        s.pending.dom().contains(n) ==> {
            &&& !s.sessions.dom().contains(n)
            &&& s.pending[n].len() > 0
            &&& forall|i: int| 0 <= i < s.pending[n].len() ==> (#[trigger] s.pending[n][i]).node()@ == n
        }
    &&& forall|n: Seq<u8>| #[trigger]
        s.incoming.dom().contains(n) ==> !s.sessions.dom().contains(n) && !s.pending.dom().contains(n)
    &&& forall|n: Seq<u8>| #[trigger]
        s.connecting.contains(n) ==> s.pending.dom().contains(n) || s.sessions.dom().contains(n)
}

/// A turn can come: the dial that ends was made.
pub open spec fn possible<C, S, R, T, E>(
    s: StateView<C, S, R, T>,
    turn: Turn<C, S, R, T, E>,
) -> bool {
    turn matches Turn::Connected { node_id, .. } ==> s.connecting.contains(node_id@)
}

/// The commands that wait for a session with `node`, oldest first.
pub open spec fn queued<C, S, R, T>(s: StateView<C, S, R, T>, node: Seq<u8>) -> Seq<
    FlowCommand<R, T>,
> {
    if s.pending.dom().contains(node) {
        s.pending[node]
    } else {
        Seq::empty()
    }
}

/// What wakes the connection state up when a turn comes.
pub open spec fn wakes<C, S, R, T, E>(turn: Turn<C, S, R, T, E>) -> Event<C, R, T, (), E> {
    match turn {
        Turn::Command { command, .. } => Event::Command(Some(Command::Flow(command))),
        Turn::Connected { node_id, conn, .. } => Event::Connected { node_id, conn },
        Turn::Incoming { .. } => Event::Incoming { open: true },
    }
}

/// The connections after a turn, and the commands that it hands to a session.
pub open spec fn turn_step<C, S, R, T, E>(
    s: StateView<C, S, R, T>,
    turn: Turn<C, S, R, T, E>,
) -> (StateView<C, S, R, T>, Seq<FlowCommand<R, T>>) {
    let (next, action) = crate::state::run_step(s, wakes(turn));
    match (turn, action) {
        (Turn::Command { .. }, RunAction::Flow(CommandAction::Handle(command))) => {
            (next, seq![command])
        },
        (
            Turn::Command { session, .. },
            RunAction::Flow(CommandAction::Activate { node_id, .. }),
        ) => crate::state::activate_step(next, node_id@, session),
        (
            Turn::Connected { session, .. },
            RunAction::Connected(ConnectedAction::Activate { node_id, .. }),
        ) => crate::state::activate_step(next, node_id@, session),
        (Turn::Incoming { conn, node_id, sent, session }, RunAction::Accept) => {
            let (known, action) = crate::state::incoming_step(
                next,
                IncomingEvent::Identified { conn, node_id: Some(node_id) },
            );
            match action {
                IncomingAction::Greet { conn, node_id } => {
                    let (after, action) = crate::state::incoming_step(
                        known,
                        IncomingEvent::Greeted { conn, node_id, sent },
                    );
                    match action {
                        IncomingAction::Activate { node_id, .. } => crate::state::activate_step(
                            after,
                            node_id@,
                            session,
                        ),
                        _ => (after, Seq::empty()),
                    }
                },
                _ => (known, Seq::empty()),
            }
        },
        _ => (next, Seq::empty()),
    }
}

/// The node that a turn is about.
pub open spec fn about<C, S, R, T, E>(turn: Turn<C, S, R, T, E>) -> Seq<u8> {
    match turn {
        Turn::Command { command, .. } => command.node()@,
        Turn::Connected { node_id, .. } => node_id@,
        Turn::Incoming { node_id, .. } => node_id@,
    }
}

/// The commands that a turn brings.
pub open spec fn brought<C, S, R, T, E>(turn: Turn<C, S, R, T, E>) -> Seq<FlowCommand<R, T>> {
    match turn {
        Turn::Command { command, .. } => seq![command],
        _ => Seq::empty(),
    }
}

/// Whether a command is for `node`.
pub open spec fn is_for<R, T>(node: Seq<u8>) -> spec_fn(FlowCommand<R, T>) -> bool {
    |command: FlowCommand<R, T>| command.node()@ == node
}

/// Those of `commands` that are for `node`, in their order.
pub open spec fn for_node<R, T>(commands: Seq<FlowCommand<R, T>>, node: Seq<u8>) -> Seq<
    FlowCommand<R, T>,
> {
    commands.filter(is_for(node))
}

/// The connections after a run of turns.
pub open spec fn after_turns<C, S, R, T, E>(
    s: StateView<C, S, R, T>,
    turns: Seq<Turn<C, S, R, T, E>>,
) -> StateView<C, S, R, T>
    decreases turns.len(),
{
    if turns.len() == 0 {
        s
    } else {
        turn_step(after_turns(s, turns.drop_last()), turns.last()).0
    }
}

/// Every turn of the run can come when it comes.
pub open spec fn all_possible<C, S, R, T, E>(
    s: StateView<C, S, R, T>,
    turns: Seq<Turn<C, S, R, T, E>>,
) -> bool
    decreases turns.len(),
{
    turns.len() == 0 || (all_possible(s, turns.drop_last()) && possible(
        after_turns(s, turns.drop_last()),
        turns.last(),
    ))
}

/// The commands that a run of turns hands to sessions, in their order.
pub open spec fn all_handled<C, S, R, T, E>(
    s: StateView<C, S, R, T>,
    turns: Seq<Turn<C, S, R, T, E>>,
) -> Seq<FlowCommand<R, T>>
    decreases turns.len(),
{
    if turns.len() == 0 {
        Seq::empty()
    } else {
        all_handled(s, turns.drop_last()) + turn_step(
            after_turns(s, turns.drop_last()),
            turns.last(),
        ).1
    }
}

/// The commands that a run of turns brings, in their order.
pub open spec fn all_brought<C, S, R, T, E>(turns: Seq<Turn<C, S, R, T, E>>) -> Seq<
    FlowCommand<R, T>,
>
    decreases turns.len(),
{
    if turns.len() == 0 {
        Seq::empty()
    } else {
        all_brought(turns.drop_last()) + brought(turns.last())
    }
}

/// The connections of a node that has just bound its endpoint are coherent.
pub proof fn law_new_is_coherent<C, S, R, T>(own_id: Seq<u8>, alpn: Seq<u8>)
    ensures
        coherent(
            StateView::<C, S, R, T> {
                own_id,
                alpn,
                pending: Map::empty(),
                connecting: Set::empty(),
                incoming: Map::empty(),
                sessions: Map::empty(),
            },
        ),
{
}

/// Every turn keeps the connections coherent.
pub proof fn law_turn_keeps_coherent<C, S, R, T, E>(
    s: StateView<C, S, R, T>,
    turn: Turn<C, S, R, T, E>,
)
    requires
        coherent(s),
        possible(s, turn),
    ensures
        coherent(turn_step(s, turn).0),
{
    let next = turn_step(s, turn).0;
    match turn {
        Turn::Command { command, .. } => {
            let n = command.node()@;
            assert forall|m: Seq<u8>| #[trigger] next.pending.dom().contains(m) implies {
                &&& !next.sessions.dom().contains(m)
                &&& next.pending[m].len() > 0
                &&& forall|i: int|
                    0 <= i < next.pending[m].len() ==> (#[trigger] next.pending[m][i]).node()@ == m
            } by {
                if m != n {
                    assert(s.pending.dom().contains(m));
                } else if s.pending.dom().contains(n) {
                    assert forall|i: int| 0 <= i < next.pending[m].len() implies (
                    #[trigger] next.pending[m][i]).node()@ == m by {
                        if i < s.pending[n].len() {
                            assert(s.pending[n][i].node()@ == n);
                        }
                    }
                }
            }
        },
        _ => {},
    }
}

/// No turn ends or replaces a session.
pub proof fn law_sessions_stay<C, S, R, T, E>(
    s: StateView<C, S, R, T>,
    turn: Turn<C, S, R, T, E>,
    node: Seq<u8>,
)
    requires
        s.sessions.dom().contains(node),
    ensures
        turn_step(s, turn).0.sessions.dom().contains(node),
        turn_step(s, turn).0.sessions[node] == s.sessions[node],
{
}

/// No turn loses, doubles or reorders the commands for a node: what it hands to
/// the node's session, followed by what waits after it, is what waited before
/// it, followed by what it brings.
pub proof fn law_commands_keep_order<C, S, R, T, E>(
    s: StateView<C, S, R, T>,
    turn: Turn<C, S, R, T, E>,
    node: Seq<u8>,
)
    requires
        coherent(s),
    ensures
        for_node(turn_step(s, turn).1, node) + queued(turn_step(s, turn).0, node) == queued(s, node)
            + for_node(brought(turn), node),
{
    let (next, handled) = turn_step(s, turn);
    let pred = is_for::<R, T>(node);
    reveal(Seq::filter);
    match turn {
        Turn::Command { command, .. } => {
            let n = command.node()@;
            lemma_filter_one(command, pred);
            let queue = queued(s, n).push(command);
            assert forall|i: int| 0 <= i < queue.len() implies (#[trigger] queue[i]).node()@ == n by {
                if i < queued(s, n).len() {
                    assert(s.pending[n][i].node()@ == n);
                }
            }
            if n == node {
                lemma_filter_all(queue, pred);
            } else {
                lemma_filter_none(queue, pred);
            }
        },
        Turn::Connected { node_id, .. } => {
            lemma_waiting_for_node(s, node_id@, node);
        },
        Turn::Incoming { node_id, .. } => {
            lemma_waiting_for_node(s, node_id@, node);
        },
    }
    assert(for_node(handled, node) + queued(next, node) =~= queued(s, node) + for_node(
        brought(turn),
        node,
    ));
}

/// Nothing is lost, doubled or reordered in a run of turns: what a node's
/// session was handed, followed by what waits for it, is what waited at first,
/// followed by what was brought for the node.
pub proof fn law_run_keeps_order<C, S, R, T, E>(
    s: StateView<C, S, R, T>,
    turns: Seq<Turn<C, S, R, T, E>>,
    node: Seq<u8>,
)
    requires
        coherent(s),
        all_possible(s, turns),
    ensures
        coherent(after_turns(s, turns)),
        for_node(all_handled(s, turns), node) + queued(after_turns(s, turns), node) == queued(
            s,
            node,
        ) + for_node(all_brought(turns), node),
    decreases turns.len(),
{
    reveal(Seq::filter);
    let pred = is_for::<R, T>(node);
    if turns.len() > 0 {
        let before = after_turns(s, turns.drop_last());
        law_run_keeps_order(s, turns.drop_last(), node);
        law_turn_keeps_coherent(before, turns.last());
        law_commands_keep_order(before, turns.last(), node);
        Seq::filter_distributes_over_add(
            all_handled(s, turns.drop_last()),
            turn_step(before, turns.last()).1,
            pred,
        );
        Seq::filter_distributes_over_add(
            all_brought(turns.drop_last()),
            brought(turns.last()),
            pred,
        );
        let h0 = for_node(all_handled(s, turns.drop_last()), node);
        let h1 = for_node(turn_step(before, turns.last()).1, node);
        let b0 = for_node(all_brought(turns.drop_last()), node);
        let b1 = for_node(brought(turns.last()), node);
        let w = queued(after_turns(s, turns), node);
        assert((h0 + h1) + w =~= h0 + (h1 + w));
        assert(h0 + (queued(before, node) + b1) =~= (h0 + queued(before, node)) + b1);
        assert((queued(s, node) + b0) + b1 =~= queued(s, node) + (b0 + b1));
    } else {
        assert(for_node(all_handled(s, turns), node) + queued(s, node) =~= queued(s, node)
            + for_node(all_brought(turns), node));
    }
}

/// What becomes of a flow command is settled by what is there for its node. A
/// session takes it. Else a connection that the peer opened is made one. Else a
/// dial under way is waited for. Else, and only then, the peer is dialled. A
/// command that no session takes waits behind those before it.
pub proof fn law_command_finds_its_way<C, S, R, T>(
    s: StateView<C, S, R, T>,
    command: FlowCommand<R, T>,
)
    ensures
        ({
            let (next, action) = crate::state::command_step(s, command);
            let node = command.node()@;
            let session = s.sessions.dom().contains(node);
            let opened = s.incoming.dom().contains(node);
            let dialled = s.connecting.contains(node);
            &&& action is Handle <==> session
            &&& action is Activate <==> !session && opened
            &&& action is Hold <==> !session && !opened && dialled
            &&& action is Connect <==> !session && !opened && !dialled
            &&& action matches CommandAction::Handle(handled) ==> handled == command && next == s
            &&& action matches CommandAction::Activate { node_id, conn } ==> node_id
                == command.node() && conn == s.incoming[node] && next.incoming == s.incoming.remove(
                node,
            )
            &&& action matches CommandAction::Connect { node_id } ==> node_id == command.node()
            &&& !(action is Activate) ==> next.incoming == s.incoming
            &&& next.sessions == s.sessions
            &&& next.connecting.contains(node) <==> dialled || action is Connect
            &&& queued(next, node) == if session {
                queued(s, node)
            } else {
                queued(s, node).push(command)
            }
        }),
{
}

/// A dial that has ended is under way no longer. One that has failed tells its
/// error. One that has succeeded becomes the session where there is none, and is
/// closed as not needed where there is one.
pub proof fn law_dial_becomes_the_session<C, S, R, T, E>(
    s: StateView<C, S, R, T>,
    node_id: NodeId,
    conn: Result<C, E>,
)
    ensures
        ({
            let (next, action) = crate::state::connected_step(s, node_id, conn);
            let session = s.sessions.dom().contains(node_id@);
            &&& !next.connecting.contains(node_id@)
            &&& next.sessions == s.sessions && next.pending == s.pending && next.incoming
                == s.incoming
            &&& forall|err: E|
                action == ConnectedAction::<C, E>::Failed(err) <==> conn == Err::<C, E>(err)
            &&& conn is Ok && !session ==> action == (ConnectedAction::<C, E>::Activate {
                node_id,
                conn: conn->Ok_0,
            })
            &&& conn is Ok && session ==> action == (ConnectedAction::<C, E>::Close {
                conn: conn->Ok_0,
                reason: CloseReason::AlreadyConnected,
            })
        }),
{
}

/// A connection that a peer opens is declined in favour of the own dial exactly
/// where the node dials that peer and the peer's identifier, read as a number, is
/// the smaller one. Every other known peer is greeted.
pub proof fn law_known_peer_is_greeted<C, S, R, T>(
    s: StateView<C, S, R, T>,
    conn: C,
    node_id: NodeId,
)
    requires
        s.own_id.len() == node_id@.len(),
    ensures
        ({
            let (next, action) = crate::state::incoming_step(
                s,
                IncomingEvent::Identified { conn, node_id: Some(node_id) },
            );
            &&& next == s
            &&& s.connecting.contains(node_id@) && as_number(node_id@) < as_number(s.own_id)
                ==> action == (IncomingAction::<C>::Close { conn, reason: CloseReason::PreferMine })
            &&& !(s.connecting.contains(node_id@) && as_number(node_id@) < as_number(s.own_id))
                ==> action == (IncomingAction::<C>::Greet { conn, node_id })
        }),
{
    crate::node::law_order_is_that_of_numbers(node_id@, s.own_id);
}

/// A peer that was greeted is taken on: its connection is made the session that
/// commands wait for, or waits for a command. It is refused where the greeting
/// could not be sent, or where there is a session.
pub proof fn law_greeted_peer_is_taken_on<C, S, R, T>(
    s: StateView<C, S, R, T>,
    conn: C,
    node_id: NodeId,
    sent: bool,
)
    ensures
        ({
            let (next, action) = crate::state::incoming_step(
                s,
                IncomingEvent::Greeted { conn, node_id, sent },
            );
            let session = s.sessions.dom().contains(node_id@);
            let waited_for = s.pending.dom().contains(node_id@);
            &&& !sent ==> action == (IncomingAction::<C>::Close {
                conn,
                reason: CloseReason::InitFailure,
            })
            &&& sent && session ==> action == (IncomingAction::<C>::Close {
                conn,
                reason: CloseReason::AlreadyConnected,
            })
            &&& sent && !session && waited_for ==> action == (IncomingAction::<C>::Activate {
                node_id,
                conn,
            })
            &&& action is Held <==> sent && !session && !waited_for
            &&& !(action is Held) ==> next == s
            &&& action is Held ==> next.incoming.dom().contains(node_id@) && next.incoming[node_id@]
                == conn && forall|other: Seq<u8>|
                other != node_id@ ==> (next.incoming.dom().contains(other)
                    <==> s.incoming.dom().contains(other)) && next.incoming[other]
                    == s.incoming[other]
            &&& next.sessions == s.sessions && next.pending == s.pending && next.connecting
                == s.connecting
        }),
{
}

/// Before a peer is known, its attempt goes on exactly as long as each step came
/// about and the peer speaks the node's own protocol. Nothing is kept of it.
pub proof fn law_attempt_goes_on_step_by_step<C, S, R, T>(
    s: StateView<C, S, R, T>,
    accepted: bool,
    alpn: Option<Vec<u8>>,
    conn: Option<C>,
    unknown: C,
)
    ensures
        ({
            let (next, action) = crate::state::incoming_step(
                s,
                IncomingEvent::<C>::Accepted(accepted),
            );
            &&& next == s
            &&& action is ReadAlpn <==> accepted
            &&& action is Drop <==> !accepted
        }),
        ({
            let (next, action) = crate::state::incoming_step(s, IncomingEvent::<C>::Alpn(alpn));
            let spoken = alpn is Some && alpn->Some_0@ == s.alpn;
            &&& next == s
            &&& action is AwaitConnection <==> spoken
            &&& action is Drop <==> !spoken
        }),
        ({
            let (next, action) = crate::state::incoming_step(s, IncomingEvent::Connected(conn));
            &&& next == s
            &&& forall|c: C| action == IncomingAction::Identify(c) <==> conn == Some(c)
            &&& action is Drop <==> conn is None
        }),
        ({
            let (next, action) = crate::state::incoming_step(
                s,
                IncomingEvent::Identified { conn: unknown, node_id: None },
            );
            next == s && action is Drop
        }),
{
}

/// A session that comes about is the one that is kept for its node, and takes all
/// that waited for it, oldest first; nothing waits for it any more.
pub proof fn law_session_takes_what_waited<C, S, R, T>(
    s: StateView<C, S, R, T>,
    node: Seq<u8>,
    session: S,
)
    ensures
        ({
            let (next, commands) = crate::state::activate_step(s, node, session);
            &&& next.sessions.dom().contains(node)
            &&& next.sessions[node] == session
            &&& commands == queued(s, node)
            &&& queued(next, node).len() == 0
            &&& !next.pending.dom().contains(node)
            &&& next.connecting == s.connecting && next.incoming == s.incoming
            &&& forall|other: Seq<u8>|
                other != node ==> queued(next, other) == queued(s, other) && (
                next.sessions.dom().contains(other) <==> s.sessions.dom().contains(other))
                    && next.sessions[other] == s.sessions[other]
        }),
{
}

/// The event loop sees to every flow command as `on_command` does and to the end
/// of every dial as `on_connected` does. Where there is a session with a
/// command's node, the session gets the command.
pub proof fn law_loop_sees_to_commands_and_dials<C, S, R, T, Q, E>(
    s: StateView<C, S, R, T>,
    command: FlowCommand<R, T>,
    node_id: NodeId,
    conn: Result<C, E>,
)
    ensures
        ({
            let (next, action) = crate::state::run_step(
                s,
                Event::<C, R, T, Q, E>::Command(Some(Command::Flow(command))),
            );
            let (after, decided) = crate::state::command_step(s, command);
            &&& next == after
            &&& action == RunAction::<C, R, T, Q, E>::Flow(decided)
            &&& s.sessions.dom().contains(command.node()@) ==> action == RunAction::<
                C,
                R,
                T,
                Q,
                E,
            >::Flow(CommandAction::Handle(command))
        }),
        ({
            let (next, action) = crate::state::run_step(
                s,
                Event::<C, R, T, Q, E>::Connected { node_id, conn },
            );
            let (after, decided) = crate::state::connected_step(s, node_id, conn);
            &&& next == after
            &&& action == RunAction::<C, R, T, Q, E>::Connected(decided)
            &&& conn is Ok && !s.sessions.dom().contains(node_id@) ==> action == RunAction::<
                C,
                R,
                T,
                Q,
                E,
            >::Connected(ConnectedAction::Activate { node_id, conn: conn->Ok_0 })
        }),
{
}

/// The event loop goes on until the command channel or the endpoint has ended, or
/// a shutdown was answered, and for nothing else. It takes on every attempt of a
/// peer, closes the endpoint for a shutdown, and answers the very one that asked.
pub proof fn law_loop_goes_on<C, S, R, T, Q, E>(
    s: StateView<C, S, R, T>,
    event: Event<C, R, T, Q, E>,
)
    ensures
        ({
            let (next, action) = crate::state::run_step(s, event);
            let ended = event == Event::<C, R, T, Q, E>::Command(None) || event == (Event::<
                C,
                R,
                T,
                Q,
                E,
            >::Incoming { open: false });
            &&& action.last() <==> ended || event is Closed
            &&& action is Stop <==> ended
            &&& action is Accept <==> event == (Event::<C, R, T, Q, E>::Incoming { open: true })
            &&& forall|reply: Q|
                action == (RunAction::<C, R, T, Q, E>::Shutdown { reply }) <==> event == Event::<
                    C,
                    R,
                    T,
                    Q,
                    E,
                >::Command(Some(Command::Shutdown { reply }))
            &&& forall|reply: Q|
                action == (RunAction::<C, R, T, Q, E>::Answer { reply }) <==> event == (Event::<
                    C,
                    R,
                    T,
                    Q,
                    E,
                >::Closed { reply })
            &&& !(action is Flow) && !(action is Connected) ==> next == s
        }),
{
}

/// A turn changes what is there for the node that it is about, and nothing else.
pub proof fn law_turn_leaves_other_nodes_alone<C, S, R, T, E>(
    s: StateView<C, S, R, T>,
    turn: Turn<C, S, R, T, E>,
    other: Seq<u8>,
)
    requires
        other != about(turn),
    ensures
        ({
            let next = turn_step(s, turn).0;
            &&& next.own_id == s.own_id
            &&& next.alpn == s.alpn
            &&& queued(next, other) == queued(s, other)
            &&& next.pending.dom().contains(other) <==> s.pending.dom().contains(other)
            &&& next.connecting.contains(other) <==> s.connecting.contains(other)
            &&& next.incoming.dom().contains(other) <==> s.incoming.dom().contains(other)
            &&& next.incoming[other] == s.incoming[other]
            &&& next.sessions.dom().contains(other) <==> s.sessions.dom().contains(other)
            &&& next.sessions[other] == s.sessions[other]
        }),
{
}

/// No command is forgotten: a turn that leaves a command waiting for a node leaves
/// a dial to it under way, or is the failure of that dial, or has nothing to do
/// with the node and found it so.
pub proof fn law_no_command_is_forgotten<C, S, R, T, E>(
    s: StateView<C, S, R, T>,
    turn: Turn<C, S, R, T, E>,
    node: Seq<u8>,
)
    requires
        coherent(s),
        queued(turn_step(s, turn).0, node).len() > 0,
    ensures
        turn_step(s, turn).0.connecting.contains(node) || (about(turn) == node && (
        turn matches Turn::Connected { conn: Err(_), .. })) || (!(turn is Command && about(turn)
            == node) && !s.connecting.contains(node) && queued(turn_step(s, turn).0, node)
            == queued(s, node)),
{
}

/// A session with a node comes about exactly where a connection with it is to be
/// had and wanted: a command meets a connection that the peer opened, a dial
/// succeeds, or a greeted peer finds commands that wait for it. What waited is
/// handed to it then, and the session is the one that was made.
pub proof fn law_when_a_session_comes_about<C, S, R, T, E>(
    s: StateView<C, S, R, T>,
    turn: Turn<C, S, R, T, E>,
)
    requires
        !s.sessions.dom().contains(about(turn)),
        s.own_id.len() == about(turn).len(),
    ensures
        ({
            let (next, handed) = turn_step(s, turn);
            let node = about(turn);
            let comes = match turn {
                Turn::Command { .. } => s.incoming.dom().contains(node),
                Turn::Connected { conn, .. } => conn is Ok,
                Turn::Incoming { sent, .. } => sent && s.pending.dom().contains(node) && !(
                s.connecting.contains(node) && as_number(node) < as_number(s.own_id)),
            };
            let made = match turn {
                Turn::Command { session, .. } => session,
                Turn::Connected { session, .. } => session,
                Turn::Incoming { session, .. } => session,
            };
            &&& next.sessions.dom().contains(node) <==> comes
            &&& comes ==> next.sessions[node] == made && queued(next, node).len() == 0 && handed
                == queued(s, node) + brought(turn)
            &&& !comes ==> handed.len() == 0 && queued(next, node) == queued(s, node) + brought(turn)
        }),
{
    crate::node::law_order_is_that_of_numbers(about(turn), s.own_id);
    let (next, handed) = turn_step(s, turn);
    let node = about(turn);
    assert(queued(s, node).push(brought(turn)[0]) =~= queued(s, node) + seq![brought(turn)[0]]);
    assert(queued(s, node) + Seq::<FlowCommand<R, T>>::empty() =~= queued(s, node));
}

/// Where two nodes dial each other at once, exactly one of the two dials is
/// declined: the one whose maker has the smaller identifier, read as a number.
pub proof fn law_greater_identifier_keeps_its_dial<C, S, R, T>(
    a: StateView<C, S, R, T>,
    b: StateView<C, S, R, T>,
    conn_to_a: C,
    conn_to_b: C,
    a_id: NodeId,
    b_id: NodeId,
)
    requires
        a.own_id == a_id@,
        b.own_id == b_id@,
        a.connecting.contains(b_id@),
        b.connecting.contains(a_id@),
        as_number(a_id@) < as_number(b_id@),
    ensures
        crate::state::incoming_step(
            b,
            IncomingEvent::Identified { conn: conn_to_b, node_id: Some(a_id) },
        ).1 == (IncomingAction::<C>::Close { conn: conn_to_b, reason: CloseReason::PreferMine }),
        crate::state::incoming_step(
            a,
            IncomingEvent::Identified { conn: conn_to_a, node_id: Some(b_id) },
        ).1 == (IncomingAction::<C>::Greet { conn: conn_to_a, node_id: b_id }),
{
    law_known_peer_is_greeted(b, conn_to_b, a_id);
    law_known_peer_is_greeted(a, conn_to_a, b_id);
}

/// Where two nodes dial each other at once, exactly one of the two dials is
/// declined.
pub proof fn law_one_dial_is_declined<C, S, R, T>(
    a: StateView<C, S, R, T>,
    b: StateView<C, S, R, T>,
)
    requires
        a.own_id.len() == b.own_id.len(),
        a.own_id != b.own_id,
        a.connecting.contains(b.own_id),
        b.connecting.contains(a.own_id),
    ensures
        crate::state::prefers_own_dial(a, b.own_id) != crate::state::prefers_own_dial(b, a.own_id),
{
    crate::node::law_order_is_total(a.own_id, b.own_id);
}

/// A node is dialled only where no dial to it is under way, and the dial is
/// under way from then on.
pub proof fn law_one_dial_at_a_time<C, S, R, T>(
    s: StateView<C, S, R, T>,
    command: FlowCommand<R, T>,
)
    ensures
        crate::state::command_step(s, command).1 is Connect ==> !s.connecting.contains(
            command.node()@,
        ),
        crate::state::command_step(s, command).1 is Connect ==> crate::state::command_step(
            s,
            command,
        ).0.connecting == s.connecting.insert(command.node()@),
        !(crate::state::command_step(s, command).1 is Connect) ==> crate::state::command_step(
            s,
            command,
        ).0.connecting == s.connecting,
{
}

/// Once there is a session with a node, no further connection with it is
/// activated or kept: the end of a dial closes it, and a connection that the
/// peer opens is closed or dropped.
pub proof fn law_one_session_per_node<C, S, R, T, E>(
    s: StateView<C, S, R, T>,
    node_id: NodeId,
    conn: C,
    sent: bool,
)
    requires
        s.sessions.dom().contains(node_id@),
    ensures
        crate::state::connected_step::<C, S, R, T, E>(s, node_id, Ok(conn)).1
            == (ConnectedAction::<C, E>::Close { conn, reason: CloseReason::AlreadyConnected }),
        crate::state::incoming_step(s, IncomingEvent::Greeted { conn, node_id, sent }).0 == s,
        crate::state::incoming_step(s, IncomingEvent::Greeted { conn, node_id, sent }).1
            == (IncomingAction::<C>::Close {
            conn,
            reason: if sent {
                CloseReason::AlreadyConnected
            } else {
                CloseReason::InitFailure
            },
        }),
{
}

/// One time that the connection state is woken up: its connections by then, and
/// what wakes it.
pub struct Waking<C, S, R, T, Q, E> {
    pub before: StateView<C, S, R, T>,
    pub event: Event<C, R, T, Q, E>,
}

impl<C, S, R, T, Q, E> Waking<C, S, R, T, Q, E> {
    /// What the connection state does about it.
    pub open spec fn action(self) -> RunAction<C, R, T, Q, E> {
        crate::state::run_step(self.before, self.event).1
    }

    /// It is a shutdown that is asked for.
    pub open spec fn asks_for_shutdown(self) -> bool {
        self.event matches Event::Command(Some(Command::Shutdown { .. }))
    }
}

/// The connection state sees to the waking at `i`: none before it was the last.
pub open spec fn sees_to<C, S, R, T, Q, E>(wakings: Seq<Waking<C, S, R, T, Q, E>>, i: int) -> bool {
    &&& 0 <= i < wakings.len()
    &&& forall|k: int| 0 <= k < i ==> !(#[trigger] wakings[k]).action().last()
}

/// Where a shutdown is asked for, what comes next is that the endpoint is closed;
/// nowhere else does that come.
pub open spec fn closes_in_turn<C, S, R, T, Q, E>(
    wakings: Seq<Waking<C, S, R, T, Q, E>>,
) -> bool {
    &&& wakings.len() > 0 ==> !(wakings[0].event is Closed)
    &&& forall|i: int, j: int|
        #![trigger wakings[i], wakings[j]]
        0 <= i && j == i + 1 && j < wakings.len() ==> match wakings[i].action() {
            RunAction::Shutdown { reply } => wakings[j].event
                == (Event::<C, R, T, Q, E>::Closed { reply }),
            _ => !(wakings[j].event is Closed),
        }
}

/// The shutdown asked for by the waking at `i` is answered.
pub open spec fn answered<C, S, R, T, Q, E>(
    wakings: Seq<Waking<C, S, R, T, Q, E>>,
    i: int,
) -> bool {
    &&& wakings[i].event matches Event::Command(Some(Command::Shutdown { reply }))
    &&& sees_to(wakings, i + 1)
    &&& wakings[i + 1].action() == (RunAction::<C, R, T, Q, E>::Answer { reply })
}

/// What the request comes by that asked for the shutdown at `i`, if it comes by
/// anything: the answer, or that there is none.
pub open spec fn reply_to<C, S, R, T, Q, E, F>(
    wakings: Seq<Waking<C, S, R, T, Q, E>>,
    i: int,
) -> RequestEvent<(), F> {
    RequestEvent::Replied(
        if answered(wakings, i) {
            Some(Ok(()))
        } else {
            None
        },
    )
}

/// A shutdown is answered only once the endpoint is closed. From then on the
/// connection state sees to nothing any more. So no other shutdown is ever
/// answered, and a request for one does not succeed.
pub proof fn law_one_shutdown_is_answered<C, S, R, T, Q, E, F>(
    wakings: Seq<Waking<C, S, R, T, Q, E>>,
    i: int,
    j: int,
)
    requires
        closes_in_turn(wakings),
        0 <= i < wakings.len(),
        0 <= j < wakings.len(),
        i != j,
        wakings[j].asks_for_shutdown(),
        answered(wakings, i),
    ensures
        wakings[i].event matches Event::Command(Some(Command::Shutdown { reply }))
            && wakings[i + 1].event == (Event::<C, R, T, Q, E>::Closed { reply }),
        forall|k: int| k > i + 1 ==> !sees_to(wakings, k),
        !answered(wakings, j),
        crate::global::request_step(reply_to::<C, S, R, T, Q, E, F>(wakings, i)) == RequestAction::<
            (),
            F,
        >::Finish(Ok(())),
        crate::global::request_step(reply_to::<C, S, R, T, Q, E, F>(wakings, j)) == RequestAction::<
            (),
            F,
        >::Finish(Err(RequestError::NoReply)),
{
    assert(wakings[i + 1].action().last());
    if answered(wakings, j) {
        assert(wakings[j + 1].action().last());
    }
}

/// Once a shutdown is asked for, the connection state sees to no further
/// command: only to the closing of the endpoint, and then to nothing.
pub proof fn law_shutdown_is_last<C, S, R, T, Q, E>(
    wakings: Seq<Waking<C, S, R, T, Q, E>>,
    i: int,
    j: int,
)
    requires
        closes_in_turn(wakings),
        sees_to(wakings, i),
        wakings[i].asks_for_shutdown(),
        i < j < wakings.len(),
    ensures
        sees_to(wakings, j) <==> j == i + 1,
        wakings[i + 1].event is Closed,
{
}

/// Nothing is seen to after the command channel or the endpoint has ended.
pub proof fn law_stop_is_last<C, S, R, T, Q, E>(
    wakings: Seq<Waking<C, S, R, T, Q, E>>,
    i: int,
    j: int,
)
    requires
        sees_to(wakings, i),
        wakings[i].action() is Stop,
        i < j,
    ensures
        !sees_to(wakings, j),
{
}

proof fn lemma_filter_one<A>(a: A, pred: spec_fn(A) -> bool)
    ensures
        seq![a].filter(pred) == if pred(a) {
            seq![a]
        } else {
            Seq::empty()
        },
{
    reveal(Seq::filter);
    assert(seq![a].drop_last() =~= Seq::<A>::empty());
    assert(Seq::<A>::empty().filter(pred) =~= Seq::<A>::empty());
    assert(Seq::<A>::empty().push(a) =~= seq![a]);
}

proof fn lemma_filter_all<A>(s: Seq<A>, pred: spec_fn(A) -> bool)
    requires
        forall|i: int| 0 <= i < s.len() ==> pred(#[trigger] s[i]),
    ensures
        s.filter(pred) == s,
    decreases s.len(),
{
    reveal(Seq::filter);
    if s.len() > 0 {
        lemma_filter_all(s.drop_last(), pred);
        assert(s.drop_last().push(s.last()) =~= s);
    } else {
        assert(s.filter(pred) =~= s);
    }
}

proof fn lemma_filter_none<A>(s: Seq<A>, pred: spec_fn(A) -> bool)
    requires
        forall|i: int| 0 <= i < s.len() ==> !pred(#[trigger] s[i]),
    ensures
        s.filter(pred) == Seq::<A>::empty(),
    decreases s.len(),
{
    reveal(Seq::filter);
    if s.len() > 0 {
        lemma_filter_none(s.drop_last(), pred);
    } else {
        assert(s.filter(pred) =~= Seq::<A>::empty());
    }
}

/// What waits for a session with `holder` is for that node alone.
proof fn lemma_waiting_for_node<C, S, R, T>(
    s: StateView<C, S, R, T>,
    holder: Seq<u8>,
    node: Seq<u8>,
)
    requires
        coherent(s),
    ensures
        for_node(queued(s, holder), node) == if holder == node {
            queued(s, holder)
        } else {
            Seq::empty()
        },
{
    let pred = is_for::<R, T>(node);
    let queue = queued(s, holder);
    assert forall|i: int| 0 <= i < queue.len() implies (#[trigger] queue[i]).node()@ == holder by {
        assert(s.pending[holder][i].node()@ == holder);
    }
    if holder == node {
        lemma_filter_all(queue, pred);
    } else {
        lemma_filter_none(queue, pred);
    }
}

} // verus!
