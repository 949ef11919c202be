//! The one connection state that all media elements of a process share, and
//! their requests to it.

use crate::command::{Command, FlowCommand};
use crate::node::NodeId;
use vstd::prelude::*;

verus! {

/// A connection state that takes commands by `X`.
pub struct Started<X> {
    pub cmd_tx: X,
}

/// The shared connection state, or why there is none.
pub enum GlobalState<X, E> {
    Started(Started<X>),
    Failed(E),
}

/// Why a request has come to nothing.
pub enum RequestError<E> {
    /// The connection state takes no commands any more.
    NotTaken,
    /// The connection state has dropped the request.
    NoReply,
    /// The connection state has refused the request.
    Refused(E),
}

/// What has happened to a request.
pub enum RequestEvent<A, E> {
    /// The command was handed over, or could not be.
    Queued(bool),
    /// The answer has come, or cannot come any more.
    Replied(Option<Result<A, E>>),
}

/// What a request does next.
pub enum RequestAction<A, E> {
    /// Wait for the answer.
    AwaitReply,
    /// End.
    Finish(Result<A, RequestError<E>>),
}

/// The connection state that has bound its endpoint, or why it could not.
pub open spec fn made_of<X, E>(cmd_tx: X, bound: Result<(), E>) -> GlobalState<X, E> {
    match bound {
        Ok(()) => GlobalState::Started(Started { cmd_tx }),
        Err(err) => GlobalState::Failed(err),
    }
}

/// What is given to one that asks for the connection state.
pub open spec fn given<'a, X, E>(global: &'a GlobalState<X, E>) -> Result<&'a Started<X>, &'a E> {
    match global {
        GlobalState::Started(started) => Ok(started),
        GlobalState::Failed(err) => Err(err),
    }
}

impl<X, E> GlobalState<X, E> {
    /// Keeps the way to a connection state that has bound its endpoint, or why
    /// it could not.
    pub fn init(cmd_tx: X, bound: Result<(), E>) -> (global: Self)
        ensures
            global == made_of(cmd_tx, bound),
    {
        match bound {
            Ok(()) => GlobalState::Started(Started { cmd_tx }),
            Err(err) => GlobalState::Failed(err),
        }
    }

    /// The connection state, or why there is none.
    pub fn get(&self) -> (started: Result<&Started<X>, &E>)
        ensures
            started == given(self),
    {
        match self {
            GlobalState::Started(started) => Ok(started),
            GlobalState::Failed(err) => Err(err),
        }
    }
}

/// The words of the report that the endpoint could not be bound, before those of
/// the error.
pub fn bind_failed_words() -> (words: &'static str)
    ensures
        words@ == "failed to bind iroh endpoint"@,
{
    "failed to bind iroh endpoint"
}

/// Where a process keeps the one connection state that it shares.
pub struct Shared<X: 'static, E: 'static> {
    /// The connection state, once it is made.
    pub made: Option<&'static GlobalState<X, E>>,
}

/// What happens to the place of the shared connection state.
pub enum SharedEvent<X: 'static, E: 'static> {
    /// The connection state is asked for.
    Asked,
    /// A connection state was made for one that asked.
    Made(&'static GlobalState<X, E>),
}

/// What to do for one that asks for the shared connection state.
pub enum SharedAction<X: 'static, E: 'static> {
    /// Make the connection state.
    Init,
    /// Give it, or why there is none.
    Give(Result<&'static Started<X>, &'static E>),
}

/// One that asks is given the connection state that was made first. It is made
/// where there is none.
pub open spec fn shared_step<X: 'static, E: 'static>(
    made: Option<&'static GlobalState<X, E>>,
    event: SharedEvent<X, E>,
) -> (Option<&'static GlobalState<X, E>>, SharedAction<X, E>) {
    match (made, event) {
        (Some(global), _) => (made, SharedAction::Give(given(global))),
        (None, SharedEvent::Asked) => (made, SharedAction::Init),
        (None, SharedEvent::Made(global)) => (Some(global), SharedAction::Give(given(global))),
    }
}

impl<X: 'static, E: 'static> Shared<X, E> {
    /// Decides what to do for one that asks for the shared connection state.
    pub fn get(&mut self, event: SharedEvent<X, E>) -> (action: SharedAction<X, E>)
        ensures
            (final(self).made, action) == shared_step(old(self).made, event),
    {
        match self.made {
            Some(global) => SharedAction::Give(global.get()),
            None => match event {
                SharedEvent::Asked => SharedAction::Init,
                SharedEvent::Made(global) => {
                    self.made = Some(global);
                    SharedAction::Give(global.get())
                },
            },
        }
    }
}

impl<X> Started<X> {
    /// The command that asks for a flow to a remote node, and where it goes.
    pub fn send_flow<R, T, Q>(&self, remote_node_id: NodeId, flow_id: u32, reply: T) -> (request: (
        &X,
        Command<R, T, Q>,
    ))
        ensures
            *request.0 == self.cmd_tx,
            request.1 == Command::<R, T, Q>::Flow(
                FlowCommand::SendFlow { node_id: remote_node_id, flow_id, reply },
            ),
    {
        (
            &self.cmd_tx,
            Command::Flow(FlowCommand::SendFlow { node_id: remote_node_id, flow_id, reply }),
        )
    }

    /// The command that asks for a flow from a remote node, and where it goes.
    pub fn receive_flow<R, T, Q>(&self, remote_node_id: NodeId, flow_id: u32, reply: R) -> (request:
        (&X, Command<R, T, Q>))
        ensures
            *request.0 == self.cmd_tx,
            request.1 == Command::<R, T, Q>::Flow(
                FlowCommand::ReceiveFlow { node_id: remote_node_id, flow_id, reply },
            ),
    {
        (
            &self.cmd_tx,
            Command::Flow(FlowCommand::ReceiveFlow { node_id: remote_node_id, flow_id, reply }),
        )
    }

    /// The command that asks for the end, and where it goes.
    pub fn shutdown<R, T, Q>(&self, reply: Q) -> (request: (&X, Command<R, T, Q>))
        ensures
            *request.0 == self.cmd_tx,
            request.1 == (Command::<R, T, Q>::Shutdown { reply }),
    {
        (&self.cmd_tx, Command::Shutdown { reply })
    }
}

/// What a request does next: it waits for the answer to the command that it
/// handed over, and ends with the answer.
pub open spec fn request_step<A, E>(event: RequestEvent<A, E>) -> RequestAction<A, E> {
    match event {
        RequestEvent::Queued(true) => RequestAction::AwaitReply,
        RequestEvent::Queued(false) => RequestAction::Finish(Err(RequestError::NotTaken)),
        RequestEvent::Replied(Some(Ok(answer))) => RequestAction::Finish(Ok(answer)),
        RequestEvent::Replied(Some(Err(err))) => RequestAction::Finish(
            Err(RequestError::Refused(err)),
        ),
        RequestEvent::Replied(None) => RequestAction::Finish(Err(RequestError::NoReply)),
    }
}

/// Decides what a request does next.
pub fn request<A, E>(event: RequestEvent<A, E>) -> (action: RequestAction<A, E>)
    ensures
        action == request_step(event),
{
    match event {
        RequestEvent::Queued(queued) => if queued {
            RequestAction::AwaitReply
        } else {
            RequestAction::Finish(Err(RequestError::NotTaken))
        },
        RequestEvent::Replied(Some(Ok(answer))) => RequestAction::Finish(Ok(answer)),
        RequestEvent::Replied(Some(Err(err))) => RequestAction::Finish(
            Err(RequestError::Refused(err)),
        ),
        RequestEvent::Replied(None) => RequestAction::Finish(Err(RequestError::NoReply)),
    }
}

/// What a place that was empty at first keeps after events.
pub open spec fn kept_after<X: 'static, E: 'static>(events: Seq<SharedEvent<X, E>>) -> Option<
    &'static GlobalState<X, E>,
>
    decreases events.len(),
{
    if events.len() == 0 {
        None
    } else {
        shared_step(kept_after(events.drop_last()), events.last()).0
    }
}

/// What is done about the event at `i`.
pub open spec fn done_at<X: 'static, E: 'static>(
    events: Seq<SharedEvent<X, E>>,
    i: int,
) -> SharedAction<X, E> {
    shared_step(kept_after(events.take(i)), events[i]).1
}

/// Where the connection state is to be made, what comes next is that it was.
pub open spec fn made_in_turn<X: 'static, E: 'static>(events: Seq<SharedEvent<X, E>>) -> bool {
    forall|i: int, j: int|
        #![trigger events[i], events[j]]
        0 <= i && j == i + 1 && j < events.len() && done_at(events, i) is Init ==> events[j] is Made
}

/// A connection state that was made is kept whatever comes.
proof fn lemma_kept_stays<X: 'static, E: 'static>(
    events: Seq<SharedEvent<X, E>>,
    i: int,
    j: int,
)
    requires
        0 <= i <= j <= events.len(),
        kept_after(events.take(i)) is Some,
    ensures
        kept_after(events.take(j)) == kept_after(events.take(i)),
    decreases j - i,
{
    if i < j {
        lemma_kept_stays(events, i, j - 1);
        assert(events.take(j).drop_last() =~= events.take(j - 1));
    }
}

/// The shared connection state is one for good: whoever has been given it, or why
/// there is none, every later one that asks is given the same. No failure is
/// tried again.
pub proof fn law_every_get_is_the_same<X: 'static, E: 'static>(
    events: Seq<SharedEvent<X, E>>,
    i: int,
    j: int,
)
    requires
        0 <= i <= j < events.len(),
        done_at(events, i) is Give,
    ensures
        done_at(events, j) == done_at(events, i),
{
    assert(events.take(i + 1).drop_last() =~= events.take(i));
    assert(events.take(i + 1).last() == events[i]);
    lemma_kept_stays(events, i + 1, j + 1);
    assert(events.take(j + 1).drop_last() =~= events.take(j));
    if i < j {
        lemma_kept_stays(events, i + 1, j);
    }
}

/// The shared connection state is made once: of two that ask, not both have it
/// made.
pub proof fn law_shared_state_is_made_once<X: 'static, E: 'static>(
    events: Seq<SharedEvent<X, E>>,
    i: int,
    j: int,
)
    requires
        made_in_turn(events),
        0 <= i < j < events.len(),
    ensures
        !(done_at(events, i) is Init && done_at(events, j) is Init),
{
    if done_at(events, i) is Init {
        assert(events[i + 1] is Made);
        assert(events.take(i + 1).drop_last() =~= events.take(i));
        law_every_get_is_the_same(events, i + 1, j);
    }
}

/// What is given is what making the connection state came to: the way to it
/// exactly where its endpoint was bound, and the error of the bind otherwise.
pub proof fn law_get_gives_what_init_made<X: 'static, E: 'static>(
    cmd_tx: X,
    bound: Result<(), E>,
    global: &'static GlobalState<X, E>,
)
    requires
        *global == made_of(cmd_tx, bound),
    ensures
        shared_step(None, SharedEvent::Made(global)).1 == SharedAction::<X, E>::Give(given(global)),
        given(global) is Ok <==> bound is Ok,
        given(global) matches Ok(started) ==> started.cmd_tx == cmd_tx,
        given(global) matches Err(err) ==> bound == Err::<(), E>(*err),
{
}

/// A request succeeds with the answer that it is given, and in no other way: one
/// whose command is not taken, or that is left without an answer, is an error.
pub proof fn law_success_is_an_answer<A, E>(event: RequestEvent<A, E>, answer: A)
    ensures
        request_step(event) == RequestAction::<A, E>::Finish(Ok(answer)) <==> event
            == RequestEvent::<A, E>::Replied(Some(Ok(answer))),
        request_step(RequestEvent::<A, E>::Queued(false)) == RequestAction::<A, E>::Finish(
            Err(RequestError::NotTaken),
        ),
        request_step(RequestEvent::<A, E>::Replied(None)) == RequestAction::<A, E>::Finish(
            Err(RequestError::NoReply),
        ),
{
}

/// Where there is no connection state yet, the one that is made is kept and given;
/// until then it is to be made.
pub proof fn law_first_one_made_is_kept<X: 'static, E: 'static>(
    global: &'static GlobalState<X, E>,
    event: SharedEvent<X, E>,
)
    ensures
        shared_step::<X, E>(None, SharedEvent::Asked) == (
            None::<&'static GlobalState<X, E>>,
            SharedAction::<X, E>::Init,
        ),
        shared_step(None, SharedEvent::Made(global)).0 == Some(global),
        shared_step(Some(global), event).0 == Some(global),
        shared_step(Some(global), event).1 == shared_step(None, SharedEvent::Made(global)).1,
{
}

/// A request waits for its answer exactly where its command was handed over, and
/// is refused with the very error that it was answered.
pub proof fn law_request_waits_for_its_answer<A, E>(event: RequestEvent<A, E>, err: E)
    ensures
        request_step(event) is AwaitReply <==> event == RequestEvent::<A, E>::Queued(true),
        request_step(event) == RequestAction::<A, E>::Finish(Err(RequestError::Refused(err)))
            <==> event == RequestEvent::<A, E>::Replied(Some(Err(err))),
{
}

/// A request goes to the connection state that is there, and asks for the flow with
/// the node and the number that were given, in its direction, by the answer that
/// was given.
pub proof fn law_request_asks_for_what_was_wanted<X, R, T, Q>(
    started: Started<X>,
    node_id: NodeId,
    flow_id: u32,
    receive: R,
    send: T,
    receiving: (&X, Command<R, T, Q>),
    sending: (&X, Command<R, T, Q>),
)
    requires
        call_ensures(
            Started::<X>::receive_flow::<R, T, Q>,
            (&started, node_id, flow_id, receive),
            receiving,
        ),
        call_ensures(
            Started::<X>::send_flow::<R, T, Q>,
            (&started, node_id, flow_id, send),
            sending,
        ),
    ensures
        *receiving.0 == started.cmd_tx,
        *sending.0 == started.cmd_tx,
        receiving.1 matches Command::Flow(FlowCommand::ReceiveFlow { node_id: n, flow_id: f, reply })
            && n == node_id && f == flow_id && reply == receive,
        sending.1 matches Command::Flow(FlowCommand::SendFlow { node_id: n, flow_id: f, reply })
            && n == node_id && f == flow_id && reply == send,
{
}

} // verus!
