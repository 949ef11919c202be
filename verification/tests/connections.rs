use iroh_rtp::command::{handle_flow_command, Command, FlowCommand, FlowStart};
use iroh_rtp::global::{
    bind_failed_words, request, GlobalState, RequestAction, RequestError, RequestEvent, Shared,
    SharedAction, SharedEvent, Started,
};
use iroh_rtp::handshake::{finish_dial, greeting, DialError, GREETING_LIMIT};
use iroh_rtp::node::{endpoint_secret, NodeId};
use iroh_rtp::node_map::NodeMap;
use iroh_rtp::state::{
    CloseReason, CommandAction, ConnectedAction, Event, IncomingAction, IncomingEvent, RunAction,
    State,
};

type Peers = State<&'static str, u32, u32, u32>;

fn node(n: u8) -> NodeId {
    let mut bytes = [0u8; 32];
    bytes[31] = n;
    NodeId { bytes }
}

fn receive(n: u8, flow_id: u32) -> FlowCommand<u32, u32> {
    FlowCommand::ReceiveFlow { node_id: node(n), flow_id, reply: flow_id + 100 }
}

fn send(n: u8, flow_id: u32) -> FlowCommand<u32, u32> {
    FlowCommand::SendFlow { node_id: node(n), flow_id, reply: flow_id + 200 }
}

fn flow_id(command: &FlowCommand<u32, u32>) -> u32 {
    match command {
        FlowCommand::ReceiveFlow { flow_id, .. } => *flow_id,
        FlowCommand::SendFlow { flow_id, .. } => *flow_id,
    }
}

fn flow_ids(commands: &[FlowCommand<u32, u32>]) -> Vec<u32> {
    commands.iter().map(flow_id).collect()
}

fn peers(own: u8) -> Peers {
    State::new(node(own), b"roq".to_vec())
}

const KEY: &str = "ae58ff8833241ac82d6ff7611046ed67b5072d142c588d0063e942d9a75502b6";

#[test]
fn node_id_is_read_from_hex() {
    let id = NodeId::parse(KEY).unwrap();
    assert_eq!(id.bytes[0], 0xae);
    assert_eq!(id.bytes[1], 0x58);
    assert_eq!(id.bytes[31], 0xb6);
}

#[test]
fn text_that_is_no_node_id_is_refused() {
    assert!(NodeId::parse("").is_err());
    assert!(NodeId::parse("foobarbaz").is_err());
    assert!(NodeId::parse(&KEY[1..]).is_err());
}

#[test]
fn node_ids_are_ordered_by_their_first_difference() {
    let mut high = node(0);
    high.bytes[0] = 1;
    assert!(node(255).less_than(&high));
    assert!(!high.less_than(&node(255)));
    assert!(!node(7).less_than(&node(7)));
    assert!(node(7).same(&node(7)));
    assert!(!node(7).same(&node(8)));
}

#[test]
fn configured_secret_is_used() {
    let key = endpoint_secret(Some(
        "000102030405060708090a0b0c0d0e0f101112131415161718191a1b1c1d1e1f",
    ))
    .unwrap();
    for i in 0..32u8 {
        assert_eq!(key.bytes[i as usize], i);
    }
}

#[test]
fn secret_that_cannot_be_read_is_reported() {
    assert!(endpoint_secret(Some("")).is_err());
    assert!(endpoint_secret(Some("secret")).is_err());
}

#[test]
fn fresh_secrets_differ() {
    let a = endpoint_secret(None).unwrap();
    let b = endpoint_secret(None).unwrap();
    assert_ne!(a.bytes, b.bytes);
}

#[test]
fn node_map_holds_one_value_per_node() {
    let mut map: NodeMap<u32> = NodeMap::new();
    assert!(map.is_empty());
    map.insert(node(1), 10);
    map.insert(node(2), 20);
    map.insert(node(1), 11);
    assert_eq!(map.get(&node(1)), Some(&11));
    assert_eq!(map.get(&node(2)), Some(&20));
    assert_eq!(map.get(&node(3)), None);
    assert!(map.contains(&node(2)));
    assert_eq!(map.remove(&node(1)), Some(11));
    assert_eq!(map.remove(&node(1)), None);
    assert!(!map.contains(&node(1)));
    assert_eq!(map.remove(&node(2)), Some(20));
    assert!(map.is_empty());
}

#[test]
fn first_command_dials_and_the_next_ones_wait() {
    let mut s = peers(5);
    assert!(!s.is_dialling());
    match s.on_command(receive(1, 1)) {
        CommandAction::Connect { node_id } => assert_eq!(node_id.bytes, node(1).bytes),
        _ => panic!("no dial"),
    }
    assert!(s.is_dialling());
    assert!(matches!(s.on_command(send(1, 2)), CommandAction::Hold));
    assert!(matches!(s.on_command(send(2, 3)), CommandAction::Connect { .. }));
}

#[test]
fn waiting_commands_are_handled_in_their_order() {
    let mut s = peers(5);
    for i in 1..5 {
        let _ = s.on_command(receive(1, i));
    }
    let _ = s.on_command(receive(2, 9));
    match s.on_connected::<()>(node(1), Ok("dialled")) {
        ConnectedAction::Activate { node_id, conn } => {
            assert_eq!(conn, "dialled");
            let commands = s.activate_conn(node_id, 77);
            assert_eq!(flow_ids(&commands), vec![1, 2, 3, 4]);
        }
        _ => panic!("no session"),
    }
    assert_eq!(s.session(&node(1)), Some(&77));
    assert_eq!(s.session(&node(2)), None);
    match s.on_command(send(1, 5)) {
        CommandAction::Handle(command) => assert_eq!(flow_id(&command), 5),
        _ => panic!("not handled"),
    }
    assert!(s.activate_conn(node(3), 78).is_empty());
}

#[test]
fn failed_dial_leaves_the_commands_waiting() {
    let mut s = peers(5);
    let _ = s.on_command(receive(1, 1));
    assert!(matches!(
        s.on_connected(node(1), Err("unreachable")),
        ConnectedAction::Failed("unreachable")
    ));
    assert!(!s.is_dialling());
    assert!(matches!(s.on_command(receive(1, 2)), CommandAction::Connect { .. }));
    let _ = s.on_connected::<()>(node(1), Ok("dialled"));
    assert_eq!(flow_ids(&s.activate_conn(node(1), 7)), vec![1, 2]);
}

#[test]
fn dial_that_ends_late_is_closed() {
    let mut s = peers(5);
    let _ = s.on_command(receive(1, 1));
    let _ = s.activate_conn(node(1), 7);
    match s.on_connected::<()>(node(1), Ok("late")) {
        ConnectedAction::Close { conn, reason } => {
            assert_eq!(conn, "late");
            assert_eq!(reason, CloseReason::AlreadyConnected);
        }
        _ => panic!("not closed"),
    }
    assert_eq!(s.session(&node(1)), Some(&7));
}

#[test]
fn incoming_connection_is_taken_step_by_step() {
    let mut s = peers(5);
    assert!(matches!(s.on_incoming(IncomingEvent::Accepted(true)), IncomingAction::ReadAlpn));
    assert!(matches!(
        s.on_incoming(IncomingEvent::Alpn(Some(b"roq".to_vec()))),
        IncomingAction::AwaitConnection
    ));
    assert!(matches!(
        s.on_incoming(IncomingEvent::Connected(Some("theirs"))),
        IncomingAction::Identify("theirs")
    ));
    assert!(matches!(
        s.on_incoming(IncomingEvent::Identified { conn: "theirs", node_id: Some(node(1)) }),
        IncomingAction::Greet { conn: "theirs", .. }
    ));
    assert!(matches!(
        s.on_incoming(IncomingEvent::Greeted { conn: "theirs", node_id: node(1), sent: true }),
        IncomingAction::Held
    ));
    match s.on_command(receive(1, 1)) {
        CommandAction::Activate { conn, .. } => assert_eq!(conn, "theirs"),
        _ => panic!("not activated"),
    }
    assert_eq!(flow_ids(&s.activate_conn(node(1), 7)), vec![1]);
}

#[test]
fn incoming_connection_that_breaks_off_is_dropped() {
    let mut s = peers(5);
    assert!(matches!(s.on_incoming(IncomingEvent::Accepted(false)), IncomingAction::Drop));
    assert!(matches!(s.on_incoming(IncomingEvent::Alpn(None)), IncomingAction::Drop));
    assert!(matches!(
        s.on_incoming(IncomingEvent::Alpn(Some(b"roq2".to_vec()))),
        IncomingAction::Drop
    ));
    assert!(matches!(
        s.on_incoming(IncomingEvent::Alpn(Some(b"rox".to_vec()))),
        IncomingAction::Drop
    ));
    assert!(matches!(s.on_incoming(IncomingEvent::Connected(None)), IncomingAction::Drop));
    assert!(matches!(
        s.on_incoming(IncomingEvent::Identified { conn: "theirs", node_id: None }),
        IncomingAction::Drop
    ));
}

#[test]
fn incoming_connection_is_activated_where_commands_wait() {
    let mut s = peers(1);
    let _ = s.on_command(receive(9, 1));
    assert!(matches!(
        s.on_incoming(IncomingEvent::Identified { conn: "theirs", node_id: Some(node(9)) }),
        IncomingAction::Greet { .. }
    ));
    assert!(matches!(
        s.on_incoming(IncomingEvent::Greeted { conn: "theirs", node_id: node(9), sent: true }),
        IncomingAction::Activate { conn: "theirs", .. }
    ));
}

#[test]
fn incoming_connection_is_closed_where_it_cannot_be_used() {
    let mut s = peers(5);
    assert!(matches!(
        s.on_incoming(IncomingEvent::Greeted { conn: "theirs", node_id: node(1), sent: false }),
        IncomingAction::Close { reason: CloseReason::InitFailure, .. }
    ));
    let _ = s.activate_conn(node(1), 7);
    assert!(matches!(
        s.on_incoming(IncomingEvent::Greeted { conn: "theirs", node_id: node(1), sent: true }),
        IncomingAction::Close { reason: CloseReason::AlreadyConnected, .. }
    ));
}

#[test]
fn one_of_two_dials_is_declined() {
    let mut low = peers(1);
    let mut high = peers(9);
    let _ = low.on_command(receive(9, 1));
    let _ = high.on_command(receive(1, 1));
    assert!(matches!(
        low.on_incoming(IncomingEvent::Identified { conn: "theirs", node_id: Some(node(9)) }),
        IncomingAction::Greet { .. }
    ));
    assert!(matches!(
        high.on_incoming(IncomingEvent::Identified { conn: "theirs", node_id: Some(node(1)) }),
        IncomingAction::Close { reason: CloseReason::PreferMine, .. }
    ));
}

#[test]
fn close_reasons_have_codes_and_words() {
    assert_eq!(CloseReason::AlreadyConnected.code(), 1);
    assert_eq!(CloseReason::AlreadyConnected.words(), "already-connected");
    assert_eq!(CloseReason::PreferMine.code(), 2);
    assert_eq!(CloseReason::PreferMine.words(), "prefer-mine");
    assert_eq!(CloseReason::InitFailure.code(), 3);
    assert_eq!(CloseReason::InitFailure.words(), "init-failure");
}

#[test]
fn run_sees_to_every_event() {
    let mut s = peers(5);
    let event: Event<&'static str, u32, u32, u32, ()> =
        Event::Command(Some(Command::Flow(receive(1, 1))));
    assert!(matches!(s.run(event), RunAction::Flow(CommandAction::Connect { .. })));
    let event: Event<&'static str, u32, u32, u32, ()> =
        Event::Connected { node_id: node(1), conn: Ok("dialled") };
    assert!(matches!(s.run(event), RunAction::Connected(ConnectedAction::Activate { .. })));
    let event: Event<&'static str, u32, u32, u32, ()> = Event::Incoming { open: true };
    assert!(matches!(s.run(event), RunAction::Accept));
    let event: Event<&'static str, u32, u32, u32, ()> = Event::Incoming { open: false };
    assert!(matches!(s.run(event), RunAction::Stop));
    let event: Event<&'static str, u32, u32, u32, ()> =
        Event::Command(Some(Command::Shutdown { reply: 4 }));
    let action = s.run(event);
    assert!(!action.is_last());
    assert!(matches!(action, RunAction::Shutdown { reply: 4 }));
    let event: Event<&'static str, u32, u32, u32, ()> = Event::Closed { reply: 4 };
    let action = s.run(event);
    assert!(action.is_last());
    assert!(matches!(action, RunAction::Answer { reply: 4 }));
    let event: Event<&'static str, u32, u32, u32, ()> = Event::Command(None);
    assert!(matches!(s.run(event), RunAction::Stop));
}

#[test]
fn greeting_opens_a_dial() {
    assert_eq!(greeting(), b"hi".to_vec());
    assert_eq!(greeting().len(), GREETING_LIMIT);
    assert!(matches!(finish_dial::<_, ()>("conn", Ok(greeting())), Ok("conn")));
    assert!(matches!(
        finish_dial::<_, ()>("conn", Ok(b"ho".to_vec())),
        Err(DialError::UnexpectedInit)
    ));
    assert!(matches!(
        finish_dial::<_, ()>("conn", Ok(b"h".to_vec())),
        Err(DialError::UnexpectedInit)
    ));
    assert!(matches!(
        finish_dial("conn", Err("reset")),
        Err(DialError::Transport("reset"))
    ));
}

#[test]
fn commands_become_flows() {
    match handle_flow_command(receive(1, 3)) {
        FlowStart::Receive { node_id, flow_id, data_capacity, reply } => {
            assert!(node_id.same(&node(1)));
            assert_eq!((flow_id, data_capacity, reply), (3, 16, 103));
        }
        _ => panic!("not a receiving flow"),
    }
    match handle_flow_command(send(2, 4)) {
        FlowStart::Send { node_id, flow_id, data_capacity, error_capacity, reply } => {
            assert!(node_id.same(&node(2)));
            assert_eq!((flow_id, data_capacity, error_capacity, reply), (4, 16, 1, 204));
        }
        _ => panic!("not a sending flow"),
    }
    assert!(receive(6, 1).node_id().same(&node(6)));
    assert!(send(7, 1).node_id().same(&node(7)));
}

#[test]
fn second_shutdown_is_not_answered() {
    let mut s = peers(5);
    let mut answers: Vec<u32> = Vec::new();
    for reply in [6, 7] {
        let event: Event<&'static str, u32, u32, u32, ()> =
            Event::Command(Some(Command::Shutdown { reply }));
        let RunAction::Shutdown { reply } = s.run(event) else {
            panic!("does not shut down")
        };
        let closed: Event<&'static str, u32, u32, u32, ()> = Event::Closed { reply };
        let action = s.run(closed);
        let last = action.is_last();
        if let RunAction::Answer { reply } = action {
            answers.push(reply);
        }
        if last {
            break;
        }
    }
    assert_eq!(answers, [6]);
    assert!(matches!(
        request::<(), ()>(RequestEvent::Replied(None)),
        RequestAction::Finish(Err(RequestError::NoReply))
    ));
}

#[test]
fn requests_carry_commands_and_answers() {
    let global: GlobalState<&'static str, ()> = GlobalState::init("queue", Ok(()));
    let started: &Started<&'static str> = global.get().ok().unwrap();
    let (queue, command): (_, Command<u32, u32, u32>) = started.send_flow(node(1), 2, 3);
    assert_eq!(*queue, "queue");
    assert!(matches!(
        command,
        Command::Flow(FlowCommand::SendFlow { flow_id: 2, reply: 3, .. })
    ));
    let (_, command): (_, Command<u32, u32, u32>) = started.receive_flow(node(1), 4, 5);
    assert!(matches!(
        command,
        Command::Flow(FlowCommand::ReceiveFlow { flow_id: 4, reply: 5, .. })
    ));
    let (_, command): (_, Command<u32, u32, u32>) = started.shutdown(6);
    assert!(matches!(command, Command::Shutdown { reply: 6 }));
    let failed: GlobalState<&'static str, &'static str> = GlobalState::init("queue", Err("bind"));
    assert!(matches!(failed.get(), Err(&"bind")));

    assert!(matches!(
        request::<u32, ()>(RequestEvent::Queued(true)),
        RequestAction::AwaitReply
    ));
    assert!(matches!(
        request::<u32, ()>(RequestEvent::Queued(false)),
        RequestAction::Finish(Err(RequestError::NotTaken))
    ));
    assert!(matches!(
        request::<u32, ()>(RequestEvent::Replied(Some(Ok(8)))),
        RequestAction::Finish(Ok(8))
    ));
    assert!(matches!(
        request::<u32, u8>(RequestEvent::Replied(Some(Err(9)))),
        RequestAction::Finish(Err(RequestError::Refused(9)))
    ));
    assert!(matches!(
        request::<u32, ()>(RequestEvent::Replied(None)),
        RequestAction::Finish(Err(RequestError::NoReply))
    ));
}

#[test]
fn shared_state_is_made_once() {
    let mut shared: Shared<&'static str, u8> = Shared { made: None };
    assert!(matches!(shared.get(SharedEvent::Asked), SharedAction::Init));
    let first: &'static GlobalState<&'static str, u8> =
        Box::leak(Box::new(GlobalState::init("queue", Ok(()))));
    let given = match shared.get(SharedEvent::Made(first)) {
        SharedAction::Give(Ok(started)) => started,
        _ => panic!("not given"),
    };
    assert_eq!(given.cmd_tx, "queue");
    let second: &'static GlobalState<&'static str, u8> =
        Box::leak(Box::new(GlobalState::init("other", Ok(()))));
    for event in [SharedEvent::Asked, SharedEvent::Made(second), SharedEvent::Asked] {
        match shared.get(event) {
            SharedAction::Give(Ok(started)) => assert!(std::ptr::eq(started, given)),
            _ => panic!("not given"),
        }
    }
}

#[test]
fn failed_bind_is_not_tried_again() {
    let mut shared: Shared<&'static str, u8> = Shared { made: None };
    let failed: &'static GlobalState<&'static str, u8> =
        Box::leak(Box::new(GlobalState::init("queue", Err(3))));
    assert!(matches!(shared.get(SharedEvent::Made(failed)), SharedAction::Give(Err(3))));
    assert!(matches!(shared.get(SharedEvent::Asked), SharedAction::Give(Err(3))));
    assert_eq!(bind_failed_words(), "failed to bind iroh endpoint");
}

#[test]
fn dial_errors_have_words() {
    assert_eq!(DialError::<u8>::UnexpectedInit.words(), Some("unexpected initialization bytes"));
    assert_eq!(DialError::Transport(1u8).words(), None);
}
