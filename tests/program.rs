use flight::forwarding::ForwardingAgent;
use flight::address::SocketAddress;
use flight::message::{FlightControlMessage, NodeMapping, Sequence};
use flight::program::{abort_sequence, Action, Event, OperatorInput, ProgramState};

fn received(len: usize, message: Option<FlightControlMessage>) -> Event<u32> {
    Event::Operator(OperatorInput::Received { len, message })
}

fn sequence(name: &str) -> Sequence {
    Sequence { name: name.to_string(), script: "pass".to_string() }
}

#[test]
fn init_goes_to_discovery_and_starts_board_loop() {
    let (s, a) = ProgramState::<u32>::Init.next(Event::Tick);
    assert!(matches!(s, ProgramState::ServerDiscovery));
    assert!(matches!(a, Action::StartBoardLoop));
}

#[test]
fn discovery_connects_or_retries() {
    let (s, a) = ProgramState::<u32>::ServerDiscovery.next(Event::Discovered(Some(7)));
    assert!(matches!(s, ProgramState::WaitForOperator { server_socket: 7 }));
    assert!(matches!(a, Action::StartForwarding));
    let (s, a) = ProgramState::<u32>::ServerDiscovery.next(Event::Discovered(None));
    assert!(matches!(s, ProgramState::ServerDiscovery));
    assert!(matches!(a, Action::RetryDiscovery));
}

#[test]
fn zero_byte_read_disconnects() {
    let messages = vec![
        None,
        Some(FlightControlMessage::Trigger),
        Some(FlightControlMessage::Sequence(sequence("s"))),
        Some(FlightControlMessage::Mappings(Vec::new())),
    ];
    for m in messages {
        let (s, a) = ProgramState::WaitForOperator { server_socket: 1u32 }.next(received(0, m));
        assert!(matches!(s, ProgramState::ServerDiscovery));
        assert!(matches!(a, Action::DropStream));
    }
}

#[test]
fn operator_directives() {
    let mapping = NodeMapping { text_id: "v".to_string(), board_id: "sam-01".to_string(), channel: 2, normally_closed: None };
    let (s, a) = ProgramState::WaitForOperator { server_socket: 1u32 }
        .next(received(10, Some(FlightControlMessage::Mappings(vec![mapping]))));
    assert!(matches!(s, ProgramState::WaitForOperator { server_socket: 1 }));
    match a {
        Action::ApplyMappings(m) => assert_eq!(m[0].board_id, "sam-01"),
        _ => panic!("expected mappings"),
    }
    let (s, a) = ProgramState::WaitForOperator { server_socket: 1u32 }.next(received(3, Some(FlightControlMessage::Trigger)));
    assert!(matches!(s, ProgramState::WaitForOperator { server_socket: 1 }));
    assert!(matches!(a, Action::IgnoreTrigger));
    let (s, a) = ProgramState::WaitForOperator { server_socket: 1u32 }.next(received(3, None));
    assert!(matches!(s, ProgramState::WaitForOperator { server_socket: 1 }));
    assert!(matches!(a, Action::IgnoreMalformed));
    let (s, a) = ProgramState::WaitForOperator { server_socket: 1u32 }.next(Event::Operator(OperatorInput::WouldBlock));
    assert!(matches!(s, ProgramState::WaitForOperator { server_socket: 1 }));
    assert!(matches!(a, Action::Idle));
    let (s, a) = ProgramState::WaitForOperator { server_socket: 1u32 }.next(Event::Operator(OperatorInput::Failed));
    assert!(matches!(s, ProgramState::ServerDiscovery));
    assert!(matches!(a, Action::DropStream));
}

#[test]
fn sequence_runs_and_returns_to_operator() {
    let (s, _) = ProgramState::WaitForOperator { server_socket: 4u32 }
        .next(received(8, Some(FlightControlMessage::Sequence(sequence("ignite")))));
    match &s {
        ProgramState::RunSequence { server_socket, sequence } => {
            assert_eq!(*server_socket, Some(4));
            assert_eq!(sequence.name, "ignite");
        }
        _ => panic!("expected a running sequence"),
    }
    let (s, _) = s.next(Event::Tick);
    assert!(matches!(s, ProgramState::RunSequence { .. }));
    let (s, _) = s.next(Event::SequenceFinished);
    assert!(matches!(s, ProgramState::WaitForOperator { server_socket: 4 }));
}

#[test]
fn abort_runs_abort_sequence_then_rediscovers() {
    let (s, _) = ProgramState::<u32>::Abort.next(Event::Tick);
    match &s {
        ProgramState::RunSequence { server_socket, sequence } => {
            assert_eq!(*server_socket, None);
            assert_eq!(sequence.name, "abort");
        }
        _ => panic!("expected the abort sequence"),
    }
    let (s, _) = s.next(Event::SequenceFinished);
    assert!(matches!(s, ProgramState::ServerDiscovery));
    let q = abort_sequence();
    assert_eq!(q.name, "abort");
    assert_eq!(q.script, "abort()");
}

#[test]
fn forwarding_agent_targets_server_port() {
    let agent = ForwardingAgent::new();
    assert_eq!(agent.period_millis, 100);
    assert_eq!(agent.server_target(Some(0xC0A800A5)), Some(SocketAddress { ip: 0xC0A800A5, port: 7201 }));
    assert_eq!(agent.server_target(None), None);
    assert_eq!(agent.source_address(), SocketAddress { ip: 0, port: 8765 });
}
