use vstd::prelude::*;
use crate::message::{FlightControlMessage, NodeMapping, Sequence};

verus! {

/// Phase of the flight computer's control loop. `S` is the stream to the
/// control server, held only in the phases that own it.
pub enum ProgramState<S> {
    /// Nothing started yet.
    Init,
    /// Looking for a control server.
    ServerDiscovery,
    /// Connected to a server; waiting for its directives.
    WaitForOperator { server_socket: S },
    /// Running a sequence; the stream, if any, is handed back afterwards.
    RunSequence { server_socket: Option<S>, sequence: Sequence },
    /// Something went wrong: the abort sequence is to be run.
    Abort,
}

/// The result of one attempt to read a directive from the server's stream.
pub enum OperatorInput {
    /// The read returned `len` bytes, which decode to `message` (`None` where
    /// they are not a valid directive).
    Received { len: usize, message: Option<FlightControlMessage> },
    /// No data was ready.
    WouldBlock,
    /// The read failed.
    Failed,
}

/// What happened since the last step.
pub enum Event<S> {
    /// Nothing in particular.
    Tick,
    /// The outcome of a round of connection attempts: the stream to the first
    /// candidate host that accepted, if any did.
    Discovered(Option<S>),
    /// The outcome of a read on the server's stream.
    Operator(OperatorInput),
    /// The running sequence has finished.
    SequenceFinished,
}

/// The side effect that goes with a step.
pub enum Action {
    Idle,
    /// Start the loop that receives from the boards.
    StartBoardLoop,
    /// Start the agent that forwards vehicle state to the server.
    StartForwarding,
    /// No candidate host accepted: try again.
    RetryDiscovery,
    /// Take these mappings into the shared mapping table.
    ApplyMappings(Vec<NodeMapping>),
    /// A trigger arrived; triggers are not supported.
    IgnoreTrigger,
    /// Bytes arrived that are not a directive.
    IgnoreMalformed,
    /// The stream was closed or failed and has been dropped.
    DropStream,
}

/// The sequence that an abort runs.
pub open spec fn is_abort_sequence(q: Sequence) -> bool {
    q.name@ == "abort"@ && q.script@ == "abort()"@
}

/// One step of the control loop: from `pre`, on `e`, the loop goes to `post`
/// with side effect `a`.
pub open spec fn transition<S>(pre: ProgramState<S>, e: Event<S>, post: ProgramState<S>, a: Action) -> bool {
    match pre {
        ProgramState::Init => post is ServerDiscovery && a is StartBoardLoop,
        ProgramState::ServerDiscovery => match e {
            Event::Discovered(Some(s)) => post == (ProgramState::WaitForOperator { server_socket: s })
                && a is StartForwarding,
            Event::Discovered(None) => post is ServerDiscovery && a is RetryDiscovery,
            _ => post is ServerDiscovery && a is Idle,
        },
        ProgramState::WaitForOperator { server_socket } => match e {
            Event::Operator(OperatorInput::Received { len, message }) => if len == 0 {
                post is ServerDiscovery && a is DropStream
            } else {
                match message {
                    None => post == pre && a is IgnoreMalformed,
                    Some(FlightControlMessage::Mappings(m)) => post == pre && a == Action::ApplyMappings(m),
                    Some(FlightControlMessage::Sequence(q)) => post == (ProgramState::RunSequence {
                        server_socket: Some(server_socket),
                        sequence: q,
                    }) && a is Idle,
                    Some(FlightControlMessage::Trigger) => post == pre && a is IgnoreTrigger,
                }
            },
            Event::Operator(OperatorInput::WouldBlock) => post == pre && a is Idle,
            Event::Operator(OperatorInput::Failed) => post is ServerDiscovery && a is DropStream,
            _ => post == pre && a is Idle,
        },
        ProgramState::RunSequence { server_socket, sequence } => match e {
            Event::SequenceFinished => a is Idle && match server_socket {
                Some(s) => post == (ProgramState::WaitForOperator { server_socket: s }),
                None => post is ServerDiscovery,
            },
            _ => post == pre && a is Idle,
        },
        ProgramState::Abort => a is Idle && match post {
            ProgramState::RunSequence { server_socket, sequence } => server_socket is None
                && is_abort_sequence(sequence),
            _ => false,
        },
    }
}

/// The sequence that an abort runs.
pub fn abort_sequence() -> (r: Sequence)
    ensures
        is_abort_sequence(r),
{
    Sequence { name: "abort".to_owned(), script: "abort()".to_owned() }
}

impl<S> ProgramState<S> {
    /// Takes one step of the control loop.
    pub fn next(self, event: Event<S>) -> (r: (ProgramState<S>, Action))
        ensures
            transition(self, event, r.0, r.1),
    {
        match self {
            ProgramState::Init => (ProgramState::ServerDiscovery, Action::StartBoardLoop),
            ProgramState::ServerDiscovery => match event {
                Event::Discovered(Some(s)) => (
                    ProgramState::WaitForOperator { server_socket: s },
                    Action::StartForwarding,
                ),
                Event::Discovered(None) => (ProgramState::ServerDiscovery, Action::RetryDiscovery),
                _ => (ProgramState::ServerDiscovery, Action::Idle),
            },
            ProgramState::WaitForOperator { server_socket } => match event {
                Event::Operator(OperatorInput::Received { len, message }) => {
                    if len == 0 {
                        (ProgramState::ServerDiscovery, Action::DropStream)
                    } else {
                        match message {
                            None => (
                                ProgramState::WaitForOperator { server_socket },
                                Action::IgnoreMalformed,
                            ),
                            Some(FlightControlMessage::Mappings(m)) => (
                                ProgramState::WaitForOperator { server_socket },
                                Action::ApplyMappings(m),
                            ),
                            Some(FlightControlMessage::Sequence(q)) => (
                                ProgramState::RunSequence {
                                    server_socket: Some(server_socket),
                                    sequence: q,
                                },
                                Action::Idle,
                            ),
                            Some(FlightControlMessage::Trigger) => (
                                ProgramState::WaitForOperator { server_socket },
                                Action::IgnoreTrigger,
                            ),
                        }
                    }
                },
                Event::Operator(OperatorInput::WouldBlock) => (
                    ProgramState::WaitForOperator { server_socket },
                    Action::Idle,
                ),
                Event::Operator(OperatorInput::Failed) => (
                    ProgramState::ServerDiscovery,
                    Action::DropStream,
                ),
                _ => (ProgramState::WaitForOperator { server_socket }, Action::Idle),
            },
            ProgramState::RunSequence { server_socket, sequence } => match event {
                Event::SequenceFinished => match server_socket {
                    Some(s) => (ProgramState::WaitForOperator { server_socket: s }, Action::Idle),
                    None => (ProgramState::ServerDiscovery, Action::Idle),
                },
                _ => (ProgramState::RunSequence { server_socket, sequence }, Action::Idle),
            },
            ProgramState::Abort => (
                ProgramState::RunSequence { server_socket: None, sequence: abort_sequence() },
                Action::Idle,
            ),
        }
    }
}

/// A read of zero bytes while waiting for the operator means that the server
/// closed the stream: the loop goes back to discovery, whatever the bytes in
/// the buffer would decode to.
pub proof fn zero_read_returns_to_discovery<S>(
    server_socket: S,
    message: Option<FlightControlMessage>,
    post: ProgramState<S>,
    a: Action,
)
    requires
        transition(
            ProgramState::WaitForOperator { server_socket },
            Event::Operator(OperatorInput::Received { len: 0, message }),
            post,
            a,
        ),
    ensures
        post is ServerDiscovery,
{
}

/// An abort runs the abort sequence without a stream, so it can never hand
/// control back to the operator directly: when that sequence finishes the loop
/// returns to discovery, and no event leads from it to waiting for the operator.
pub proof fn abort_never_resumes<S>(
    e1: Event<S>,
    mid: ProgramState<S>,
    a1: Action,
    e2: Event<S>,
    post: ProgramState<S>,
    a2: Action,
)
    requires
        transition(ProgramState::Abort, e1, mid, a1),
        transition(mid, e2, post, a2),
    ensures
        mid is RunSequence,
        !(post is WaitForOperator),
        e2 is SequenceFinished ==> post is ServerDiscovery,
{
}

/// Operator control is entered only from discovery (a server accepted), from
/// waiting for the operator itself, or from a sequence that still holds the
/// server's stream.
pub proof fn operator_wait_sources<S>(pre: ProgramState<S>, e: Event<S>, post: ProgramState<S>, a: Action)
    requires
        transition(pre, e, post, a),
        post is WaitForOperator,
    ensures
        pre is ServerDiscovery || pre is WaitForOperator || (pre matches ProgramState::RunSequence {
            server_socket: Some(_),
            ..
        }),
{
}

} // verus!
