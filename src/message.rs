use vstd::prelude::*;

verus! {

/// A command sent to a board.
#[derive(Clone, Copy, Debug, PartialEq, Eq, Structural)]
pub enum SamControlMessage {
    /// Powers or unpowers the valve on `channel`.
    ActuateValve { channel: u32, powered: bool },
    /// Turns the LED on `channel` on or off.
    SetLed { channel: u32, on: bool },
}

/// The state that an operator or a sequence asks a valve to take.
#[derive(Clone, Copy, Debug, PartialEq, Eq, Structural)]
pub enum ValveState {
    Open,
    Closed,
}

/// The wiring of one controllable point: which board and channel it is on.
#[derive(Clone, Debug)]
pub struct NodeMapping {
    pub text_id: String,
    pub board_id: String,
    pub channel: u32,
    /// Whether the valve is closed when unpowered; taken as `true` when unset.
    pub normally_closed: Option<bool>,
}

/// A control sequence sent by the server: its name and its script.
#[derive(Clone, Debug)]
pub struct Sequence {
    pub name: String,
    pub script: String,
}

/// A directive that the control server sends over the stream.
#[derive(Clone, Debug)]
pub enum FlightControlMessage {
    Mappings(Vec<NodeMapping>),
    Sequence(Sequence),
    Trigger,
}

} // verus!
