use vstd::prelude::*;

verus! {

/// The value that a flight computer starts with in its first state.
pub const DEFAULT_VALUE: usize = 10;

/// A flight computer in the typed state `S`: the transitions that exist
/// between states are the `From` conversions below, and no others.
#[derive(PartialEq, Debug)]
pub struct FlightComputer<S> {
    pub shared_value_between_states: usize,
    pub state: S,
}

impl FlightComputer<StateA> {
    pub fn new(shared_value_between_states: usize) -> (r: Self)
        ensures
            r.shared_value_between_states == shared_value_between_states,
            r.state == (StateA { a_value: DEFAULT_VALUE }),
    {
        FlightComputer { shared_value_between_states, state: StateA { a_value: DEFAULT_VALUE } }
    }
}

#[derive(PartialEq, Eq, Structural, Debug)]
pub struct StateA {
    pub a_value: usize,
}

#[derive(PartialEq, Eq, Structural, Debug)]
pub struct StateB {
    pub b_value: usize,
}

#[derive(PartialEq, Eq, Structural, Debug)]
pub struct StateC {
    pub c_value: usize,
}

#[derive(PartialEq, Eq, Structural, Debug)]
pub struct StateD {
    pub d_value: usize,
}

impl From<FlightComputer<StateC>> for FlightComputer<StateA> {
    fn from(prev_state: FlightComputer<StateC>) -> Self {
        FlightComputer {
            shared_value_between_states: prev_state.shared_value_between_states,
            state: StateA { a_value: 0 },
        }
    }
}

impl vstd::std_specs::convert::FromSpecImpl<FlightComputer<StateC>> for FlightComputer<StateA> {
    open spec fn obeys_from_spec() -> bool {
        true
    }

    open spec fn from_spec(prev_state: FlightComputer<StateC>) -> Self {
        FlightComputer {
            shared_value_between_states: prev_state.shared_value_between_states,
            state: StateA { a_value: 0 },
        }
    }
}

impl From<FlightComputer<StateD>> for FlightComputer<StateA> {
    fn from(prev_state: FlightComputer<StateD>) -> Self {
        FlightComputer {
            shared_value_between_states: prev_state.shared_value_between_states,
            state: StateA { a_value: 0 },
        }
    }
}

impl vstd::std_specs::convert::FromSpecImpl<FlightComputer<StateD>> for FlightComputer<StateA> {
    open spec fn obeys_from_spec() -> bool {
        true
    }

    open spec fn from_spec(prev_state: FlightComputer<StateD>) -> Self {
        FlightComputer {
            shared_value_between_states: prev_state.shared_value_between_states,
            state: StateA { a_value: 0 },
        }
    }
}

impl From<FlightComputer<StateA>> for FlightComputer<StateB> {
    fn from(prev_state: FlightComputer<StateA>) -> Self {
        FlightComputer {
            shared_value_between_states: prev_state.shared_value_between_states,
            state: StateB { b_value: 20 },
        }
    }
}

impl vstd::std_specs::convert::FromSpecImpl<FlightComputer<StateA>> for FlightComputer<StateB> {
    open spec fn obeys_from_spec() -> bool {
        true
    }

    open spec fn from_spec(prev_state: FlightComputer<StateA>) -> Self {
        FlightComputer {
            shared_value_between_states: prev_state.shared_value_between_states,
            state: StateB { b_value: 20 },
        }
    }
}

impl From<FlightComputer<StateA>> for FlightComputer<StateC> {
    fn from(prev_state: FlightComputer<StateA>) -> Self {
        FlightComputer {
            shared_value_between_states: prev_state.shared_value_between_states,
            state: StateC { c_value: 30 },
        }
    }
}

impl vstd::std_specs::convert::FromSpecImpl<FlightComputer<StateA>> for FlightComputer<StateC> {
    open spec fn obeys_from_spec() -> bool {
        true
    }

    open spec fn from_spec(prev_state: FlightComputer<StateA>) -> Self {
        FlightComputer {
            shared_value_between_states: prev_state.shared_value_between_states,
            state: StateC { c_value: 30 },
        }
    }
}

impl From<FlightComputer<StateB>> for FlightComputer<StateD> {
    fn from(prev_state: FlightComputer<StateB>) -> Self {
        FlightComputer {
            shared_value_between_states: prev_state.shared_value_between_states,
            state: StateD { d_value: 40 },
        }
    }
}

impl vstd::std_specs::convert::FromSpecImpl<FlightComputer<StateB>> for FlightComputer<StateD> {
    open spec fn obeys_from_spec() -> bool {
        true
    }

    open spec fn from_spec(prev_state: FlightComputer<StateB>) -> Self {
        FlightComputer {
            shared_value_between_states: prev_state.shared_value_between_states,
            state: StateD { d_value: 40 },
        }
    }
}

impl From<FlightComputer<StateC>> for FlightComputer<StateD> {
    fn from(prev_state: FlightComputer<StateC>) -> Self {
        FlightComputer {
            shared_value_between_states: prev_state.shared_value_between_states,
            state: StateD { d_value: 40 },
        }
    }
}

impl vstd::std_specs::convert::FromSpecImpl<FlightComputer<StateC>> for FlightComputer<StateD> {
    open spec fn obeys_from_spec() -> bool {
        true
    }

    open spec fn from_spec(prev_state: FlightComputer<StateC>) -> Self {
        FlightComputer {
            shared_value_between_states: prev_state.shared_value_between_states,
            state: StateD { d_value: 40 },
        }
    }
}

} // verus!
