use vstd::prelude::*;
use crate::message::{NodeMapping, SamControlMessage, ValveState};
use crate::text::same_text;

verus! {

/// Whether a valve is to be powered so as to reach `state`: a normally
/// closed valve is powered to open, a normally open one to close.
pub open spec fn powered_spec(state: ValveState, normally_closed: Option<bool>) -> bool {
    (state == ValveState::Closed) != normally_closed.unwrap_or(true)
}

/// The index of the first mapping named `name`, if there is one.
pub open spec fn is_first_named(ms: Seq<NodeMapping>, name: Seq<char>, i: int) -> bool {
    &&& 0 <= i < ms.len()
    &&& ms[i].text_id@ == name
    &&& forall|j: int| 0 <= j < i ==> ms[j].text_id@ != name
}

/// A command addressed to a board.
#[derive(Debug)]
pub struct BoardCommand {
    pub board_id: String,
    pub message: SamControlMessage,
}

/// Failure to turn a device action into a command.
#[derive(Clone, Copy, Debug, PartialEq, Eq, Structural)]
pub enum ActuationError {
    /// No mapping carries the requested name.
    NotMapped,
}

/// Turns a request to bring the valve `name` into `state` into the command
/// for its board, using the first mapping of that name.
pub fn actuate_valve(name: &str, state: ValveState, mappings: &Vec<NodeMapping>) -> (r: Result<
    BoardCommand,
    ActuationError,
>)
    ensures
        match r {
            Ok(command) => exists|i: int|
                #![trigger mappings@[i]]
                is_first_named(mappings@, name@, i) && command.board_id@ == mappings@[i].board_id@
                    && command.message == (SamControlMessage::ActuateValve {
                    channel: mappings@[i].channel,
                    powered: powered_spec(state, mappings@[i].normally_closed),
                }),
            Err(e) => e == ActuationError::NotMapped && forall|i: int|
                0 <= i < mappings@.len() ==> #[trigger] mappings@[i].text_id@ != name@,
        },
{
    let mut i: usize = 0;
    while i < mappings.len()
        invariant
            i <= mappings@.len(),
            forall|j: int| 0 <= j < i ==> #[trigger] mappings@[j].text_id@ != name@,
        decreases mappings@.len() - i,
    {
        let mapping = &mappings[i];
        if same_text(mapping.text_id.as_str(), name) {
            let closed = match state {
                ValveState::Closed => true,
                ValveState::Open => false,
            };
            let normally_closed = match mapping.normally_closed {
                Some(b) => b,
                None => true,
            };
            let powered = closed != normally_closed;
            let message = SamControlMessage::ActuateValve { channel: mapping.channel, powered };
            let board_id = mapping.board_id.clone();
            assert(is_first_named(mappings@, name@, i as int));
            return Ok(BoardCommand { board_id, message });
        }
        i = i + 1;
    }
    Err(ActuationError::NotMapped)
}

/// Whether the sequence holding `session` may act on devices: only the
/// sequence that is currently running may.
pub fn session_may_act(active: Option<u64>, session: u64) -> (r: bool)
    ensures
        r == (active == Some(session)),
{
    match active {
        Some(a) => a == session,
        None => false,
    }
}

/// The commands that bring every mapped valve to its unpowered, resting
/// state: what an abort sends.
pub fn abort_commands(mappings: &Vec<NodeMapping>) -> (r: Vec<BoardCommand>)
    ensures
        r@.len() == mappings@.len(),
        forall|i: int|
            0 <= i < r@.len() ==> #[trigger] r@[i].board_id@ == mappings@[i].board_id@
                && r@[i].message == (SamControlMessage::ActuateValve {
                channel: mappings@[i].channel,
                powered: false,
            }),
{
    let mut r: Vec<BoardCommand> = Vec::new();
    let mut i: usize = 0;
    while i < mappings.len()
        invariant
            i <= mappings@.len(),
            r@.len() == i,
            forall|j: int|
                0 <= j < i ==> #[trigger] r@[j].board_id@ == mappings@[j].board_id@
                    && r@[j].message == (SamControlMessage::ActuateValve {
                    channel: mappings@[j].channel,
                    powered: false,
                }),
        decreases mappings@.len() - i,
    {
        let board_id = mappings[i].board_id.clone();
        let message = SamControlMessage::ActuateValve { channel: mappings[i].channel, powered: false };
        r.push(BoardCommand { board_id, message });
        i = i + 1;
    }
    r
}

/// The mappings after taking in `u`: it replaces the first mapping with the
/// same name, or is added at the end where there is none.
pub open spec fn merge_mapping(cur: Seq<NodeMapping>, u: NodeMapping) -> Seq<NodeMapping> {
    if exists|i: int| is_first_named(cur, u.text_id@, i) {
        cur.update(choose|i: int| is_first_named(cur, u.text_id@, i), u)
    } else {
        cur.push(u)
    }
}

/// The mappings after taking in each of `ups` in order.
pub open spec fn merge_mapping_list(cur: Seq<NodeMapping>, ups: Seq<NodeMapping>) -> Seq<NodeMapping>
    decreases ups.len(),
{
    if ups.len() == 0 {
        cur
    } else {
        merge_mapping(merge_mapping_list(cur, ups.drop_last()), ups.last())
    }
}

fn merge_one_mapping(current: &mut Vec<NodeMapping>, update: NodeMapping)
    ensures
        final(current)@ == merge_mapping(old(current)@, update),
{
    let mut i: usize = 0;
    while i < current.len()
        invariant
            current@ == old(current)@,
            i <= current@.len(),
            forall|j: int| 0 <= j < i ==> #[trigger] current@[j].text_id@ != update.text_id@,
        decreases current@.len() - i,
    {
        if same_text(current[i].text_id.as_str(), update.text_id.as_str()) {
            proof {
                assert(is_first_named(current@, update.text_id@, i as int));
                assert forall|j: int| is_first_named(current@, update.text_id@, j) implies j == i by {
                    if j < i {
                        assert(current@[j].text_id@ != update.text_id@);
                    }
                    if j > i {
                        assert(current@[i as int].text_id@ == update.text_id@);
                    }
                }
            }
            current.set(i, update);
            return;
        }
        i = i + 1;
    }
    assert(!exists|j: int| is_first_named(current@, update.text_id@, j));
    current.push(update);
}

/// Takes `updates` into the mapping list: each replaces the mapping of the
/// same name, or is added; mappings that no update names are kept.
pub fn merge_mappings(current: &mut Vec<NodeMapping>, updates: Vec<NodeMapping>)
    ensures
        final(current)@ == merge_mapping_list(old(current)@, updates@),
{
    let ghost start = current@;
    let ghost all = updates@;
    let n: usize = updates.len();
    let mut rest = updates;
    let mut k: usize = 0;
    while rest.len() > 0
        invariant
            k <= all.len(),
            rest@ == all.skip(k as int),
            k + rest@.len() == all.len(),
            all.len() == n,
            current@ == merge_mapping_list(start, all.take(k as int)),
        decreases rest@.len(),
    {
        let u = rest.remove(0);
        proof {
            assert(u == all[k as int]);
            assert(all.take(k as int + 1).drop_last() =~= all.take(k as int));
        }
        merge_one_mapping(current, u);
        proof {
            assert(rest@ =~= all.skip(k as int + 1));
        }
        k = k + 1;
    }
    assert(all.take(k as int) =~= all);
}

} // verus!
