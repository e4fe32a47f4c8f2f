use vstd::prelude::*;
use crate::message::NodeMapping;
use crate::assoc::{keys_unique, pairs_to_map};
use crate::named::{entry_view, NamedTable};

verus! {

/// One second in microseconds times one hertz in millihertz: an interval of
/// `dt` microseconds is a frequency of `MILLIHERTZ_SCALE / dt` millihertz.
pub const MILLIHERTZ_SCALE: u64 = 1_000_000_000;

/// Liveness snapshot of one board. Times are in microseconds, frequencies in
/// millihertz.
#[derive(Clone, Copy, Debug, PartialEq, Eq, Structural)]
pub struct BoardStatus {
    pub mapped: bool,
    pub connected: bool,
    pub last_contact: Option<u64>,
    pub frequency: Option<u64>,
}

/// An event that changes what is known of a board's liveness.
#[derive(Clone, Debug)]
pub enum LivenessEvent {
    /// The board announced itself.
    Identity(String),
    /// The board was found connected (`true`) or disconnected (`false`).
    Status(String, bool),
    /// Data arrived from the board at the given time.
    Data(String, u64),
}

/// The frequency of messages that arrive `dt` microseconds apart.
pub open spec fn instant_frequency(dt: u64) -> u64
    recommends
        dt > 0,
{
    (MILLIHERTZ_SCALE / dt) as u64
}

/// The smoothed frequency: four fifths of the previous one and one fifth of
/// the new sample, rounded down.
pub open spec fn smooth(previous: u64, sample: u64) -> u64 {
    ((4 * previous + sample) / 5) as u64
}

/// The status after data arrived at time `t`. The first data only records the
/// time; later data also updates the frequency, unless `t` is not after the
/// last contact.
pub open spec fn data_status(s: BoardStatus, t: u64) -> BoardStatus {
    match s.last_contact {
        Some(prev) if t > prev => {
            let sample = instant_frequency((t - prev) as u64);
            BoardStatus {
                mapped: s.mapped,
                connected: s.connected,
                last_contact: Some(t),
                frequency: Some(
                    match s.frequency {
                        Some(f) => smooth(f, sample),
                        None => sample,
                    },
                ),
            }
        },
        _ => BoardStatus {
            mapped: s.mapped,
            connected: s.connected,
            last_contact: Some(t),
            frequency: s.frequency,
        },
    }
}

/// The status of a board that nothing is known of yet.
pub open spec fn unknown_status() -> BoardStatus {
    BoardStatus { mapped: false, connected: false, last_contact: None, frequency: None }
}

/// The status after `e`, for the board that `e` names, with `current` what
/// was known before.
pub open spec fn event_status(current: Option<BoardStatus>, e: LivenessEvent) -> BoardStatus {
    let s = match current {
        Some(s) => s,
        None => unknown_status(),
    };
    match e {
        LivenessEvent::Identity(_) => BoardStatus { connected: true, ..s },
        LivenessEvent::Status(_, c) => BoardStatus { connected: c, ..s },
        LivenessEvent::Data(_, t) => match current {
            Some(s) => data_status(s, t),
            None => BoardStatus {
                mapped: false,
                connected: true,
                last_contact: Some(t),
                frequency: None,
            },
        },
    }
}

/// The board that an event is about.
pub open spec fn event_board(e: LivenessEvent) -> Seq<char> {
    match e {
        LivenessEvent::Identity(id) => id@,
        LivenessEvent::Status(id, _) => id@,
        LivenessEvent::Data(id, _) => id@,
    }
}

/// What is known after `e`, given what was known in `m`.
pub open spec fn apply_event_spec(m: Map<Seq<char>, BoardStatus>, e: LivenessEvent) -> Map<
    Seq<char>,
    BoardStatus,
> {
    let id = event_board(e);
    let current = if m.contains_key(id) {
        Some(m[id])
    } else {
        None
    };
    m.insert(id, event_status(current, e))
}

/// The status of board `id` once the mappings name it.
pub open spec fn mapped_status(m: Map<Seq<char>, BoardStatus>, id: Seq<char>) -> BoardStatus {
    if m.contains_key(id) {
        BoardStatus { mapped: true, ..m[id] }
    } else {
        BoardStatus { mapped: true, ..unknown_status() }
    }
}

/// Whether some mapping in `ms` is on board `id`.
pub open spec fn names_board(ms: Seq<NodeMapping>, id: Seq<char>) -> bool {
    exists|i: int| 0 <= i < ms.len() && #[trigger] ms[i].board_id@ == id
}

/// Whether a board is live at time `now`: it was heard from less than
/// `death_threshold` microseconds ago. A contact stamped after `now` counts
/// as just now.
pub open spec fn is_live_spec(s: BoardStatus, now: u64, death_threshold: u64) -> bool {
    match s.last_contact {
        Some(t) => if now >= t {
            now - t < death_threshold
        } else {
            0 < death_threshold
        },
        None => false,
    }
}

pub fn is_live(s: &BoardStatus, now: u64, death_threshold: u64) -> (r: bool)
    ensures
        r == is_live_spec(*s, now, death_threshold),
{
    match s.last_contact {
        Some(t) => if now >= t {
            now - t < death_threshold
        } else {
            0 < death_threshold
        },
        None => false,
    }
}

/// Computes the smoothed frequency from the previous one and a new sample.
pub fn smooth_frequency(previous: u64, sample: u64) -> (r: u64)
    ensures
        r == smooth(previous, sample),
{
    let sum: u128 = 4 * (previous as u128) + sample as u128;
    (sum / 5) as u64
}

/// Computes the status after data arrived at time `t`.
pub fn record_data(s: BoardStatus, t: u64) -> (r: BoardStatus)
    ensures
        r == data_status(s, t),
{
    match s.last_contact {
        Some(prev) if t > prev => {
            let sample = MILLIHERTZ_SCALE / (t - prev);
            let frequency = match s.frequency {
                Some(f) => smooth_frequency(f, sample),
                None => sample,
            };
            BoardStatus {
                mapped: s.mapped,
                connected: s.connected,
                last_contact: Some(t),
                frequency: Some(frequency),
            }
        },
        _ => BoardStatus {
            mapped: s.mapped,
            connected: s.connected,
            last_contact: Some(t),
            frequency: s.frequency,
        },
    }
}

/// The status after data arrived at the `n` times `t0`, `t0 + delta`, ...,
/// `t0 + (n - 1) * delta`.
pub open spec fn steady_data(s: BoardStatus, t0: u64, delta: u64, n: nat) -> BoardStatus
    decreases n,
{
    if n == 0 {
        s
    } else {
        data_status(steady_data(s, t0, delta, (n - 1) as nat), (t0 + (n - 1) * delta) as u64)
    }
}

/// One smoothing step moves the frequency toward the sample, never past it:
/// the gap shrinks to at most four fifths of itself (plus one for rounding).
pub proof fn smoothing_approaches_sample(previous: u64, sample: u64)
    ensures
        previous >= sample ==> sample <= smooth(previous, sample) <= previous && 5 * (smooth(
            previous,
            sample,
        ) - sample) <= 4 * (previous - sample),
        previous < sample ==> previous <= smooth(previous, sample) <= sample && 5 * (sample
            - smooth(previous, sample)) <= 4 * (sample - previous) + 4,
{
}

/// Data arriving at a constant interval `delta`: once two samples have come
/// in, the smoothed frequency of a fresh board is exactly the frequency of
/// that interval, and stays so.
pub proof fn steady_data_frequency(s: BoardStatus, t0: u64, delta: u64, n: nat)
    requires
        s.last_contact is None,
        s.frequency is None,
        delta > 0,
        n >= 1,
        t0 + n * delta <= u64::MAX,
    ensures
        steady_data(s, t0, delta, n).last_contact == Some((t0 + (n - 1) * delta) as u64),
        n == 1 ==> steady_data(s, t0, delta, n).frequency is None,
        n >= 2 ==> steady_data(s, t0, delta, n).frequency == Some(instant_frequency(delta)),
    decreases n,
{
    if n > 1 {
        let m = (n - 1) as nat;
        assert(t0 + m * delta <= t0 + n * delta) by (nonlinear_arith)
            requires
                m <= n,
                delta > 0,
        ;
        steady_data_frequency(s, t0, delta, m);
        assert((t0 + (n - 1) * delta) - (t0 + (m - 1) * delta) == delta) by (nonlinear_arith)
            requires
                m == n - 1,
        ;
        assert(0 <= t0 + (m - 1) * delta) by (nonlinear_arith)
            requires
                m >= 1,
        ;
    } else {
        assert(steady_data(s, t0, delta, 0) == s);
        assert((n - 1) * delta == 0);
    }
}

/// Distance between a frequency and a target frequency.
pub open spec fn gap(f: u64, target: u64) -> int {
    if f >= target {
        f - target
    } else {
        target - f
    }
}

/// Data arriving every `delta` after a last contact at `t0`: after `n` more
/// events the last contact is `t0 + n * delta`, and a frequency once known
/// stays known.
pub proof fn steady_data_timeline(s: BoardStatus, t0: u64, delta: u64, n: nat)
    requires
        s.last_contact == Some(t0),
        s.frequency is Some,
        delta > 0,
        t0 + (n + 1) * delta <= u64::MAX,
    ensures
        steady_data(s, (t0 + delta) as u64, delta, n).last_contact == Some((t0 + n * delta) as u64),
        steady_data(s, (t0 + delta) as u64, delta, n).frequency is Some,
    decreases n,
{
    if n > 0 {
        let m = (n - 1) as nat;
        assert(t0 + (m + 1) * delta <= t0 + (n + 1) * delta) by (nonlinear_arith)
            requires
                m + 1 <= n + 1,
                delta > 0,
        ;
        steady_data_timeline(s, t0, delta, m);
        assert((t0 + delta) + (n - 1) * delta == t0 + n * delta) by (nonlinear_arith)
            requires
                n >= 1,
        ;
        assert(t0 + n * delta <= t0 + (n + 1) * delta) by (nonlinear_arith)
            requires
                delta > 0,
        ;
        assert(t0 + m * delta < t0 + n * delta) by (nonlinear_arith)
            requires
                m + 1 == n,
                delta > 0,
        ;
        assert(0 <= m * delta) by (nonlinear_arith);
    } else {
        assert(steady_data(s, (t0 + delta) as u64, delta, 0) == s);
        assert(n * delta == 0);
    }
}

/// Data arriving at a constant interval `delta` moves any smoothed frequency
/// toward the frequency of that interval with every event: the gap never
/// grows, and shrinks to at most four fifths of itself plus one for rounding.
pub proof fn steady_data_converges(s: BoardStatus, t0: u64, delta: u64, n: nat)
    requires
        s.last_contact == Some(t0),
        s.frequency is Some,
        delta > 0,
        t0 + (n + 2) * delta <= u64::MAX,
    ensures
        ({
            let before = steady_data(s, (t0 + delta) as u64, delta, n).frequency.unwrap();
            let after = steady_data(s, (t0 + delta) as u64, delta, n + 1).frequency.unwrap();
            let target = instant_frequency(delta);
            gap(after, target) <= gap(before, target) && 5 * gap(after, target) <= 4 * gap(
                before,
                target,
            ) + 4
        }),
{
    assert(t0 + (n + 1) * delta <= t0 + (n + 2) * delta) by (nonlinear_arith)
        requires
            delta > 0,
    ;
    steady_data_timeline(s, t0, delta, n);
    assert((t0 + delta) + n * delta == t0 + (n + 1) * delta) by (nonlinear_arith);
    assert(t0 + (n + 1) * delta - (t0 + n * delta) == delta) by (nonlinear_arith);
    assert(0 <= n * delta) by (nonlinear_arith);
    let before = steady_data(s, (t0 + delta) as u64, delta, n).frequency.unwrap();
    smoothing_approaches_sample(before, instant_frequency(delta));
}

/// `b` to the power `n`.
pub open spec fn power(b: nat, n: nat) -> nat
    decreases n,
{
    if n == 0 {
        1
    } else {
        b * power(b, (n - 1) as nat)
    }
}

/// Data arriving every `delta` after a last contact at `t0`: after `n` more
/// events the gap between the smoothed frequency and the frequency of that
/// interval is at most `0.8^n` of the starting gap, plus four for rounding.
pub proof fn steady_data_bound(s: BoardStatus, t0: u64, delta: u64, n: nat)
    requires
        s.last_contact == Some(t0),
        s.frequency is Some,
        delta > 0,
        t0 + (n + 1) * delta <= u64::MAX,
    ensures
        power(5, n) * gap(steady_data(s, (t0 + delta) as u64, delta, n).frequency.unwrap(), instant_frequency(delta))
            <= power(4, n) * gap(s.frequency.unwrap(), instant_frequency(delta)) + 4 * power(5, n),
{
    lemma_steady_data_shifted_bound(s, t0, delta, n);
    let g0 = gap(s.frequency.unwrap(), instant_frequency(delta));
    let p4 = power(4, n);
    let gn = gap(steady_data(s, (t0 + delta) as u64, delta, n).frequency.unwrap(), instant_frequency(delta));
    let p5 = power(5, n);
    assert(p5 * gn <= p4 * g0 + 4 * p5) by (nonlinear_arith)
        requires
            p5 * (gn - 4) <= p4 * (g0 - 4),
            p4 >= 0,
    ;
}

proof fn lemma_steady_data_shifted_bound(s: BoardStatus, t0: u64, delta: u64, n: nat)
    requires
        s.last_contact == Some(t0),
        s.frequency is Some,
        delta > 0,
        t0 + (n + 1) * delta <= u64::MAX,
    ensures
        power(5, n) * (gap(steady_data(s, (t0 + delta) as u64, delta, n).frequency.unwrap(), instant_frequency(delta)) - 4)
            <= power(4, n) * (gap(s.frequency.unwrap(), instant_frequency(delta)) - 4),
    decreases n,
{
    let target = instant_frequency(delta);
    if n == 0 {
        assert(steady_data(s, (t0 + delta) as u64, delta, 0) == s);
    } else {
        let m = (n - 1) as nat;
        assert(t0 + (m + 1) * delta <= t0 + (n + 1) * delta) by (nonlinear_arith)
            requires
                m + 1 <= n + 1,
                delta > 0,
        ;
        assert(t0 + (m + 2) * delta == t0 + (n + 1) * delta);
        lemma_steady_data_shifted_bound(s, t0, delta, m);
        steady_data_converges(s, t0, delta, m);
        let a = gap(steady_data(s, (t0 + delta) as u64, delta, m).frequency.unwrap(), target);
        let b = gap(steady_data(s, (t0 + delta) as u64, delta, n).frequency.unwrap(), target);
        let g0 = gap(s.frequency.unwrap(), target);
        let p5 = power(5, m);
        let p4 = power(4, m);
        assert(power(5, n) == 5 * p5);
        assert(power(4, n) == 4 * p4);
        assert(5 * p5 * (b - 4) <= 4 * p4 * (g0 - 4)) by (nonlinear_arith)
            requires
                5 * b <= 4 * a + 4,
                p5 * (a - 4) <= p4 * (g0 - 4),
                p5 >= 0,
        ;
    }
}

/// Per-board liveness: whether the board is mapped and connected, when it was
/// last heard from, and how often it sends data.
pub struct LivenessTracker {
    boards: NamedTable<BoardStatus>,
}

impl View for LivenessTracker {
    type V = Map<Seq<char>, BoardStatus>;

    closed spec fn view(&self) -> Map<Seq<char>, BoardStatus> {
        self.boards@
    }
}

impl LivenessTracker {
    pub closed spec fn wf(&self) -> bool {
        self.boards.wf()
    }

    pub fn new() -> (r: LivenessTracker)
        ensures
            r.wf(),
            r@ == Map::<Seq<char>, BoardStatus>::empty(),
    {
        LivenessTracker { boards: NamedTable::new() }
    }

    /// The status of board `board_id`, if it is known.
    pub fn status(&self, board_id: &str) -> (r: Option<BoardStatus>)
        requires
            self.wf(),
        ensures
            r == (if self@.contains_key(board_id@) {
                Some(self@[board_id@])
            } else {
                None
            }),
    {
        self.boards.lookup(board_id)
    }

    /// Every known board with its status.
    pub fn snapshot(&self) -> (r: Vec<(String, BoardStatus)>)
        requires
            self.wf(),
        ensures
            keys_unique(r@.map_values(|e: (String, BoardStatus)| entry_view(e))),
            pairs_to_map(r@.map_values(|e: (String, BoardStatus)| entry_view(e))) == self@,
    {
        self.boards.to_vec()
    }

    /// One step of draining the event queue: applies the next event, if the
    /// queue had one, and says whether to go on. Draining stops when the
    /// queue is empty or the time budget is spent.
    pub fn drain_step(&mut self, next: Option<LivenessEvent>, elapsed_micros: u64, budget_micros: u64) -> (more: bool)
        requires
            old(self).wf(),
        ensures
            final(self).wf(),
            match next {
                Some(e) => final(self)@ == apply_event_spec(old(self)@, e),
                None => final(self)@ == old(self)@,
            },
            more == (next is Some && elapsed_micros < budget_micros),
    {
        match next {
            Some(event) => {
                self.apply(event);
                elapsed_micros < budget_micros
            },
            None => false,
        }
    }

    /// Applies one event.
    pub fn apply(&mut self, event: LivenessEvent)
        requires
            old(self).wf(),
        ensures
            final(self).wf(),
            final(self)@ == apply_event_spec(old(self)@, event),
    {
        let ghost e = event;
        match event {
            LivenessEvent::Identity(id) => {
                let next = match self.boards.lookup(id.as_str()) {
                    Some(s) => BoardStatus { connected: true, ..s },
                    None => BoardStatus {
                        mapped: false,
                        connected: true,
                        last_contact: None,
                        frequency: None,
                    },
                };
                self.boards.insert(id, next);
            },
            LivenessEvent::Status(id, connected) => {
                let next = match self.boards.lookup(id.as_str()) {
                    Some(s) => BoardStatus { connected, ..s },
                    None => BoardStatus {
                        mapped: false,
                        connected,
                        last_contact: None,
                        frequency: None,
                    },
                };
                self.boards.insert(id, next);
            },
            LivenessEvent::Data(id, t) => {
                let next = match self.boards.lookup(id.as_str()) {
                    Some(s) => record_data(s, t),
                    None => BoardStatus {
                        mapped: false,
                        connected: true,
                        last_contact: Some(t),
                        frequency: None,
                    },
                };
                self.boards.insert(id, next);
            },
        }
    }

    /// Marks as mapped every board that a mapping is on; boards that no
    /// mapping names keep their status.
    pub fn mark_mapped(&mut self, mappings: &Vec<NodeMapping>)
        requires
            old(self).wf(),
        ensures
            final(self).wf(),
            forall|id: Seq<char>|
                #[trigger] final(self)@.contains_key(id) <==> old(self)@.contains_key(id)
                    || names_board(mappings@, id),
            forall|id: Seq<char>|
                names_board(mappings@, id) ==> #[trigger] final(self)@[id] == mapped_status(
                    old(self)@,
                    id,
                ),
            forall|id: Seq<char>|
                !names_board(mappings@, id) && old(self)@.contains_key(id)
                    ==> #[trigger] final(self)@[id] == old(self)@[id],
    {
        let ghost start = self@;
        let mut i: usize = 0;
        while i < mappings.len()
            invariant
                self.wf(),
                i <= mappings@.len(),
                forall|id: Seq<char>|
                    #[trigger] self@.contains_key(id) <==> start.contains_key(id) || names_board(
                        mappings@.take(i as int),
                        id,
                    ),
                forall|id: Seq<char>|
                    names_board(mappings@.take(i as int), id) ==> #[trigger] self@[id]
                        == mapped_status(start, id),
                forall|id: Seq<char>|
                    !names_board(mappings@.take(i as int), id) && start.contains_key(id)
                        ==> #[trigger] self@[id] == start[id],
            decreases mappings@.len() - i,
        {
            let id = mappings[i].board_id.clone();
            let next = match self.boards.lookup(id.as_str()) {
                Some(s) => BoardStatus { mapped: true, ..s },
                None => BoardStatus {
                    mapped: true,
                    connected: false,
                    last_contact: None,
                    frequency: None,
                },
            };
            let ghost before = self@;
            proof {
                assert(names_board(mappings@.take(i as int), id@) ==> before[id@] == mapped_status(
                    start,
                    id@,
                ));
            }
            self.boards.insert(id, next);
            proof {
                let t = mappings@.take(i as int + 1);
                assert(t[i as int] == mappings@[i as int]);
                assert forall|k: Seq<char>| names_board(t, k) <==> names_board(
                    mappings@.take(i as int),
                    k,
                ) || k == id@ by {
                    if names_board(t, k) && k != id@ {
                        let j = choose|j: int| 0 <= j < t.len() && #[trigger] t[j].board_id@ == k;
                        assert(mappings@.take(i as int)[j] == t[j]);
                    }
                    if names_board(mappings@.take(i as int), k) {
                        let j = choose|j: int|
                            0 <= j < i && #[trigger] mappings@.take(i as int)[j].board_id@ == k;
                        assert(t[j] == mappings@.take(i as int)[j]);
                    }
                }
            }
            i = i + 1;
        }
        assert(mappings@.take(i as int) =~= mappings@);
    }
}

} // verus!
