//! The block sequencer: at most one block in flight, blocks started in
//! strictly increasing height order, and the next block not started
//! before the one in flight completes. The state machine is small; the
//! laws below say what any run of it guarantees about delivery order.
use vstd::prelude::*;

verus! {

/// The sequencer's state: the block in flight, the last completed
/// height, and whether shutdown was requested.
#[derive(Debug, Clone, Copy, PartialEq, Eq, Structural)]
pub struct SequencerState {
    pub in_flight: Option<u64>,
    pub last_done: Option<u64>,
    pub stopping: bool,
}

/// One observable step of a sequencer run.
#[derive(Debug, Clone, Copy, PartialEq, Eq, Structural)]
pub enum SequencerStep {
    /// A block began processing.
    Started(u64),
    /// One canonical record derived from the given block was delivered.
    Delivered(u64),
    /// The block's processing finished, success or reported failure.
    Completed(u64),
    /// Shutdown was requested; no further block is started.
    StopRequested,
}

/// Whether a new block of height `h` may start after `last`.
pub open spec fn spec_height_admissible(last: Option<u64>, h: u64) -> bool {
    match last {
        None => true,
        Some(l) => h > l,
    }
}

/// The fresh sequencer: nothing in flight, nothing done.
pub open spec fn spec_initial(s: SequencerState) -> bool {
    s.in_flight is None && s.last_done is None && !s.stopping
}

/// The transition relation: a block starts only when none is in
/// flight, shutdown was not requested, and its height exceeds the last
/// completed one; a record is delivered only for the block in flight;
/// completing the block in flight records its height and frees the
/// sequencer; a stop request only sets the flag.
pub open spec fn spec_step_ok(
    pre: SequencerState,
    st: SequencerStep,
    post: SequencerState,
) -> bool {
    match st {
        SequencerStep::Started(h) => pre.in_flight is None && !pre.stopping
            && spec_height_admissible(pre.last_done, h) && post == SequencerState {
            in_flight: Some(h),
            last_done: pre.last_done,
            stopping: pre.stopping,
        },
        SequencerStep::Delivered(h) => pre.in_flight == Some(h) && post == pre,
        SequencerStep::Completed(h) => pre.in_flight == Some(h) && post == SequencerState {
            in_flight: None,
            last_done: Some(h),
            stopping: pre.stopping,
        },
        SequencerStep::StopRequested => post == SequencerState {
            in_flight: pre.in_flight,
            last_done: pre.last_done,
            stopping: true,
        },
    }
}

/// A run: `states` has one state more than `steps`, starts at the
/// front, and every step is a valid transition.
pub open spec fn spec_run_ok(steps: Seq<SequencerStep>, states: Seq<SequencerState>) -> bool {
    &&& states.len() == steps.len() + 1
    &&& spec_initial(states[0])
    &&& forall|i: int|
        0 <= i < steps.len() ==> spec_step_ok(states[i], #[trigger] steps[i], states[i + 1])
}

/// A well-formed state never carries a block at or below the last
/// completed height.
pub open spec fn spec_wf_state(s: SequencerState) -> bool {
    match (s.in_flight, s.last_done) {
        (Some(h), Some(l)) => h > l,
        _ => true,
    }
}

/// The height a state has reached: the block in flight, else the last
/// completed block, else none yet.
pub open spec fn spec_height_bound(s: SequencerState) -> int {
    match s.in_flight {
        Some(h) => h as int,
        None => match s.last_done {
            Some(l) => l as int,
            None => -1,
        },
    }
}

/// Every state of a run is well formed.
pub proof fn lemma_run_states_wf(steps: Seq<SequencerStep>, states: Seq<SequencerState>, i: int)
    requires
        spec_run_ok(steps, states),
        0 <= i < states.len(),
    ensures
        spec_wf_state(states[i]),
    decreases i,
{
    if i > 0 {
        lemma_run_states_wf(steps, states, i - 1);
        assert(spec_step_ok(states[i - 1], steps[i - 1], states[i]));
    }
}

/// The reached height never goes backwards over a run.
pub proof fn lemma_height_bound_monotone(
    steps: Seq<SequencerStep>,
    states: Seq<SequencerState>,
    a: int,
    b: int,
)
    requires
        spec_run_ok(steps, states),
        0 <= a <= b < states.len(),
    ensures
        spec_height_bound(states[a]) <= spec_height_bound(states[b]),
    decreases b - a,
{
    if a < b {
        lemma_run_states_wf(steps, states, b - 1);
        assert(spec_step_ok(states[b - 1], steps[b - 1], states[b]));
        lemma_height_bound_monotone(steps, states, a, b - 1);
    }
}

/// Deliveries respect height order: over any run, a record of a lower
/// block is never delivered after a record of a higher one.
pub proof fn lemma_delivered_heights_monotone(
    steps: Seq<SequencerStep>,
    states: Seq<SequencerState>,
    i: int,
    j: int,
    h1: u64,
    h2: u64,
)
    requires
        spec_run_ok(steps, states),
        0 <= i < j < steps.len(),
        steps[i] == SequencerStep::Delivered(h1),
        steps[j] == SequencerStep::Delivered(h2),
    ensures
        h1 <= h2,
{
    assert(spec_step_ok(states[i], steps[i], states[i + 1]));
    assert(spec_step_ok(states[j], steps[j], states[j + 1]));
    assert(spec_height_bound(states[i]) == h1 as int);
    assert(spec_height_bound(states[j]) == h2 as int);
    lemma_height_bound_monotone(steps, states, i, j);
}

proof fn lemma_in_flight_leaves_by_completion(
    steps: Seq<SequencerStep>,
    states: Seq<SequencerState>,
    a: int,
    b: int,
    h: u64,
)
    requires
        spec_run_ok(steps, states),
        0 <= a < b <= steps.len(),
        states[a].in_flight == Some(h),
        states[b].in_flight != Some(h),
    ensures
        exists|k: int| a <= k < b && steps[k] == SequencerStep::Completed(h),
    decreases b - a,
{
    assert(spec_step_ok(states[a], steps[a], states[a + 1]));
    if states[a + 1].in_flight == Some(h) {
        lemma_in_flight_leaves_by_completion(steps, states, a + 1, b, h);
        let k = choose|k: int| a + 1 <= k < b && steps[k] == SequencerStep::Completed(h);
        assert(a <= k < b && steps[k] == SequencerStep::Completed(h));
    } else {
        // only completing the block in flight changes `in_flight` away
        // from it: a start needs it empty, a delivery and a stop keep it
        assert(steps[a] == SequencerStep::Completed(h));
    }
}

/// Block-order delivery: once a record of a block is delivered, no
/// record of another block is delivered until that block completes. In
/// particular all deliveries of an earlier block, and its completion,
/// precede every delivery of a later block.
pub proof fn lemma_block_completed_between_deliveries(
    steps: Seq<SequencerStep>,
    states: Seq<SequencerState>,
    i: int,
    j: int,
    h1: u64,
    h2: u64,
)
    requires
        spec_run_ok(steps, states),
        0 <= i < j < steps.len(),
        steps[i] == SequencerStep::Delivered(h1),
        steps[j] == SequencerStep::Delivered(h2),
        h1 != h2,
    ensures
        exists|k: int| i < k < j && steps[k] == SequencerStep::Completed(h1),
{
    assert(spec_step_ok(states[i], steps[i], states[i + 1]));
    assert(spec_step_ok(states[j], steps[j], states[j + 1]));
    assert(states[i + 1].in_flight == Some(h1));
    assert(states[j].in_flight == Some(h2));
    lemma_in_flight_leaves_by_completion(steps, states, i + 1, j, h1);
    let k = choose|k: int| i + 1 <= k < j && steps[k] == SequencerStep::Completed(h1);
    assert(i < k < j && steps[k] == SequencerStep::Completed(h1));
}

impl SequencerState {
    /// The fresh sequencer.
    pub fn initial() -> (s: SequencerState)
        ensures
            spec_initial(s),
    {
        SequencerState { in_flight: None, last_done: None, stopping: false }
    }

    /// Whether a block of height `h` may start now.
    pub fn can_start(&self, h: u64) -> (r: bool)
        ensures
            r == (self.in_flight is None && !self.stopping && spec_height_admissible(
                self.last_done,
                h,
            )),
    {
        if self.stopping {
            return false;
        }
        match self.in_flight {
            Some(_) => false,
            None => match self.last_done {
                None => true,
                Some(l) => h > l,
            },
        }
    }

    /// Starts a block.
    pub fn start_block(&mut self, h: u64)
        requires
            old(self).in_flight is None,
            !old(self).stopping,
            spec_height_admissible(old(self).last_done, h),
        ensures
            spec_step_ok(*old(self), SequencerStep::Started(h), *final(self)),
    {
        self.in_flight = Some(h);
    }

    /// Completes the block in flight.
    pub fn complete_block(&mut self, h: u64)
        requires
            old(self).in_flight == Some(h),
        ensures
            spec_step_ok(*old(self), SequencerStep::Completed(h), *final(self)),
    {
        self.in_flight = None;
        self.last_done = Some(h);
    }

    /// Records a shutdown request; the block in flight may still drain.
    pub fn request_stop(&mut self)
        ensures
            spec_step_ok(*old(self), SequencerStep::StopRequested, *final(self)),
    {
        self.stopping = true;
    }
}

} // verus!
