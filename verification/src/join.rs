//! The join-retry state machine.
//!
//! A coordinator starts out not joined. The caller attempts the join over the
//! radio and reports each outcome with [`JoinCoordinator::step`]. A success
//! makes the coordinator joined, for good; any other outcome is retried after
//! a jittered delay that grows with the number of failures so far. No outcome
//! is fatal, and the kind of failure does not change what happens next.

use crate::backoff::{
    backoff_window, base_delay, delay_from_draw, generate_delay, in_draw_range, jitter_span,
    jittered_delay, lemma_base_delay_cap,
};
use rand::rngs::StdRng;
use vstd::prelude::*;

verus! {

/// Whether the device has been accepted by the network.
#[derive(Clone, Copy, Debug, PartialEq, Eq, Structural)]
pub enum JoinState {
    /// No join attempt has succeeded yet.
    NotJoined,
    /// A join attempt has succeeded. There is no way back.
    Joined,
}

/// How one join attempt ended, as the radio stack reported it.
#[derive(Clone, Copy, Debug, PartialEq, Eq, Structural)]
pub enum JoinOutcome {
    /// The network accepted the device.
    Success,
    /// The network answered and refused the device.
    Rejected,
    /// No accept arrived within the receive windows.
    NoAcceptReceived,
    /// The radio or the stack below failed. `detail` is the transport's own
    /// code, kept for reporting; the coordinator never reads it.
    TransportError { detail: u32 },
}

/// What the caller does after reporting an outcome.
#[derive(Clone, Copy, Debug, PartialEq, Eq, Structural)]
pub enum JoinAction {
    /// The device is joined: no further join attempt is made, and uplinks
    /// may start.
    Proceed,
    /// Wait for `delay_secs` seconds, then attempt the join again.
    Backoff { delay_secs: u16 },
}

/// Largest failure count that the coordinator can hold. The count stays
/// there once reached; the delays are the same from 359 failures on.
pub const RETRY_COUNT_MAX: u64 = 0xffff_ffff_ffff_ffff;

/// The coordinator as a mathematical value.
pub struct JoinModel {
    /// Joined or not.
    pub state: JoinState,
    /// Failed join attempts counted so far.
    pub retries: nat,
}

/// The state every coordinator starts in.
pub open spec fn initial_model() -> JoinModel {
    JoinModel { state: JoinState::NotJoined, retries: 0 }
}

/// Whether reporting `outcome` in state `m` leads to a backoff wait: the
/// device is not joined yet and the outcome is anything but a success.
pub open spec fn backs_off(m: JoinModel, outcome: JoinOutcome) -> bool {
    m.state == JoinState::NotJoined && outcome != JoinOutcome::Success
}

/// The failure count after one more failure.
pub open spec fn count_failure(retries: nat) -> nat {
    if retries < RETRY_COUNT_MAX {
        retries + 1
    } else {
        retries
    }
}

/// The state after `outcome` was reported in state `m`.
pub open spec fn join_step(m: JoinModel, outcome: JoinOutcome) -> JoinModel {
    if m.state == JoinState::Joined {
        m
    } else if outcome == JoinOutcome::Success {
        JoinModel { state: JoinState::Joined, retries: m.retries }
    } else {
        JoinModel { state: JoinState::NotJoined, retries: count_failure(m.retries) }
    }
}

/// The action that answers `outcome` in state `m`, when the random source
/// gave `draw`.
pub open spec fn join_action(m: JoinModel, outcome: JoinOutcome, draw: nat) -> JoinAction {
    if backs_off(m, outcome) {
        JoinAction::Backoff { delay_secs: jittered_delay(m.retries, draw) as u16 }
    } else {
        JoinAction::Proceed
    }
}

/// The state after a whole sequence of outcomes was reported, one by one.
pub open spec fn join_run(m: JoinModel, outcomes: Seq<JoinOutcome>) -> JoinModel
    decreases outcomes.len(),
{
    if outcomes.len() == 0 {
        m
    } else {
        join_step(join_run(m, outcomes.drop_last()), outcomes.last())
    }
}

/// The number of backoff waits asked for while `outcomes` were reported.
pub open spec fn backoff_count(m: JoinModel, outcomes: Seq<JoinOutcome>) -> nat
    decreases outcomes.len(),
{
    if outcomes.len() == 0 {
        0
    } else {
        let before = backoff_count(m, outcomes.drop_last());
        if backs_off(join_run(m, outcomes.drop_last()), outcomes.last()) {
            before + 1
        } else {
            before
        }
    }
}

/// The failure count after `failures` failures in a row, from zero.
pub open spec fn retries_after(failures: nat) -> nat {
    if failures <= RETRY_COUNT_MAX {
        failures
    } else {
        RETRY_COUNT_MAX as nat
    }
}

/// A failure count that has stopped at its largest value gives the same
/// delays as the true number of failures would.
pub proof fn lemma_counted_failures_keep_delays(failures: nat, draw: nat)
    ensures
        base_delay(retries_after(failures)) == base_delay(failures),
        jitter_span(retries_after(failures)) == jitter_span(failures),
        jittered_delay(retries_after(failures), draw) == jittered_delay(failures, draw),
{
    lemma_base_delay_cap(failures);
    lemma_base_delay_cap(retries_after(failures));
}

/// Joined is final: whatever is reported to a joined coordinator, the state
/// stays as it is and no backoff is asked for, so no join is attempted again.
pub proof fn lemma_joined_is_final(m: JoinModel, outcomes: Seq<JoinOutcome>)
    requires
        m.state == JoinState::Joined,
    ensures
        join_run(m, outcomes) == m,
        backoff_count(m, outcomes) == 0,
    decreases outcomes.len(),
{
    if outcomes.len() > 0 {
        lemma_joined_is_final(m, outcomes.drop_last());
    }
}

/// As long as every outcome is a failure, the coordinator stays not joined and
/// answers each outcome with one backoff.
pub proof fn lemma_failures_all_back_off(outcomes: Seq<JoinOutcome>)
    requires
        forall|i: int| 0 <= i < outcomes.len() ==> outcomes[i] != JoinOutcome::Success,
    ensures
        join_run(initial_model(), outcomes).state == JoinState::NotJoined,
        join_run(initial_model(), outcomes).retries == retries_after(outcomes.len()),
        backoff_count(initial_model(), outcomes) == outcomes.len(),
    decreases outcomes.len(),
{
    if outcomes.len() > 0 {
        let earlier = outcomes.drop_last();
        assert forall|i: int| 0 <= i < earlier.len() implies earlier[i] != JoinOutcome::Success by {
            assert(earlier[i] == outcomes[i]);
        }
        lemma_failures_all_back_off(earlier);
    }
}

/// With the first success at position `first`, the coordinator asks for
/// exactly `first` backoffs, one per failure before it, and ends up joined,
/// whatever is reported after the success.
pub proof fn lemma_joins_at_first_success(outcomes: Seq<JoinOutcome>, first: int)
    requires
        0 <= first < outcomes.len(),
        outcomes[first] == JoinOutcome::Success,
        forall|i: int| 0 <= i < first ==> outcomes[i] != JoinOutcome::Success,
    ensures
        join_run(initial_model(), outcomes).state == JoinState::Joined,
        join_run(initial_model(), outcomes).retries == retries_after(first as nat),
        backoff_count(initial_model(), outcomes) == first,
    decreases outcomes.len(),
{
    let earlier = outcomes.drop_last();
    if first == outcomes.len() - 1 {
        assert forall|i: int| 0 <= i < earlier.len() implies earlier[i] != JoinOutcome::Success by {
            assert(earlier[i] == outcomes[i]);
        }
        lemma_failures_all_back_off(earlier);
    } else {
        assert(earlier[first] == outcomes[first]);
        assert forall|i: int| 0 <= i < first implies earlier[i] != JoinOutcome::Success by {
            assert(earlier[i] == outcomes[i]);
        }
        lemma_joins_at_first_success(earlier, first);
    }
}

/// A coordinator is joined after a run only if it was joined before or one of
/// the outcomes was a success.
pub proof fn lemma_joined_only_by_success(m: JoinModel, outcomes: Seq<JoinOutcome>)
    ensures
        join_run(m, outcomes).state == JoinState::Joined <==> (m.state == JoinState::Joined
            || exists|i: int| 0 <= i < outcomes.len() && outcomes[i] == JoinOutcome::Success),
    decreases outcomes.len(),
{
    if outcomes.len() > 0 {
        let earlier = outcomes.drop_last();
        lemma_joined_only_by_success(m, earlier);
        if m.state != JoinState::Joined {
            if join_run(m, outcomes).state == JoinState::Joined {
                if join_run(m, earlier).state == JoinState::Joined {
                    let i = choose|i: int| 0 <= i < earlier.len() && earlier[i] == JoinOutcome::Success;
                    assert(outcomes[i] == JoinOutcome::Success);
                } else {
                    assert(outcomes[outcomes.len() - 1] == JoinOutcome::Success);
                }
            }
            if exists|i: int| 0 <= i < outcomes.len() && outcomes[i] == JoinOutcome::Success {
                let i = choose|i: int| 0 <= i < outcomes.len() && outcomes[i] == JoinOutcome::Success;
                if i < earlier.len() {
                    assert(earlier[i] == JoinOutcome::Success);
                }
            }
        }
    }
}

/// The retry count as the delay computation takes it: counts beyond
/// `u16::MAX` are handed over as `u16::MAX`.
spec fn delay_index(retries: nat) -> nat {
    if retries <= u16::MAX {
        retries
    } else {
        u16::MAX as nat
    }
}

/// Handing over a count held at `u16::MAX` changes no delay.
proof fn lemma_delay_index_keeps_delays(retries: nat, draw: nat)
    ensures
        base_delay(delay_index(retries)) == base_delay(retries),
        jitter_span(delay_index(retries)) == jitter_span(retries),
        jittered_delay(delay_index(retries), draw) == jittered_delay(retries, draw),
{
    lemma_base_delay_cap(retries);
    lemma_base_delay_cap(delay_index(retries));
}

/// Drives join attempts to completion.
pub struct JoinCoordinator {
    state: JoinState,
    retries: u64,
}

impl View for JoinCoordinator {
    type V = JoinModel;

    closed spec fn view(&self) -> JoinModel {
        JoinModel { state: self.state, retries: self.retries as nat }
    }
}

impl JoinCoordinator {
    /// A coordinator that has not joined and has counted no failure.
    pub fn new() -> (coordinator: JoinCoordinator)
        ensures
            coordinator@ == initial_model(),
    {
        JoinCoordinator { state: JoinState::NotJoined, retries: 0 }
    }

    /// Joined or not.
    pub fn state(&self) -> (state: JoinState)
        ensures
            state == self@.state,
    {
        self.state
    }

    /// Whether a join attempt has succeeded.
    pub fn is_joined(&self) -> (joined: bool)
        ensures
            joined <==> self@.state == JoinState::Joined,
    {
        match self.state {
            JoinState::Joined => true,
            JoinState::NotJoined => false,
        }
    }

    /// Failed join attempts counted so far.
    pub fn retries(&self) -> (retries: u64)
        ensures
            retries == self@.retries,
    {
        self.retries
    }

    /// The failure count as the delay computation takes it.
    fn backoff_index(&self) -> (index: u16)
        ensures
            index == delay_index(self@.retries),
    {
        if self.retries > 0xffff {
            0xffff
        } else {
            self.retries as u16
        }
    }

    /// The range, both ends included, from which the draw for the next
    /// backoff is taken: one jitter span to two. It is for callers that draw
    /// from a random source of their own and use
    /// [`JoinCoordinator::step_with_draw`].
    pub fn draw_range(&self) -> (range: (u16, u16))
        ensures
            range.0 == jitter_span(self@.retries),
            range.1 == 2 * jitter_span(self@.retries),
    {
        let window = backoff_window(self.backoff_index());
        proof {
            lemma_delay_index_keeps_delays(self@.retries, 0);
        }
        (window.jitter_span, 2 * window.jitter_span)
    }

    /// Takes one outcome into the state. Returns the retry count to compute
    /// the delay from where a backoff is due, and `None` where it is not.
    fn absorb(&mut self, outcome: JoinOutcome) -> (index: Option<u16>)
        ensures
            final(self)@ == join_step(old(self)@, outcome),
            index is Some <==> backs_off(old(self)@, outcome),
            index matches Some(i) ==> i == delay_index(old(self)@.retries),
    {
        match self.state {
            JoinState::Joined => None,
            JoinState::NotJoined => {
                match outcome {
                    JoinOutcome::Success => {
                        self.state = JoinState::Joined;
                        None
                    },
                    _ => {
                        let index: u16 = self.backoff_index();
                        self.retries = self.retries.saturating_add(1);
                        Some(index)
                    },
                }
            },
        }
    }

    /// Reports the outcome of one join attempt and returns what to do next.
    ///
    /// The new state is fixed by the old state and the outcome alone. Where
    /// a backoff is due, the delay comes from one draw of `rng` and lies in
    /// the backoff window of the failure count before this outcome.
    pub fn step(&mut self, outcome: JoinOutcome, rng: &mut StdRng) -> (action: JoinAction)
        ensures
            final(self)@ == join_step(old(self)@, outcome),
            !backs_off(old(self)@, outcome) ==> action == JoinAction::Proceed,
            backs_off(old(self)@, outcome) ==> (action matches JoinAction::Backoff { delay_secs }
                && base_delay(old(self)@.retries) <= delay_secs <= base_delay(old(self)@.retries)
                + jitter_span(old(self)@.retries)),
            exists|draw: nat|
                in_draw_range(old(self)@.retries, draw) && action == #[trigger] join_action(
                    old(self)@,
                    outcome,
                    draw,
                ),
    {
        let ghost before = old(self)@;
        match self.absorb(outcome) {
            None => {
                assert(in_draw_range(before.retries, jitter_span(before.retries))
                    && JoinAction::Proceed == join_action(
                    before,
                    outcome,
                    jitter_span(before.retries),
                ));
                JoinAction::Proceed
            },
            Some(index) => {
                let delay_secs: u16 = generate_delay(rng, index);
                proof {
                    let draw = choose|draw: nat|
                        in_draw_range(index as nat, draw) && delay_secs == #[trigger] jittered_delay(
                            index as nat,
                            draw,
                        );
                    lemma_delay_index_keeps_delays(before.retries, draw);
                    assert(in_draw_range(before.retries, draw) && (JoinAction::Backoff {
                        delay_secs,
                    }) == join_action(before, outcome, draw));
                }
                JoinAction::Backoff { delay_secs }
            },
        }
    }

    /// As [`JoinCoordinator::step`], for a caller that draws from a random
    /// source of its own: `draw` is its draw from
    /// `jitter_span ..= 2 * jitter_span`.
    pub fn step_with_draw(&mut self, outcome: JoinOutcome, draw: u16) -> (action: JoinAction)
        ensures
            final(self)@ == join_step(old(self)@, outcome),
            action == join_action(old(self)@, outcome, draw as nat),
    {
        match self.absorb(outcome) {
            None => JoinAction::Proceed,
            Some(index) => {
                proof {
                    lemma_delay_index_keeps_delays(old(self)@.retries, draw as nat);
                }
                JoinAction::Backoff { delay_secs: delay_from_draw(index, draw) }
            },
        }
    }
}

} // verus!
