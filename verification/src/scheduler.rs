//! The debounce scheduler: a state machine that consumes change and
//! completion messages one at a time, in arrival order, and decides when
//! to trigger a command run. It guarantees that runs are serialized and
//! that any burst of changes during a run collapses into at most one
//! rerun afterwards.

use vstd::prelude::*;

verus! {

/// A message consumed by the scheduler loop, in arrival order.
#[derive(Clone, Copy, PartialEq, Eq, Structural, Debug)]
pub enum Msg {
    /// A relevant path changed somewhere under the watched tree.
    PathChanged,
    /// A spawned run finished, in any way; one synthetic copy is also
    /// injected at startup to cause the kickoff run.
    RunCompleted,
}

/// The scheduler's whole state: whether a run is in progress, and whether
/// a rerun is owed once it completes.
#[derive(Clone, Copy, PartialEq, Eq, Structural, Debug)]
pub struct SchedulerState {
    /// A command run is currently in progress.
    pub running: bool,
    /// At least one change arrived while a run was in progress, so one
    /// rerun is owed when it completes.
    pub pending: bool,
}

impl SchedulerState {
    /// The state at startup: idle, with a rerun owed, so that the
    /// synthetic completion injected at startup fires the kickoff run.
    pub open spec fn init_spec() -> SchedulerState {
        SchedulerState { running: false, pending: true }
    }

    /// Whether consuming `m` in this state triggers a run: a change
    /// triggers only while idle, a completion triggers only when a rerun
    /// is owed.
    pub open spec fn fires_spec(self, m: Msg) -> bool {
        match m {
            Msg::PathChanged => !self.running,
            Msg::RunCompleted => self.pending,
        }
    }

    /// The state after consuming `m`. Triggering always leaves the state
    /// running with nothing owed; a change during a run records the owed
    /// rerun; a completion with nothing owed returns to idle.
    pub open spec fn next_spec(self, m: Msg) -> SchedulerState {
        match m {
            Msg::PathChanged => if self.running {
                SchedulerState { running: true, pending: true }
            } else {
                SchedulerState { running: true, pending: false }
            },
            Msg::RunCompleted => if self.pending {
                SchedulerState { running: true, pending: false }
            } else {
                SchedulerState { running: false, pending: false }
            },
        }
    }

    /// The startup state.
    pub fn init() -> (s: SchedulerState)
        ensures
            s == SchedulerState::init_spec(),
    {
        SchedulerState { running: false, pending: true }
    }

    /// Consume one message and report whether it triggers a run. The
    /// caller performs the trigger action itself (debounce sleep, drain,
    /// spawn) whenever this returns true.
    pub fn step(&mut self, m: Msg) -> (fire: bool)
        ensures
            fire == old(self).fires_spec(m),
            *final(self) == old(self).next_spec(m),
    {
        match m {
            Msg::PathChanged => {
                if self.running {
                    self.pending = true;
                    false
                } else {
                    self.running = true;
                    self.pending = false;
                    true
                }
            },
            Msg::RunCompleted => {
                if self.pending {
                    self.running = true;
                    self.pending = false;
                    true
                } else {
                    self.running = false;
                    false
                }
            },
        }
    }
}

/// The state after consuming every message of `msgs`, one at a time, in
/// order, with no drain in between: each message is processed as it
/// arrives.
pub open spec fn state_after(s: SchedulerState, msgs: Seq<Msg>) -> SchedulerState
    decreases msgs.len(),
{
    if msgs.len() == 0 {
        s
    } else {
        state_after(s.next_spec(msgs[0]), msgs.drop_first())
    }
}

/// How many of the messages of `msgs` trigger a run when consumed one at
/// a time, in order, from state `s`.
pub open spec fn fire_count(s: SchedulerState, msgs: Seq<Msg>) -> nat
    decreases msgs.len(),
{
    if msgs.len() == 0 {
        0
    } else {
        (if s.fires_spec(msgs[0]) {
            1nat
        } else {
            0nat
        }) + fire_count(s.next_spec(msgs[0]), msgs.drop_first())
    }
}

/// How many completion messages `msgs` holds.
pub open spec fn completion_count(msgs: Seq<Msg>) -> nat
    decreases msgs.len(),
{
    if msgs.len() == 0 {
        0
    } else {
        (if msgs[0] is RunCompleted {
            1nat
        } else {
            0nat
        }) + completion_count(msgs.drop_first())
    }
}

/// How many runs trigger when the scheduler works through a queue that
/// already holds all of `msgs`: the first trigger empties the rest of the
/// queue, because the trigger action sleeps through the debounce interval
/// and then drains and discards everything still queued.
pub open spec fn drained_fire_count(s: SchedulerState, msgs: Seq<Msg>) -> nat
    decreases msgs.len(),
{
    if msgs.len() == 0 {
        0
    } else if s.fires_spec(msgs[0]) {
        1
    } else {
        drained_fire_count(s.next_spec(msgs[0]), msgs.drop_first())
    }
}

/// After any step, the scheduler is never idle with a rerun owed: a
/// completion that finds a rerun owed triggers it at once. That state
/// exists only at startup, where it makes the synthetic completion fire
/// the kickoff run.
pub proof fn lemma_owed_rerun_never_waits(s: SchedulerState, m: Msg)
    ensures
        s.next_spec(m).pending ==> s.next_spec(m).running,
{
}

/// Consuming a concatenation is consuming its parts in turn.
pub proof fn lemma_state_after_append(s: SchedulerState, a: Seq<Msg>, b: Seq<Msg>)
    ensures
        state_after(s, a + b) == state_after(state_after(s, a), b),
    decreases a.len(),
{
    if a.len() == 0 {
        assert(a + b =~= b);
    } else {
        assert((a + b).drop_first() =~= a.drop_first() + b);
        lemma_state_after_append(s.next_spec(a[0]), a.drop_first(), b);
    }
}

/// Triggers add up over a concatenation, the second part starting from
/// where the first part left the state.
pub proof fn lemma_fire_count_append(s: SchedulerState, a: Seq<Msg>, b: Seq<Msg>)
    ensures
        fire_count(s, a + b) == fire_count(s, a) + fire_count(state_after(s, a), b),
    decreases a.len(),
{
    if a.len() == 0 {
        assert(a + b =~= b);
    } else {
        assert((a + b).drop_first() =~= a.drop_first() + b);
        lemma_fire_count_append(s.next_spec(a[0]), a.drop_first(), b);
    }
}

/// While a run is in progress, path changes alone never trigger: the run
/// stays in progress, no message fires, and all the changes collapse
/// into the single owed-rerun flag.
pub proof fn lemma_no_fire_while_running(s: SchedulerState, msgs: Seq<Msg>)
    requires
        s.running,
        forall|k: int| 0 <= k < msgs.len() ==> msgs[k] is PathChanged,
    ensures
        fire_count(s, msgs) == 0,
        state_after(s, msgs).running,
        state_after(s, msgs).pending == (s.pending || msgs.len() > 0),
    decreases msgs.len(),
{
    if msgs.len() > 0 {
        assert(msgs[0] is PathChanged);
        assert(forall|k: int|
            0 <= k < msgs.drop_first().len() ==> msgs.drop_first()[k] == msgs[k + 1]);
        lemma_no_fire_while_running(s.next_spec(msgs[0]), msgs.drop_first());
    }
}

/// Mutual exclusion: between any two triggers the scheduler consumes a
/// completion, so a new run can only start once the previous one has
/// reported itself finished; two runs are never in progress at once.
pub proof fn lemma_run_serialization(s0: SchedulerState, msgs: Seq<Msg>, i: int, j: int)
    requires
        0 <= i < j < msgs.len(),
        state_after(s0, msgs.take(i)).fires_spec(msgs[i]),
        state_after(s0, msgs.take(j)).fires_spec(msgs[j]),
    ensures
        exists|k: int| i < k <= j && msgs[k] is RunCompleted,
{
    if !(exists|k: int| i < k <= j && msgs[k] is RunCompleted) {
        let si = state_after(s0, msgs.take(i));
        let fired = si.next_spec(msgs[i]);
        assert(fired.running);
        assert(msgs.take(i + 1) =~= msgs.take(i) + seq![msgs[i]]);
        lemma_state_after_append(s0, msgs.take(i), seq![msgs[i]]);
        assert(seq![msgs[i]][0] == msgs[i]);
        assert(seq![msgs[i]].drop_first() =~= Seq::<Msg>::empty());
        assert(state_after(si, seq![msgs[i]]) == state_after(fired, seq![msgs[i]].drop_first()));
        assert(state_after(s0, msgs.take(i + 1)) == fired);
        let mid = msgs.subrange(i + 1, j);
        assert(forall|k: int| 0 <= k < mid.len() ==> mid[k] is PathChanged) by {
            assert forall|k: int| 0 <= k < mid.len() implies mid[k] is PathChanged by {
                assert(mid[k] == msgs[i + 1 + k]);
                assert(!(msgs[i + 1 + k] is RunCompleted));
            }
        }
        assert(msgs.take(j) =~= msgs.take(i + 1) + mid);
        lemma_state_after_append(s0, msgs.take(i + 1), mid);
        lemma_no_fire_while_running(fired, mid);
        assert(state_after(s0, msgs.take(j)).running);
        assert(!(msgs[j] is RunCompleted));
        assert(!state_after(s0, msgs.take(j)).fires_spec(msgs[j]));
    }
}

/// Mutual exclusion, counted: starting from any state with no run in
/// progress, the triggers never outrun the completions consumed by more
/// than the single run in flight.
pub proof fn lemma_fire_count_bound(s: SchedulerState, msgs: Seq<Msg>)
    ensures
        fire_count(s, msgs) <= completion_count(msgs) + (if s.running {
            0int
        } else {
            1int
        }),
    decreases msgs.len(),
{
    if msgs.len() > 0 {
        lemma_fire_count_bound(s.next_spec(msgs[0]), msgs.drop_first());
    }
}

/// Any queue of already-arrived messages triggers at most one run: the
/// first trigger's debounce drain discards the rest of the queue.
pub proof fn lemma_drain_coalesces(s: SchedulerState, msgs: Seq<Msg>)
    ensures
        drained_fire_count(s, msgs) <= 1,
    decreases msgs.len(),
{
    if msgs.len() > 0 && !s.fires_spec(msgs[0]) {
        lemma_drain_coalesces(s.next_spec(msgs[0]), msgs.drop_first());
    }
}

/// A burst of path changes already queued while no run is in progress
/// triggers exactly one run: the first change triggers it, and the
/// debounce drain discards the rest of the burst.
pub proof fn lemma_burst_while_idle(s: SchedulerState, msgs: Seq<Msg>)
    requires
        !s.running,
        msgs.len() >= 1,
        forall|k: int| 0 <= k < msgs.len() ==> msgs[k] is PathChanged,
    ensures
        drained_fire_count(s, msgs) == 1,
{
    assert(msgs[0] is PathChanged);
}

/// Path changes arriving while a run is in progress produce at most one
/// further trigger once it completes, however many they are; and exactly
/// one when at least one change arrived or a rerun was already owed.
pub proof fn lemma_changes_during_run(s: SchedulerState, changes: Seq<Msg>)
    requires
        s.running,
        forall|k: int| 0 <= k < changes.len() ==> changes[k] is PathChanged,
    ensures
        fire_count(s, changes.push(Msg::RunCompleted)) <= 1,
        fire_count(s, changes.push(Msg::RunCompleted)) == (if s.pending || changes.len() > 0 {
            1nat
        } else {
            0nat
        }),
{
    assert(changes.push(Msg::RunCompleted) =~= changes + seq![Msg::RunCompleted]);
    lemma_fire_count_append(s, changes, seq![Msg::RunCompleted]);
    lemma_no_fire_while_running(s, changes);
    let st = state_after(s, changes);
    assert(seq![Msg::RunCompleted][0] == Msg::RunCompleted);
    assert(seq![Msg::RunCompleted].drop_first() =~= Seq::<Msg>::empty());
    assert(fire_count(st, seq![Msg::RunCompleted]) == (if st.pending {
        1nat
    } else {
        0nat
    }) + fire_count(st.next_spec(Msg::RunCompleted), seq![Msg::RunCompleted].drop_first()));
}

/// While nothing is owed, completions alone never trigger and nothing
/// becomes owed.
pub proof fn lemma_completions_settle(s: SchedulerState, msgs: Seq<Msg>)
    requires
        !s.pending,
        forall|k: int| 0 <= k < msgs.len() ==> msgs[k] is RunCompleted,
    ensures
        fire_count(s, msgs) == 0,
        !state_after(s, msgs).pending,
    decreases msgs.len(),
{
    if msgs.len() > 0 {
        assert(msgs[0] is RunCompleted);
        assert(forall|k: int|
            0 <= k < msgs.drop_first().len() ==> msgs.drop_first()[k] == msgs[k + 1]);
        lemma_completions_settle(s.next_spec(msgs[0]), msgs.drop_first());
    }
}

/// The kickoff: at startup, with no file change at all, the messages the
/// scheduler ever sees are completions only — the synthetic one injected
/// at startup and then one per finished run — and exactly one run
/// triggers.
pub proof fn lemma_kickoff(msgs: Seq<Msg>)
    requires
        msgs.len() >= 1,
        forall|k: int| 0 <= k < msgs.len() ==> msgs[k] is RunCompleted,
    ensures
        fire_count(SchedulerState::init_spec(), msgs) == 1,
{
    let s = SchedulerState::init_spec();
    assert(msgs[0] is RunCompleted);
    assert(s.fires_spec(msgs[0]));
    assert(forall|k: int|
        0 <= k < msgs.drop_first().len() ==> msgs.drop_first()[k] == msgs[k + 1]);
    lemma_completions_settle(s.next_spec(msgs[0]), msgs.drop_first());
}

/// Work through a queue of already-arrived messages as the scheduler loop
/// does, draining the remainder on the first trigger, and report how many
/// runs trigger.
pub fn run_queue(s: SchedulerState, msgs: &Vec<Msg>) -> (fires: usize)
    ensures
        fires == drained_fire_count(s, msgs@),
{
    let mut st = s;
    let mut i: usize = 0;
    proof {
        assert(msgs@.skip(0) =~= msgs@);
    }
    while i < msgs.len()
        invariant
            i <= msgs.len(),
            drained_fire_count(s, msgs@) == drained_fire_count(st, msgs@.skip(i as int)),
        decreases msgs.len() - i,
    {
        proof {
            assert(msgs@.skip(i as int)[0] == msgs@[i as int]);
            assert(msgs@.skip(i as int).drop_first() =~= msgs@.skip(i as int + 1));
        }
        let fire = st.step(msgs[i]);
        if fire {
            return 1;
        }
        i = i + 1;
    }
    proof {
        assert(msgs@.skip(i as int).len() == 0);
    }
    0
}

} // verus!
