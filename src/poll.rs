use vstd::prelude::*;
use crate::status::Status;

verus! {

/// Where the wait for the child stands.
#[derive(Clone, Copy, Debug, PartialEq, Eq, Structural)]
pub enum PollState {
    /// The child is alive as far as the last wait showed.
    Running,
    /// An interrupt was seen and termination of the child was requested.
    Interrupted,
    /// The child is gone: it exited, or it was terminated.
    Exited,
    /// The wait primitive itself failed; the loop is given up.
    Failed,
}

/// What the caller learned since the last step.
#[derive(Clone, Copy, Debug, PartialEq, Eq, Structural)]
pub enum PollEvent {
    /// The bounded wait reported that the child has ended.
    Signaled,
    /// The bounded wait ran out while the child was still alive; the flag
    /// holds the interrupt flag as read right after.
    TimedOut { interrupt_requested: bool },
    /// The bounded wait returned an error rather than a result.
    WaitFailed,
    /// The requested termination was carried out (its own outcome is not
    /// looked at: the tool is shutting down either way).
    Terminated,
}

/// What the caller has to do next.
#[derive(Clone, Copy, Debug, PartialEq, Eq, Structural)]
pub enum PollAction {
    /// Wait on the child again, for one poll interval at most.
    Wait,
    /// Terminate the child with this exit code, then report `Terminated`.
    Terminate { exit_code: u32 },
    /// Read the exit code and elapsed time: the loop is over.
    Report,
    /// Give up with a diagnostic: waiting is no longer possible.
    Abort,
}

/// The state after `e` is seen in state `s`.
pub open spec fn next_state(s: PollState, e: PollEvent) -> PollState {
    match s {
        PollState::Running => match e {
            PollEvent::Signaled => PollState::Exited,
            PollEvent::TimedOut { interrupt_requested } => if interrupt_requested {
                PollState::Interrupted
            } else {
                PollState::Running
            },
            PollEvent::WaitFailed => PollState::Failed,
            PollEvent::Terminated => PollState::Running,
        },
        PollState::Interrupted => PollState::Exited,
        PollState::Exited => PollState::Exited,
        PollState::Failed => PollState::Failed,
    }
}

/// The action asked of the caller when `e` is seen in state `s`.
pub open spec fn poll_action(s: PollState, e: PollEvent) -> PollAction {
    match next_state(s, e) {
        PollState::Running => PollAction::Wait,
        PollState::Interrupted => PollAction::Terminate { exit_code: 1 },
        PollState::Exited => PollAction::Report,
        PollState::Failed => PollAction::Abort,
    }
}

/// The state reached from `s` after the events `es`, in order.
pub open spec fn run_state(s: PollState, es: Seq<PollEvent>) -> PollState
    decreases es.len(),
{
    if es.len() == 0 {
        s
    } else {
        run_state(next_state(s, es[0]), es.drop_first())
    }
}

/// The actions asked for, one per event, when the events `es` are seen from `s`.
pub open spec fn run_actions(s: PollState, es: Seq<PollEvent>) -> Seq<PollAction>
    decreases es.len(),
{
    if es.len() == 0 {
        Seq::empty()
    } else {
        seq![poll_action(s, es[0])] + run_actions(next_state(s, es[0]), es.drop_first())
    }
}

/// How many of `actions` ask for the child to be terminated.
pub open spec fn count_terminations(actions: Seq<PollAction>) -> nat
    decreases actions.len(),
{
    if actions.len() == 0 {
        0
    } else {
        (if actions[0] is Terminate { 1nat } else { 0nat }) + count_terminations(
            actions.drop_first(),
        )
    }
}

proof fn lemma_count_concat(a: Seq<PollAction>, b: Seq<PollAction>)
    ensures
        count_terminations(a + b) == count_terminations(a) + count_terminations(b),
    decreases a.len(),
{
    if a.len() == 0 {
        assert(a + b =~= b);
    } else {
        assert((a + b).drop_first() =~= a.drop_first() + b);
        lemma_count_concat(a.drop_first(), b);
    }
}

proof fn lemma_count_single(a: PollAction)
    ensures
        count_terminations(seq![a]) == (if a is Terminate { 1nat } else { 0nat }),
{
    assert(seq![a].drop_first() =~= Seq::<PollAction>::empty());
    assert(count_terminations(Seq::<PollAction>::empty()) == 0);
}

proof fn lemma_run_actions_len(s: PollState, es: Seq<PollEvent>)
    ensures
        run_actions(s, es).len() == es.len(),
    decreases es.len(),
{
    if es.len() > 0 {
        lemma_run_actions_len(next_state(s, es[0]), es.drop_first());
    }
}

/// Once the poller has left `Running` it never asks for a termination again.
proof fn lemma_no_termination_after_running(s: PollState, es: Seq<PollEvent>)
    requires
        s != PollState::Running,
    ensures
        count_terminations(run_actions(s, es)) == 0,
    decreases es.len(),
{
    if es.len() == 0 {
        assert(count_terminations(Seq::<PollAction>::empty()) == 0);
    } else {
        let rest = run_actions(next_state(s, es[0]), es.drop_first());
        lemma_no_termination_after_running(next_state(s, es[0]), es.drop_first());
        lemma_count_concat(seq![poll_action(s, es[0])], rest);
        lemma_count_single(poll_action(s, es[0]));
    }
}

/// The child is asked to terminate at most once, whatever events come and
/// however often the interrupt flag is found set.
pub proof fn lemma_terminates_at_most_once(s: PollState, es: Seq<PollEvent>)
    ensures
        count_terminations(run_actions(s, es)) <= 1,
    decreases es.len(),
{
    if s != PollState::Running {
        lemma_no_termination_after_running(s, es);
    } else if es.len() == 0 {
        assert(count_terminations(Seq::<PollAction>::empty()) == 0);
    } else {
        let first = seq![poll_action(s, es[0])];
        let rest = run_actions(next_state(s, es[0]), es.drop_first());
        lemma_count_concat(first, rest);
        lemma_count_single(poll_action(s, es[0]));
        if next_state(s, es[0]) == PollState::Running {
            lemma_terminates_at_most_once(PollState::Running, es.drop_first());
        } else {
            lemma_no_termination_after_running(next_state(s, es[0]), es.drop_first());
        }
    }
}

/// While the child keeps running, the first timed-out wait after which the
/// interrupt flag reads set moves the poller to `Interrupted` and asks for the
/// child's termination; the next event, whatever it is, ends the loop with a
/// report.
pub proof fn lemma_interrupt_seen_at_next_timeout(es: Seq<PollEvent>, k: int)
    requires
        0 <= k < es.len(),
        es[k] == (PollEvent::TimedOut { interrupt_requested: true }),
        forall|i: int| 0 <= i < k ==> es[i] == (PollEvent::TimedOut { interrupt_requested: false }),
    ensures
        run_state(PollState::Running, es.take(k)) == PollState::Running,
        run_state(PollState::Running, es.take(k + 1)) == PollState::Interrupted,
        run_actions(PollState::Running, es).len() == es.len(),
        run_actions(PollState::Running, es)[k] == (PollAction::Terminate { exit_code: 1 }),
        k + 1 < es.len() ==> run_actions(PollState::Running, es)[k + 1] == PollAction::Report,
        k + 1 < es.len() ==> run_state(PollState::Running, es.take(k + 2)) == PollState::Exited,
    decreases k,
{
    let s = PollState::Running;
    let tail = es.drop_first();
    lemma_run_actions_len(s, es);
    if k == 0 {
        assert(es.take(0) =~= Seq::<PollEvent>::empty());
        let one = es.take(1);
        assert(one[0] == es[0]);
        assert(one.drop_first() =~= Seq::<PollEvent>::empty());
        assert(run_state(PollState::Interrupted, one.drop_first()) == PollState::Interrupted);
        assert(run_actions(s, es)[0] == poll_action(s, es[0]));
        if 1 < es.len() {
            let two = es.take(2);
            assert(two[0] == es[0]);
            assert(two.drop_first() =~= tail.take(1));
            let t1 = tail.take(1);
            assert(t1.drop_first() =~= Seq::<PollEvent>::empty());
            assert(run_state(PollState::Exited, t1.drop_first()) == PollState::Exited);
            assert(run_state(PollState::Interrupted, t1) == PollState::Exited);
            let ra = run_actions(PollState::Interrupted, tail);
            assert(ra[0] == poll_action(PollState::Interrupted, tail[0]));
            assert(run_actions(s, es)[1] == ra[0]);
        }
    } else {
        assert forall|i: int| 0 <= i < k - 1 implies tail[i] == (PollEvent::TimedOut {
            interrupt_requested: false,
        }) by {
            assert(tail[i] == es[i + 1]);
        }
        lemma_interrupt_seen_at_next_timeout(tail, k - 1);
        assert(es[0] == (PollEvent::TimedOut { interrupt_requested: false }));
        assert(es.take(k)[0] == es[0]);
        assert(es.take(k).drop_first() =~= tail.take(k - 1));
        assert(es.take(k + 1)[0] == es[0]);
        assert(es.take(k + 1).drop_first() =~= tail.take(k));
        let ra = run_actions(s, es);
        assert(ra[k] == run_actions(s, tail)[k - 1]);
        if k + 1 < es.len() {
            assert(es.take(k + 2)[0] == es[0]);
            assert(es.take(k + 2).drop_first() =~= tail.take(k + 1));
            assert(ra[k + 1] == run_actions(s, tail)[k]);
        }
    }
}

/// The wait loop's decisions: fed the outcome of each bounded wait, it says
/// whether to wait again, terminate the child, report, or give up.
pub struct Poller {
    state: PollState,
}

impl Poller {
    pub closed spec fn view_state(&self) -> PollState {
        self.state
    }

    /// A poller for a child that was just launched.
    pub fn new() -> (r: Poller)
        ensures
            r.view_state() == PollState::Running,
    {
        Poller { state: PollState::Running }
    }

    /// Where the wait stands.
    pub fn state(&self) -> (r: PollState)
        ensures
            r == self.view_state(),
    {
        self.state
    }

    /// Whether the loop is over: the caller reports or gives up.
    pub fn is_done(&self) -> (r: bool)
        ensures
            r == (self.view_state() == PollState::Exited || self.view_state()
                == PollState::Failed),
    {
        match self.state {
            PollState::Exited | PollState::Failed => true,
            _ => false,
        }
    }

    /// Takes in what the caller observed and says what to do next.
    pub fn step(&mut self, e: PollEvent) -> (r: PollAction)
        ensures
            final(self).view_state() == next_state(old(self).view_state(), e),
            r == poll_action(old(self).view_state(), e),
    {
        let next = match self.state {
            PollState::Running => match e {
                PollEvent::Signaled => PollState::Exited,
                PollEvent::TimedOut { interrupt_requested } => if interrupt_requested {
                    PollState::Interrupted
                } else {
                    PollState::Running
                },
                PollEvent::WaitFailed => PollState::Failed,
                PollEvent::Terminated => PollState::Running,
            },
            PollState::Interrupted => PollState::Exited,
            PollState::Exited => PollState::Exited,
            PollState::Failed => PollState::Failed,
        };
        self.state = next;
        match next {
            PollState::Running => PollAction::Wait,
            PollState::Interrupted => PollAction::Terminate { exit_code: Status::FAILURE.as_u32() },
            PollState::Exited => PollAction::Report,
            PollState::Failed => PollAction::Abort,
        }
    }
}

} // verus!
