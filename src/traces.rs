use vstd::prelude::*;
use crate::timer::{TimeoutHandle, aborted_handle};
use crate::event_loop::{Action, Event, EventLoop, STARTUP_TIMER, cancelled, initial, transition};

verus! {

/// Every event of `ts` is a timeout.
pub open spec fn all_timeouts(ts: Seq<Event>) -> bool {
    forall|i: int| 0 <= i < ts.len() ==> (#[trigger] ts[i]) is Timeout
}

/// `n` change signals in a row.
pub open spec fn file_changes(n: nat) -> Seq<Event> {
    Seq::new(n, |i: int| Event::FileChanged)
}

/// The state reached from `s` by taking the events of `evs` in order.
pub open spec fn run(s: EventLoop, evs: Seq<Event>) -> EventLoop
    decreases evs.len(),
{
    if evs.len() == 0 {
        s
    } else {
        run(transition(s, evs[0]).0, evs.skip(1))
    }
}

/// How many times the program is relaunched while the events of `evs` are
/// taken from `s`.
pub open spec fn relaunches(s: EventLoop, evs: Seq<Event>) -> nat
    decreases evs.len(),
{
    if evs.len() == 0 {
        0
    } else {
        let step = transition(s, evs[0]);
        (if step.1 is Relaunch { 1nat } else { 0nat }) + relaunches(step.0, evs.skip(1))
    }
}

proof fn lemma_tail_all_timeouts(ts: Seq<Event>)
    requires
        all_timeouts(ts),
        ts.len() > 0,
    ensures
        all_timeouts(ts.skip(1)),
{
    assert forall|i: int| 0 <= i < ts.skip(1).len() implies (#[trigger] ts.skip(1)[i]) is Timeout by {
        assert(ts.skip(1)[i] == ts[i + 1]);
    }
}

proof fn lemma_disarmed_ignores_timeouts(s: EventLoop, ts: Seq<Event>)
    requires
        all_timeouts(ts),
        s.pending matches Some(h) ==> h.aborted,
    ensures
        relaunches(s, ts) == 0,
    decreases ts.len(),
{
    if ts.len() > 0 {
        assert(ts[0] is Timeout);
        assert(transition(s, ts[0]) == (s, Action::Ignore));
        lemma_tail_all_timeouts(ts);
        lemma_disarmed_ignores_timeouts(s, ts.skip(1));
    }
}

proof fn lemma_armed_timeouts(s: EventLoop, ts: Seq<Event>)
    requires
        all_timeouts(ts),
        s.pending is Some,
        !s.pending->0.aborted,
    ensures
        relaunches(s, ts) == if ts.contains(Event::Timeout(s.pending->0.id)) { 1nat } else { 0nat },
    decreases ts.len(),
{
    let x = Event::Timeout(s.pending->0.id);
    if ts.len() > 0 {
        lemma_tail_all_timeouts(ts);
        assert(ts[0] is Timeout);
        if ts[0] == x {
            assert(ts.contains(x));
            lemma_disarmed_ignores_timeouts(transition(s, ts[0]).0, ts.skip(1));
        } else {
            assert(transition(s, ts[0]) == (s, Action::Ignore));
            lemma_armed_timeouts(s, ts.skip(1));
            if ts.contains(x) {
                let i = choose|i: int| 0 <= i < ts.len() && ts[i] == x;
                assert(ts.skip(1)[i - 1] == x);
            }
            if ts.skip(1).contains(x) {
                let j = choose|j: int| 0 <= j < ts.skip(1).len() && ts.skip(1)[j] == x;
                assert(ts[j + 1] == x);
            }
        }
    }
}

proof fn lemma_relaunches_append(s: EventLoop, a: Seq<Event>, b: Seq<Event>)
    ensures
        relaunches(s, a + b) == relaunches(s, a) + relaunches(run(s, a), b),
    decreases a.len(),
{
    if a.len() == 0 {
        assert(a + b =~= b);
    } else {
        assert((a + b)[0] == a[0]);
        assert((a + b).skip(1) =~= a.skip(1) + b);
        lemma_relaunches_append(transition(s, a[0]).0, a.skip(1), b);
    }
}

proof fn lemma_changes_arm_last(s: EventLoop, n: nat)
    requires
        s.wf(),
        n >= 1,
        s.next_timer + n <= u64::MAX,
    ensures
        relaunches(s, file_changes(n)) == 0,
        run(s, file_changes(n)).pending == Some(
            TimeoutHandle { id: (s.next_timer + n - 1) as u64, aborted: false },
        ),
    decreases n,
{
    let next = transition(s, Event::FileChanged).0;
    assert(file_changes(n)[0] == Event::FileChanged);
    assert(file_changes(n).skip(1) =~= file_changes((n - 1) as nat));
    if n > 1 {
        lemma_changes_arm_last(next, (n - 1) as nat);
    }
}

/// At startup, with no change yet, the program is launched exactly once: the
/// startup timeout launches it without killing anything, and no timeout that
/// follows launches it again.
pub proof fn lemma_startup_launches_once(debounce_ms: u64, ts: Seq<Event>)
    requires
        all_timeouts(ts),
    ensures
        transition(initial(debounce_ms), Event::Timeout(STARTUP_TIMER)).1 == (Action::Relaunch {
            kill_previous: false,
        }),
        relaunches(initial(debounce_ms), seq![Event::Timeout(STARTUP_TIMER)] + ts) == 1,
{
    let evs = seq![Event::Timeout(STARTUP_TIMER)] + ts;
    assert(evs[0] == Event::Timeout(STARTUP_TIMER));
    assert(evs.skip(1) =~= ts);
    lemma_disarmed_ignores_timeouts(transition(initial(debounce_ms), evs[0]).0, ts);
}

/// A burst of `n` changes relaunches nothing by itself and leaves armed only
/// the timer of the last change. Whatever timeouts then arrive, the program
/// is relaunched once if the last change's timer reports, and not at all
/// otherwise.
pub proof fn lemma_burst_relaunches_once(s: EventLoop, n: nat, ts: Seq<Event>)
    requires
        s.wf(),
        n >= 1,
        s.next_timer + n <= u64::MAX,
        all_timeouts(ts),
    ensures
        relaunches(s, file_changes(n)) == 0,
        run(s, file_changes(n)).pending == Some(
            TimeoutHandle { id: (s.next_timer + n - 1) as u64, aborted: false },
        ),
        relaunches(s, file_changes(n) + ts) == if ts.contains(
            Event::Timeout((s.next_timer + n - 1) as u64),
        ) {
            1nat
        } else {
            0nat
        },
{
    lemma_changes_arm_last(s, n);
    lemma_relaunches_append(s, file_changes(n), ts);
    lemma_armed_timeouts(run(s, file_changes(n)), ts);
}

/// A change supersedes every timer armed before it: a timeout from any of
/// them, even one already on its way, is ignored afterwards.
pub proof fn lemma_change_supersedes(s: EventLoop, earlier: u64)
    requires
        s.wf(),
        s.accepts(Event::FileChanged),
        earlier < s.next_timer,
    ensures
        ({
            let after = transition(s, Event::FileChanged).0;
            transition(after, Event::Timeout(earlier)) == (after, Action::Ignore)
        }),
{
}

/// A relaunch from a state with a running child always kills that child
/// first, and a child is running afterwards: two runs of the program never
/// overlap.
pub proof fn lemma_relaunch_kills_previous(s: EventLoop, e: Event)
    ensures
        transition(s, e).1 matches Action::Relaunch { kill_previous } ==> kill_previous
            == s.child_running && transition(s, e).0.child_running,
        transition(s, e).1 !is Relaunch ==> transition(s, e).0.child_running == s.child_running,
{
}

/// Aborting a timer twice is aborting it once, and so is cancelling the
/// pending timer of the loop twice.
pub proof fn lemma_abort_idempotent(h: TimeoutHandle, s: EventLoop)
    ensures
        aborted_handle(aborted_handle(h)) == aborted_handle(h),
        cancelled(cancelled(s)) == cancelled(s),
{
}

/// Whatever timeouts arrive, the program is relaunched at most once; after
/// the pending timer is cancelled (once or more), never.
pub proof fn lemma_timeouts_relaunch_at_most_once(s: EventLoop, ts: Seq<Event>)
    requires
        all_timeouts(ts),
    ensures
        relaunches(s, ts) <= 1,
        relaunches(cancelled(s), ts) == 0,
{
    lemma_disarmed_ignores_timeouts(cancelled(s), ts);
    if s.pending matches Some(h) && !h.aborted {
        lemma_armed_timeouts(s, ts);
    } else {
        lemma_disarmed_ignores_timeouts(s, ts);
    }
}

} // verus!
