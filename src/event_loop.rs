use vstd::prelude::*;
use crate::timer::{TimeoutHandle, aborted_handle, takes_effect};

verus! {

/// The number of the timer that stands for the launch at startup: the loop
/// starts as if that timer had been armed, so its timeout runs the program
/// once without waiting for a first change.
pub const STARTUP_TIMER: u64 = 0;

/// What the loop consumes.
#[derive(Clone, Copy, Debug, PartialEq, Eq, Structural)]
pub enum Event {
    /// Something changed under the watched directory.
    FileChanged,
    /// The timer with this number ran out.
    Timeout(u64),
}

/// What the loop asks its surroundings to do after an event.
#[derive(Clone, Copy, Debug, PartialEq, Eq, Structural)]
pub enum Action {
    /// Nothing to do.
    Ignore,
    /// Start a timer numbered `timer` that reports `Event::Timeout(timer)`
    /// after `delay_ms` milliseconds.
    StartTimer { timer: u64, delay_ms: u64 },
    /// Terminate the running child first when `kill_previous` holds and wait
    /// for it to end, then spawn the program again.
    Relaunch { kill_previous: bool },
}

/// The state owned by the loop: at most one pending timer and at most one
/// running child.
#[derive(Clone, Copy, Debug)]
pub struct EventLoop {
    /// The debounce window, in milliseconds.
    pub debounce_ms: u64,
    /// The most recently armed timer, if it has not fired yet.
    pub pending: Option<TimeoutHandle>,
    /// Whether a child process is running.
    pub child_running: bool,
    /// The number the next armed timer gets.
    pub next_timer: u64,
}

impl EventLoop {
    /// Every timer number handed out so far is below `next_timer`.
    pub open spec fn wf(self) -> bool {
        self.pending matches Some(h) ==> h.id < self.next_timer
    }

    /// Whether the loop can take `e`: a change needs a fresh timer number.
    pub open spec fn accepts(self, e: Event) -> bool {
        e is FileChanged ==> self.next_timer < u64::MAX
    }
}

/// The state at startup: no child yet, and the startup timer armed.
pub open spec fn initial(debounce_ms: u64) -> EventLoop {
    EventLoop {
        debounce_ms,
        pending: Some(TimeoutHandle { id: STARTUP_TIMER, aborted: false }),
        child_running: false,
        next_timer: (STARTUP_TIMER + 1) as u64,
    }
}

/// `s` with its pending timer aborted, if it has one.
pub open spec fn cancelled(s: EventLoop) -> EventLoop {
    EventLoop {
        pending: match s.pending {
            Some(h) => Some(aborted_handle(h)),
            None => None,
        },
        ..s
    }
}

/// The transition table of the loop.
///
/// A change aborts the pending timer and arms a fresh one for the debounce
/// window. A timeout from the pending, unaborted timer clears it and relaunches
/// the program, killing the running child first; any other timeout is stale
/// and ignored.
pub open spec fn transition(s: EventLoop, e: Event) -> (EventLoop, Action) {
    match e {
        Event::FileChanged => (
            EventLoop {
                pending: Some(TimeoutHandle { id: s.next_timer, aborted: false }),
                next_timer: (s.next_timer + 1) as u64,
                ..s
            },
            Action::StartTimer { timer: s.next_timer, delay_ms: s.debounce_ms },
        ),
        Event::Timeout(fired) => {
            if s.pending matches Some(h) && takes_effect(h, fired) {
                (
                    EventLoop { pending: None, child_running: true, ..s },
                    Action::Relaunch { kill_previous: s.child_running },
                )
            } else {
                (s, Action::Ignore)
            }
        },
    }
}

impl EventLoop {
    /// The loop at startup, with a debounce window of `debounce_ms`.
    pub fn new(debounce_ms: u64) -> (r: EventLoop)
        ensures
            r == initial(debounce_ms),
            r.wf(),
    {
        EventLoop {
            debounce_ms,
            pending: Some(TimeoutHandle::new(STARTUP_TIMER)),
            child_running: false,
            next_timer: STARTUP_TIMER + 1,
        }
    }

    /// Aborts the pending timer, if there is one.
    pub fn cancel_pending(&mut self)
        requires
            old(self).wf(),
        ensures
            *final(self) == cancelled(*old(self)),
            final(self).wf(),
    {
        if let Some(h) = self.pending.as_mut() {
            h.abort();
        }
    }

    /// Takes one event: updates the state and returns what to do.
    pub fn handle(&mut self, e: Event) -> (a: Action)
        requires
            old(self).wf(),
            old(self).accepts(e),
        ensures
            (*final(self), a) == transition(*old(self), e),
            final(self).wf(),
    {
        match e {
            Event::FileChanged => {
                self.cancel_pending();
                let id = self.next_timer;
                self.pending = Some(TimeoutHandle::new(id));
                self.next_timer = id + 1;
                Action::StartTimer { timer: id, delay_ms: self.debounce_ms }
            },
            Event::Timeout(fired) => {
                let due = match &self.pending {
                    Some(h) => h.fires_on(fired),
                    None => false,
                };
                if due {
                    let kill_previous = self.child_running;
                    self.pending = None;
                    self.child_running = true;
                    Action::Relaunch { kill_previous }
                } else {
                    Action::Ignore
                }
            },
        }
    }
}

} // verus!
