use watch_and_rerun::event_loop::{Action, Event, EventLoop, STARTUP_TIMER};
use watch_and_rerun::timer::TimeoutHandle;

fn started(debounce_ms: u64) -> EventLoop {
    let mut l = EventLoop::new(debounce_ms);
    assert_eq!(
        l.handle(Event::Timeout(STARTUP_TIMER)),
        Action::Relaunch { kill_previous: false }
    );
    l
}

#[test]
fn startup_launches_once_without_a_change() {
    let mut l = EventLoop::new(250);
    assert!(!l.child_running);
    assert_eq!(
        l.handle(Event::Timeout(STARTUP_TIMER)),
        Action::Relaunch { kill_previous: false }
    );
    assert!(l.child_running);
    assert!(l.pending.is_none());
    assert_eq!(l.handle(Event::Timeout(STARTUP_TIMER)), Action::Ignore);
    assert_eq!(l.handle(Event::Timeout(1)), Action::Ignore);
}

#[test]
fn two_writes_within_the_window_restart_once() {
    // Writes at 0 ms and 50 ms with a 100 ms window: the first timer would
    // fire at 100 ms, the second at 150 ms.
    let mut l = started(100);
    assert_eq!(
        l.handle(Event::FileChanged),
        Action::StartTimer { timer: 1, delay_ms: 100 }
    );
    assert_eq!(
        l.handle(Event::FileChanged),
        Action::StartTimer { timer: 2, delay_ms: 100 }
    );
    assert_eq!(l.handle(Event::Timeout(1)), Action::Ignore);
    assert_eq!(
        l.handle(Event::Timeout(2)),
        Action::Relaunch { kill_previous: true }
    );
    assert_eq!(l.handle(Event::Timeout(2)), Action::Ignore);
}

#[test]
fn burst_restarts_once_from_the_last_change() {
    let mut l = started(30);
    let mut timers = Vec::new();
    for _ in 0..5 {
        match l.handle(Event::FileChanged) {
            Action::StartTimer { timer, delay_ms } => {
                assert_eq!(delay_ms, 30);
                timers.push(timer);
            }
            other => panic!("unexpected {:?}", other),
        }
    }
    assert_eq!(timers, vec![1, 2, 3, 4, 5]);
    let mut restarts = 0;
    for t in &timers {
        if let Action::Relaunch { .. } = l.handle(Event::Timeout(*t)) {
            restarts += 1;
            assert_eq!(*t, 5);
        }
    }
    assert_eq!(restarts, 1);
}

#[test]
fn timeout_already_sent_is_ignored_after_a_change() {
    let mut l = started(100);
    l.handle(Event::FileChanged);
    // Timer 1 fired, but a change arrived before its timeout was taken.
    l.handle(Event::FileChanged);
    assert_eq!(l.handle(Event::Timeout(1)), Action::Ignore);
    assert!(l.pending.is_some());
    assert_eq!(l.pending.unwrap().id, 2);
}

#[test]
fn relaunch_kills_the_running_child_first() {
    let mut l = EventLoop::new(10);
    assert_eq!(
        l.handle(Event::Timeout(STARTUP_TIMER)),
        Action::Relaunch { kill_previous: false }
    );
    for round in 1..4u64 {
        l.handle(Event::FileChanged);
        assert_eq!(
            l.handle(Event::Timeout(round)),
            Action::Relaunch { kill_previous: true }
        );
        assert!(l.child_running);
    }
}

#[test]
fn abort_is_idempotent() {
    let mut h = TimeoutHandle::new(7);
    assert!(h.fires_on(7));
    assert!(!h.fires_on(6));
    h.abort();
    assert!(h.aborted);
    assert_eq!(h.id, 7);
    assert!(!h.fires_on(7));
    h.abort();
    assert!(h.aborted);
    assert_eq!(h.id, 7);
    assert!(!h.fires_on(7));
}

#[test]
fn cancelled_timer_never_relaunches() {
    let mut l = started(50);
    l.handle(Event::FileChanged);
    l.cancel_pending();
    l.cancel_pending();
    l.cancel_pending();
    assert_eq!(l.handle(Event::Timeout(1)), Action::Ignore);
    assert_eq!(l.handle(Event::Timeout(1)), Action::Ignore);
}

#[test]
fn cancel_without_pending_timer_changes_nothing() {
    let mut l = started(50);
    l.cancel_pending();
    assert!(l.pending.is_none());
    assert!(l.child_running);
    assert_eq!(l.next_timer, 1);
}

#[test]
fn uncancelled_timer_relaunches_once() {
    let mut l = started(50);
    l.handle(Event::FileChanged);
    assert_eq!(
        l.handle(Event::Timeout(1)),
        Action::Relaunch { kill_previous: true }
    );
    assert_eq!(l.handle(Event::Timeout(1)), Action::Ignore);
}
