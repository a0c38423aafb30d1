use vstd::prelude::*;

verus! {

/// A handle on one scheduled timeout.
///
/// The timer behind it reports back with its `id`; once the handle is
/// aborted that report no longer has any effect.
#[derive(Clone, Copy, Debug)]
pub struct TimeoutHandle {
    pub id: u64,
    pub aborted: bool,
}

/// The handle `h` after an abort.
pub open spec fn aborted_handle(h: TimeoutHandle) -> TimeoutHandle {
    TimeoutHandle { aborted: true, ..h }
}

/// Whether a timeout reported by timer `fired` takes effect through `h`.
pub open spec fn takes_effect(h: TimeoutHandle, fired: u64) -> bool {
    h.id == fired && !h.aborted
}

impl TimeoutHandle {
    /// A live handle on the timer numbered `id`.
    pub fn new(id: u64) -> (r: TimeoutHandle)
        ensures
            r.id == id,
            !r.aborted,
    {
        TimeoutHandle { id, aborted: false }
    }

    /// Aborts the timer: a later report from it has no effect.
    /// Aborting again changes nothing.
    pub fn abort(&mut self)
        ensures
            *final(self) == aborted_handle(*old(self)),
    {
        self.aborted = true;
    }

    /// Whether a timeout reported by timer `fired` takes effect through this
    /// handle.
    pub fn fires_on(&self, fired: u64) -> (r: bool)
        ensures
            r == takes_effect(*self, fired),
    {
        self.id == fired && !self.aborted
    }
}

} // verus!
