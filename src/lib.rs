//! A debounce-and-restart controller: file-change signals arm a cancellable
//! timer, and a timer that fires unaborted relaunches the watched program,
//! terminating the previous run first.
use vstd::prelude::*;

pub mod timer;
pub mod event_loop;
pub mod traces;
pub mod target;
