//! The one piece of shared process state: the start instant, captured once
//! at startup and never written again. The value is `Copy`, so every
//! handler reads its own immutable copy and no synchronization is needed.
use vstd::prelude::*;

use crate::valid_second;

verus! {

/// The immutable facts captured at startup.
#[derive(Clone, Copy, Debug)]
pub struct AppStateInner {
    /// The wall-clock second at which the process started.
    pub start_time_second: i64,
}

/// Handle to the shared process state, given to every request handler.
#[derive(Clone, Copy, Debug)]
pub struct AppState {
    pub shared_state: AppStateInner,
}

impl AppState {
    /// The state is well formed when its start instant is one the clock
    /// source can have reported.
    pub open spec fn wf(&self) -> bool {
        valid_second(self.shared_state.start_time_second)
    }

    /// Captures the current wall-clock time once; the returned state is
    /// never mutated afterwards.
    pub fn init() -> (r: AppState)
        ensures
            r.wf(),
    {
        AppState { shared_state: AppStateInner { start_time_second: crate::clock::now_second() } }
    }

    /// The captured start instant.
    pub fn start_time_second(&self) -> (r: i64)
        ensures
            r == self.shared_state.start_time_second,
    {
        self.shared_state.start_time_second
    }

    /// Runtime check of well-formedness, for callers outside verified
    /// code that must establish it before invoking a handler.
    pub fn is_wf(&self) -> (r: bool)
        ensures
            r == self.wf(),
    {
        crate::TIMESTAMP_MIN_SECOND <= self.shared_state.start_time_second
            && self.shared_state.start_time_second <= crate::TIMESTAMP_MAX_SECOND
    }
}

} // verus!
