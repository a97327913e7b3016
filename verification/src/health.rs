//! The health endpoint: a liveness report with status and uptime.
use vstd::prelude::*;

use crate::runtime::spec_uptime_seconds;
use crate::runtime::uptime_seconds;
use crate::state::AppState;
use crate::valid_second;

verus! {

/// Liveness status; a process that can answer at all is healthy, so this
/// has a single variant.
#[derive(Clone, Copy, Debug, PartialEq, Eq, Structural)]
pub enum HealthStatus {
    Healthy,
}

impl HealthStatus {
    /// The wire label of the status, rendered lowercase.
    pub fn label(&self) -> (r: String)
        ensures
            r@ == "healthy"@,
    {
        String::from_str("healthy")
    }
}

/// The health endpoint's payload.
#[derive(Clone, Debug)]
pub struct HealthResponse {
    pub status: HealthStatus,
    /// The wall-clock second at which the response was composed.
    pub timestamp_second: i64,
    /// Whole seconds elapsed since process start.
    pub uptime_seconds: i64,
}

/// Composes the health payload for a given start instant and clock
/// reading: always healthy, stamped with the reading, uptime the elapsed
/// whole seconds.
pub fn build_health_response(start_second: i64, now_second: i64) -> (r: HealthResponse)
    requires
        valid_second(start_second),
        valid_second(now_second),
    ensures
        r.status == HealthStatus::Healthy,
        r.timestamp_second == now_second,
        r.uptime_seconds == spec_uptime_seconds(start_second, now_second),
{
    HealthResponse {
        status: HealthStatus::Healthy,
        timestamp_second: now_second,
        uptime_seconds: uptime_seconds(start_second, now_second),
    }
}

/// Answers the health endpoint: reads the clock and composes the payload.
/// Whatever instant the clock reports, the status is healthy and the
/// uptime is exactly the reported instant minus the start instant.
pub fn handle_health(state: &AppState) -> (r: HealthResponse)
    requires
        state.wf(),
    ensures
        r.status == HealthStatus::Healthy,
        valid_second(r.timestamp_second),
        r.uptime_seconds == spec_uptime_seconds(
            state.shared_state.start_time_second,
            r.timestamp_second,
        ),
{
    let now = crate::clock::now_second();
    build_health_response(state.start_time_second(), now)
}

/// Liveness report invariant: as long as the clock has not moved backwards
/// past the start instant, the reported uptime is never negative.
pub proof fn lemma_health_uptime_nonneg(start_second: i64, now_second: i64)
    requires
        start_second <= now_second,
    ensures
        spec_uptime_seconds(start_second, now_second) >= 0,
{
}

} // verus!
