//! The info endpoint: service identity, host system facts, runtime uptime
//! and the inbound request's own metadata, composed fresh per request.
use vstd::prelude::*;

use crate::host::SystemFacts;
use crate::host::gather_system_facts;
use crate::runtime::spec_uptime_human;
use crate::runtime::spec_uptime_seconds;
use crate::runtime::uptime_human;
use crate::runtime::uptime_seconds;
use crate::state::AppState;
use crate::valid_second;

verus! {

/// Static identity of the service, known at build time.
#[derive(Clone, Debug)]
pub struct ServiceInfo {
    pub name: String,
    pub version: String,
    pub description: String,
    pub framework: String,
}

/// Host system facts plus the runtime version label.
#[derive(Clone, Debug)]
pub struct SystemInfo {
    pub hostname: Option<String>,
    pub platform: Option<String>,
    pub platform_version: Option<String>,
    pub architecture: String,
    pub cpu_count: usize,
    pub rust_version: String,
}

/// The time zone the service reports in; always UTC.
#[derive(Clone, Copy, Debug, PartialEq, Eq, Structural)]
pub enum Timezone {
    Utc,
}

impl Timezone {
    /// The wire label of the time zone, rendered uppercase.
    pub fn label(&self) -> (r: String)
        ensures
            r@ == "UTC"@,
    {
        String::from_str("UTC")
    }
}

/// Runtime facts at the moment the response is composed.
#[derive(Clone, Debug)]
pub struct RuntimeInfo {
    pub uptime_seconds: i64,
    pub uptime_human: String,
    /// The wall-clock second at which the response was composed.
    pub current_time_second: i64,
    pub timezone: Timezone,
}

/// The inbound request's own metadata, echoed back verbatim.
#[derive(Clone, Debug)]
pub struct RequestInfo {
    pub client_ip: String,
    pub user_agent: String,
    pub method: String,
    pub path: String,
}

/// One row of the static endpoint listing.
#[derive(Clone, Debug)]
pub struct EndpointInfo {
    pub path: String,
    pub method: String,
    pub description: String,
}

/// The info endpoint's payload.
#[derive(Clone, Debug)]
pub struct InfoResponse {
    pub service: ServiceInfo,
    pub system: SystemInfo,
    pub runtime: RuntimeInfo,
    pub request: RequestInfo,
    pub endpoints: Vec<EndpointInfo>,
}

/// The static service identity: every info response carries exactly these.
pub open spec fn spec_service_fixed(s: ServiceInfo) -> bool {
    &&& s.name@ == "info_service"@
    &&& s.version@ == "0.1.0"@
    &&& s.description@ == "Service, system and request information API"@
    &&& s.framework@ == "axum"@
}

/// The static endpoint listing: always exactly two entries, the root info
/// route first and the health route second, both answering GET.
pub open spec fn spec_endpoints_fixed(es: Seq<EndpointInfo>) -> bool {
    &&& es.len() == 2
    &&& es[0].path@ == "/"@
    &&& es[0].method@ == "GET"@
    &&& es[0].description@ == "Service information"@
    &&& es[1].path@ == "/health"@
    &&& es[1].method@ == "GET"@
    &&& es[1].description@ == "Health check"@
}

/// Builds the static service identity block.
fn service_block() -> (r: ServiceInfo)
    ensures
        spec_service_fixed(r),
{
    ServiceInfo {
        name: String::from_str("info_service"),
        version: String::from_str("0.1.0"),
        description: String::from_str("Service, system and request information API"),
        framework: String::from_str("axum"),
    }
}

/// Builds the static endpoint listing.
fn endpoints_block() -> (r: Vec<EndpointInfo>)
    ensures
        spec_endpoints_fixed(r@),
{
    let mut es: Vec<EndpointInfo> = Vec::new();
    es.push(
        EndpointInfo {
            path: String::from_str("/"),
            method: String::from_str("GET"),
            description: String::from_str("Service information"),
        },
    );
    es.push(
        EndpointInfo {
            path: String::from_str("/health"),
            method: String::from_str("GET"),
            description: String::from_str("Health check"),
        },
    );
    es
}

/// Composes the info payload from the gathered host facts, the start
/// instant, a clock reading and the request's metadata. Every field is
/// pinned: the identity and endpoint blocks are the fixed constants, the
/// system block carries the facts through unchanged, the runtime block
/// holds the elapsed whole seconds and their human rendering, and the
/// request block echoes the inputs verbatim.
pub fn build_info_response(
    facts: SystemFacts,
    start_second: i64,
    now_second: i64,
    client_ip: String,
    user_agent: String,
    method: String,
    path: String,
) -> (r: InfoResponse)
    requires
        valid_second(start_second),
        valid_second(now_second),
    ensures
        spec_service_fixed(r.service),
        r.system.hostname == facts.hostname,
        r.system.platform == facts.platform,
        r.system.platform_version == facts.platform_version,
        r.system.architecture == facts.architecture,
        r.system.cpu_count == facts.cpu_count,
        r.system.rust_version@ == "1.93"@,
        r.runtime.uptime_seconds == spec_uptime_seconds(start_second, now_second),
        r.runtime.uptime_human@ == spec_uptime_human(r.runtime.uptime_seconds as int),
        r.runtime.current_time_second == now_second,
        r.runtime.timezone == Timezone::Utc,
        r.request.client_ip == client_ip,
        r.request.user_agent == user_agent,
        r.request.method == method,
        r.request.path == path,
        spec_endpoints_fixed(r.endpoints@),
{
    let uptime = uptime_seconds(start_second, now_second);
    let human = uptime_human(uptime);
    InfoResponse {
        service: service_block(),
        system: SystemInfo {
            hostname: facts.hostname,
            platform: facts.platform,
            platform_version: facts.platform_version,
            architecture: facts.architecture,
            cpu_count: facts.cpu_count,
            rust_version: String::from_str("1.93"),
        },
        runtime: RuntimeInfo {
            uptime_seconds: uptime,
            uptime_human: human,
            current_time_second: now_second,
            timezone: Timezone::Utc,
        },
        request: RequestInfo { client_ip, user_agent, method, path },
        endpoints: endpoints_block(),
    }
}

/// Answers the info endpoint: reads the clock, queries the host facts and
/// composes the payload. The host facts and the clock are ambient, so the
/// contract states what holds of every outcome: the identity and endpoint
/// blocks are fixed, the request metadata is echoed verbatim, and the
/// uptime is exactly the stamped instant minus the start instant, with its
/// rendering derived from it.
pub fn handle_info(
    state: &AppState,
    client_ip: String,
    user_agent: String,
    method: String,
    path: String,
) -> (r: InfoResponse)
    requires
        state.wf(),
    ensures
        spec_service_fixed(r.service),
        r.system.rust_version@ == "1.93"@,
        valid_second(r.runtime.current_time_second),
        r.runtime.uptime_seconds == spec_uptime_seconds(
            state.shared_state.start_time_second,
            r.runtime.current_time_second,
        ),
        r.runtime.uptime_human@ == spec_uptime_human(r.runtime.uptime_seconds as int),
        r.runtime.timezone == Timezone::Utc,
        r.request.client_ip == client_ip,
        r.request.user_agent == user_agent,
        r.request.method == method,
        r.request.path == path,
        spec_endpoints_fixed(r.endpoints@),
{
    let now = crate::clock::now_second();
    let facts = gather_system_facts();
    build_info_response(
        facts,
        state.start_time_second(),
        now,
        client_ip,
        user_agent,
        method,
        path,
    )
}

} // verus!
