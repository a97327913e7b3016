//! Core of a minimal HTTP info/health service: an immutable process start
//! time shared by all handlers, a health handler reporting liveness and
//! uptime, an info handler composing service, system, runtime and request
//! metadata, and the configuration rules for bind host, port and debug flag.
//!
//! Everything that decides or computes lives here with a contract; the
//! surrounding program only reads the environment, listens on the socket
//! and serializes the responses this library builds.
use vstd::prelude::*;

mod clock;
mod config;
mod health;
mod host;
mod info;
mod numfmt;
mod runtime;
mod state;

pub use config::AppConfig;
pub use config::ConfigError;
pub use config::DEFAULT_PORT;
pub use config::HostAddr;
pub use config::lemma_ipv4_split_unique;
pub use config::parse_bool;
pub use config::parse_ipv4;
pub use config::parse_port;
pub use config::spec_all_digits;
pub use config::spec_debug_setting_ok;
pub use config::spec_dec_value;
pub use config::spec_digit_val;
pub use config::spec_host_setting_ok;
pub use config::spec_ipv4_split;
pub use config::spec_ipv4_value;
pub use config::spec_is_digit;
pub use config::spec_port_digits;
pub use config::spec_port_setting_ok;
pub use config::spec_unspecified_host;
pub use config::spec_valid_ipv4_str;
pub use config::spec_valid_octet;
pub use config::spec_valid_port_str;
pub use config::unspecified_host;
pub use health::HealthResponse;
pub use health::HealthStatus;
pub use health::build_health_response;
pub use health::handle_health;
pub use health::lemma_health_uptime_nonneg;
pub use host::SystemFacts;
pub use host::gather_system_facts;
pub use info::EndpointInfo;
pub use info::InfoResponse;
pub use info::RequestInfo;
pub use info::RuntimeInfo;
pub use info::ServiceInfo;
pub use info::SystemInfo;
pub use info::Timezone;
pub use info::build_info_response;
pub use info::handle_info;
pub use info::spec_endpoints_fixed;
pub use info::spec_service_fixed;
pub use numfmt::spec_dec_digits;
pub use numfmt::spec_dec_signed;
pub use numfmt::spec_digit_char;
pub use runtime::lemma_uptime_monotone;
pub use runtime::spec_trunc_div;
pub use runtime::spec_uptime_human;
pub use runtime::spec_uptime_seconds;
pub use runtime::uptime_human;
pub use runtime::uptime_seconds;
pub use state::AppState;
pub use state::AppStateInner;

verus! {

/// Smallest wall-clock second the clock source can report.
pub const TIMESTAMP_MIN_SECOND: i64 = -377705023201;

/// Largest wall-clock second the clock source can report.
pub const TIMESTAMP_MAX_SECOND: i64 = 253402207200;

/// A wall-clock instant in whole seconds since the Unix epoch, restricted
/// to the range the clock source can represent.
pub open spec fn valid_second(s: i64) -> bool {
    TIMESTAMP_MIN_SECOND <= s <= TIMESTAMP_MAX_SECOND
}

} // verus!
