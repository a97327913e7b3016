use info_service::AppState;
use info_service::HealthStatus;
use info_service::SystemFacts;
use info_service::Timezone;
use info_service::build_health_response;
use info_service::build_info_response;
use info_service::handle_health;
use info_service::handle_info;
use info_service::uptime_human;
use info_service::uptime_seconds;

fn facts() -> SystemFacts {
    SystemFacts {
        hostname: Some("box".to_string()),
        platform: Some("Linux".to_string()),
        platform_version: Some("6.1".to_string()),
        architecture: "x86_64".to_string(),
        cpu_count: 8,
    }
}

#[test]
fn health_reports_healthy_and_uptime() {
    let r = build_health_response(1000, 4725);
    assert_eq!(r.status, HealthStatus::Healthy);
    assert_eq!(r.timestamp_second, 4725);
    assert_eq!(r.uptime_seconds, 3725);
}

#[test]
fn health_uptime_zero_at_start() {
    let r = build_health_response(500, 500);
    assert_eq!(r.status, HealthStatus::Healthy);
    assert_eq!(r.uptime_seconds, 0);
}

#[test]
fn health_uptime_never_decreases() {
    let earlier = build_health_response(1000, 2000);
    let later = build_health_response(1000, 3000);
    assert!(earlier.uptime_seconds <= later.uptime_seconds);
}

#[test]
fn live_health_handler() {
    let state = AppState::init();
    let r = handle_health(&state);
    assert_eq!(r.status, HealthStatus::Healthy);
    assert_eq!(
        r.uptime_seconds,
        r.timestamp_second - state.shared_state.start_time_second
    );
    assert!(r.uptime_seconds >= 0);
    assert!(info_service::TIMESTAMP_MIN_SECOND <= r.timestamp_second);
    assert!(r.timestamp_second <= info_service::TIMESTAMP_MAX_SECOND);
}

#[test]
fn wire_labels() {
    assert_eq!(HealthStatus::Healthy.label(), "healthy");
    assert_eq!(Timezone::Utc.label(), "UTC");
}

#[test]
fn uptime_seconds_subtracts() {
    assert_eq!(uptime_seconds(5, 12), 7);
    assert_eq!(uptime_seconds(12, 5), -7);
}

#[test]
fn uptime_human_is_not_normalized() {
    assert_eq!(uptime_human(3725), "1 hours, 62 minutes");
}

#[test]
fn uptime_human_small_values() {
    assert_eq!(uptime_human(0), "0 hours, 0 minutes");
    assert_eq!(uptime_human(59), "0 hours, 0 minutes");
    assert_eq!(uptime_human(60), "0 hours, 1 minutes");
    assert_eq!(uptime_human(7322), "2 hours, 122 minutes");
}

#[test]
fn uptime_human_negative_values() {
    assert_eq!(uptime_human(-3725), "-1 hours, -62 minutes");
    assert_eq!(uptime_human(-59), "0 hours, 0 minutes");
}

#[test]
fn info_echoes_request() {
    let r = build_info_response(
        facts(),
        0,
        3725,
        "127.0.0.1:5173".to_string(),
        "curl/8.0".to_string(),
        "GET".to_string(),
        "/".to_string(),
    );
    assert_eq!(r.request.client_ip, "127.0.0.1:5173");
    assert_eq!(r.request.user_agent, "curl/8.0");
    assert_eq!(r.request.method, "GET");
    assert_eq!(r.request.path, "/");
    assert_eq!(r.runtime.uptime_seconds, 3725);
    assert_eq!(r.runtime.uptime_human, "1 hours, 62 minutes");
    assert_eq!(r.runtime.current_time_second, 3725);
    assert_eq!(r.runtime.timezone, Timezone::Utc);
}

#[test]
fn info_endpoints_fixed() {
    let r = build_info_response(
        facts(),
        10,
        20,
        "[::1]:9000".to_string(),
        "test-agent".to_string(),
        "GET".to_string(),
        "/".to_string(),
    );
    assert_eq!(r.endpoints.len(), 2);
    assert_eq!(r.endpoints[0].path, "/");
    assert_eq!(r.endpoints[0].method, "GET");
    assert_eq!(r.endpoints[0].description, "Service information");
    assert_eq!(r.endpoints[1].path, "/health");
    assert_eq!(r.endpoints[1].method, "GET");
    assert_eq!(r.endpoints[1].description, "Health check");
}

#[test]
fn info_service_block_fixed() {
    let r = build_info_response(
        facts(),
        0,
        0,
        "10.0.0.1:80".to_string(),
        "a".to_string(),
        "GET".to_string(),
        "/".to_string(),
    );
    assert_eq!(r.service.name, "info_service");
    assert_eq!(r.service.version, "0.1.0");
    assert_eq!(r.service.framework, "axum");
    assert_eq!(r.system.rust_version, "1.93");
}

#[test]
fn info_system_facts_pass_through() {
    let r = build_info_response(
        facts(),
        0,
        0,
        "10.0.0.1:80".to_string(),
        "a".to_string(),
        "GET".to_string(),
        "/".to_string(),
    );
    assert_eq!(r.system.hostname, Some("box".to_string()));
    assert_eq!(r.system.platform, Some("Linux".to_string()));
    assert_eq!(r.system.platform_version, Some("6.1".to_string()));
    assert_eq!(r.system.architecture, "x86_64");
    assert_eq!(r.system.cpu_count, 8);
}

#[test]
fn info_facts_may_be_absent() {
    let bare = SystemFacts {
        hostname: None,
        platform: None,
        platform_version: None,
        architecture: "aarch64".to_string(),
        cpu_count: 1,
    };
    let r = build_info_response(
        bare,
        0,
        1,
        "10.0.0.1:80".to_string(),
        "a".to_string(),
        "GET".to_string(),
        "/".to_string(),
    );
    assert_eq!(r.system.hostname, None);
    assert_eq!(r.system.platform, None);
    assert_eq!(r.system.platform_version, None);
}

#[test]
fn live_info_handler() {
    let state = AppState::init();
    let r = handle_info(
        &state,
        "192.168.1.9:41000".to_string(),
        "curl/8.0".to_string(),
        "GET".to_string(),
        "/".to_string(),
    );
    assert_eq!(r.request.client_ip, "192.168.1.9:41000");
    assert_eq!(r.request.user_agent, "curl/8.0");
    assert_eq!(
        r.runtime.uptime_seconds,
        r.runtime.current_time_second - state.shared_state.start_time_second
    );
    assert_eq!(r.runtime.uptime_human, uptime_human(r.runtime.uptime_seconds));
    assert_eq!(r.endpoints.len(), 2);
}
