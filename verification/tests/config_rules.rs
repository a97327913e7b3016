use info_service::AppConfig;
use info_service::ConfigError;
use info_service::HostAddr;
use info_service::parse_bool;
use info_service::parse_ipv4;
use info_service::parse_port;

fn host(o1: u8, o2: u8, o3: u8, o4: u8) -> HostAddr {
    HostAddr { o1, o2, o3, o4 }
}

#[test]
fn config_defaults() {
    let r = AppConfig::load(None, None, None).unwrap();
    assert_eq!(r.host, host(0, 0, 0, 0));
    assert_eq!(r.port, 5000);
    assert!(!r.debug);
}

#[test]
fn config_parses_all_settings() {
    let r = AppConfig::load(
        Some("127.0.0.1".to_string()),
        Some("8080".to_string()),
        Some("true".to_string()),
    )
    .unwrap();
    assert_eq!(r.host, host(127, 0, 0, 1));
    assert_eq!(r.port, 8080);
    assert!(r.debug);
}

#[test]
fn config_rejects_bad_host() {
    for bad in ["256.0.0.1", "01.2.3.4", "1.2.3", "1.2.3.4.5", "", "a.b.c.d", "1..2.3"] {
        let r = AppConfig::load(Some(bad.to_string()), None, None);
        assert_eq!(r, Err(ConfigError::InvalidHost), "host {:?}", bad);
    }
}

#[test]
fn config_rejects_bad_port() {
    for bad in ["65536", "+x", "-1", "", "port"] {
        let r = AppConfig::load(None, Some(bad.to_string()), None);
        assert_eq!(r, Err(ConfigError::InvalidPort), "port {:?}", bad);
    }
}

#[test]
fn config_rejects_bad_debug() {
    for bad in ["TRUE", "1", "yes", ""] {
        let r = AppConfig::load(None, None, Some(bad.to_string()));
        assert_eq!(r, Err(ConfigError::InvalidDebug), "debug {:?}", bad);
    }
}

#[test]
fn config_reports_first_bad_setting() {
    let r = AppConfig::load(
        Some("nope".to_string()),
        Some("nope".to_string()),
        Some("nope".to_string()),
    );
    assert_eq!(r, Err(ConfigError::InvalidHost));
    let r = AppConfig::load(
        Some("0.0.0.0".to_string()),
        Some("nope".to_string()),
        Some("nope".to_string()),
    );
    assert_eq!(r, Err(ConfigError::InvalidPort));
}

#[test]
fn port_parser_accepts_standard_grammar() {
    assert_eq!(parse_port("80"), Some(80));
    assert_eq!(parse_port("+80"), Some(80));
    assert_eq!(parse_port("0080"), Some(80));
    assert_eq!(parse_port("0"), Some(0));
    assert_eq!(parse_port("65535"), Some(65535));
}

#[test]
fn port_parser_rejects_everything_else() {
    assert_eq!(parse_port("65536"), None);
    assert_eq!(parse_port("999999999999"), None);
    assert_eq!(parse_port(""), None);
    assert_eq!(parse_port("+"), None);
    assert_eq!(parse_port("-1"), None);
    assert_eq!(parse_port("80a"), None);
    assert_eq!(parse_port(" 80"), None);
}

#[test]
fn ipv4_parser_accepts_addresses() {
    assert_eq!(parse_ipv4("0.0.0.0"), Some(host(0, 0, 0, 0)));
    assert_eq!(parse_ipv4("127.0.0.1"), Some(host(127, 0, 0, 1)));
    assert_eq!(parse_ipv4("255.255.255.255"), Some(host(255, 255, 255, 255)));
    assert_eq!(parse_ipv4("1.22.133.44"), Some(host(1, 22, 133, 44)));
}

#[test]
fn ipv4_parser_rejects_malformed_addresses() {
    assert_eq!(parse_ipv4(""), None);
    assert_eq!(parse_ipv4("1.2.3"), None);
    assert_eq!(parse_ipv4("1.2.3.4.5"), None);
    assert_eq!(parse_ipv4("1.2.3.4."), None);
    assert_eq!(parse_ipv4(".1.2.3"), None);
    assert_eq!(parse_ipv4("1..2.3"), None);
    assert_eq!(parse_ipv4("256.1.1.1"), None);
    assert_eq!(parse_ipv4("1.2.3.04"), None);
    assert_eq!(parse_ipv4("00.0.0.0"), None);
    assert_eq!(parse_ipv4("+1.2.3.4"), None);
    assert_eq!(parse_ipv4("a.b.c.d"), None);
}

#[test]
fn bool_parser_is_strict() {
    assert_eq!(parse_bool("true"), Some(true));
    assert_eq!(parse_bool("false"), Some(false));
    assert_eq!(parse_bool("True"), None);
    assert_eq!(parse_bool("TRUE"), None);
    assert_eq!(parse_bool("1"), None);
    assert_eq!(parse_bool(""), None);
}
