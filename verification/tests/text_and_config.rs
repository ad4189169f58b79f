use sentiric_tts_gateway::config::{
    AppConfig, ConfigError, ConfigOverrides, PortSetting, PortValue, RawConfig,
};
use sentiric_tts_gateway::text::{
    blank, format_i64, format_u64, same_text, starts_with, text_or, trim_matches_char,
};

fn empty_raw() -> RawConfig {
    RawConfig {
        env: None,
        rust_log: None,
        service_version: None,
        host: None,
        http_port: None,
        grpc_port: None,
        tts_coqui_service_url: None,
        tts_mms_service_url: None,
        tts_omnivoice_service_url: None,
        grpc_tls_ca_path: None,
        tts_gateway_service_cert_path: None,
        tts_gateway_service_key_path: None,
    }
}

fn text(t: &str) -> PortSetting {
    PortSetting::Value(PortValue::Text(t.to_string()))
}

fn no_overrides() -> ConfigOverrides {
    ConfigOverrides { listen_address: None, http_port: None, grpc_port: None, coqui_url: None, mms_url: None }
}

#[test]
fn starts_with_and_same_text() {
    assert!(starts_with("mms:tur", "mms:"));
    assert!(!starts_with("mm", "mms:"));
    assert!(starts_with("abc", ""));
    assert!(same_text("GET", "GET"));
    assert!(!same_text("GET", "POST"));
}

#[test]
fn trim_quotes_at_both_ends() {
    assert_eq!(trim_matches_char("\"hello\"", '"'), "hello");
    assert_eq!(trim_matches_char("\"\"a\"b\"\"", '"'), "a\"b");
    assert_eq!(trim_matches_char("\"\"\"", '"'), "");
    assert_eq!(trim_matches_char("plain", '"'), "plain");
}

#[test]
fn blank_text() {
    assert!(blank(""));
    assert!(blank(" \t\n\u{3000}"));
    assert!(!blank(" x "));
}

#[test]
fn decimal_rendering() {
    assert_eq!(format_u64(0), "0");
    assert_eq!(format_u64(14010), "14010");
    assert_eq!(format_u64(u64::MAX), u64::MAX.to_string());
    assert_eq!(format_i64(-24000), "-24000");
    assert_eq!(format_i64(i64::MIN), i64::MIN.to_string());
    assert_eq!(format_i64(24000), "24000");
}

fn with_http_setting(setting: PortSetting) -> Result<u16, ConfigError> {
    let mut raw = empty_raw();
    raw.http_port = Some(setting);
    AppConfig::resolve(&raw, &no_overrides()).map(|c| c.http_port)
}

fn with_http_port(t: &str) -> Result<u16, ConfigError> {
    with_http_setting(text(t))
}

#[test]
fn port_text_as_the_config_crate_reads_it() {
    for (text, port) in [("14010", 14010u16), ("+80", 80), ("0", 0), ("65535", 65535), ("0000080", 80),
        ("true", 1), ("On", 1), ("YES", 1), ("false", 0), ("OFF", 0), ("No", 0)] {
        assert_eq!(with_http_port(text), Ok(port), "input {:?}", text);
    }
    for text in ["65536", "", "+", "-1", "-0", "12a", " 1", "999999999999999999999", "tru"] {
        assert_eq!(
            with_http_port(text),
            Err(ConfigError::InvalidPort { key: "http_port".to_string(), setting: self::text(text) }),
            "input {:?}",
            text
        );
    }
}

#[test]
fn port_values_of_other_kinds() {
    for (i, port) in [(14010i128, Ok(14010u16)), (0, Ok(0)), (65535, Ok(65535))] {
        assert_eq!(with_http_setting(PortSetting::Value(PortValue::Integer(i))), port);
    }
    for i in [-1i128, 65536, i64::MAX as i128 + 1] {
        let setting = PortSetting::Value(PortValue::Integer(i));
        assert_eq!(
            with_http_setting(setting.clone()),
            Err(ConfigError::InvalidPort { key: "http_port".to_string(), setting })
        );
    }
    assert_eq!(with_http_setting(PortSetting::Value(PortValue::Boolean(true))), Ok(1));
    assert_eq!(with_http_setting(PortSetting::Value(PortValue::Boolean(false))), Ok(0));
    // A fractional number in a file is rounded by the `config` crate.
    let read = config::Value::new(None, 8080.5f64).try_deserialize::<u16>().ok();
    assert_eq!(read, Some(8081));
    assert_eq!(with_http_setting(PortSetting::Converted(read)), Ok(8081));
    assert_eq!(
        with_http_setting(PortSetting::Converted(None)),
        Err(ConfigError::InvalidPort { key: "http_port".to_string(), setting: PortSetting::Converted(None) })
    );
}

#[test]
fn port_round_trip() {
    for p in [0u16, 7, 80, 14011, 65535] {
        assert_eq!(with_http_port(&format_u64(p as u64)), Ok(p));
    }
}

#[test]
fn text_or_fallback() {
    assert_eq!(text_or(&None, "unknown"), "unknown");
    assert_eq!(text_or(&Some("t-1".to_string()), "unknown"), "t-1");
}

#[test]
fn config_defaults() {
    let c = AppConfig::resolve(&empty_raw(), &no_overrides()).unwrap();
    assert_eq!(c.env, "production");
    assert_eq!(c.rust_log, "info,sentiric_tts_gateway=debug");
    assert_eq!(c.service_version, "1.2.2");
    assert_eq!(c.host, "0.0.0.0");
    assert_eq!(c.http_port, 14010);
    assert_eq!(c.grpc_port, 14011);
    assert_eq!(c.tts_coqui_service_url, "https://tts-coqui-service:14031");
    assert_eq!(c.tts_mms_service_url, "https://tts-mms-service:14061");
    assert_eq!(c.grpc_tls_ca_path, "/certs/ca.crt");
    assert_eq!(c.tts_gateway_service_cert_path, "/sentiric-certificates/certs/tts-gateway-service.crt");
    assert_eq!(c.tts_gateway_service_key_path, "/sentiric-certificates/certs/tts-gateway-service.key");
    assert_eq!(c.tts_omnivoice_service_url, None);
    let mut raw = empty_raw();
    raw.tts_omnivoice_service_url = Some("https://tts-omnivoice-service:14071".to_string());
    let c = AppConfig::resolve(&raw, &no_overrides()).unwrap();
    assert_eq!(c.tts_omnivoice_service_url.as_deref(), Some("https://tts-omnivoice-service:14071"));
}

#[test]
fn config_override_precedence() {
    let mut raw = empty_raw();
    raw.host = Some("127.0.0.1".to_string());
    raw.http_port = Some(text("9000"));
    raw.tts_coqui_service_url = Some("https://from-source:1".to_string());
    let over = ConfigOverrides {
        listen_address: Some("10.0.0.1".to_string()),
        http_port: None,
        grpc_port: Some("9001".to_string()),
        coqui_url: Some("https://from-override:2".to_string()),
        mms_url: None,
    };
    let c = AppConfig::resolve(&raw, &over).unwrap();
    assert_eq!(c.host, "10.0.0.1");
    assert_eq!(c.http_port, 9000);
    assert_eq!(c.grpc_port, 9001);
    assert_eq!(c.tts_coqui_service_url, "https://from-override:2");
}

#[test]
fn config_errors() {
    let mut raw = empty_raw();
    raw.http_port = Some(text("http"));
    assert_eq!(
        AppConfig::resolve(&raw, &no_overrides()),
        Err(ConfigError::InvalidPort { key: "http_port".to_string(), setting: text("http") })
    );
    let over = ConfigOverrides { grpc_port: Some("70000".to_string()), ..no_overrides() };
    assert_eq!(
        AppConfig::resolve(&empty_raw(), &over),
        Err(ConfigError::InvalidPort { key: "grpc_port".to_string(), setting: text("70000") })
    );
}
