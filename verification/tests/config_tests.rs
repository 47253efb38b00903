use esms_backend::config::{parse_bool, parse_u16, parse_u64, Settings, SettingsError};
use esms_backend::handlers::page_bounds;

#[test]
fn settings_default_values() {
    let settings = Settings::from_strings(None, None, None, None, None, None, None).unwrap();
    assert_eq!(settings.server.host, "0.0.0.0");
    assert_eq!(settings.server.port, 8080);
    assert_eq!(settings.sensor.interval_ms, 1000);
    assert_eq!(settings.fhir.base_url, "http://localhost:8080/api/fhir");
    assert_eq!(settings.fhir.patient_reference, "Patient/esms-monitor-subject");
    assert!(settings.security.jwt_secret.is_none());
    assert!(!settings.security.tls_enabled);
}

#[test]
fn settings_custom_values() {
    let settings = Settings::from_strings(
        Some("127.0.0.1".to_string()),
        Some("3000"),
        Some("500"),
        Some("http://example/fhir".to_string()),
        Some("Patient/x".to_string()),
        Some("jwt-test-value".to_string()),
        Some("true"),
    )
    .unwrap();
    assert_eq!(settings.server.port, 3000);
    assert_eq!(settings.sensor.interval_ms, 500);
    assert_eq!(settings.server.host, "127.0.0.1");
    assert!(settings.security.tls_enabled);
    assert!(settings.security.jwt_secret.is_some());
}

#[test]
fn unparseable_values_are_rejected() {
    let r = Settings::from_strings(None, Some("80a0"), None, None, None, None, None);
    assert_eq!(r.unwrap_err(), SettingsError::ParseError);
    let r = Settings::from_strings(None, None, Some(""), None, None, None, None);
    assert_eq!(r.unwrap_err(), SettingsError::ParseError);
    let r = Settings::from_strings(None, None, None, None, None, None, Some("yes"));
    assert_eq!(r.unwrap_err(), SettingsError::ParseError);
    // A port out of the 16-bit range does not parse.
    let r = Settings::from_strings(None, Some("70000"), None, None, None, None, None);
    assert_eq!(r.unwrap_err(), SettingsError::ParseError);
}

#[test]
fn decimal_parsing_is_exact() {
    assert_eq!(parse_u64("0"), Some(0));
    assert_eq!(parse_u64("8080"), Some(8080));
    assert_eq!(parse_u64("18446744073709551615"), Some(u64::MAX));
    assert_eq!(parse_u64("18446744073709551616"), None);
    assert_eq!(parse_u64(""), None);
    assert_eq!(parse_u64("12 3"), None);
    assert_eq!(parse_u64("-5"), None);
    assert_eq!(parse_u16("65535"), Some(65535));
    assert_eq!(parse_u16("65536"), None);
}

#[test]
fn leading_plus_is_accepted() {
    assert_eq!(parse_u64("+8080"), Some(8080));
    assert_eq!(parse_u64("+0"), Some(0));
    assert_eq!(parse_u64("+"), None);
    assert_eq!(parse_u64("++1"), None);
    assert_eq!(parse_u16("+70000"), None);
    let settings =
        Settings::from_strings(None, Some("+3000"), None, None, None, None, None).unwrap();
    assert_eq!(settings.server.port, 3000);
}

#[test]
fn bool_parsing_is_exact() {
    assert_eq!(parse_bool("true"), Some(true));
    assert_eq!(parse_bool("false"), Some(false));
    assert_eq!(parse_bool("True"), None);
    assert_eq!(parse_bool(""), None);
}

#[test]
fn page_bounds_slice_and_count() {
    let slice = page_bounds(250, 1, 100);
    assert_eq!((slice.start, slice.end, slice.total_pages), (0, 100, 3));
    let slice = page_bounds(250, 3, 100);
    assert_eq!((slice.start, slice.end, slice.total_pages), (200, 250, 3));
    // A page beyond the data is empty.
    let slice = page_bounds(250, 9, 100);
    assert_eq!((slice.start, slice.end), (250, 250));
    // An empty list still reports zero pages.
    let slice = page_bounds(0, 1, 100);
    assert_eq!((slice.start, slice.end, slice.total_pages), (0, 0, 0));
}
