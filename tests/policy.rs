use rust_blossom_server::config::{
    are_mime_types_valid, CdnConfig, Config, DatabaseConfig, TelemetryConfig, TelemetryKind,
};
use rust_blossom_server::mime::{
    are_mime_types_supported, classify, is_mime_type_allowed, is_pubkey_allowed,
    mime_type_or_default,
};
use rust_blossom_server::telemetry::{init_tracing, TracingSetup};
use rust_blossom_server::text::parse_unsigned;
use rust_blossom_server::whitelist::{PubkeyWhitelistMiddleware, WhitelistDecision};
use rust_blossom_server::Action;
use std::str::FromStr;

fn config(allowed: Vec<String>) -> Config {
    Config {
        env: "test".to_string(),
        host: "127.0.0.1".to_string(),
        port: 8080,
        db: DatabaseConfig { path: "db.sqlite".to_string() },
        telemetry: TelemetryConfig {
            kind: TelemetryKind::Disabled,
            uptrace_dsn: String::new(),
            service_name: "blossom".to_string(),
        },
        cdn: CdnConfig {
            base_url: "http://localhost".to_string(),
            whitelisted_pubkeys: Vec::new(),
            max_upload_size_bytes: 100,
            min_upload_size_bytes: 1,
            allowed_mime_types: allowed,
        },
    }
}

#[test]
fn empty_allow_list_admits_every_type() {
    let empty: Vec<String> = Vec::new();
    assert!(is_mime_type_allowed(&empty, "image/jpeg"));
    assert!(is_mime_type_allowed(&empty, "application/octet-stream"));
    assert!(is_mime_type_allowed(&empty, ""));
}

#[test]
fn non_empty_allow_list_admits_exact_matches_only() {
    let list = vec!["image/jpeg".to_string(), "image/png".to_string()];
    assert!(is_mime_type_allowed(&list, "image/png"));
    assert!(!is_mime_type_allowed(&list, "image/gif"));
    assert!(!is_mime_type_allowed(&list, "image/jpe"));
    assert!(!is_mime_type_allowed(&list, "IMAGE/PNG"));
}

#[test]
fn pubkey_allow_list() {
    assert!(is_pubkey_allowed(&Vec::new(), "ab"));
    let list = vec!["ab".to_string()];
    assert!(is_pubkey_allowed(&list, "ab"));
    assert!(!is_pubkey_allowed(&list, "cd"));
}

#[test]
fn whitelist_decisions() {
    let open = PubkeyWhitelistMiddleware::new(Vec::new());
    assert_eq!(open.call(Some("ab")), WhitelistDecision::Forward);
    assert_eq!(open.call(None), WhitelistDecision::MissingPubkey);
    let closed = PubkeyWhitelistMiddleware::new(vec!["ab".to_string()]);
    assert_eq!(closed.call(Some("ab")), WhitelistDecision::Forward);
    assert_eq!(closed.call(Some("cd")), WhitelistDecision::Forbidden);
}

#[test]
fn classify_sniffs_content() {
    assert_eq!(classify(&[0xFF, 0xD8, 0xFF, 0x00]), "image/jpeg");
    assert_eq!(classify(&[0x89, b'P', b'N', b'G', 0x0D, 0x0A, 0x1A, 0x0A]), "image/png");
    assert_eq!(classify(&[1, 2, 3]), "application/octet-stream");
    assert_eq!(classify(&[]), "application/octet-stream");
}

#[test]
fn missing_type_falls_back_to_octet_stream() {
    assert_eq!(mime_type_or_default(None), "application/octet-stream");
    assert_eq!(mime_type_or_default(Some("image/gif".to_string())), "image/gif");
}

#[test]
fn configured_mime_types_must_be_known() {
    assert!(are_mime_types_valid(&config(vec!["image/jpeg".to_string()])));
    assert!(are_mime_types_valid(&config(Vec::new())));
    assert!(!are_mime_types_valid(&config(vec![
        "image/jpeg".to_string(),
        "foo/bar".to_string()
    ])));
    assert!(are_mime_types_supported(&vec!["image/png".to_string()]));
}

#[test]
fn upload_size_bounds() {
    let cfg = config(Vec::new());
    assert!(cfg.cdn.fits_upload_size(1));
    assert!(cfg.cdn.fits_upload_size(100));
    assert!(!cfg.cdn.fits_upload_size(0));
    assert!(!cfg.cdn.fits_upload_size(101));
}

#[test]
fn telemetry_kind_from_name() {
    assert_eq!(TelemetryKind::from("stdout"), TelemetryKind::Stdout);
    assert_eq!(TelemetryKind::from("uptrace"), TelemetryKind::Uptrace);
    assert_eq!(TelemetryKind::from("other"), TelemetryKind::Disabled);
}

#[test]
fn tracing_setup_follows_kind() {
    let setup = |kind| {
        init_tracing(
            "dsn".to_string(),
            "svc".to_string(),
            "prod".to_string(),
            kind,
        )
    };
    match setup(TelemetryKind::Stdout) {
        TracingSetup::Stdout { service_name } => assert_eq!(service_name, "svc"),
        _ => panic!("expected stdout tracing"),
    }
    match setup(TelemetryKind::Uptrace) {
        TracingSetup::Uptrace { dsn, env, service_name } => {
            assert_eq!(dsn, "dsn");
            assert_eq!(env, "prod");
            assert_eq!(service_name, "svc");
        }
        _ => panic!("expected uptrace tracing"),
    }
    assert!(matches!(setup(TelemetryKind::Disabled), TracingSetup::Disabled));
}

#[test]
fn action_names() {
    assert_eq!(Action::parse("upload"), Some(Action::Upload));
    assert_eq!(Action::parse("has"), Some(Action::Has));
    assert_eq!(Action::parse("get"), Some(Action::Get));
    assert_eq!(Action::parse("list"), Some(Action::List));
    assert_eq!(Action::parse("delete"), Some(Action::Delete));
    assert_eq!(Action::parse("Upload"), None);
    assert_eq!(Action::from_str("delete"), Ok(Action::Delete));
    assert_eq!(Action::from_str("upload"), Ok(Action::Upload));
    assert_eq!(Action::from_str("has"), Ok(Action::Has));
    assert_eq!(Action::from_str("get"), Ok(Action::Get));
    assert_eq!(Action::from_str("list"), Ok(Action::List));
    assert_eq!(Action::from_str("put"), Err("invalid enum variant".to_string()));
    assert_eq!(Action::from_str("Upload"), Err("invalid enum variant".to_string()));
    assert_eq!(Action::from_str(""), Err("invalid enum variant".to_string()));
    assert_eq!(Action::from_str("upload "), Err("invalid enum variant".to_string()));
}

#[test]
fn unsigned_numerals() {
    assert_eq!(parse_unsigned("36194", u64::MAX), Some(36194));
    assert_eq!(parse_unsigned("+5", u64::MAX), Some(5));
    assert_eq!(parse_unsigned("007", u64::MAX), Some(7));
    assert_eq!(parse_unsigned("18446744073709551615", u64::MAX), Some(u64::MAX));
    assert_eq!(parse_unsigned("18446744073709551616", u64::MAX), None);
    assert_eq!(parse_unsigned("101", 100), None);
    assert_eq!(parse_unsigned("100", 100), Some(100));
    assert_eq!(parse_unsigned("", u64::MAX), None);
    assert_eq!(parse_unsigned("+", u64::MAX), None);
    assert_eq!(parse_unsigned("-1", u64::MAX), None);
    assert_eq!(parse_unsigned("12a", u64::MAX), None);
    assert_eq!(parse_unsigned(" 1", u64::MAX), None);
}
