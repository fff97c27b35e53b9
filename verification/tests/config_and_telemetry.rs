use rust_web_starter::config::{parse_allowed_origins, parse_log_format, Config, ConfigError, LogFormat};
use rust_web_starter::db::{database_dir, resolve_database_url, Backend};
use rust_web_starter::telemetry::{cors_policy, CorsPolicy, RequestSpan, REQUEST_ID_HEADER};
use rust_web_starter::text::trim;

#[test]
fn unset_variables_take_their_defaults() {
    let config = Config::from_vars(None, None, None, None).unwrap();
    assert_eq!(config.database_url, "sqlite://data/dev.db");
    assert_eq!(config.bind_addr, "0.0.0.0:4563");
    assert!(config.allowed_origins.is_empty());
    assert_eq!(config.log_format, LogFormat::Pretty);
}

#[test]
fn set_variables_are_used() {
    let config = Config::from_vars(
        Some("postgres://db/app".to_string()),
        Some("127.0.0.1:8080".to_string()),
        Some(" https://a.example , ,https://b.example,".to_string()),
        Some("json".to_string()),
    )
    .unwrap();
    assert_eq!(config.database_url, "postgres://db/app");
    assert_eq!(config.bind_addr, "127.0.0.1:8080");
    assert_eq!(config.allowed_origins, vec!["https://a.example", "https://b.example"]);
    assert_eq!(config.log_format, LogFormat::Json);
}

#[test]
fn unknown_log_format_is_refused_with_its_value() {
    match Config::from_vars(None, None, None, Some("yaml".to_string())) {
        Err(ConfigError::InvalidLogFormat(v)) => assert_eq!(v, "yaml"),
        other => panic!("unexpected {:?}", other),
    }
    assert!(parse_log_format("Pretty").is_err());
    let err = Config::from_vars(None, None, None, Some("JSON".to_string())).unwrap_err();
    assert_eq!(err.describe(), "invalid LOG_FORMAT \"JSON\": expected \"pretty\" or \"json\"");
    let err = parse_log_format("say \"hi\"\n").unwrap_err();
    assert_eq!(
        err.describe(),
        "invalid LOG_FORMAT \"say \\\"hi\\\"\\n\": expected \"pretty\" or \"json\""
    );
    assert!(parse_log_format(" json").is_err());
    assert_eq!(parse_log_format("pretty").unwrap(), LogFormat::Pretty);
}

#[test]
fn empty_origin_list_allows_nothing() {
    assert!(parse_allowed_origins("").is_empty());
    assert!(parse_allowed_origins(" , ,, ").is_empty());
    assert!(matches!(cors_policy(&Vec::new()), CorsPolicy::NoOrigins));
}

#[test]
fn origin_list_round_trips() {
    let origins = vec!["https://a.example".to_string(), "http://localhost:3000".to_string()];
    let joined = origins.join(",");
    assert_eq!(parse_allowed_origins(&joined), origins);
}

#[test]
fn cors_keeps_valid_origins_and_sets_aside_the_others() {
    let configured = vec![
        "https://a.example".to_string(),
        "https://bad\u{7f}.example".to_string(),
        "https://b.example".to_string(),
        "tab\tis fine".to_string(),
        "line\nbreak".to_string(),
    ];
    match cors_policy(&configured) {
        CorsPolicy::AllowList { origins, ignored } => {
            assert_eq!(origins, vec!["https://a.example", "https://b.example", "tab\tis fine"]);
            assert_eq!(ignored, vec!["https://bad\u{7f}.example", "line\nbreak"]);
        }
        CorsPolicy::NoOrigins => panic!("origins were configured"),
    }
}

#[test]
fn caller_supplied_request_id_is_kept() {
    assert_eq!(REQUEST_ID_HEADER, "x-request-id");
    assert_eq!(RequestSpan::request_id(Some(b"caller-supplied-id")), "caller-supplied-id");
}

#[test]
fn unreadable_or_missing_request_id_is_empty() {
    assert_eq!(RequestSpan::request_id(None), "");
    assert_eq!(RequestSpan::request_id(Some(b"caf\xc3\xa9")), "");
    assert_eq!(RequestSpan::request_id(Some(b"a\x7fb")), "");
    assert_eq!(RequestSpan::request_id(Some(b"with\ttab")), "with\ttab");
}

#[test]
fn sqlite_scheme_is_taken_off() {
    assert_eq!(resolve_database_url(Backend::Sqlite, "sqlite://data/dev.db"), "data/dev.db");
    assert_eq!(resolve_database_url(Backend::Sqlite, "data/dev.db"), "data/dev.db");
    assert_eq!(resolve_database_url(Backend::Sqlite, "sqlite:/x.db"), "sqlite:/x.db");
    assert_eq!(resolve_database_url(Backend::Sqlite, "sqlite://"), "");
    assert_eq!(
        resolve_database_url(Backend::Postgres, "postgres://u@h/db"),
        "postgres://u@h/db"
    );
}

#[test]
fn trim_follows_unicode_white_space() {
    assert_eq!(trim("  a b \t"), "a b");
    assert_eq!(trim("\u{a0}\u{2003}x\u{3000}"), "x");
    assert_eq!(trim("\u{200b}x"), "\u{200b}x");
    assert_eq!(trim("   "), "");
}

#[test]
fn non_ascii_origin_is_a_valid_header_value() {
    let configured = vec!["https://café.example".to_string()];
    match cors_policy(&configured) {
        CorsPolicy::AllowList { origins, ignored } => {
            assert_eq!(origins, vec!["https://café.example"]);
            assert!(ignored.is_empty());
        }
        CorsPolicy::NoOrigins => panic!("an origin was configured"),
    }
}

#[test]
fn every_configured_origin_lands_on_one_side() {
    let configured: Vec<String> = vec!["a", "b\u{1}", "c", "", "d\re"]
        .into_iter()
        .map(String::from)
        .collect();
    match cors_policy(&configured) {
        CorsPolicy::AllowList { origins, ignored } => {
            assert_eq!(origins.len() + ignored.len(), configured.len());
            assert_eq!(origins, vec!["a", "c", ""]);
            assert_eq!(ignored, vec!["b\u{1}", "d\re"]);
        }
        CorsPolicy::NoOrigins => panic!("origins were configured"),
    }
}

#[test]
fn trimming_twice_changes_nothing() {
    for s in ["  x  ", "\u{2028}a b\u{2029}", "", "plain"] {
        let once = trim(s);
        assert_eq!(trim(&once), once);
    }
}

#[test]
fn listed_origins_are_clean() {
    for origin in parse_allowed_origins("  a ,b,, c d ,\t") {
        assert!(!origin.is_empty());
        assert_eq!(trim(&origin), origin);
        assert!(!origin.contains(','));
    }
    assert_eq!(parse_allowed_origins("  a ,b,, c d ,\t"), vec!["a", "b", "c d"]);
}

#[test]
fn database_directory_is_the_files_parent() {
    assert_eq!(database_dir("data/dev.db").as_deref(), Some("data"));
    assert_eq!(database_dir("/var/lib/app/todo.db").as_deref(), Some("/var/lib/app"));
    assert_eq!(database_dir("dev.db"), None);
    assert_eq!(database_dir(""), None);
    assert_eq!(database_dir("/"), None);
    assert_eq!(database_dir("/x.db").as_deref(), Some("/"));
}
