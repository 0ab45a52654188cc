use pulse_telemetry::{build_endpoint, endpoint_url, prepare, Config, ConfigError, Scheme};

fn config(public_key: &str, project_id: &str) -> Config {
    Config {
        public_key: public_key.to_string(),
        project_id: project_id.to_string(),
    }
}

#[test]
fn endpoint_url_follows_template() {
    let c = config("55048a6bbfc14830b3d22b9580b83944", "234");
    assert_eq!(
        endpoint_url(&c),
        "https://55048a6bbfc14830b3d22b9580b83944@pulse.drcode.ai:443/234"
    );
}

#[test]
fn endpoint_url_substitutes_verbatim() {
    let c = config("a:b", "x/y");
    assert_eq!(endpoint_url(&c), "https://a:b@pulse.drcode.ai:443/x/y");
}

#[test]
fn endpoint_parses_into_parts() {
    let c = config("55048a6bbfc14830b3d22b9580b83944", "234");
    let e = build_endpoint(&c).unwrap();
    assert_eq!(e.scheme(), Scheme::Https);
    assert_eq!(e.public_key(), "55048a6bbfc14830b3d22b9580b83944");
    assert_eq!(e.host(), "pulse.drcode.ai");
    assert_eq!(e.port(), 443);
    assert_eq!(e.path(), "/");
    assert_eq!(e.project_id(), "234");
    assert_eq!(e.dsn().host(), "pulse.drcode.ai");
}

#[test]
fn endpoint_without_key_fails_to_parse() {
    let c = config("", "234");
    match build_endpoint(&c) {
        Err(ConfigError::InitializationError(m)) => assert_eq!(m, "username is empty"),
        _ => panic!("expected an initialization error"),
    }
}

#[test]
fn prepare_checks_fields_before_parsing() {
    assert!(matches!(
        prepare(&config("", "234")),
        Err(ConfigError::MissingField(f)) if f == "public_key"
    ));
    assert!(matches!(
        prepare(&config("test_key", "")),
        Err(ConfigError::MissingField(f)) if f == "project_id"
    ));
}

#[test]
fn prepare_builds_endpoint_of_valid_config() {
    let e = prepare(&config("test_key", "test_project")).unwrap();
    assert_eq!(e.public_key(), "test_key");
    assert_eq!(e.project_id(), "test_project");
    assert_eq!(e.host(), "pulse.drcode.ai");
}
