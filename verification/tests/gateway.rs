use gateway_config::{
    ConfigError, Field, GatewayConfig, RawDocument, RawHeader, RawRule, Request,
};

fn present(text: &str) -> Field<String> {
    Field::Present(text.to_string())
}

fn rule(path: Field<String>, service: &str, port: Field<String>) -> RawRule {
    RawRule {
        host: Field::Absent,
        path,
        header: Field::Absent,
        target_service: present(service),
        target_port: port,
        authentication_required: Field::Absent,
    }
}

fn document(rules: Vec<Field<RawRule>>) -> RawDocument {
    RawDocument { authorization_api_url: present("https://auth.example/check"), rules: Field::Present(rules) }
}

fn at(path: &str) -> Request {
    Request { host: "example.com".to_string(), path: path.to_string(), headers: Vec::new() }
}

#[test]
fn table_keeps_the_rules_in_order() {
    let raw = document(vec![
        Field::Present(rule(present("^/a"), "a", present("1"))),
        Field::Present(rule(present("^/b"), "b", present("2"))),
        Field::Present(rule(Field::Absent, "c", present("3"))),
    ]);
    let config = GatewayConfig::parse(&raw).unwrap();
    assert_eq!(config.authorization_api_url, "https://auth.example/check");
    let services: Vec<&str> = config.rules.iter().map(|r| r.target_service.as_str()).collect();
    assert_eq!(services, vec!["a", "b", "c"]);
    assert_eq!(config.to_raw(), raw);
}

#[test]
fn later_rule_is_found_when_earlier_ones_do_not_match() {
    let raw = document(vec![
        Field::Present(rule(present("^/a"), "a", present("1"))),
        Field::Present(rule(present("^/b"), "b", present("2"))),
        Field::Present(rule(present("^/b/c"), "c", present("3"))),
    ]);
    let config = GatewayConfig::parse(&raw).unwrap();
    assert_eq!(config.first_match_index(&at("/a/x")), Some(0));
    assert_eq!(config.first_match_index(&at("/b/c")), Some(1));
    assert_eq!(config.first_match(&at("/b/c")).unwrap().target_service, "b");
    assert_eq!(config.first_match_index(&at("/c")), None);
    assert!(config.first_match(&at("/c")).is_none());
}

#[test]
fn equal_rules_are_not_merged() {
    let same = rule(present("^/a"), "a", present("1"));
    let raw = document(vec![Field::Present(same.clone()), Field::Present(same)]);
    let config = GatewayConfig::parse(&raw).unwrap();
    assert_eq!(config.rules.len(), 2);
    assert_eq!(config.first_match_index(&at("/a")), Some(0));
}

#[test]
fn first_fault_of_the_list_is_reported() {
    let raw = document(vec![
        Field::Present(rule(Field::Absent, "a", present("1"))),
        Field::Present(rule(Field::Absent, "b", Field::Absent)),
        Field::Present(rule(present("("), "c", present("3"))),
    ]);
    assert_eq!(
        GatewayConfig::parse(&raw).unwrap_err(),
        ConfigError::MissingField { field_name: "target_port".to_string(), rule_index: Some(1) }
    );
    let raw = document(vec![
        Field::Present(rule(present("("), "c", present("3"))),
        Field::Present(rule(Field::Absent, "b", Field::Absent)),
    ]);
    match GatewayConfig::parse(&raw).unwrap_err() {
        ConfigError::InvalidPattern { field_name, text, rule_index, .. } => {
            assert_eq!(field_name, "path");
            assert_eq!(text, "(");
            assert_eq!(rule_index, Some(0));
        }
        other => panic!("unexpected error: {:?}", other),
    }
}

#[test]
fn fault_in_the_last_rule_fails_the_table() {
    let raw = document(vec![
        Field::Present(rule(Field::Absent, "a", present("1"))),
        Field::Present(rule(Field::Absent, "b", present("2"))),
        Field::Present(rule(Field::Absent, "c", present(""))),
    ]);
    assert_eq!(
        GatewayConfig::parse(&raw).unwrap_err(),
        ConfigError::MissingField { field_name: "target_port".to_string(), rule_index: Some(2) }
    );
}

#[test]
fn header_fault_carries_the_rule() {
    let mut faulty = rule(Field::Absent, "a", present("1"));
    faulty.header = Field::Present(RawHeader { name: Field::Absent, value: present("prod") });
    let raw = document(vec![Field::Present(rule(Field::Absent, "z", present("9"))), Field::Present(faulty)]);
    assert_eq!(
        GatewayConfig::parse(&raw).unwrap_err(),
        ConfigError::MissingField { field_name: "name".to_string(), rule_index: Some(1) }
    );
}

#[test]
fn entry_of_the_wrong_kind_is_reported_with_its_place() {
    let raw = document(vec![Field::Present(rule(Field::Absent, "a", present("1"))), Field::Mistyped]);
    assert_eq!(
        GatewayConfig::parse(&raw).unwrap_err(),
        ConfigError::MissingField { field_name: "rules".to_string(), rule_index: Some(1) }
    );
}

#[test]
fn rule_list_must_be_given() {
    let mut raw = document(Vec::new());
    assert!(GatewayConfig::parse(&raw).unwrap().rules.is_empty());
    raw.rules = Field::Absent;
    assert_eq!(
        GatewayConfig::parse(&raw).unwrap_err(),
        ConfigError::MissingField { field_name: "rules".to_string(), rule_index: None }
    );
    raw.rules = Field::Mistyped;
    assert_eq!(
        GatewayConfig::parse(&raw).unwrap_err(),
        ConfigError::MissingField { field_name: "rules".to_string(), rule_index: None }
    );
}

#[test]
fn endpoint_must_be_given() {
    let mut raw = document(Vec::new());
    raw.authorization_api_url = Field::Absent;
    assert_eq!(
        GatewayConfig::parse(&raw).unwrap_err(),
        ConfigError::MissingField { field_name: "authorization_api_url".to_string(), rule_index: None }
    );
    raw.authorization_api_url = present("");
    assert_eq!(
        GatewayConfig::parse(&raw).unwrap_err(),
        ConfigError::MissingField { field_name: "authorization_api_url".to_string(), rule_index: None }
    );
}

fn shareable<T: Send + Sync>(_: &T) -> bool {
    true
}

#[test]
fn table_can_be_read_from_many_places_at_once() {
    let config = GatewayConfig::parse(&document(vec![Field::Present(rule(
        present("^/a"),
        "a",
        present("1"),
    ))]))
    .unwrap();
    assert!(shareable(&config));
    let first = &config;
    let second = &config;
    assert_eq!(first.first_match_index(&at("/a")), second.first_match_index(&at("/a")));
}
