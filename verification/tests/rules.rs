use gateway_config::{
    ConfigError, Field, Header, PatternField, RawHeader, RawRule, Request, ServiceConfig,
};

fn request(host: &str, path: &str, headers: &[(&str, &str)]) -> Request {
    Request {
        host: host.to_string(),
        path: path.to_string(),
        headers: headers.iter().map(|(n, v)| (n.to_string(), v.to_string())).collect(),
    }
}

fn present(text: &str) -> Field<String> {
    Field::Present(text.to_string())
}

fn bare_rule() -> RawRule {
    RawRule {
        host: Field::Absent,
        path: Field::Absent,
        header: Field::Absent,
        target_service: present("default"),
        target_port: present("80"),
        authentication_required: Field::Absent,
    }
}

fn missing(field_name: &str) -> ConfigError {
    ConfigError::MissingField { field_name: field_name.to_string(), rule_index: None }
}

#[test]
fn header_needs_name_and_value() {
    let h = Header::parse(&RawHeader { name: present("x-env"), value: present("prod") }).unwrap();
    assert_eq!(h, Header { name: "x-env".to_string(), value: "prod".to_string() });
}

#[test]
fn header_without_value_names_value() {
    let r = Header::parse(&RawHeader { name: present("x-env"), value: Field::Absent });
    assert_eq!(r, Err(missing("value")));
}

#[test]
fn header_without_name_names_name() {
    let r = Header::parse(&RawHeader { name: Field::Absent, value: present("prod") });
    assert_eq!(r, Err(missing("name")));
}

#[test]
fn header_without_anything_names_name() {
    let r = Header::parse(&RawHeader { name: Field::Absent, value: Field::Absent });
    assert_eq!(r, Err(missing("name")));
}

#[test]
fn header_with_mistyped_value_names_value() {
    let r = Header::parse(&RawHeader { name: present("x-env"), value: Field::Mistyped });
    assert_eq!(r, Err(missing("value")));
}

#[test]
fn header_may_hold_empty_strings() {
    let h = Header::parse(&RawHeader { name: present(""), value: present("") }).unwrap();
    assert_eq!(h, Header { name: String::new(), value: String::new() });
}

#[test]
fn header_matches_exact_name_and_value() {
    let h = Header { name: "x-env".to_string(), value: "prod".to_string() };
    assert!(h.matches(&request("", "", &[("accept", "*/*"), ("x-env", "prod")]).headers));
    assert!(!h.matches(&request("", "", &[("x-env", "staging")]).headers));
    assert!(!h.matches(&request("", "", &[("x-other", "prod")]).headers));
    assert!(!h.matches(&request("", "", &[]).headers));
}

#[test]
fn header_matching_is_case_sensitive() {
    let h = Header { name: "x-env".to_string(), value: "prod".to_string() };
    assert!(!h.matches(&request("", "", &[("X-Env", "prod")]).headers));
    assert!(!h.matches(&request("", "", &[("x-env", "Prod")]).headers));
}

#[test]
fn header_matches_any_of_repeated_headers() {
    let h = Header { name: "x-env".to_string(), value: "prod".to_string() };
    assert!(h.matches(&request("", "", &[("x-env", "staging"), ("x-env", "prod")]).headers));
}

#[test]
fn header_round_trips_through_its_written_form() {
    let h = Header { name: "x-env".to_string(), value: "prod".to_string() };
    let raw = h.to_raw();
    assert_eq!(raw, RawHeader { name: present("x-env"), value: present("prod") });
    assert_eq!(Header::parse(&raw), Ok(h));
}

#[test]
fn rule_without_matchers_matches_every_request() {
    let rule = ServiceConfig::parse(&bare_rule()).unwrap();
    assert!(rule.host.is_none() && rule.path.is_none() && rule.header.is_none());
    assert!(rule.matches(&request("", "", &[])));
    assert!(rule.matches(&request("example.com", "/api/users", &[("x-env", "prod")])));
    assert!(rule.matches(&request("other.org", "/", &[])));
}

#[test]
fn host_only_rule_goes_by_host_alone() {
    let mut raw = bare_rule();
    raw.host = present("^api\\.example\\.com$");
    let rule = ServiceConfig::parse(&raw).unwrap();
    assert!(rule.matches(&request("api.example.com", "/", &[])));
    assert!(rule.matches(&request("api.example.com", "/deep/path", &[("x-env", "prod")])));
    assert!(!rule.matches(&request("web.example.com", "/", &[])));
    assert!(!rule.matches(&request("web.example.com", "/deep/path", &[("x-env", "prod")])));
}

#[test]
fn rule_needs_every_set_matcher_to_hold() {
    let mut raw = bare_rule();
    raw.host = present("^api\\.");
    raw.path = present("^/v1/");
    raw.header = Field::Present(RawHeader { name: present("x-env"), value: present("prod") });
    let rule = ServiceConfig::parse(&raw).unwrap();
    assert!(rule.matches(&request("api.example.com", "/v1/users", &[("x-env", "prod")])));
    assert!(!rule.matches(&request("web.example.com", "/v1/users", &[("x-env", "prod")])));
    assert!(!rule.matches(&request("api.example.com", "/v2/users", &[("x-env", "prod")])));
    assert!(!rule.matches(&request("api.example.com", "/v1/users", &[("x-env", "dev")])));
    assert!(!rule.matches(&request("api.example.com", "/v1/users", &[])));
}

#[test]
fn rule_keeps_what_was_written() {
    let mut raw = bare_rule();
    raw.path = present("^/api/.*");
    raw.target_service = present("api");
    raw.target_port = present("http-alt");
    raw.authentication_required = Field::Present(false);
    let rule = ServiceConfig::parse(&raw).unwrap();
    assert!(rule.host.is_none());
    assert_eq!(rule.path.as_ref().map(PatternField::to_text), Some("^/api/.*".to_string()));
    assert_eq!(rule.header, None);
    assert_eq!(rule.target_service, "api");
    assert_eq!(rule.target_port, "http-alt");
    assert_eq!(rule.authentication_required, Some(false));
}

#[test]
fn unset_authentication_is_not_false() {
    let unset = ServiceConfig::parse(&bare_rule()).unwrap();
    assert_eq!(unset.authentication_required, None);
    let mut raw = bare_rule();
    raw.authentication_required = Field::Present(false);
    assert_eq!(ServiceConfig::parse(&raw).unwrap().authentication_required, Some(false));
    raw.authentication_required = Field::Present(true);
    assert_eq!(ServiceConfig::parse(&raw).unwrap().authentication_required, Some(true));
}

#[test]
fn rule_without_target_service_is_refused() {
    let mut raw = bare_rule();
    raw.target_service = Field::Absent;
    assert_eq!(ServiceConfig::parse(&raw).unwrap_err(), missing("target_service"));
}

#[test]
fn rule_without_target_port_is_refused() {
    let mut raw = bare_rule();
    raw.target_port = Field::Absent;
    assert_eq!(ServiceConfig::parse(&raw).unwrap_err(), missing("target_port"));
}

#[test]
fn rule_with_empty_target_is_refused() {
    let mut raw = bare_rule();
    raw.target_port = present("");
    assert_eq!(ServiceConfig::parse(&raw).unwrap_err(), missing("target_port"));
    let mut raw = bare_rule();
    raw.target_service = present("");
    assert_eq!(ServiceConfig::parse(&raw).unwrap_err(), missing("target_service"));
}

#[test]
fn rule_with_mistyped_field_is_refused() {
    let mut raw = bare_rule();
    raw.host = Field::Mistyped;
    assert_eq!(ServiceConfig::parse(&raw).unwrap_err(), missing("host"));
    let mut raw = bare_rule();
    raw.header = Field::Mistyped;
    assert_eq!(ServiceConfig::parse(&raw).unwrap_err(), missing("header"));
    let mut raw = bare_rule();
    raw.authentication_required = Field::Mistyped;
    assert_eq!(ServiceConfig::parse(&raw).unwrap_err(), missing("authentication_required"));
    let mut raw = bare_rule();
    raw.target_port = Field::Mistyped;
    assert_eq!(ServiceConfig::parse(&raw).unwrap_err(), missing("target_port"));
}

#[test]
fn rule_reports_its_first_fault() {
    let mut raw = bare_rule();
    raw.host = present("(");
    raw.path = present("[");
    raw.target_port = Field::Absent;
    match ServiceConfig::parse(&raw).unwrap_err() {
        ConfigError::InvalidPattern { field_name, text, .. } => {
            assert_eq!(field_name, "host");
            assert_eq!(text, "(");
        }
        other => panic!("unexpected error: {:?}", other),
    }
    raw.host = Field::Absent;
    match ServiceConfig::parse(&raw).unwrap_err() {
        ConfigError::InvalidPattern { field_name, text, .. } => {
            assert_eq!(field_name, "path");
            assert_eq!(text, "[");
        }
        other => panic!("unexpected error: {:?}", other),
    }
    raw.path = Field::Absent;
    raw.header = Field::Present(RawHeader { name: present("x"), value: Field::Absent });
    assert_eq!(ServiceConfig::parse(&raw).unwrap_err(), missing("value"));
    raw.header = Field::Absent;
    assert_eq!(ServiceConfig::parse(&raw).unwrap_err(), missing("target_port"));
}

#[test]
fn rule_is_written_without_what_is_not_set() {
    let mut raw = bare_rule();
    raw.path = present("^/api/(.*)$");
    let rule = ServiceConfig::parse(&raw).unwrap();
    let written = rule.to_raw();
    assert_eq!(written.host, Field::Absent);
    assert_eq!(written.path, present("^/api/(.*)$"));
    assert_eq!(written.header, Field::Absent);
    assert_eq!(written.authentication_required, Field::Absent);
    assert_eq!(written, raw);
}

#[test]
fn rule_round_trips_through_its_written_form() {
    let raw = RawRule {
        host: present("^(api|www)\\.example\\.com$"),
        path: present("^/v[0-9]+/"),
        header: Field::Present(RawHeader { name: present("x-env"), value: present("prod") }),
        target_service: present("api"),
        target_port: present("8080"),
        authentication_required: Field::Present(true),
    };
    let rule = ServiceConfig::parse(&raw).unwrap();
    assert_eq!(rule.to_raw(), raw);
    let again = ServiceConfig::parse(&rule.to_raw()).unwrap();
    assert_eq!(again.to_raw(), raw);
    assert_eq!(again.target_service, rule.target_service);
    assert_eq!(again.header, rule.header);
}
