use gateway_config::{ConfigError, PatternField};

#[test]
fn pattern_keeps_its_text() {
    let p = PatternField::parse("path", "^/api/.*").unwrap();
    assert_eq!(p.to_text(), "^/api/.*");
}

#[test]
fn pattern_text_is_not_normalized() {
    let written = "(?:a|a)b{1,1}  [0-9]";
    let p = PatternField::parse("host", written).unwrap();
    assert_eq!(p.to_text(), written);
}

#[test]
fn pattern_matches_anywhere_in_the_input() {
    let p = PatternField::parse("path", "api").unwrap();
    assert!(p.matches("/v1/api/users"));
    assert!(!p.matches("/v1/web"));
}

#[test]
fn anchored_pattern_matches_from_the_start() {
    let p = PatternField::parse("path", "^/api/.*").unwrap();
    assert!(p.matches("/api/users"));
    assert!(!p.matches("/web"));
    assert!(!p.matches("/v1/api/users"));
}

#[test]
fn pattern_matching_is_case_sensitive() {
    let p = PatternField::parse("host", "^example\\.com$").unwrap();
    assert!(p.matches("example.com"));
    assert!(!p.matches("Example.com"));
}

#[test]
fn empty_pattern_matches_everything() {
    let p = PatternField::parse("host", "").unwrap();
    assert_eq!(p.to_text(), "");
    assert!(p.matches(""));
    assert!(p.matches("anything"));
}

#[test]
fn cloned_pattern_matches_alike() {
    let p = PatternField::parse("path", "^/a+$").unwrap();
    let q = p.clone();
    assert_eq!(q.to_text(), "^/a+$");
    assert!(q.matches("/aaa"));
    assert!(!q.matches("/b"));
}

#[test]
fn unbalanced_group_is_an_invalid_pattern() {
    match PatternField::parse("host", "foo(bar") {
        Err(ConfigError::InvalidPattern { field_name, text, reason, rule_index }) => {
            assert_eq!(field_name, "host");
            assert_eq!(text, "foo(bar");
            assert_eq!(reason, "regex parse error:\n    foo(bar\n       ^\nerror: unclosed group");
            assert_eq!(rule_index, None);
        }
        other => panic!("unexpected outcome: {:?}", other),
    }
}

#[test]
fn unsupported_syntax_is_an_invalid_pattern() {
    match PatternField::parse("path", "a(?=b)") {
        Err(ConfigError::InvalidPattern { field_name, text, rule_index, .. }) => {
            assert_eq!(field_name, "path");
            assert_eq!(text, "a(?=b)");
            assert_eq!(rule_index, None);
        }
        other => panic!("unexpected outcome: {:?}", other),
    }
}

#[test]
fn error_is_marked_with_the_rule() {
    let e = PatternField::parse("host", "[").unwrap_err().at_rule(3);
    match e {
        ConfigError::InvalidPattern { field_name, text, rule_index, .. } => {
            assert_eq!(field_name, "host");
            assert_eq!(text, "[");
            assert_eq!(rule_index, Some(3));
        }
        other => panic!("unexpected error: {:?}", other),
    }
    let m = ConfigError::missing("target_port").at_rule(0);
    assert_eq!(
        m,
        ConfigError::MissingField { field_name: "target_port".to_string(), rule_index: Some(0) }
    );
    let io = ConfigError::Io { reason: "gone".to_string() }.at_rule(1);
    assert_eq!(io, ConfigError::Io { reason: "gone".to_string() });
}
