use leukocyte::inspector::denial_response;
use leukocyte::inspector::inspect_body;
use leukocyte::inspector::is_grpc_content_type;
use leukocyte::inspector::inspect_request;
use leukocyte::json::flatten;
use leukocyte::json::JsonValue;
use leukocyte::policy::check_body_paths;
use leukocyte::policy::check_headers;
use leukocyte::policy::needs_body_inspection;
use leukocyte::policy::PolicyConfig;
use leukocyte::policy::ReasonCode;
use leukocyte::policy::Verdict;

fn strings(v: &[&str]) -> Vec<String> {
    v.iter().map(|s| s.to_string()).collect()
}

#[test]
fn flatten_nested_object() {
    let root = JsonValue::Object(vec![(
        "a".to_string(),
        JsonValue::Object(vec![("b".to_string(), JsonValue::Scalar)]),
    )]);
    assert_eq!(flatten(&root, ""), strings(&["a", "a.b"]));
}

#[test]
fn flatten_array_is_transparent() {
    // {"a": [{"b": 1}, {"c": 2}]} yields {"a", "a.b", "a.c"}
    let root = JsonValue::Object(vec![(
        "a".to_string(),
        JsonValue::Array(vec![
            JsonValue::Object(vec![("b".to_string(), JsonValue::Scalar)]),
            JsonValue::Object(vec![("c".to_string(), JsonValue::Scalar)]),
        ]),
    )]);
    assert_eq!(flatten(&root, ""), strings(&["a", "a.b", "a.c"]));
}

#[test]
fn flatten_scalar_and_null_roots_are_empty() {
    assert_eq!(flatten(&JsonValue::Scalar, ""), Vec::<String>::new());
    assert_eq!(
        flatten(&JsonValue::Text("hello".to_string()), ""),
        Vec::<String>::new()
    );
    assert_eq!(
        flatten(&JsonValue::Array(vec![JsonValue::Scalar]), ""),
        Vec::<String>::new()
    );
    assert_eq!(flatten(&JsonValue::Object(vec![]), ""), Vec::<String>::new());
}

#[test]
fn flatten_is_pure() {
    let root = JsonValue::Object(vec![(
        "a".to_string(),
        JsonValue::Array(vec![JsonValue::Object(vec![(
            "b".to_string(),
            JsonValue::Scalar,
        )])]),
    )]);
    let first = flatten(&root, "");
    let second = flatten(&root, "");
    assert_eq!(first, second);
}

#[test]
fn header_suppression_is_case_insensitive() {
    let config = PolicyConfig::with_rules(strings(&["x-secret"]), strings(&[]));
    let headers = vec![("X-Secret".to_string(), "1".to_string())];
    let verdict = check_headers(&headers, &config);
    assert_eq!(
        verdict,
        Verdict::Deny {
            reason: ReasonCode::HeaderSuppressed
        }
    );
    assert_eq!(
        ReasonCode::HeaderSuppressed.defense_type(),
        "methylated-header".to_string()
    );
}

#[test]
fn header_phase_never_consults_allow_list() {
    let config = PolicyConfig::with_rules(strings(&[]), strings(&["a"]));
    let headers = vec![("x-anything".to_string(), "1".to_string())];
    assert_eq!(check_headers(&headers, &config), Verdict::Allow);
}

#[test]
fn config_strings_are_case_folded() {
    let config = PolicyConfig::with_rules(strings(&["X-SECRET"]), strings(&[]));
    let headers = vec![("x-secret".to_string(), "1".to_string())];
    assert_eq!(
        check_headers(&headers, &config),
        Verdict::Deny {
            reason: ReasonCode::HeaderSuppressed
        }
    );
}

#[test]
fn suppression_beats_allow_listing() {
    let config = PolicyConfig::with_rules(strings(&["a.b"]), strings(&["a"]));
    let paths = strings(&["a", "a.b"]);
    assert_eq!(
        check_body_paths(&paths, &config),
        Verdict::Deny {
            reason: ReasonCode::BodyPathSuppressed
        }
    );
}

#[test]
fn empty_allow_list_means_disabled() {
    let config = PolicyConfig::with_rules(strings(&["password"]), strings(&[]));
    let paths = strings(&["user", "profile", "profile.name"]);
    assert_eq!(check_body_paths(&paths, &config), Verdict::Allow);
}

#[test]
fn allow_listing_is_exact_match() {
    let config = PolicyConfig::with_rules(strings(&[]), strings(&["a"]));
    let paths = strings(&["a", "a.b"]);
    let verdict = check_body_paths(&paths, &config);
    assert_eq!(
        verdict,
        Verdict::Deny {
            reason: ReasonCode::BodyPathNotAllowed
        }
    );
    assert_eq!(
        ReasonCode::BodyPathNotAllowed.defense_type(),
        "antigen-rejected".to_string()
    );
}

#[test]
fn malformed_body_fails_open() {
    let config = PolicyConfig::with_rules(strings(&["password"]), strings(&["user"]));
    assert_eq!(inspect_body(b"this is { not json", &config), Verdict::Allow);
    assert_eq!(inspect_body(b"", &config), Verdict::Allow);
}

#[test]
fn body_phase_parses_and_flattens() {
    let config = PolicyConfig::with_rules(strings(&["password"]), strings(&[]));
    let body = br#"{"user": "x", "password": "y"}"#;
    assert_eq!(
        inspect_body(body, &config),
        Verdict::Deny {
            reason: ReasonCode::BodyPathSuppressed
        }
    );
}

#[test]
fn nested_suppression_through_arrays() {
    let config = PolicyConfig::with_rules(strings(&["items.secret"]), strings(&[]));
    let body = br#"{"items": [{"name": "a"}, {"secret": "b"}]}"#;
    assert_eq!(
        inspect_body(body, &config),
        Verdict::Deny {
            reason: ReasonCode::BodyPathSuppressed
        }
    );
}

#[test]
fn config_parsing_defaults_and_rejections() {
    assert!(PolicyConfig::from_config_bytes(b"{}").is_some());
    let c = PolicyConfig::from_config_bytes(b"{}").unwrap();
    assert!(!needs_body_inspection(&c));

    // unknown fields are ignored
    assert!(PolicyConfig::from_config_bytes(br#"{"other": 3}"#).is_some());

    // not an object, or wrongly-typed rule fields: rejected
    assert!(PolicyConfig::from_config_bytes(b"[]").is_none());
    assert!(PolicyConfig::from_config_bytes(b"3").is_none());
    assert!(PolicyConfig::from_config_bytes(br#"{"suppression_paths": "x"}"#).is_none());
    assert!(PolicyConfig::from_config_bytes(br#"{"allow_paths": [1]}"#).is_none());
    assert!(PolicyConfig::from_config_bytes(b"not json at all").is_none());
}

#[test]
fn config_update_is_fail_open() {
    let initial =
        PolicyConfig::from_config_bytes(br#"{"suppression_paths": ["password"]}"#).unwrap();
    // a bad update keeps the active rules
    let kept = initial.apply_update(b"###");
    let paths = strings(&["password"]);
    assert_eq!(
        check_body_paths(&paths, &kept),
        Verdict::Deny {
            reason: ReasonCode::BodyPathSuppressed
        }
    );
    // a good update replaces them wholesale
    let replaced = kept.apply_update(br#"{"suppression_paths": ["token"]}"#);
    assert_eq!(check_body_paths(&paths, &replaced), Verdict::Allow);
}

#[test]
fn needs_body_inspection_when_any_rule_set_is_nonempty() {
    assert!(!needs_body_inspection(&PolicyConfig::empty()));
    assert!(needs_body_inspection(&PolicyConfig::with_rules(
        strings(&["a"]),
        strings(&[])
    )));
    assert!(needs_body_inspection(&PolicyConfig::with_rules(
        strings(&[]),
        strings(&["a"])
    )));
}

#[test]
fn denial_response_conventions() {
    let http = denial_response(ReasonCode::BodyPathSuppressed, false);
    assert_eq!(http.status, 403);
    assert_eq!(http.header_name, "x-leukocyte-defense".to_string());
    assert_eq!(http.header_value, "methylated".to_string());
    assert_eq!(
        http.message,
        "Access Denied: Pathogen Suppressed".to_string()
    );
    assert_eq!(http.grpc_status, None);

    let grpc = denial_response(ReasonCode::HeaderSuppressed, true);
    assert_eq!(grpc.status, 200);
    assert_eq!(grpc.grpc_status, Some(7));
    assert_eq!(grpc.header_value, "methylated-header".to_string());
}

#[test]
fn end_to_end_scenario() {
    let config =
        PolicyConfig::from_config_bytes(br#"{"suppression_paths": ["password"], "allow_paths": []}"#)
            .unwrap();
    let headers = vec![("content-type".to_string(), "application/json".to_string())];
    let body: &[u8] = br#"{"user": "x", "password": "y"}"#;

    let verdict = inspect_request(&headers, Some(body), &config);
    assert_eq!(
        verdict,
        Verdict::Deny {
            reason: ReasonCode::BodyPathSuppressed
        }
    );
    match verdict {
        Verdict::Deny { reason } => {
            let response = denial_response(reason, false);
            assert_eq!(response.status, 403);
            assert_eq!(response.header_name, "x-leukocyte-defense".to_string());
            assert_eq!(response.header_value, "methylated".to_string());
        }
        Verdict::Allow => panic!("expected a denial"),
    }
}

#[test]
fn header_denial_stops_body_inspection() {
    let config = PolicyConfig::with_rules(strings(&["x-secret"]), strings(&[]));
    let headers = vec![("x-secret".to_string(), "1".to_string())];
    // the body alone would be allowed; the header denies first
    let verdict = inspect_request(&headers, Some(br#"{"user": "x"}"#), &config);
    assert_eq!(
        verdict,
        Verdict::Deny {
            reason: ReasonCode::HeaderSuppressed
        }
    );
}

#[test]
fn request_without_body_is_allowed_when_headers_pass() {
    let config = PolicyConfig::with_rules(strings(&["password"]), strings(&[]));
    let headers = vec![("accept".to_string(), "*/*".to_string())];
    assert_eq!(inspect_request(&headers, None, &config), Verdict::Allow);
}

#[test]
fn grpc_content_type_selects_streaming_convention() {
    assert!(is_grpc_content_type("application/grpc"));
    assert!(is_grpc_content_type("application/grpc+proto"));
    assert!(!is_grpc_content_type("application/json"));
    assert!(!is_grpc_content_type(""));
}
