use romm_tui::json::JsonValue;
use romm_tui::openapi::{
    encode_path_value, heartbeat_rom_version, is_openapi_operation_method,
    openapi_cache_needs_write, parse_openapi_info_version, parse_parameters_array,
    resolve_path_template, EndpointRegistry, OpenApiError,
};

fn conv(v: &serde_json::Value) -> JsonValue {
    match v {
        serde_json::Value::Null => JsonValue::Null,
        serde_json::Value::Bool(b) => JsonValue::Bool(*b),
        serde_json::Value::Number(n) => JsonValue::Number(n.to_string()),
        serde_json::Value::String(s) => JsonValue::Str(s.clone()),
        serde_json::Value::Array(a) => JsonValue::Array(a.iter().map(conv).collect()),
        serde_json::Value::Object(m) => {
            JsonValue::Object(m.iter().map(|(k, v)| (k.clone(), conv(v))).collect())
        }
    }
}

fn parse(text: &str) -> JsonValue {
    conv(&serde_json::from_str::<serde_json::Value>(text).expect("json"))
}

fn registry(text: &str) -> Result<EndpointRegistry, OpenApiError> {
    EndpointRegistry::from_openapi_json(text)
}

#[test]
fn skips_path_item_parameters_key_as_operation() {
    let json = r#"{
        "openapi": "3.0.0",
        "paths": {
            "/api/foo/{id}": {
                "parameters": [
                    {
                        "name": "id",
                        "in": "path",
                        "required": true,
                        "schema": { "type": "string" }
                    }
                ],
                "summary": "path summary",
                "get": {
                    "summary": "get foo",
                    "responses": { "200": { "description": "ok" } }
                }
            }
        }
    }"#;

    let reg = registry(json).expect("parse");
    assert_eq!(reg.endpoints.len(), 1);
    let ep = &reg.endpoints[0];
    assert_eq!(ep.method, "GET");
    assert_eq!(ep.path, "/api/foo/{id}");
    assert_eq!(ep.path_params.len(), 1);
    assert_eq!(ep.path_params[0].name, "id");
}

#[test]
fn operation_parameters_override_path_level_same_name() {
    let json = r#"{
        "openapi": "3.0.0",
        "paths": {
            "/x": {
                "parameters": [
                    {
                        "name": "q",
                        "in": "query",
                        "required": false,
                        "schema": { "type": "string", "default": "base" }
                    }
                ],
                "get": {
                    "parameters": [
                        {
                            "name": "q",
                            "in": "query",
                            "required": true,
                            "schema": { "type": "string", "default": "op" }
                        }
                    ],
                    "responses": { "200": { "description": "ok" } }
                }
            }
        }
    }"#;

    let reg = registry(json).expect("parse");
    assert_eq!(reg.endpoints[0].query_params.len(), 1);
    assert_eq!(
        reg.endpoints[0].query_params[0].default.as_deref(),
        Some("op")
    );
    assert!(reg.endpoints[0].query_params[0].required);
}

#[test]
fn is_openapi_operation_method_cases() {
    assert!(is_openapi_operation_method("get"));
    assert!(is_openapi_operation_method("GET"));
    assert!(!is_openapi_operation_method("parameters"));
    assert!(!is_openapi_operation_method("summary"));
}

#[test]
fn resolve_path_template_substitutes_and_encodes() {
    let p = resolve_path_template("/api/roms/{id}/files", &[("id".into(), "42".into())])
        .expect("ok");
    assert_eq!(p, "/api/roms/42/files");
}

#[test]
fn resolve_path_template_errors_on_missing_placeholder() {
    let e = resolve_path_template("/api/{x}", &[]).unwrap_err();
    assert!(e.message().contains("unresolved"));
}

#[test]
fn resolve_path_template_encodes_reserved_and_unicode() {
    let p = resolve_path_template(
        "/a/{n}/{n}",
        &[("n".into(), "a b/{é}%".into())],
    )
    .expect("ok");
    assert_eq!(p, "/a/a%20b%2F%7B%C3%A9%7D%25/a%20b%2F%7B%C3%A9%7D%25");
    let enc: String = encode_path_value("x?y#z").into_iter().collect();
    assert_eq!(enc, "x%3Fy%23z");
}

#[test]
fn parses_info_version() {
    let j = r#"{"openapi":"3.0.0","info":{"version":"1.2.3"},"paths":{}}"#;
    let doc = serde_json::from_str::<serde_json::Value>(j).ok().map(|v| conv(&v));
    assert_eq!(parse_openapi_info_version(doc.as_ref()), Some("1.2.3".to_string()));
    assert_eq!(parse_openapi_info_version(None), None);
}

#[test]
fn heartbeat_version_and_cache_decision() {
    let hb = parse(r#"{"SYSTEM":{"VERSION":"4.1.0"}}"#);
    assert_eq!(heartbeat_rom_version(&hb), Some("4.1.0".to_string()));
    assert!(openapi_cache_needs_write(false, &Some("1".into()), &Some("1".into())));
    assert!(!openapi_cache_needs_write(true, &Some("1".into()), &Some("1".into())));
    assert!(openapi_cache_needs_write(true, &None, &Some("1".into())));
}

#[test]
fn endpoints_are_sorted_by_path_then_method_and_errors_reported() {
    let json = r#"{"paths":{
        "/b": {"post": {"tags": ["B", 3]}, "get": {"requestBody": {}}},
        "/a": {"delete": {"summary": "Remove A"}}
    }}"#;
    let reg = registry(json).expect("parse");
    let keys: Vec<(String, String)> = reg
        .endpoints
        .iter()
        .map(|e| (e.path.clone(), e.method.clone()))
        .collect();
    assert_eq!(
        keys,
        vec![
            ("/a".to_string(), "DELETE".to_string()),
            ("/b".to_string(), "GET".to_string()),
            ("/b".to_string(), "POST".to_string()),
        ]
    );
    assert!(reg.endpoints[1].has_body);
    assert_eq!(reg.endpoints[2].tags, vec!["B".to_string()]);
    assert_eq!(reg.search("remove").len(), 1);
    assert_eq!(reg.get_by_tag("B").len(), 1);
    assert_eq!(reg.get_by_path_prefix("/b").len(), 2);

    assert!(matches!(registry(r#"{"openapi":"3"}"#), Err(OpenApiError::MissingPaths)));
    assert!(matches!(
        registry(r#"{"paths":{"/x": 1}}"#),
        Err(OpenApiError::InvalidPath(_))
    ));
    assert!(matches!(
        registry(r#"{"paths":{"/x": {"get": 2}}}"#),
        Err(OpenApiError::InvalidOperation { .. })
    ));
}

#[test]
fn parameters_split_by_location_with_non_string_defaults() {
    let params = parse(
        r##"[
        {"name":"limit","in":"query","schema":{"type":"integer","default":50}},
        {"name":"id","in":"path","required":true},
        {"name":"h","in":"header"},
        {"$ref":"#/components/parameters/x"},
        {"name":"opts","schema":{"default":{"a":[true,null]}}}
    ]"##,
    );
    let items = match params {
        JsonValue::Array(items) => items,
        _ => unreachable!(),
    };
    let (q, p) = parse_parameters_array(&items);
    assert_eq!(q.len(), 2);
    assert_eq!(q[0].param_type, "integer");
    assert_eq!(q[0].default.as_deref(), Some("50"));
    assert_eq!(q[1].default.as_deref(), Some(r#"{"a":[true,null]}"#));
    assert_eq!(q[1].param_type, "string");
    assert_eq!(p.len(), 1);
    assert!(p[0].required);
}

#[test]
fn json_text_parse_matches_value_parse_and_reports_errors() {
    let doc = r#"{"paths": {"/api/roms/{id}": {"get": {"tags": ["roms"], "summary": "One ROM",
        "parameters": [{"name": "id", "in": "path", "required": true, "schema": {"type": "integer"}},
        {"name": "limit", "in": "query", "schema": {"type": "integer", "default": 5}}]},
        "post": {"requestBody": {}}}, "/api/a": {"delete": {}}}}"#;
    let from_text = EndpointRegistry::from_openapi_json(doc).expect("parse");
    let from_value = EndpointRegistry::from_openapi_value(&parse(doc)).expect("value");
    let key = |r: &EndpointRegistry| {
        r.endpoints
            .iter()
            .map(|e| (e.method.clone(), e.path.clone(), e.path_params.len(), e.query_params.len(), e.has_body))
            .collect::<Vec<_>>()
    };
    assert_eq!(key(&from_text), key(&from_value));
    assert_eq!(from_text.endpoints.len(), 3);
    assert_eq!(from_text.endpoints[0].path, "/api/a");
    assert_eq!(from_text.endpoints[1].query_params[0].default.as_deref(), Some("5"));
    match EndpointRegistry::from_openapi_json("{not json") {
        Err(e) => {
            let msg = e.message();
            assert!(msg.starts_with("Failed to parse OpenAPI JSON: "), "{msg}");
            assert!(msg.len() > "Failed to parse OpenAPI JSON: ".len());
        }
        Ok(_) => panic!("expected a parse error"),
    }
    assert!(matches!(EndpointRegistry::from_openapi_json("[]"), Err(OpenApiError::MissingPaths)));
}
