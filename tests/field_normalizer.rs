use client_core::field_normalizer::{denormalize_json, denormalize_key, normalize_json, normalize_key, Json};

fn s(v: &str) -> Json {
    Json::Str(v.to_string())
}

fn n(v: &str) -> Json {
    Json::Number(v.to_string())
}

fn obj(entries: Vec<(&str, Json)>) -> Json {
    Json::Object(entries.into_iter().map(|(k, v)| (k.to_string(), v)).collect())
}

fn same(a: &Json, b: &Json) -> bool {
    match (a, b) {
        (Json::Null, Json::Null) => true,
        (Json::Bool(x), Json::Bool(y)) => x == y,
        (Json::Number(x), Json::Number(y)) => x == y,
        (Json::Str(x), Json::Str(y)) => x == y,
        (Json::Array(xs), Json::Array(ys)) => xs.len() == ys.len() && xs.iter().zip(ys).all(|(x, y)| same(x, y)),
        (Json::Object(xs), Json::Object(ys)) => {
            xs.len() == ys.len() && xs.iter().zip(ys).all(|(x, y)| x.0 == y.0 && same(&x.1, &y.1))
        }
        _ => false,
    }
}

fn get<'a>(v: &'a Json, key: &str) -> &'a Json {
    match v {
        Json::Object(es) => &es.iter().find(|e| e.0 == key).expect("key present").1,
        _ => panic!("not an object"),
    }
}

#[test]
fn given_acronym_fields_when_normalize_key_then_converts_to_snake_case() {
    assert_eq!(normalize_key("projectID"), "project_id");
    assert_eq!(normalize_key("sessionID"), "session_id");
    assert_eq!(normalize_key("messageID"), "message_id");
    assert_eq!(normalize_key("providerID"), "provider_id");
    assert_eq!(normalize_key("modelID"), "model_id");
    assert_eq!(normalize_key("parentID"), "parent_id");
    assert_eq!(normalize_key("partID"), "part_id");
    assert_eq!(normalize_key("callID"), "call_id");
    assert_eq!(normalize_key("requestID"), "request_id");
    assert_eq!(normalize_key("snapshotID"), "snapshot_id");
    assert_eq!(normalize_key("subtaskID"), "subtask_id");
    assert_eq!(normalize_key("baseURL"), "base_url");
}

#[test]
fn given_override_fields_when_normalize_key_then_uses_explicit_mapping() {
    assert_eq!(normalize_key("enterpriseUrl"), "enterprise_url");
    assert_eq!(normalize_key("experimentalOver200K"), "experimental_over_200_k");
    assert_eq!(normalize_key("topP"), "top_p");
}

#[test]
fn given_unknown_field_when_normalize_key_then_returns_unchanged() {
    assert_eq!(normalize_key("unknownField"), "unknownField");
    assert_eq!(normalize_key("some_snake_case"), "some_snake_case");
    assert_eq!(normalize_key("ALLCAPS"), "ALLCAPS");
}

#[test]
fn given_snake_case_fields_when_denormalize_key_then_converts_to_javascript() {
    assert_eq!(denormalize_key("project_id"), "projectID");
    assert_eq!(denormalize_key("session_id"), "sessionID");
    assert_eq!(denormalize_key("base_url"), "baseURL");
    assert_eq!(denormalize_key("enterprise_url"), "enterpriseUrl");
    assert_eq!(denormalize_key("top_p"), "topP");
    assert_eq!(denormalize_key("unknown_field"), "unknown_field");
}

#[test]
fn given_all_mappings_when_round_trip_then_returns_original() {
    let acronym_fields = vec![
        ("projectID", "project_id"),
        ("sessionID", "session_id"),
        ("messageID", "message_id"),
        ("providerID", "provider_id"),
        ("modelID", "model_id"),
        ("parentID", "parent_id"),
        ("partID", "part_id"),
        ("callID", "call_id"),
        ("requestID", "request_id"),
        ("snapshotID", "snapshot_id"),
        ("subtaskID", "subtask_id"),
        ("baseURL", "base_url"),
    ];
    let override_fields = vec![
        ("enterpriseUrl", "enterprise_url"),
        ("experimentalOver200K", "experimental_over_200_k"),
        ("topP", "top_p"),
    ];
    for (js_key, snake_key) in acronym_fields.iter().chain(override_fields.iter()) {
        assert_eq!(denormalize_key(&normalize_key(js_key)), *js_key, "Round-trip failed for JS key: {}", js_key);
        assert_eq!(
            normalize_key(&denormalize_key(snake_key)),
            *snake_key,
            "Round-trip failed for snake_case key: {}",
            snake_key
        );
    }
}

#[test]
fn given_nested_json_when_normalize_json_then_transforms_all_levels() {
    let input = obj(vec![
        ("projectID", s("proj_123")),
        ("sessionID", s("ses_456")),
        ("nested", obj(vec![("messageID", s("msg_789")), ("deeper", obj(vec![("providerID", s("anthropic"))]))])),
    ]);
    let expected = obj(vec![
        ("project_id", s("proj_123")),
        ("session_id", s("ses_456")),
        ("nested", obj(vec![("message_id", s("msg_789")), ("deeper", obj(vec![("provider_id", s("anthropic"))]))])),
    ]);
    assert!(same(&normalize_json(input), &expected));
}

#[test]
fn given_json_with_arrays_when_normalize_json_then_transforms_array_elements() {
    let input = obj(vec![(
        "sessions",
        Json::Array(vec![
            obj(vec![("sessionID", s("ses_1")), ("projectID", s("proj_a"))]),
            obj(vec![("sessionID", s("ses_2")), ("projectID", s("proj_b"))]),
        ]),
    )]);
    let expected = obj(vec![(
        "sessions",
        Json::Array(vec![
            obj(vec![("session_id", s("ses_1")), ("project_id", s("proj_a"))]),
            obj(vec![("session_id", s("ses_2")), ("project_id", s("proj_b"))]),
        ]),
    )]);
    assert!(same(&normalize_json(input), &expected));
}

#[test]
fn given_primitive_values_when_normalize_json_then_preserves_values() {
    assert!(same(&normalize_json(s("string")), &s("string")));
    assert!(same(&normalize_json(n("42")), &n("42")));
    assert!(same(&normalize_json(n("3.14")), &n("3.14")));
    assert!(same(&normalize_json(Json::Bool(true)), &Json::Bool(true)));
    assert!(same(&normalize_json(Json::Bool(false)), &Json::Bool(false)));
    assert!(same(&normalize_json(Json::Null), &Json::Null));
}

#[test]
fn given_empty_collections_when_normalize_json_then_returns_empty() {
    assert!(same(&normalize_json(obj(vec![])), &obj(vec![])));
    assert!(same(&normalize_json(Json::Array(vec![])), &Json::Array(vec![])));
}

#[test]
fn given_snake_case_json_when_denormalize_json_then_converts_to_javascript() {
    let input = obj(vec![
        ("project_id", s("proj_123")),
        ("session_id", s("ses_456")),
        ("nested", obj(vec![("message_id", s("msg_789"))])),
    ]);
    let expected = obj(vec![
        ("projectID", s("proj_123")),
        ("sessionID", s("ses_456")),
        ("nested", obj(vec![("messageID", s("msg_789"))])),
    ]);
    assert!(same(&denormalize_json(input), &expected));
}

#[test]
fn given_realistic_opencode_json_when_round_trip_then_returns_original() {
    let opencode_json = obj(vec![
        ("projectID", s("proj_abc")),
        ("sessionID", s("ses_123")),
        ("parentID", s("ses_000")),
        ("title", s("Test Session")),
        ("time", obj(vec![("created", n("1234567890")), ("updated", n("1234567999"))])),
        ("summary", obj(vec![("additions", n("42")), ("deletions", n("7")), ("files", n("3"))])),
    ]);
    let normalized = normalize_json(opencode_json.clone());
    assert!(same(get(&normalized, "project_id"), &s("proj_abc")));
    assert!(same(get(&normalized, "session_id"), &s("ses_123")));
    assert!(same(get(&normalized, "parent_id"), &s("ses_000")));
    let denormalized = denormalize_json(normalized);
    assert!(same(&denormalized, &opencode_json));
}

#[test]
fn codec_round_trip_scenario_restores_the_input() {
    let input = obj(vec![
        ("projectID", s("p")),
        ("sessions", Json::Array(vec![obj(vec![("sessionID", s("s")), ("baseURL", s("u"))])])),
    ]);
    let expected = obj(vec![
        ("project_id", s("p")),
        ("sessions", Json::Array(vec![obj(vec![("session_id", s("s")), ("base_url", s("u"))])])),
    ]);
    let normalized = normalize_json(input.clone());
    assert!(same(&normalized, &expected));
    assert!(same(&denormalize_json(normalized), &input));
}

#[test]
fn keys_outside_the_mapping_survive_the_round_trip() {
    let input = obj(vec![("title", s("x")), ("nested", Json::Array(vec![obj(vec![("count", n("1"))])]))]);
    assert!(same(&denormalize_json(normalize_json(input.clone())), &input));
}

#[test]
fn clone_copies_every_level() {
    let v = obj(vec![("a", Json::Array(vec![Json::Null, Json::Bool(true), n("1")]))]);
    assert!(same(&v.clone(), &v));
}
