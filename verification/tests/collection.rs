use task_runner::collection::inject_auth_token_into_collection;
use task_runner::collection::inject_variable;
use task_runner::collection::upsert;
use task_runner::collection::CollectionError;
use task_runner::json::parse;
use task_runner::json::to_pretty;
use task_runner::json::Json;

fn text(value: &str) -> Json {
    Json::Text(value.to_string())
}

fn record(key: &str, value: &str) -> Json {
    Json::Object(vec![
        ("key".to_string(), text(key)),
        ("value".to_string(), text(value)),
        ("type".to_string(), text("string")),
    ])
}

fn collection(records: Vec<Json>) -> Json {
    Json::Object(vec![
        ("info".to_string(), Json::Object(vec![("name".to_string(), text("suite"))])),
        ("variable".to_string(), Json::Array(records)),
        ("item".to_string(), Json::Array(vec![])),
    ])
}

#[test]
fn new_key_appends_exactly_one_record() {
    let before = collection(vec![record("baseUrl", "http://localhost"), record("user", "u")]);
    let after = inject_variable(before.clone(), "authToken", "secret").unwrap();
    assert_eq!(
        after,
        collection(vec![
            record("baseUrl", "http://localhost"),
            record("user", "u"),
            record("authToken", "secret"),
        ])
    );
}

#[test]
fn existing_key_changes_only_the_value_of_its_record() {
    let odd = Json::Object(vec![
        ("note".to_string(), text("kept")),
        ("key".to_string(), text("authToken")),
        ("value".to_string(), text("old")),
        ("type".to_string(), text("secret")),
    ]);
    let before = collection(vec![record("a", "1"), odd, record("b", "2")]);
    let after = inject_variable(before, "authToken", "new").unwrap();
    let changed = Json::Object(vec![
        ("note".to_string(), text("kept")),
        ("key".to_string(), text("authToken")),
        ("value".to_string(), text("new")),
        ("type".to_string(), text("secret")),
    ]);
    assert_eq!(after, collection(vec![record("a", "1"), changed, record("b", "2")]));
}

#[test]
fn injecting_twice_is_injecting_once() {
    let documents = vec![
        collection(vec![]),
        collection(vec![record("authToken", "old")]),
        collection(vec![record("a", "1")]),
        Json::Object(vec![]),
        Json::Null,
        Json::Object(vec![("variable".to_string(), text("not an array"))]),
        collection(vec![record("authToken", "x"), record("authToken", "y")]),
    ];
    for document in documents {
        let once = inject_variable(document, "authToken", "t").unwrap();
        let twice = inject_variable(once.clone(), "authToken", "t").unwrap();
        assert_eq!(twice, once);
    }
}

#[test]
fn only_the_first_record_of_a_key_is_changed() {
    let before = collection(vec![record("authToken", "x"), record("authToken", "y")]);
    let after = inject_variable(before, "authToken", "t").unwrap();
    assert_eq!(after, collection(vec![record("authToken", "t"), record("authToken", "y")]));
}

#[test]
fn record_without_value_gains_one() {
    let bare = Json::Object(vec![("key".to_string(), text("authToken"))]);
    let after = upsert(vec![bare], "authToken", "t");
    assert_eq!(
        after,
        vec![Json::Object(vec![
            ("key".to_string(), text("authToken")),
            ("value".to_string(), text("t")),
        ])]
    );
}

#[test]
fn records_that_are_no_records_are_passed_over() {
    let strange = vec![
        Json::Null,
        text("authToken"),
        Json::Object(vec![("key".to_string(), Json::Number("1".to_string()))]),
        Json::Object(vec![("name".to_string(), text("authToken"))]),
    ];
    let after = upsert(strange.clone(), "authToken", "t");
    let mut expected: Vec<Json> = strange;
    expected.push(record("authToken", "t"));
    assert_eq!(after, expected);
}

#[test]
fn collection_without_variables_gains_the_array() {
    let before = Json::Object(vec![("info".to_string(), Json::Null)]);
    let after = inject_variable(before, "authToken", "t").unwrap();
    assert_eq!(
        after,
        Json::Object(vec![
            ("info".to_string(), Json::Null),
            ("variable".to_string(), Json::Array(vec![record("authToken", "t")])),
        ])
    );
}

#[test]
fn variables_that_are_no_array_are_replaced() {
    let before = Json::Object(vec![
        ("variable".to_string(), Json::Object(vec![])),
        ("item".to_string(), Json::Null),
    ]);
    let after = inject_variable(before, "k", "v").unwrap();
    assert_eq!(
        after,
        Json::Object(vec![
            ("variable".to_string(), Json::Array(vec![record("k", "v")])),
            ("item".to_string(), Json::Null),
        ])
    );
}

#[test]
fn empty_document_becomes_a_collection() {
    let after = inject_variable(Json::Null, "authToken", "t").unwrap();
    assert_eq!(
        after,
        Json::Object(vec![("variable".to_string(), Json::Array(vec![record("authToken", "t")]))])
    );
}

#[test]
fn document_that_is_no_object_is_refused() {
    for document in
        [Json::Array(vec![]), text("x"), Json::Bool(true), Json::Number("1".to_string())]
    {
        assert_eq!(inject_variable(document, "k", "v"), Err(CollectionError::NotAnObject));
    }
}

#[test]
fn token_is_injected_into_the_text_of_a_collection() {
    let source = r#"{"info": {"name": "api"}, "variable": [{"key": "baseUrl", "value": "u", "type": "string"}], "item": []}"#;
    let edited = inject_auth_token_into_collection(source, "s3cr3t").unwrap();
    let expected_source = r#"{"info": {"name": "api"}, "variable": [{"key": "baseUrl", "value": "u", "type": "string"}, {"key": "authToken", "value": "s3cr3t", "type": "string"}], "item": []}"#;
    let expected: serde_json::Value = serde_json::from_str(expected_source).unwrap();
    assert_eq!(edited, serde_json::to_string_pretty(&expected).unwrap());
    assert_ne!(edited, source);

    let again = inject_auth_token_into_collection(&edited, "s3cr3t").unwrap();
    assert_eq!(again, edited);

    let renewed = inject_auth_token_into_collection(&edited, "other").unwrap();
    let renewed_tree: serde_json::Value = serde_json::from_str(&renewed).unwrap();
    assert_eq!(renewed_tree["variable"][1]["value"], "other");
    assert_eq!(renewed_tree["variable"][0]["value"], "u");
    assert_eq!(renewed_tree["variable"].as_array().unwrap().len(), 2);
}

#[test]
fn malformed_collection_is_refused() {
    let result = inject_auth_token_into_collection("{ not json", "t");
    assert!(matches!(result, Err(CollectionError::Malformed(_))));
    let result = inject_auth_token_into_collection("[1, 2]", "t");
    assert_eq!(result, Err(CollectionError::NotAnObject));
    let result = inject_auth_token_into_collection("null", "t");
    let written = result.unwrap();
    let document = parse(&written).unwrap();
    assert_eq!(
        document.get("variable"),
        Some(&Json::Array(vec![Json::Object(vec![
            ("key".to_string(), text("authToken")),
            ("type".to_string(), text("string")),
            ("value".to_string(), text("t")),
        ])]))
    );
    assert_eq!(to_pretty(&document).unwrap(), written);
}
