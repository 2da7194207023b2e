use jsonrpc2::{DecodeError, Json, Request, Version2};

fn call(method: &str, params: Option<Json>, id: Option<&str>) -> Request {
    Request {
        jsonrpc: Version2,
        method: method.to_string(),
        params,
        id: id.map(|i| i.to_string()),
    }
}

#[test]
fn notification_is_a_request_without_id() {
    let n = call("m", None, None);
    assert!(n.is_notification());
    assert_eq!(n.to_text(), r#"{"jsonrpc":"2.0","method":"m"}"#);
    assert_eq!(n.encode().get("id"), None);
    assert!(!call("m", None, Some("1")).is_notification());
    assert!(!call("m", None, Some("")).is_notification());
}

#[test]
fn request_encodes_to_its_members() {
    let q = call("m", Some(Json::Int(1)), Some("7"));
    assert_eq!(
        q.encode(),
        Json::Object(vec![
            ("jsonrpc".to_string(), Json::String("2.0".to_string())),
            ("method".to_string(), Json::String("m".to_string())),
            ("params".to_string(), Json::Int(1)),
            ("id".to_string(), Json::String("7".to_string())),
        ])
    );
    assert_eq!(
        call("m", None, Some("7")).encode(),
        Json::Object(vec![
            ("jsonrpc".to_string(), Json::String("2.0".to_string())),
            ("method".to_string(), Json::String("m".to_string())),
            ("id".to_string(), Json::String("7".to_string())),
        ])
    );
}

#[test]
fn request_leaves_absent_members_out() {
    assert_eq!(call("m", None, Some("1")).to_text(), r#"{"jsonrpc":"2.0","method":"m","id":"1"}"#);
    assert_eq!(
        call("m", Some(Json::Array(vec![])), None).to_text(),
        r#"{"jsonrpc":"2.0","method":"m","params":[]}"#
    );
}

#[test]
fn request_round_trip_through_text() {
    let samples = vec![
        call("m", None, None),
        call("", None, Some("")),
        call("m", Some(Json::Null), Some("1")),
        call("sum", Some(Json::Array(vec![Json::Int(1), Json::Int(-2)])), Some("a")),
        call(
            "named",
            Some(Json::Object(vec![
                ("b".to_string(), Json::Bool(true)),
                ("a".to_string(), Json::String("x\"y\n".to_string())),
            ])),
            None,
        ),
        call("big", Some(Json::Int(i64::MIN)), Some("9")),
    ];
    for q in samples {
        assert_eq!(Request::decode(&q.encode()), Ok(q.clone()));
        assert_eq!(Request::from_text(&q.to_text()), Ok(q));
    }
}

#[test]
fn request_with_null_params_keeps_them() {
    let q = Request::from_text(r#"{"jsonrpc":"2.0","method":"m","params":null}"#).unwrap();
    assert_eq!(q.params, Some(Json::Null));
    assert_eq!(q.to_text(), r#"{"jsonrpc":"2.0","method":"m","params":null}"#);
}

#[test]
fn request_members_in_any_order() {
    let q = Request::from_text(r#"{"id":"1","params":[1],"method":"m","jsonrpc":"2.0"}"#).unwrap();
    assert_eq!(q, call("m", Some(Json::Array(vec![Json::Int(1)])), Some("1")));
}

#[test]
fn request_with_another_version() {
    let wrong = [
        r#"{"jsonrpc":"1.0","method":"m"}"#,
        r#"{"jsonrpc":2.0,"method":"m"}"#,
        r#"{"jsonrpc":2,"method":"m"}"#,
        r#"{"jsonrpc":null,"method":"m"}"#,
        r#"{"jsonrpc":"2.0 ","method":"m"}"#,
        r#"{"jsonrpc":["2.0"],"method":"m"}"#,
        r#"{"method":"m"}"#,
        r#"{"jsonrpc":"1.0","method":"m","bogus":1}"#,
        r#"{"jsonrpc":"1.0"}"#,
        r#"{}"#,
        r#"[]"#,
        r#""2.0""#,
    ];
    for text in wrong {
        assert_eq!(Request::from_text(text), Err(DecodeError::BadVersion), "{}", text);
    }
}

#[test]
fn request_with_an_unknown_member() {
    assert_eq!(
        Request::from_text(r#"{"jsonrpc":"2.0","method":"m","bogus":1}"#),
        Err(DecodeError::UnknownField)
    );
    assert_eq!(
        Request::from_text(r#"{"bogus":1,"jsonrpc":"2.0","method":"m","id":"1"}"#),
        Err(DecodeError::UnknownField)
    );
    assert_eq!(
        Request::from_text(r#"{"jsonrpc":"2.0","result":1}"#),
        Err(DecodeError::UnknownField)
    );
    assert_eq!(
        Request::from_text(r#"{"jsonrpc":"2.0","method":"m","Id":"1"}"#),
        Err(DecodeError::UnknownField)
    );
}

#[test]
fn request_with_a_wrong_shape() {
    let wrong = [
        r#"{"jsonrpc":"2.0"}"#,
        r#"{"jsonrpc":"2.0","method":1}"#,
        r#"{"jsonrpc":"2.0","method":null}"#,
        r#"{"jsonrpc":"2.0","method":"m","id":1}"#,
        r#"{"jsonrpc":"2.0","method":"m","id":null}"#,
        r#"{"jsonrpc":"2.0","method":"m","id":["1"]}"#,
        r#"{"jsonrpc":"2.0","params":[1],"id":"1"}"#,
    ];
    for text in wrong {
        assert_eq!(Request::from_text(text), Err(DecodeError::TypeMismatch), "{}", text);
    }
}

#[test]
fn request_from_text_that_is_no_json() {
    assert_eq!(Request::from_text("{"), Err(DecodeError::InvalidJson));
    assert_eq!(
        Request::from_text(r#"{"jsonrpc":"2.0","method":"m"} x"#),
        Err(DecodeError::InvalidJson)
    );
    assert_eq!(Request::from_text("jsonrpc"), Err(DecodeError::InvalidJson));
}

#[test]
fn request_decode_takes_the_last_of_equal_keys() {
    let doc = Json::Object(vec![
        ("jsonrpc".to_string(), Json::String("1.0".to_string())),
        ("method".to_string(), Json::String("first".to_string())),
        ("method".to_string(), Json::String("last".to_string())),
        ("jsonrpc".to_string(), Json::String("2.0".to_string())),
    ]);
    assert_eq!(Request::decode(&doc), Ok(call("last", None, None)));
    assert_eq!(Request::from_text(&doc.to_text()), Ok(call("last", None, None)));
}

#[test]
fn request_decode_of_a_document_that_is_no_object() {
    assert_eq!(Request::decode(&Json::Null), Err(DecodeError::BadVersion));
    assert_eq!(Request::decode(&Json::Array(vec![])), Err(DecodeError::BadVersion));
    assert_eq!(Request::decode(&Json::String("2.0".to_string())), Err(DecodeError::BadVersion));
}

#[test]
fn subtract_scenario_request() {
    let q = Request::from_text(r#"{"jsonrpc":"2.0","method":"subtract","params":[42,23],"id":"1"}"#)
        .unwrap();
    assert!(!q.is_notification());
    assert_eq!(q.method, "subtract");
    assert_eq!(q.params, Some(Json::Array(vec![Json::Int(42), Json::Int(23)])));
    assert_eq!(q.id, Some("1".to_string()));
    assert_eq!(q.jsonrpc, Version2);
}

#[test]
fn request_params_are_written_in_canonical_form() {
    let q = call(
        "m",
        Some(Json::Object(vec![
            ("a".to_string(), Json::Int(1)),
            ("b".to_string(), Json::Int(2)),
            ("a".to_string(), Json::Int(3)),
        ])),
        None,
    );
    assert_eq!(q.to_text(), r#"{"jsonrpc":"2.0","method":"m","params":{"a":3,"b":2}}"#);
}
