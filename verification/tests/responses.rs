use jsonrpc2::{DecodeError, Error, ErrorCode, Json, Response, Version2};

fn result(value: Json, id: Option<&str>) -> Response {
    Response::Result { jsonrpc: Version2, result: value, id: id.map(|i| i.to_string()) }
}

fn failure(error: Error, id: Option<&str>) -> Response {
    Response::Error { jsonrpc: Version2, error, id: id.map(|i| i.to_string()) }
}

#[test]
fn response_with_result_is_a_result() {
    let r = Response::from_text(r#"{"jsonrpc":"2.0","result":"r","id":"1"}"#).unwrap();
    assert_eq!(r, result(Json::String("r".to_string()), Some("1")));
    assert!(matches!(r, Response::Result { .. }));
}

#[test]
fn response_with_error_is_an_error() {
    let r = Response::from_text(
        r#"{"jsonrpc":"2.0","error":{"code":-32000,"message":"x"},"id":"1"}"#,
    )
    .unwrap();
    assert!(matches!(r, Response::Error { .. }));
    match r {
        Response::Error { error, id, .. } => {
            assert_eq!(error.code(), -32000);
            assert_eq!(error.message(), "x");
            assert_eq!(error.data(), &Json::Null);
            assert_eq!(id, Some("1".to_string()));
        }
        Response::Result { .. } => unreachable!(),
    }
}

#[test]
fn response_with_both_or_neither_is_ambiguous() {
    assert_eq!(
        Response::from_text(
            r#"{"jsonrpc":"2.0","result":1,"error":{"code":-32000,"message":"x"},"id":"1"}"#
        ),
        Err(DecodeError::AmbiguousResponse)
    );
    assert_eq!(
        Response::from_text(r#"{"jsonrpc":"2.0","id":"1"}"#),
        Err(DecodeError::AmbiguousResponse)
    );
    assert_eq!(
        Response::from_text(r#"{"jsonrpc":"2.0","result":null,"error":null}"#),
        Err(DecodeError::AmbiguousResponse)
    );
    assert_eq!(
        Response::from_text(r#"{"jsonrpc":"2.0","method":"m"}"#),
        Err(DecodeError::AmbiguousResponse)
    );
}

#[test]
fn response_with_null_result_is_a_result() {
    let r = Response::from_text(r#"{"jsonrpc":"2.0","result":null}"#).unwrap();
    assert_eq!(r, result(Json::Null, None));
    assert_eq!(r.to_text(), r#"{"jsonrpc":"2.0","result":null}"#);
}

#[test]
fn response_with_another_version() {
    let wrong = [
        r#"{"jsonrpc":"1.0","result":1,"id":"1"}"#,
        r#"{"jsonrpc":2.0,"result":1,"id":"1"}"#,
        r#"{"result":1,"id":"1"}"#,
        r#"{"jsonrpc":"1.0","result":1,"error":{}}"#,
        r#"{"jsonrpc":"1.0"}"#,
        r#"7"#,
    ];
    for text in wrong {
        assert_eq!(Response::from_text(text), Err(DecodeError::BadVersion), "{}", text);
    }
}

#[test]
fn response_with_a_wrong_shape() {
    let wrong = [
        r#"{"jsonrpc":"2.0","result":1,"id":1}"#,
        r#"{"jsonrpc":"2.0","result":1,"id":null}"#,
        r#"{"jsonrpc":"2.0","error":{"code":1},"id":"1"}"#,
        r#"{"jsonrpc":"2.0","error":"x","id":"1"}"#,
        r#"{"jsonrpc":"2.0","error":null}"#,
        r#"{"jsonrpc":"2.0","error":{"code":1,"message":"m"},"id":2}"#,
        r#"{"jsonrpc":"2.0","error":{"code":1.0,"message":"m"}}"#,
    ];
    for text in wrong {
        assert_eq!(Response::from_text(text), Err(DecodeError::TypeMismatch), "{}", text);
    }
}

#[test]
fn response_passes_over_other_members() {
    let r = Response::from_text(r#"{"jsonrpc":"2.0","result":[1],"extra":true,"id":"1"}"#).unwrap();
    assert_eq!(r, result(Json::Array(vec![Json::Int(1)]), Some("1")));
}

#[test]
fn response_from_text_that_is_no_json() {
    assert_eq!(Response::from_text("{\"jsonrpc\""), Err(DecodeError::InvalidJson));
    assert_eq!(Response::from_text("nil"), Err(DecodeError::InvalidJson));
}

#[test]
fn response_leaves_an_absent_id_out() {
    assert_eq!(result(Json::Int(1), None).to_text(), r#"{"jsonrpc":"2.0","result":1}"#);
    assert_eq!(
        failure(Error::parse_error(), None).to_text(),
        r#"{"jsonrpc":"2.0","error":{"code":-32700,"message":"parse error"}}"#
    );
    assert_eq!(result(Json::Int(1), None).id(), &None);
    assert_eq!(failure(Error::parse_error(), Some("3")).id(), &Some("3".to_string()));
}

#[test]
fn response_encodes_to_its_members() {
    assert_eq!(
        result(Json::Int(1), Some("7")).encode(),
        Json::Object(vec![
            ("jsonrpc".to_string(), Json::String("2.0".to_string())),
            ("result".to_string(), Json::Int(1)),
            ("id".to_string(), Json::String("7".to_string())),
        ])
    );
    assert_eq!(
        failure(Error::new(1, "m"), None).encode(),
        Json::Object(vec![
            ("jsonrpc".to_string(), Json::String("2.0".to_string())),
            ("error".to_string(), Error::new(1, "m").encode()),
        ])
    );
}

#[test]
fn response_round_trip_through_text() {
    let samples = vec![
        result(Json::Null, None),
        result(Json::Int(19), Some("1")),
        result(Json::Object(vec![("error".to_string(), Json::Int(1))]), Some("x")),
        failure(Error::from_code(ErrorCode::MethodNotFound), Some("1")),
        failure(Error::new(3, "three").with_data(Json::Array(vec![Json::Null])), None),
        failure(Error::server_error(-32010).unwrap(), Some("")),
    ];
    for r in samples {
        assert_eq!(Response::decode(&r.encode()), Ok(r.clone()));
        assert_eq!(Response::from_text(&r.to_text()), Ok(r));
    }
}

#[test]
fn subtract_scenario_responses() {
    let ok_text = r#"{"jsonrpc":"2.0","result":19,"id":"1"}"#;
    let ok = Response::from_text(ok_text).unwrap();
    assert_eq!(ok, result(Json::Int(19), Some("1")));
    assert_eq!(ok.to_text(), ok_text);

    let unknown = failure(Error::from_code(ErrorCode::MethodNotFound), Some("1"));
    let unknown_text =
        r#"{"jsonrpc":"2.0","error":{"code":-32601,"message":"method not found"},"id":"1"}"#;
    assert_eq!(unknown.to_text(), unknown_text);
    assert_eq!(Response::from_text(unknown_text), Ok(unknown));
}

#[test]
fn response_for_a_request_that_could_not_be_read() {
    let e = DecodeError::InvalidJson;
    let r = failure(Error::from_code(e.code()), None);
    assert_eq!(r.to_text(), r#"{"jsonrpc":"2.0","error":{"code":-32700,"message":"parse error"}}"#);
    let e = DecodeError::UnknownField;
    let r = failure(Error::from_code(e.code()), None);
    assert_eq!(
        r.to_text(),
        r#"{"jsonrpc":"2.0","error":{"code":-32600,"message":"invalid request"}}"#
    );
}
