use jsonrpc2::{Error, ErrorCode, Json, Request, Response, Version2};

#[test]
fn version() {
    assert_eq!(&Version2.to_text(), "\"2.0\"");
    assert_eq!(Version2::from_text("\"2.0\"").unwrap(), Version2);
}

#[test]
fn request() {
    let req = Request {
        jsonrpc: Version2,
        method: "method".to_string(),
        params: Some(Json::String("params".to_string())),
        id: Some("id".to_string()),
    };

    let req_str = r#"{"jsonrpc":"2.0","method":"method","params":"params","id":"id"}"#;

    assert_eq!(&req.to_text(), req_str);
    assert_eq!(Request::from_text(req_str).unwrap(), req);
}

#[test]
fn error() {
    let error = Error::from(ErrorCode::ServerErrorEnd);
    let error_str = r#"{"code":-32000,"message":"server error end"}"#;

    assert_eq!(&error.to_text(), error_str);
    assert_eq!(Error::from_text(error_str).unwrap(), error);
}

#[test]
fn response() {
    let result_res = Response::Result {
        jsonrpc: Version2,
        result: Json::String("result".to_string()),
        id: Some("id".to_string()),
    };

    let error_res = Response::Error {
        jsonrpc: Version2,
        error: Error::from(ErrorCode::ServerErrorEnd),
        id: Some("id".to_string()),
    };

    let result_res_str = r#"{"jsonrpc":"2.0","result":"result","id":"id"}"#;
    let error_res_str =
        r#"{"jsonrpc":"2.0","error":{"code":-32000,"message":"server error end"},"id":"id"}"#;

    assert_eq!(&result_res.to_text(), result_res_str);
    assert_eq!(Response::from_text(result_res_str).unwrap(), result_res);

    assert_eq!(&error_res.to_text(), error_res_str);
    assert_eq!(Response::from_text(error_res_str).unwrap(), error_res);
}
