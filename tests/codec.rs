use sysutils::response::{decode, encode, ErrorKind, Response, ToolError};

fn same(a: &Response, b: &Response) -> bool {
    match (a, b) {
        (Response::Success(x), Response::Success(y)) => x == y,
        (Response::Failure(x), Response::Failure(y)) => x.kind == y.kind && x.message == y.message,
        _ => false,
    }
}

#[test]
fn success_round_trips() {
    let r = Response::Success("Hello World MCP! friend\nsecond line".to_string());
    assert_eq!(encode(&r), "ok Hello World MCP! friend\nsecond line");
    assert!(same(&decode(&encode(&r)).unwrap(), &r));
}

#[test]
fn failures_round_trip() {
    for kind in [ErrorKind::UnknownTool, ErrorKind::InvalidArguments, ErrorKind::HandlerError] {
        let r = Response::Failure(ToolError { kind, message: "error ok x".to_string() });
        assert!(same(&decode(&encode(&r)).unwrap(), &r));
    }
    let r = Response::Failure(ToolError { kind: ErrorKind::InvalidArguments, message: String::new() });
    assert_eq!(encode(&r), "error invalid_arguments ");
    assert!(same(&decode(&encode(&r)).unwrap(), &r));
}

#[test]
fn unknown_tags_do_not_decode() {
    assert!(decode("").is_none());
    assert!(decode("ok").is_none());
    assert!(decode("error other x").is_none());
}
