use mfinvoice::{
    conclude, on_reply, role_for_status, ApiError, BodyRole, Decoded, Error, Next, Office,
    Outcome, ProtocolError, Reply, TransportError,
};

fn report() -> ApiError {
    ApiError {
        code: "400".to_string(),
        errors: vec![
            Error { message: "first".to_string() },
            Error { message: "second".to_string() },
        ],
    }
}

#[test]
fn success_body_gives_success() {
    let office = Office { name: "o".to_string(), ..Default::default() };
    let out = conclude(200, Decoded::Payload(Ok(office.clone())));
    assert_eq!(out, Outcome::Success(office));
    let out2: Outcome<()> = conclude(204, Decoded::Payload(Ok(())));
    assert_eq!(out2, Outcome::Success(()));
}

#[test]
fn error_report_gives_api_error() {
    let out: Outcome<Office> = conclude(400, Decoded::ErrorReport(Ok(report())));
    assert_eq!(out, Outcome::Api(report()));
    let out: Outcome<Office> = conclude(500, Decoded::ErrorReport(Ok(report())));
    match out {
        Outcome::Api(e) => {
            assert_eq!(e.code, "400");
            assert_eq!(e.errors.len(), 2);
            assert_eq!(e.errors[1].message, "second");
        }
        _ => panic!("expected the service's error"),
    }
}

#[test]
fn unreachable_gives_transport_error_without_reading() {
    let next = on_reply(Reply::Unreachable("connection refused".to_string()));
    assert_eq!(next, Next::Fail(TransportError { cause: "connection refused".to_string() }));
}

#[test]
fn status_decides_body_role() {
    assert_eq!(on_reply(Reply::Status(200)), Next::Read(BodyRole::Payload));
    assert_eq!(on_reply(Reply::Status(299)), Next::Read(BodyRole::Payload));
    assert_eq!(on_reply(Reply::Status(199)), Next::Read(BodyRole::ErrorReport));
    assert_eq!(on_reply(Reply::Status(300)), Next::Read(BodyRole::ErrorReport));
    assert_eq!(on_reply(Reply::Status(404)), Next::Read(BodyRole::ErrorReport));
    assert_eq!(role_for_status(201), BodyRole::Payload);
    assert_eq!(role_for_status(500), BodyRole::ErrorReport);
}

#[test]
fn missing_field_is_protocol_violation() {
    let cause = "missing field `zip`".to_string();
    let out: Outcome<Office> = conclude(200, Decoded::Payload(Err(cause.clone())));
    assert_eq!(out, Outcome::Protocol(ProtocolError { status: 200, cause }));
}

#[test]
fn malformed_error_report_is_protocol_violation() {
    let out: Outcome<Office> = conclude(422, Decoded::ErrorReport(Err("expected value".to_string())));
    assert_eq!(out, Outcome::Protocol(ProtocolError { status: 422, cause: "expected value".to_string() }));
}
