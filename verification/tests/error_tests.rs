use twurst::error::{TwirpError, TwirpErrorCause, TwirpErrorCode};
use twurst::grpc::{twirp_error_from_status, GrpcCode, GrpcStatus};
use twurst::http::{error_from_response, error_to_response, fallback_code, HttpResponse};
use twurst::json::{error_from_json, error_to_json};

#[test]
fn test_accessors() {
    let error = TwirpError::invalid_argument("foo is wrong".to_string())
        .with_meta("foo".to_string(), "bar".to_string());
    assert_eq!(error.code(), TwirpErrorCode::InvalidArgument);
    assert_eq!(error.message(), "foo is wrong");
    assert_eq!(error.meta("foo"), Some("bar"));
}

#[test]
fn test_meta_overwrite_and_iter() {
    let error = TwirpError::internal("boom".to_string())
        .with_meta("a".to_string(), "1".to_string())
        .with_meta("b".to_string(), "2".to_string())
        .with_meta("a".to_string(), "3".to_string());
    assert_eq!(error.meta("a"), Some("3"));
    assert_eq!(error.meta("b"), Some("2"));
    assert_eq!(error.meta("c"), None);
    assert_eq!(
        error.meta_iter(),
        vec![
            ("a".to_string(), "3".to_string()),
            ("b".to_string(), "2".to_string())
        ]
    );
    assert_eq!(error.into_message(), "boom");
}

#[test]
fn test_wrap_keeps_cause_locally() {
    let error = TwirpError::wrap(
        TwirpErrorCode::Internal,
        "outer".to_string(),
        "inner failure".to_string(),
    );
    assert_eq!(error.message(), "outer");
    match &error.cause {
        TwirpErrorCause::Opaque(c) => assert_eq!(c, "inner failure"),
        _ => panic!("expected an opaque cause"),
    }
    // equality ignores the cause
    assert_eq!(error, TwirpError::internal("outer".to_string()));
}

#[test]
fn test_http_status_mapping() {
    assert_eq!(TwirpErrorCode::Canceled.http_status(), 408);
    assert_eq!(TwirpErrorCode::Unknown.http_status(), 500);
    assert_eq!(TwirpErrorCode::InvalidArgument.http_status(), 400);
    assert_eq!(TwirpErrorCode::Malformed.http_status(), 400);
    assert_eq!(TwirpErrorCode::DeadlineExceeded.http_status(), 408);
    assert_eq!(TwirpErrorCode::NotFound.http_status(), 404);
    assert_eq!(TwirpErrorCode::BadRoute.http_status(), 404);
    assert_eq!(TwirpErrorCode::AlreadyExists.http_status(), 409);
    assert_eq!(TwirpErrorCode::PermissionDenied.http_status(), 403);
    assert_eq!(TwirpErrorCode::Unauthenticated.http_status(), 401);
    assert_eq!(TwirpErrorCode::ResourceExhausted.http_status(), 429);
    assert_eq!(TwirpErrorCode::FailedPrecondition.http_status(), 412);
    assert_eq!(TwirpErrorCode::Aborted.http_status(), 409);
    assert_eq!(TwirpErrorCode::OutOfRange.http_status(), 400);
    assert_eq!(TwirpErrorCode::Unimplemented.http_status(), 501);
    assert_eq!(TwirpErrorCode::Internal.http_status(), 500);
    assert_eq!(TwirpErrorCode::Unavailable.http_status(), 503);
    assert_eq!(TwirpErrorCode::Dataloss.http_status(), 503);
}

#[test]
fn test_error_json_exact() {
    let error = TwirpError::permission_denied("Thou shall not pass".to_string())
        .with_meta("target".to_string(), "Balrog".to_string());
    assert_eq!(
        error_to_json(&error),
        "{\"code\":\"permission_denied\",\"msg\":\"Thou shall not pass\",\"meta\":{\"target\":\"Balrog\"}}"
    );
    let plain = TwirpError::not_found("gone".to_string());
    assert_eq!(error_to_json(&plain), "{\"code\":\"not_found\",\"msg\":\"gone\"}");
}

#[test]
fn test_error_json_escapes() {
    let error = TwirpError::internal("say \"hi\"\n\\done\u{1}".to_string());
    let json = error_to_json(&error);
    assert_eq!(
        json,
        "{\"code\":\"internal\",\"msg\":\"say \\\"hi\\\"\\n\\\\done\\u0001\"}"
    );
    assert_eq!(error_from_json(&json), Some(error));
}

#[test]
fn test_error_json_round_trip() {
    let error = TwirpError::unavailable("try later".to_string())
        .with_meta("retry".to_string(), "5s".to_string())
        .with_meta("node".to_string(), "a/b".to_string());
    let parsed = error_from_json(&error_to_json(&error)).expect("round trip parse");
    assert_eq!(parsed, error);
}

#[test]
fn test_error_json_parser_leniency() {
    // whitespace, reordered members, unknown members with arbitrary values
    let parsed = error_from_json(
        " { \"msg\" : \"m\" , \"extra\" : [1, {\"x\": null}, true] , \"code\" : \"aborted\" } ",
    )
    .expect("lenient parse");
    assert_eq!(parsed, TwirpError::aborted("m".to_string()));
    // not an error object at all
    assert_eq!(error_from_json("foo"), None);
    assert_eq!(error_from_json("\"Thou shall not pass\""), None);
    // missing msg, unknown code token, duplicate member, trailing garbage
    assert_eq!(error_from_json("{\"code\":\"internal\"}"), None);
    assert_eq!(error_from_json("{\"code\":\"nope\",\"msg\":\"m\"}"), None);
    assert_eq!(
        error_from_json("{\"code\":\"internal\",\"code\":\"internal\",\"msg\":\"m\"}"),
        None
    );
    assert_eq!(error_from_json("{\"code\":\"internal\",\"msg\":\"m\"}x"), None);
}

#[test]
fn test_to_response() {
    let object = TwirpError::permission_denied("Thou shall not pass".to_string())
        .with_meta("target".to_string(), "Balrog".to_string());
    let response = error_to_response(object);
    assert_eq!(response.status, 403);
    assert_eq!(response.content_type.as_deref(), Some("application/json"));
    assert_eq!(
        response.body,
        b"{\"code\":\"permission_denied\",\"msg\":\"Thou shall not pass\",\"meta\":{\"target\":\"Balrog\"}}"
    );
}

#[test]
fn test_from_valid_response() {
    let response = HttpResponse {
        status: 200,
        content_type: Some("application/json".to_string()),
        body: b"{\"code\":\"permission_denied\",\"msg\":\"Thou shall not pass\",\"meta\":{\"target\":\"Balrog\"}}".to_vec(),
        error_ext: None,
    };
    assert_eq!(
        error_from_response(&response),
        TwirpError::permission_denied("Thou shall not pass".to_string())
            .with_meta("target".to_string(), "Balrog".to_string())
    );
}

#[test]
fn test_from_plain_response() {
    let response = HttpResponse {
        status: 403,
        content_type: None,
        body: b"Thou shall not pass".to_vec(),
        error_ext: None,
    };
    assert_eq!(
        error_from_response(&response),
        TwirpError::permission_denied("Thou shall not pass".to_string())
    );
}

#[test]
fn test_response_round_trip_without_extension() {
    let error = TwirpError::resource_exhausted("slow down".to_string())
        .with_meta("limit".to_string(), "10".to_string());
    let mut response = error_to_response(error.clone());
    response.error_ext = None;
    assert_eq!(error_from_response(&response), error);
}

#[test]
fn test_response_round_trip_with_extension() {
    let error = TwirpError::failed_precondition("not yet".to_string());
    let response = error_to_response(error.clone());
    assert_eq!(error_from_response(&response), error);
}

#[test]
fn test_fallback_codes() {
    assert_eq!(fallback_code(408), TwirpErrorCode::DeadlineExceeded);
    assert_eq!(fallback_code(403), TwirpErrorCode::PermissionDenied);
    assert_eq!(fallback_code(401), TwirpErrorCode::Unauthenticated);
    assert_eq!(fallback_code(429), TwirpErrorCode::ResourceExhausted);
    assert_eq!(fallback_code(412), TwirpErrorCode::FailedPrecondition);
    assert_eq!(fallback_code(501), TwirpErrorCode::Unimplemented);
    assert_eq!(fallback_code(502), TwirpErrorCode::Unavailable);
    assert_eq!(fallback_code(503), TwirpErrorCode::Unavailable);
    assert_eq!(fallback_code(504), TwirpErrorCode::Unavailable);
    assert_eq!(fallback_code(404), TwirpErrorCode::NotFound);
    assert_eq!(fallback_code(500), TwirpErrorCode::Internal);
    assert_eq!(fallback_code(418), TwirpErrorCode::Malformed);
    assert_eq!(fallback_code(302), TwirpErrorCode::Unknown);
}

#[test]
fn test_from_tonic_014_status_simple() {
    assert_eq!(
        TwirpError::from(GrpcStatus::new(GrpcCode::NotFound, "Not found".to_string())),
        TwirpError::not_found("Not found".to_string())
    );
}

#[test]
fn test_to_tonic_014_status_simple() {
    let error = TwirpError::not_found("Not found".to_string());
    let status = GrpcStatus::from(error);
    assert_eq!(status.code, GrpcCode::NotFound);
    assert_eq!(status.message, "Not found");
}

#[test]
fn test_from_to_tonic_014_status_roundtrip() {
    let status = GrpcStatus {
        code: GrpcCode::NotFound,
        message: "Not found".to_string(),
        details: b"some_dummy_details".to_vec(),
    };
    let code = status.code;
    let message = status.message.clone();
    let details = status.details.clone();
    let new_status = GrpcStatus::from(TwirpError::from(status));
    assert_eq!(code, new_status.code);
    assert_eq!(message, new_status.message);
    assert_eq!(details, new_status.details);
}

#[test]
fn test_response_round_trip_every_code() {
    // For each code, an error sent as a response and read back from status
    // and body alone is the same error.
    let codes = [
        TwirpErrorCode::Canceled,
        TwirpErrorCode::Unknown,
        TwirpErrorCode::InvalidArgument,
        TwirpErrorCode::Malformed,
        TwirpErrorCode::DeadlineExceeded,
        TwirpErrorCode::NotFound,
        TwirpErrorCode::BadRoute,
        TwirpErrorCode::AlreadyExists,
        TwirpErrorCode::PermissionDenied,
        TwirpErrorCode::Unauthenticated,
        TwirpErrorCode::ResourceExhausted,
        TwirpErrorCode::FailedPrecondition,
        TwirpErrorCode::Aborted,
        TwirpErrorCode::OutOfRange,
        TwirpErrorCode::Unimplemented,
        TwirpErrorCode::Internal,
        TwirpErrorCode::Unavailable,
        TwirpErrorCode::Dataloss,
    ];
    for code in codes {
        let error = TwirpError::new(code, "msg".to_string());
        let mut response = error_to_response(error.clone());
        response.error_ext = None;
        assert_eq!(error_from_response(&response), error);
    }
}

#[test]
fn test_status_not_reused_when_message_differs() {
    // A wrapped status is returned verbatim only while its code and message
    // still agree with the error's own.
    let status = GrpcStatus {
        code: GrpcCode::NotFound,
        message: "Not found".to_string(),
        details: b"some_dummy_details".to_vec(),
    };
    let mut error = TwirpError::from(status);
    error.msg = "renamed".to_string();
    let rebuilt = GrpcStatus::from(error);
    assert_eq!(rebuilt.code, GrpcCode::NotFound);
    assert_eq!(rebuilt.message, "renamed");
    assert_eq!(rebuilt.details, b"");
}

#[test]
fn test_meta_equality_ignores_insertion_order() {
    // The metadata is a mapping: the same pairs in another insertion order
    // make an equal error, a changed value does not.
    let one = TwirpError::internal("boom".to_string())
        .with_meta("a".to_string(), "1".to_string())
        .with_meta("b".to_string(), "2".to_string());
    let other = TwirpError::internal("boom".to_string())
        .with_meta("b".to_string(), "2".to_string())
        .with_meta("a".to_string(), "1".to_string());
    assert_eq!(one, other);
    let changed = TwirpError::internal("boom".to_string())
        .with_meta("a".to_string(), "1".to_string())
        .with_meta("b".to_string(), "3".to_string());
    assert_ne!(one, changed);
    let fewer = TwirpError::internal("boom".to_string())
        .with_meta("a".to_string(), "1".to_string());
    assert_ne!(one, fewer);
}

#[test]
fn test_twirp_error_from_status() {
    let error = twirp_error_from_status(GrpcStatus::new(
        GrpcCode::PermissionDenied,
        "no entry".to_string(),
    ));
    assert_eq!(error.code(), TwirpErrorCode::PermissionDenied);
    assert_eq!(error.message(), "no entry");
    assert_eq!(error.meta_iter(), Vec::new());
    match &error.cause {
        TwirpErrorCause::Status(s) => assert_eq!(s.message, "no entry"),
        _ => panic!("the status must be retained as the cause"),
    }
}

#[test]
fn test_grpc_code_mapping() {
    assert_eq!(GrpcCode::from(TwirpErrorCode::Malformed), GrpcCode::InvalidArgument);
    assert_eq!(GrpcCode::from(TwirpErrorCode::BadRoute), GrpcCode::NotFound);
    assert_eq!(GrpcCode::from(TwirpErrorCode::Dataloss), GrpcCode::DataLoss);
    assert_eq!(GrpcCode::from(TwirpErrorCode::Canceled), GrpcCode::Cancelled);
    assert_eq!(TwirpErrorCode::from(GrpcCode::Okay), TwirpErrorCode::Unknown);
    assert_eq!(TwirpErrorCode::from(GrpcCode::DataLoss), TwirpErrorCode::Dataloss);
    assert_eq!(
        TwirpErrorCode::from(GrpcCode::Unauthenticated),
        TwirpErrorCode::Unauthenticated
    );
}
