use twurst::error::{TwirpError, TwirpErrorCode};
use twurst::example::{ExampleServiceServicer, TestRequest as ExampleRequest};
use twurst::integration::{
    bearer_token_from_header, response_from_request, Choice, ExtractBearerToken,
    IntegrationServiceServicer, NestedMessage, TestEnum, TestNested, TestRequest,
    TestRequestOption, TestResponseOption,
};
use twurst::well_known::{TimestampValue, ValueKind};

fn request() -> TestRequest {
    TestRequest {
        string: "test_simple_twirp_echo".to_string(),
        time: Some(TimestampValue { seconds: 1223454355, nanos: 0 }),
        nested: Some(TestNested::from(Choice::X)),
        duration: None,
        any: None,
        value: Some(ValueKind::Text("foo".to_string())),
        option: Some(TestRequestOption::Right(42u64)),
    }
}

#[test]
fn test_without_networking() {
    let servicer = IntegrationServiceServicer {};
    let response = servicer
        .test(request(), ExtractBearerToken("password".to_string()))
        .expect("the right password passes");
    assert_eq!(response.string, "test_simple_twirp_echo");
    assert_eq!(response.time, Some(TimestampValue { seconds: 1223454355, nanos: 0 }));
    assert_eq!(response.option, Some(TestResponseOption::Right(42u64)));
}

#[test]
fn test_wrong_password() {
    let servicer = IntegrationServiceServicer {};
    let error = servicer
        .test(request(), ExtractBearerToken("foo".to_string()))
        .expect_err("a wrong password is refused");
    assert_eq!(error, TwirpError::unauthenticated("Invalid password".to_string()));
}

#[test]
fn test_no_auth_header() {
    let error = bearer_token_from_header(&None).expect_err("a missing header is refused");
    assert_eq!(error.code(), TwirpErrorCode::Unauthenticated);
    assert_eq!(error.message(), "Authorization header is required");
}

#[test]
fn test_bearer_token_extraction() {
    let token = bearer_token_from_header(&Some(b"Bearer password".to_vec()))
        .expect("a well-formed header yields its token");
    assert_eq!(token.0, "password");
    let error = bearer_token_from_header(&Some(b"Basic password".to_vec()))
        .expect_err("another scheme is refused");
    assert_eq!(
        error.message(),
        "The authorization header must start with `Bearer `"
    );
    let error = bearer_token_from_header(&Some(vec![66, 101, 7]))
        .expect_err("non-text bytes are refused");
    assert_eq!(error.message(), "Authorization header must be valid UTF-8");
}

#[test]
fn test_server_stream_items() {
    // The server yields the echo and then a not_found error: exactly two
    // items, the second carrying the error.
    let servicer = IntegrationServiceServicer {};
    let items = servicer
        .test_server_stream(request(), ExtractBearerToken("password".to_string()))
        .expect("the right password passes");
    assert_eq!(items.len(), 2);
    assert_eq!(items[0].as_ref().unwrap().string, "test_simple_twirp_echo");
    assert_eq!(
        items[1].as_ref().unwrap_err(),
        &TwirpError::not_found("foo".to_string())
    );
}

#[test]
fn test_client_stream_first_item() {
    let servicer = IntegrationServiceServicer {};
    let response = servicer
        .test_client_stream(
            vec![Ok(request()), Ok(request())],
            ExtractBearerToken("password".to_string()),
        )
        .expect("the first item is echoed");
    assert_eq!(response.string, "test_simple_twirp_echo");
    let error = servicer
        .test_client_stream(Vec::new(), ExtractBearerToken("password".to_string()))
        .expect_err("an empty stream is refused");
    assert_eq!(error, TwirpError::not_found("No request".to_string()));
}

#[test]
fn test_stream_echoes_each_item() {
    let servicer = IntegrationServiceServicer {};
    let items = servicer
        .test_stream(
            vec![Ok(request()), Err(TwirpError::aborted("late".to_string()))],
            ExtractBearerToken("password".to_string()),
        )
        .expect("the right password passes");
    assert_eq!(items.len(), 2);
    assert_eq!(items[0].as_ref().unwrap().string, "test_simple_twirp_echo");
    assert_eq!(
        items[1].as_ref().unwrap_err(),
        &TwirpError::aborted("late".to_string())
    );
}

#[test]
fn test_response_echoes_every_field() {
    let response = response_from_request(request());
    assert_eq!(response.string, "test_simple_twirp_echo");
    assert_eq!(response.nested, Some(TestNested::from(Choice::X)));
    assert_eq!(response.duration, None);
    match response.value {
        Some(ValueKind::Text(ref s)) => assert_eq!(s, "foo"),
        _ => panic!("the value field must carry the text through"),
    }
}

#[test]
fn test_choice_conversions() {
    assert_eq!(TestEnum::from(Choice::X), TestEnum::X);
    assert_eq!(TestEnum::from(Choice::Y), TestEnum::Y);
    assert_eq!(NestedMessage::from(Choice::Y), NestedMessage { enum_value: 2 });
    assert_eq!(
        TestNested::from(Choice::X),
        TestNested { field0: Some(NestedMessage { enum_value: 1 }) }
    );
    assert_eq!(Choice::try_from(TestNested::from(Choice::X)), Ok(Choice::X));
    assert_eq!(Choice::try_from(TestNested::from(Choice::Y)), Ok(Choice::Y));
    assert_eq!(
        Choice::try_from(TestNested { field0: Some(NestedMessage { enum_value: 0 }) }),
        Err(())
    );
    assert_eq!(Choice::try_from(TestNested { field0: None }), Err(()));
    assert_eq!(TestEnum::from_number(3), None);
}

#[test]
fn test_example_echo() {
    // The example service echoes a string and a timestamp, as the JSON
    // scenario sends `{string:"x", time:"1970-01-01T00:00:10Z"}`.
    let servicer = ExampleServiceServicer {};
    let response = servicer
        .test(ExampleRequest {
            string: "x".to_string(),
            time: Some(TimestampValue { seconds: 10, nanos: 0 }),
        })
        .expect("the echo always succeeds");
    assert_eq!(response.string, "x");
    assert_eq!(response.time, Some(TimestampValue { seconds: 10, nanos: 0 }));
}
