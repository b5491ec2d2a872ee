use twurst::client::{
    bad_binary_response, bad_json_response, not_ready_error, transport_error, TwirpHttpClient,
};
use twurst::error::{TwirpError, TwirpErrorCode};
use twurst::http::HttpResponse;
use prost::Message;
use twurst::server::ContentType;

#[test]
fn test_base_url_trailing_slash() {
    let client = TwirpHttpClient::new_with_base("http://example.com/twirp/".to_string());
    let request = client.build_request("/foo", Vec::new());
    assert_eq!(request.uri, "http://example.com/twirp/foo");
    let client = TwirpHttpClient::new_with_base("http://example.com/twirp".to_string());
    let request = client.build_request("/foo", Vec::new());
    assert_eq!(request.uri, "http://example.com/twirp/foo");
}

#[test]
fn test_request_without_base() {
    let mut client = TwirpHttpClient::new();
    let request = client.build_request("/foo", b"x".to_vec());
    assert_eq!(request.method, "POST");
    assert_eq!(request.uri, "/foo");
    assert_eq!(request.content_type.as_deref(), Some("application/protobuf"));
    assert_eq!(request.body, b"x");
    client.use_json();
    let request = client.build_request("/foo", Vec::new());
    assert_eq!(request.content_type.as_deref(), Some("application/json"));
    client.use_binary_protobuf();
    let request = client.build_request("/foo", Vec::new());
    assert_eq!(request.content_type.as_deref(), Some("application/protobuf"));
}

#[test]
fn test_classify_ok_responses() {
    let client = TwirpHttpClient::new();
    let response = HttpResponse {
        status: 200,
        content_type: Some("application/protobuf".to_string()),
        body: Vec::new(),
        error_ext: None,
    };
    assert_eq!(client.classify_response(&response), Ok(ContentType::Protobuf));
    let response = HttpResponse {
        status: 200,
        content_type: Some("application/json".to_string()),
        body: Vec::new(),
        error_ext: None,
    };
    assert_eq!(client.classify_response(&response), Ok(ContentType::Json));
}

#[test]
fn test_wrong_content_type_response() {
    let client = TwirpHttpClient::new();
    let response = HttpResponse {
        status: 200,
        content_type: Some("foo/bar".to_string()),
        body: b"foo".to_vec(),
        error_ext: None,
    };
    assert_eq!(
        client.classify_response(&response),
        Err(TwirpError::malformed(
            "Unsupported response content-type: foo/bar".to_string()
        ))
    );
    let response = HttpResponse { status: 200, content_type: None, body: Vec::new(), error_ext: None };
    assert_eq!(
        client.classify_response(&response),
        Err(TwirpError::malformed("No content-type in the response".to_string()))
    );
}

#[test]
fn test_request_with_base_twirp_error() {
    // A non-200 response carrying a Twirp error body fails the call with
    // that error.
    let client = TwirpHttpClient::new_with_base("http://example.com/twirp".to_string());
    let response = HttpResponse {
        status: 404,
        content_type: Some("application/json".to_string()),
        body: b"{\"code\":\"not_found\",\"msg\":\"not found\"}".to_vec(),
        error_ext: None,
    };
    assert_eq!(
        client.classify_response(&response),
        Err(TwirpError::not_found("not found".to_string()))
    );
}

#[test]
fn test_request_with_base_other_error() {
    // A non-200 response without a Twirp error body is mapped from its
    // status, the body as the message.
    let client = TwirpHttpClient::new_with_base("http://example.com/twirp/".to_string());
    let response = HttpResponse {
        status: 401,
        content_type: None,
        body: b"foo".to_vec(),
        error_ext: None,
    };
    assert_eq!(
        client.classify_response(&response),
        Err(TwirpError::unauthenticated("foo".to_string()))
    );
}

#[test]
fn not_ready_service() {
    // A transport that is not ready fails the call as unknown, the cause's
    // own description appended.
    let error = not_ready_error("Twirp Internal error: foo".to_string());
    assert_eq!(
        error,
        TwirpError::new(
            TwirpErrorCode::Unknown,
            "Service is not ready: Twirp Internal error: foo".to_string()
        )
    );
}

#[test]
fn request_transport_error() {
    let error = transport_error("Transport error".to_string());
    assert_eq!(
        error,
        TwirpError::new(
            TwirpErrorCode::Unknown,
            "Transport error during the request: Transport error".to_string()
        )
    );
}

#[test]
fn binary_request_without_base_ok() {
    // The client posts the encoded input and decodes a 200 protobuf reply.
    let client = TwirpHttpClient::new();
    let message = prost_types::Timestamp { seconds: 10, nanos: 0 };
    let request = client.build_request("/foo", message.encode_to_vec());
    assert_eq!(request.method, "POST");
    assert_eq!(request.uri, "/foo");
    assert_eq!(request.content_type.as_deref(), Some("application/protobuf"));
    // the peer echoes the body
    let response = HttpResponse {
        status: 200,
        content_type: Some("application/protobuf".to_string()),
        body: request.body,
        error_ext: None,
    };
    assert_eq!(client.classify_response(&response), Ok(ContentType::Protobuf));
    let decoded = prost_types::Timestamp::decode(response.body.as_slice()).unwrap();
    assert_eq!(decoded, message);
}

#[test]
fn json_request_without_base_ok() {
    let mut client = TwirpHttpClient::new();
    client.use_json();
    let request = client.build_request("/foo", b"\"1970-01-01T00:00:10Z\"".to_vec());
    assert_eq!(request.method, "POST");
    assert_eq!(request.uri, "/foo");
    assert_eq!(request.content_type.as_deref(), Some("application/json"));
    let response = HttpResponse {
        status: 200,
        content_type: Some("application/json".to_string()),
        body: request.body,
        error_ext: None,
    };
    assert_eq!(client.classify_response(&response), Ok(ContentType::Json));
    assert_eq!(response.body, b"\"1970-01-01T00:00:10Z\"");
}

#[test]
fn request_encode_failure_is_malformed() {
    // A client-side serialization failure faults the request being built.
    let error = twurst::client::request_encode_error("buffer full".to_string());
    assert_eq!(error.code(), TwirpErrorCode::Malformed);
    assert_eq!(error.message(), "Failed to serialize to protobuf: buffer full");
}

#[test]
fn invalid_protobuf_response() {
    let decode_error = prost_types::Timestamp::decode(&b"azerty"[..])
        .expect_err("the body azerty must not decode");
    let error = bad_binary_response(decode_error.to_string());
    assert_eq!(
        error,
        TwirpError::malformed(
            "Bad response binary protobuf encoding: failed to decode Protobuf message: buffer underflow".to_string()
        )
    );
}

#[test]
fn invalid_json_response() {
    let parse_error = serde_json::from_slice::<serde_json::Value>(b"foo")
        .expect_err("the body foo must not parse");
    let error = bad_json_response(parse_error.to_string());
    assert_eq!(
        error,
        TwirpError::malformed(
            "Failed to parse JSON response: expected ident at line 1 column 2".to_string()
        )
    );
}
