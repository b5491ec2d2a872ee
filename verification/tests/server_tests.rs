use prost::Message;
use twurst::error::{TwirpError, TwirpErrorCode};
use twurst::http::error_to_response;
use twurst::server::{
    invalid_binary_request, invalid_json_request, serialize_response, twirp_fallback, ContentType,
};
use twurst::stream::{
    binary_stream_chunk, encode_error_frame, encode_message_frame, json_stream_chunk,
};

#[test]
fn test_bad_route() {
    let response = twirp_fallback("/");
    assert_eq!(response.status, 404);
    assert_eq!(
        response.body,
        b"{\"code\":\"bad_route\",\"msg\":\"/ is not a supported Twirp method\"}"
    );
}

#[test]
fn test_no_content_type() {
    let error = match ContentType::from_headers(&None) {
        Err(e) => e,
        Ok(_) => panic!("a missing header must be refused"),
    };
    let response = error_to_response(error);
    assert_eq!(response.status, 400);
    assert_eq!(
        response.body,
        b"{\"code\":\"malformed\",\"msg\":\"No content-type header\"}"
    );
}

#[test]
fn test_bad_content_type() {
    let error = match ContentType::from_headers(&Some("foo/bar".to_string())) {
        Err(e) => e,
        Ok(_) => panic!("an unsupported content type must be refused"),
    };
    let response = error_to_response(error);
    assert_eq!(response.status, 400);
    assert_eq!(
        response.body,
        b"{\"code\":\"malformed\",\"msg\":\"Unsupported content type: foo/bar\"}"
    );
}

#[test]
fn test_content_type_negotiation() {
    assert_eq!(
        ContentType::from_headers(&Some("application/protobuf".to_string())),
        Ok(ContentType::Protobuf)
    );
    assert_eq!(
        ContentType::from_headers(&Some("application/json".to_string())),
        Ok(ContentType::Json)
    );
    assert_eq!(ContentType::Protobuf.header_value(), "application/protobuf");
    assert_eq!(ContentType::Json.header_value(), "application/json");
}

#[test]
fn test_ok_binary() {
    // An empty body decodes to the default value of a message type with no
    // required fields, and the encoded response is empty again.
    let request = prost_types::Timestamp::decode(&b""[..]).expect("empty body must decode");
    assert_eq!(request, prost_types::Timestamp::default());
    let encoded = request.encode_to_vec();
    let response = serialize_response(ContentType::Protobuf, encoded);
    assert_eq!(response.status, 200);
    assert_eq!(response.content_type.as_deref(), Some("application/protobuf"));
    assert_eq!(response.body, b"");
}

#[test]
fn test_bad_binary() {
    let decode_error = prost_types::Timestamp::decode(&b"1234"[..])
        .expect_err("the body 1234 must not decode");
    let error = invalid_binary_request(decode_error.to_string());
    assert_eq!(error.code(), TwirpErrorCode::Malformed);
    assert!(error.message().starts_with("Invalid binary protobuf request: "));
    let response = error_to_response(error);
    assert_eq!(response.status, 400);
    assert_eq!(
        response.body,
        b"{\"code\":\"malformed\",\"msg\":\"Invalid binary protobuf request: failed to decode Protobuf message: buffer underflow\"}"
    );
}

#[test]
fn test_bad_json() {
    let parse_error = serde_json::from_slice::<serde_json::Value>(b"foo")
        .expect_err("the body foo must not parse");
    let error = invalid_json_request(parse_error.to_string());
    assert_eq!(error.code(), TwirpErrorCode::Malformed);
    assert!(error.message().starts_with("Invalid JSON protobuf request: "));
    let response = error_to_response(error);
    assert_eq!(response.status, 400);
    assert_eq!(
        response.body,
        b"{\"code\":\"malformed\",\"msg\":\"Invalid JSON protobuf request: expected ident at line 1 column 2\"}"
    );
}

#[test]
fn test_ok_json() {
    let response = serialize_response(ContentType::Json, b"{}".to_vec());
    assert_eq!(response.status, 200);
    assert_eq!(response.content_type.as_deref(), Some("application/json"));
    assert_eq!(response.body, b"{}");
}

#[test]
fn test_binary_round_trip() {
    // Binary encoding then decoding yields an equal message.
    let message = prost_types::Timestamp { seconds: 10, nanos: 7 };
    let decoded = prost_types::Timestamp::decode(&message.encode_to_vec()[..]).unwrap();
    assert_eq!(decoded, message);
}

#[test]
fn test_json_round_trip() {
    // JSON encoding then decoding of the dynamic form yields an equal message.
    // The descriptor set describes a message `package.MyMessage` without fields.
    const FILE_DESCRIPTOR_SET_BYTES: &[u8] = &[
        10, 107, 10, 21, 101, 120, 97, 109, 112, 108, 101, 95, 115, 101, 114, 118, 105, 99, 101,
        46, 112, 114, 111, 116, 111, 18, 7, 112, 97, 99, 107, 97, 103, 101, 34, 11, 10, 9, 77,
        121, 77, 101, 115, 115, 97, 103, 101, 74, 52, 10, 6, 18, 4, 0, 0, 5, 1, 10, 8, 10, 1, 12,
        18, 3, 0, 0, 18, 10, 8, 10, 1, 2, 18, 3, 2, 0, 16, 10, 10, 10, 2, 4, 0, 18, 4, 4, 0, 5, 1,
        10, 10, 10, 3, 4, 0, 1, 18, 3, 4, 8, 17, 98, 6, 112, 114, 111, 116, 111, 51,
    ];
    let pool = prost_reflect::DescriptorPool::decode(FILE_DESCRIPTOR_SET_BYTES).unwrap();
    let descriptor = pool.get_message_by_name("package.MyMessage").unwrap();
    let message = prost_reflect::DynamicMessage::new(descriptor.clone());
    let json = serde_json::to_vec(&message).unwrap();
    let mut deserializer = serde_json::Deserializer::from_slice(&json);
    let decoded =
        prost_reflect::DynamicMessage::deserialize(descriptor, &mut deserializer).unwrap();
    assert_eq!(decoded, message);
}

#[test]
fn test_internal_error_builders() {
    let error = twurst::server::body_read_error("connection reset".to_string());
    assert_eq!(error.code(), TwirpErrorCode::Internal);
    assert_eq!(error.message(), "Failed to read the request body");
    let error = twurst::server::response_encode_error("buffer full".to_string());
    assert_eq!(error.message(), "Failed to serialize to protobuf: buffer full");
    let error = twurst::server::response_build_error();
    assert_eq!(error.message(), "Failed to build the response");
    let error = twurst::server::request_transcode_error();
    assert_eq!(error.message(), "Internal error while parsing the JSON request");
}

#[test]
fn test_message_frame() {
    let frame = encode_message_frame(&vec![1u8, 2, 3]).expect("a small payload frames");
    assert_eq!(frame, vec![0u8, 0, 0, 0, 3, 1, 2, 3]);
}

#[test]
fn test_error_frame() {
    let error = TwirpError::not_found("foo".to_string());
    let frame = encode_error_frame(&error);
    let json = b"{\"code\":\"not_found\",\"msg\":\"foo\"}";
    assert_eq!(frame[0], 48);
    assert_eq!(&frame[1..5], (json.len() as u32).to_be_bytes());
    assert_eq!(&frame[5..], json);
}

#[test]
fn test_binary_stream_chunks() {
    // A server yielding a message and then an error produces exactly two
    // frames, the second carrying the error in band.
    let ok_chunk = binary_stream_chunk(Ok(vec![9u8]));
    assert_eq!(ok_chunk, vec![0u8, 0, 0, 0, 1, 9]);
    let err_chunk = binary_stream_chunk(Err(TwirpError::not_found("foo".to_string())));
    assert_eq!(err_chunk[0], 48);
    assert_eq!(&err_chunk[5..], b"{\"code\":\"not_found\",\"msg\":\"foo\"}");
}

#[test]
fn test_json_stream_chunks() {
    assert_eq!(json_stream_chunk(Ok(b"{\"x\":1}".to_vec())), b"{\"message\":{\"x\":1}}");
    assert_eq!(
        json_stream_chunk(Err(TwirpError::not_found("foo".to_string()))),
        b"{\"error\":{\"code\":\"not_found\",\"msg\":\"foo\"}}"
    );
}
