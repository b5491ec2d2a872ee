//! The unary server runtime's decisions: content negotiation, the errors
//! produced for undecodable requests, response construction that echoes the
//! request's codec, and the fallbacks for unroutable paths.
//!
//! Reading the request body and calling the protobuf codec are the
//! surrounding framework's work; every decision about what they yield is
//! made here, on plain values.

use vstd::prelude::*;
use vstd::string::StringExecFns;
use crate::error::{spec_simple_error, TwirpError, TwirpErrorCode};
use crate::grpc::{GrpcCode, GrpcStatus};
use crate::http::HttpResponse;

verus! {

/// The codec a request or response body is written in.
#[derive(Clone, Copy, Debug, PartialEq, Eq, Structural)]
pub enum ContentType {
    /// Binary protobuf, `application/protobuf`.
    Protobuf,
    /// Canonical protobuf JSON, `application/json`.
    Json,
}

impl ContentType {
    /// The codec selected by a request's `Content-Type` header: a missing
    /// header and an unsupported value are `malformed` errors with the exact
    /// wire messages.
    pub fn from_headers(content_type: &Option<String>) -> (r: Result<ContentType, TwirpError>)
        ensures
            match content_type {
                Some(ct) => if ct@ == "application/protobuf"@ {
                    r == Ok::<ContentType, TwirpError>(ContentType::Protobuf)
                } else if ct@ == "application/json"@ {
                    r == Ok::<ContentType, TwirpError>(ContentType::Json)
                } else {
                    r matches Err(e) && e@ == spec_simple_error(
                        TwirpErrorCode::Malformed,
                        "Unsupported content type: "@ + ct@,
                    ) && e.wf() && e.cause is Absent
                },
                None => r matches Err(e) && e@ == spec_simple_error(
                    TwirpErrorCode::Malformed,
                    "No content-type header"@,
                ) && e.wf() && e.cause is Absent,
            },
    {
        match content_type {
            None => Err(
                TwirpError::new(
                    TwirpErrorCode::Malformed,
                    String::from_str("No content-type header"),
                ),
            ),
            Some(ct) => {
                if crate::text::str_eq(ct.as_str(), "application/protobuf") {
                    Ok(ContentType::Protobuf)
                } else if crate::text::str_eq(ct.as_str(), "application/json") {
                    Ok(ContentType::Json)
                } else {
                    Err(
                        TwirpError::new(
                            TwirpErrorCode::Malformed,
                            String::from_str("Unsupported content type: ").concat(ct.as_str()),
                        ),
                    )
                }
            },
        }
    }

    /// The `Content-Type` header value this codec is named by.
    pub fn header_value(self) -> (r: &'static str)
        ensures
            self is Protobuf ==> r@ == "application/protobuf"@,
            self is Json ==> r@ == "application/json"@,
    {
        match self {
            ContentType::Protobuf => "application/protobuf",
            ContentType::Json => "application/json",
        }
    }
}

/// The `malformed` error for a request body that is not valid binary
/// protobuf, with the codec's own account of the failure appended.
pub fn invalid_binary_request(detail: String) -> (r: TwirpError)
    ensures
        r@ == spec_simple_error(
            TwirpErrorCode::Malformed,
            "Invalid binary protobuf request: "@ + detail@,
        ),
        r.wf(),
{
    TwirpError::new(
        TwirpErrorCode::Malformed,
        String::from_str("Invalid binary protobuf request: ").concat(detail.as_str()),
    )
}

/// The `malformed` error for a request body that is not valid protobuf
/// JSON, with the codec's own account of the failure appended.
pub fn invalid_json_request(detail: String) -> (r: TwirpError)
    ensures
        r@ == spec_simple_error(
            TwirpErrorCode::Malformed,
            "Invalid JSON protobuf request: "@ + detail@,
        ),
        r.wf(),
{
    TwirpError::new(
        TwirpErrorCode::Malformed,
        String::from_str("Invalid JSON protobuf request: ").concat(detail.as_str()),
    )
}

/// The `internal` error for a request body that could not be read.
pub fn body_read_error(cause: String) -> (r: TwirpError)
    ensures
        r@ == spec_simple_error(TwirpErrorCode::Internal, "Failed to read the request body"@),
        r.wf(),
        r.cause matches crate::error::TwirpErrorCause::Opaque(c) && c@ == cause@,
{
    TwirpError::wrap(
        TwirpErrorCode::Internal,
        String::from_str("Failed to read the request body"),
        cause,
    )
}

/// The `internal` error for a response that could not be serialized to
/// binary protobuf.
pub fn response_encode_error(detail: String) -> (r: TwirpError)
    ensures
        r@ == spec_simple_error(
            TwirpErrorCode::Internal,
            "Failed to serialize to protobuf: "@ + detail@,
        ),
        r.wf(),
{
    TwirpError::new(
        TwirpErrorCode::Internal,
        String::from_str("Failed to serialize to protobuf: ").concat(detail.as_str()),
    )
}

/// The `internal` error for a handler response that could not be built or
/// serialized; the failure itself is logged, not sent.
pub fn response_build_error() -> (r: TwirpError)
    ensures
        r@ == spec_simple_error(TwirpErrorCode::Internal, "Failed to build the response"@),
        r.wf(),
{
    TwirpError::new(TwirpErrorCode::Internal, String::from_str("Failed to build the response"))
}

/// The `internal` error for a JSON request that parsed but could not be
/// transcoded to the method's input type.
pub fn request_transcode_error() -> (r: TwirpError)
    ensures
        r@ == spec_simple_error(
            TwirpErrorCode::Internal,
            "Internal error while parsing the JSON request"@,
        ),
        r.wf(),
{
    TwirpError::new(
        TwirpErrorCode::Internal,
        String::from_str("Internal error while parsing the JSON request"),
    )
}

/// The successful response for an encoded handler result: status 200, the
/// request's own codec echoed in the `Content-Type` header, and the encoded
/// bytes as the body.
pub fn serialize_response(content_type: ContentType, encoded: Vec<u8>) -> (r: HttpResponse)
    ensures
        r.status == 200,
        content_type is Protobuf ==> (r.content_type matches Some(ct) && ct@
            == "application/protobuf"@),
        content_type is Json ==> (r.content_type matches Some(ct) && ct@ == "application/json"@),
        r.body == encoded,
        r.error_ext is None,
{
    HttpResponse {
        status: 200,
        content_type: Some(String::from_str(content_type.header_value())),
        body: encoded,
        error_ext: None,
    }
}

/// The response for a request whose path no route matched: `bad_route`,
/// status 404, with the path named in the message.
pub fn twirp_fallback(path: &str) -> (r: HttpResponse)
    ensures
        r.status == 404,
        r.content_type matches Some(ct) && ct@ == "application/json"@,
        r.body@ == crate::text::spec_bytes_of(
            crate::json::spec_error_json(
                spec_simple_error(
                    TwirpErrorCode::BadRoute,
                    path@ + " is not a supported Twirp method"@,
                ),
            ),
        ),
        r.error_ext matches Some(e) && e@ == spec_simple_error(
            TwirpErrorCode::BadRoute,
            path@ + " is not a supported Twirp method"@,
        ),
{
    let msg = String::from_str(path).concat(" is not a supported Twirp method");
    let e = TwirpError::new(TwirpErrorCode::BadRoute, msg);
    crate::http::error_to_response(e)
}

/// The gRPC status for a request whose path no route matched: `NotFound`,
/// with the path named in the message.
pub fn grpc_fallback(path: &str) -> (r: GrpcStatus)
    ensures
        r@.code == GrpcCode::NotFound,
        r@.message == path@ + " is not a supported gRPC method"@,
        r@.details == Seq::<u8>::empty(),
{
    GrpcStatus::new(
        GrpcCode::NotFound,
        String::from_str(path).concat(" is not a supported gRPC method"),
    )
}

} // verus!
