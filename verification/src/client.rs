//! The client runtime's decisions: URL construction from a base and a
//! method path, codec selection, the classification of a response as a
//! typed payload to decode or an error, and the exact error values for each
//! way a call can fail. The transport itself — an HTTP service polled for
//! readiness and called — stays outside; every value it produces or
//! consumes is decided here.

use vstd::prelude::*;
use vstd::string::{StrSliceExecFns, StringExecFns};
use crate::error::{spec_simple_error, TwirpError, TwirpErrorCode};
use crate::http::{HttpRequest, HttpResponse};
use crate::server::ContentType;

verus! {

/// The configuration of a Twirp client: an optional base URL for absolute
/// request URIs, and the codec requests are written in (binary protobuf
/// unless JSON is chosen).
pub struct TwirpHttpClient {
    /// The base URL requests are made under, when one was given.
    pub base_url: Option<String>,
    /// Whether requests and responses use JSON instead of binary protobuf.
    pub use_json: bool,
}

/// The base URL as kept by the client: a single trailing slash is removed so
/// that concatenation with a method path works.
pub open spec fn spec_base_of(base_url: Seq<char>) -> Seq<char> {
    if base_url.len() > 0 && base_url.last() == '/' {
        base_url.drop_last()
    } else {
        base_url
    }
}

impl TwirpHttpClient {
    /// A client that prefixes every request path with the given base URL,
    /// using binary protobuf until JSON is chosen.
    pub fn new_with_base(base_url: String) -> (r: Self)
        ensures
            r.base_url matches Some(b) && b@ == spec_base_of(base_url@),
            r.use_json == false,
    {
        let n = base_url.as_str().unicode_len();
        let base = if n > 0 && base_url.as_str().get_char(n - 1) == '/' {
            let b = base_url.as_str().substring_char(0, n - 1).to_owned();
            proof {
                assert(b@ =~= spec_base_of(base_url@));
            }
            b
        } else {
            base_url
        };
        TwirpHttpClient { base_url: Some(base), use_json: false }
    }

    /// A client without a base URL: request URIs are the method paths
    /// themselves.
    pub fn new() -> (r: Self)
        ensures
            r.base_url is None,
            r.use_json == false,
    {
        TwirpHttpClient { base_url: None, use_json: false }
    }

    /// Use JSON for requests and responses instead of binary protobuf.
    pub fn use_json(&mut self)
        ensures
            final(self).use_json == true,
            final(self).base_url == old(self).base_url,
    {
        self.use_json = true;
    }

    /// Use binary protobuf for requests and responses (the default).
    pub fn use_binary_protobuf(&mut self)
        ensures
            final(self).use_json == false,
            final(self).base_url == old(self).base_url,
    {
        self.use_json = false;
    }

    /// The codec this client writes requests in.
    pub fn request_content_type(&self) -> (r: ContentType)
        ensures
            r == (if self.use_json {
                ContentType::Json
            } else {
                ContentType::Protobuf
            }),
    {
        if self.use_json {
            ContentType::Json
        } else {
            ContentType::Protobuf
        }
    }

    /// Builds the HTTP request for a call: a POST to the base URL followed
    /// by the method path (or the path alone), the client's codec in the
    /// `Content-Type` header, and the already-encoded input as the body.
    pub fn build_request(&self, path: &str, body: Vec<u8>) -> (r: HttpRequest)
        ensures
            r.method@ == "POST"@,
            r.uri@ == (match self.base_url {
                Some(b) => b@ + path@,
                None => path@,
            }),
            r.content_type matches Some(ct) && ct@ == (if self.use_json {
                "application/json"@
            } else {
                "application/protobuf"@
            }),
            r.body == body,
    {
        let uri = match &self.base_url {
            Some(b) => b.clone().concat(path),
            None => String::from_str(path),
        };
        HttpRequest {
            method: String::from_str("POST"),
            uri,
            content_type: Some(String::from_str(self.request_content_type().header_value())),
            body,
        }
    }

    /// Classifies a collected response: on status 200, the codec the typed
    /// output must be decoded with; otherwise, or when the `Content-Type`
    /// is missing or unsupported, the error the call fails with.
    pub fn classify_response(&self, resp: &HttpResponse) -> (r: Result<ContentType, TwirpError>)
        ensures
            resp.status != 200 ==> (r matches Err(e) && (match resp.error_ext {
                Some(x) => e@ == x@,
                None => e@ == crate::http::spec_response_error(resp.status, resp.body@),
            })),
            resp.status == 200 ==> (match resp.content_type {
                Some(ct) => if ct@ == "application/protobuf"@ {
                    r == Ok::<ContentType, TwirpError>(ContentType::Protobuf)
                } else if ct@ == "application/json"@ {
                    r == Ok::<ContentType, TwirpError>(ContentType::Json)
                } else {
                    r matches Err(e) && e@ == spec_simple_error(
                        TwirpErrorCode::Malformed,
                        "Unsupported response content-type: "@ + ct@,
                    )
                },
                None => r matches Err(e) && e@ == spec_simple_error(
                    TwirpErrorCode::Malformed,
                    "No content-type in the response"@,
                ),
            }),
    {
        if resp.status != 200 {
            return Err(crate::http::error_from_response(resp));
        }
        match &resp.content_type {
            Some(ct) => {
                if crate::text::str_eq(ct.as_str(), "application/protobuf") {
                    Ok(ContentType::Protobuf)
                } else if crate::text::str_eq(ct.as_str(), "application/json") {
                    Ok(ContentType::Json)
                } else {
                    Err(
                        TwirpError::new(
                            TwirpErrorCode::Malformed,
                            String::from_str("Unsupported response content-type: ").concat(
                                ct.as_str(),
                            ),
                        ),
                    )
                }
            },
            None => Err(
                TwirpError::new(
                    TwirpErrorCode::Malformed,
                    String::from_str("No content-type in the response"),
                ),
            ),
        }
    }
}

/// The `unknown` error for a transport that was not ready to take the call.
pub fn not_ready_error(cause: String) -> (r: TwirpError)
    ensures
        r@ == spec_simple_error(TwirpErrorCode::Unknown, "Service is not ready: "@ + cause@),
        r.wf(),
        r.cause matches crate::error::TwirpErrorCause::Opaque(c) && c@ == cause@,
{
    let msg = String::from_str("Service is not ready: ").concat(cause.as_str());
    TwirpError::wrap(TwirpErrorCode::Unknown, msg, cause)
}

/// The `unknown` error for a transport failure during the request.
pub fn transport_error(cause: String) -> (r: TwirpError)
    ensures
        r@ == spec_simple_error(
            TwirpErrorCode::Unknown,
            "Transport error during the request: "@ + cause@,
        ),
        r.wf(),
        r.cause matches crate::error::TwirpErrorCause::Opaque(c) && c@ == cause@,
{
    let msg = String::from_str("Transport error during the request: ").concat(cause.as_str());
    TwirpError::wrap(TwirpErrorCode::Unknown, msg, cause)
}

/// The `malformed` error for a request that could not be constructed.
pub fn request_build_error(cause: String) -> (r: TwirpError)
    ensures
        r@ == spec_simple_error(
            TwirpErrorCode::Malformed,
            "Failed to construct request: "@ + cause@,
        ),
        r.wf(),
{
    let msg = String::from_str("Failed to construct request: ").concat(cause.as_str());
    TwirpError::wrap(TwirpErrorCode::Malformed, msg, cause)
}

/// The `malformed` error for an input that could not be serialized to
/// binary protobuf: a client-side serialization failure, like the JSON
/// branch, faults the request being built, not the service.
pub fn request_encode_error(cause: String) -> (r: TwirpError)
    ensures
        r@ == spec_simple_error(
            TwirpErrorCode::Malformed,
            "Failed to serialize to protobuf: "@ + cause@,
        ),
        r.wf(),
{
    let msg = String::from_str("Failed to serialize to protobuf: ").concat(cause.as_str());
    TwirpError::wrap(TwirpErrorCode::Malformed, msg, cause)
}

/// The `malformed` error for an input that could not be serialized to JSON.
pub fn request_json_encode_error(cause: String) -> (r: TwirpError)
    ensures
        r@ == spec_simple_error(
            TwirpErrorCode::Malformed,
            "Failed to serialize request to JSON: "@ + cause@,
        ),
        r.wf(),
{
    let msg = String::from_str("Failed to serialize request to JSON: ").concat(cause.as_str());
    TwirpError::wrap(TwirpErrorCode::Malformed, msg, cause)
}

/// The `internal` error for a response body that could not be collected.
pub fn response_read_error(cause: String) -> (r: TwirpError)
    ensures
        r@ == spec_simple_error(
            TwirpErrorCode::Internal,
            "Failed to load request body: "@ + cause@,
        ),
        r.wf(),
{
    let msg = String::from_str("Failed to load request body: ").concat(cause.as_str());
    TwirpError::wrap(TwirpErrorCode::Internal, msg, cause)
}

/// The `malformed` error for a 200 response whose binary protobuf body did
/// not decode.
pub fn bad_binary_response(cause: String) -> (r: TwirpError)
    ensures
        r@ == spec_simple_error(
            TwirpErrorCode::Malformed,
            "Bad response binary protobuf encoding: "@ + cause@,
        ),
        r.wf(),
{
    let msg = String::from_str("Bad response binary protobuf encoding: ").concat(cause.as_str());
    TwirpError::wrap(TwirpErrorCode::Malformed, msg, cause)
}

/// The `malformed` error for a 200 response whose JSON body did not parse.
pub fn bad_json_response(cause: String) -> (r: TwirpError)
    ensures
        r@ == spec_simple_error(
            TwirpErrorCode::Malformed,
            "Failed to parse JSON response: "@ + cause@,
        ),
        r.wf(),
{
    let msg = String::from_str("Failed to parse JSON response: ").concat(cause.as_str());
    TwirpError::wrap(TwirpErrorCode::Malformed, msg, cause)
}

/// The `internal` error for a JSON response that parsed but could not be
/// transcoded to the method's output type.
pub fn response_transcode_error(cause: String) -> (r: TwirpError)
    ensures
        r@ == spec_simple_error(
            TwirpErrorCode::Internal,
            "Internal error while parsing the JSON response: "@ + cause@,
        ),
        r.wf(),
{
    let msg = String::from_str("Internal error while parsing the JSON response: ").concat(
        cause.as_str(),
    );
    TwirpError::wrap(TwirpErrorCode::Internal, msg, cause)
}

} // verus!
