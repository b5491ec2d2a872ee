//! A plain-value model of the HTTP responses the Twirp runtime builds and
//! reads, and the two directions of the error-to-response mapping: outbound
//! (status, JSON body and a typed copy in the extensions) and inbound (use
//! the typed copy, else parse the body, else synthesize from the status).

use vstd::prelude::*;
use crate::error::{TwirpError, TwirpErrorCode, TwirpErrorView, spec_http_status};
use crate::json::{spec_error_json, spec_parse_error};
use crate::text::lossy_utf8;

verus! {

broadcast use vstd::utf8::encode_utf8_valid_utf8, vstd::utf8::encode_utf8_decode_utf8;

/// An HTTP response as the Twirp runtime sees it: the status code, the
/// `Content-Type` header, the collected body, and the typed error a local
/// handler may have stored in the response's extensions.
pub struct HttpResponse {
    /// The HTTP status code.
    pub status: u16,
    /// The `Content-Type` header, when present.
    pub content_type: Option<String>,
    /// The response body.
    pub body: Vec<u8>,
    /// A typed error carried in the response extensions, when the response
    /// was built locally from one.
    pub error_ext: Option<TwirpError>,
}

/// An HTTP request as the Twirp runtime builds it: the method, the target
/// URI, the `Content-Type` header, and the encoded body.
pub struct HttpRequest {
    /// The HTTP method.
    pub method: String,
    /// The request URI.
    pub uri: String,
    /// The `Content-Type` header, when present.
    pub content_type: Option<String>,
    /// The request body.
    pub body: Vec<u8>,
}

/// The error code synthesized from an HTTP status when a response carries no
/// Twirp error body.
pub open spec fn spec_fallback_code(status: u16) -> TwirpErrorCode {
    if status == 408 { TwirpErrorCode::DeadlineExceeded }
    else if status == 403 { TwirpErrorCode::PermissionDenied }
    else if status == 401 { TwirpErrorCode::Unauthenticated }
    else if status == 429 { TwirpErrorCode::ResourceExhausted }
    else if status == 412 { TwirpErrorCode::FailedPrecondition }
    else if status == 501 { TwirpErrorCode::Unimplemented }
    else if status == 502 || status == 503 || status == 504 { TwirpErrorCode::Unavailable }
    else if status == 404 { TwirpErrorCode::NotFound }
    else if 500 <= status < 600 { TwirpErrorCode::Internal }
    else if 400 <= status < 500 { TwirpErrorCode::Malformed }
    else { TwirpErrorCode::Unknown }
}

/// The error code synthesized from an HTTP status.
pub fn fallback_code(status: u16) -> (r: TwirpErrorCode)
    ensures
        r == spec_fallback_code(status),
{
    if status == 408 { TwirpErrorCode::DeadlineExceeded }
    else if status == 403 { TwirpErrorCode::PermissionDenied }
    else if status == 401 { TwirpErrorCode::Unauthenticated }
    else if status == 429 { TwirpErrorCode::ResourceExhausted }
    else if status == 412 { TwirpErrorCode::FailedPrecondition }
    else if status == 501 { TwirpErrorCode::Unimplemented }
    else if status == 502 || status == 503 || status == 504 { TwirpErrorCode::Unavailable }
    else if status == 404 { TwirpErrorCode::NotFound }
    else if 500 <= status && status < 600 { TwirpErrorCode::Internal }
    else if 400 <= status && status < 500 { TwirpErrorCode::Malformed }
    else { TwirpErrorCode::Unknown }
}

/// The error value read from a response without a typed error in its
/// extensions: the body parsed as canonical error JSON when it is one, else
/// an error synthesized from the status whose message is the body text.
pub open spec fn spec_response_error(status: u16, body: Seq<u8>) -> TwirpErrorView {
    if vstd::utf8::valid_utf8(body) && spec_parse_error(vstd::utf8::decode_utf8(body)) is Some {
        spec_parse_error(vstd::utf8::decode_utf8(body)).unwrap()
    } else {
        TwirpErrorView {
            code: spec_fallback_code(status),
            msg: lossy_utf8(body),
            meta: Seq::empty(),
        }
    }
}

/// Builds the HTTP response for an error: the mapped status, an
/// `application/json` body holding the error's canonical JSON, and the error
/// itself in the extensions.
pub fn error_to_response(e: TwirpError) -> (r: HttpResponse)
    ensures
        r.status == spec_http_status(e@.code),
        r.content_type matches Some(ct) && ct@ == "application/json"@,
        r.body@ == crate::text::spec_bytes_of(spec_error_json(e@)),
        r.error_ext == Some(e),
{
    let json = crate::json::error_to_json(&e);
    let body = crate::text::str_to_bytes(json.as_str());
    HttpResponse {
        status: e.code.http_status(),
        content_type: Some(String::from_str("application/json")),
        body,
        error_ext: Some(e),
    }
}

impl From<TwirpError> for HttpResponse {
    fn from(e: TwirpError) -> (r: HttpResponse) {
        error_to_response(e)
    }
}

impl vstd::std_specs::convert::FromSpecImpl<TwirpError> for HttpResponse {
    open spec fn obeys_from_spec() -> bool {
        false
    }

    open spec fn from_spec(e: TwirpError) -> HttpResponse {
        arbitrary()
    }
}

/// Reads the error out of a response: a typed error in the extensions is
/// used as it stands; otherwise the body decides per
/// [`spec_response_error`]. Lenient by design: a bad error beats no error.
pub fn error_from_response(resp: &HttpResponse) -> (r: TwirpError)
    ensures
        match resp.error_ext {
            Some(e) => r@ == e@,
            None => r@ == spec_response_error(resp.status, resp.body@),
        },
        resp.error_ext is None ==> r.wf(),
{
    match &resp.error_ext {
        Some(e) => e.clone(),
        None => {
            match crate::text::string_from_utf8(resp.body.as_slice()) {
                Some(s) => match crate::json::error_from_json(s.as_str()) {
                    Some(e) => e,
                    None => TwirpError::new(
                        fallback_code(resp.status),
                        crate::text::string_from_utf8_lossy(resp.body.as_slice()),
                    ),
                },
                None => TwirpError::new(
                    fallback_code(resp.status),
                    crate::text::string_from_utf8_lossy(resp.body.as_slice()),
                ),
            }
        },
    }
}

/// Law: an error written out as an HTTP response and read back from status
/// and body alone is the same error (code, message and metadata), for any
/// error whose metadata keys are unique. The typed copy in the extensions is
/// not needed for this.
pub proof fn lemma_error_response_round_trip(v: TwirpErrorView)
    requires
        crate::error::wf_meta(v.meta),
    ensures
        spec_response_error(spec_http_status(v.code), crate::text::spec_bytes_of(spec_error_json(v)))
            == v,
{
    crate::json::lemma_error_json_round_trip(v);
}

} // verus!
