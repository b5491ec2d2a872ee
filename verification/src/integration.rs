//! The integration service: an echo service guarded by a bearer token,
//! together with the typed request and response values it carries and the
//! bearer-token extractor's decision logic.

use vstd::prelude::*;
use vstd::string::StringExecFns;
use crate::error::{spec_simple_error, TwirpError, TwirpErrorCode};
use crate::well_known::{AnyValue, DurationValue, TimestampValue, ValueKind};

verus! {

/// A nested enum choice, as the wire carries it.
#[derive(Clone, Copy, Debug, PartialEq, Eq, Structural)]
pub enum TestEnum {
    Unknown,
    X,
    Y,
}

/// A nested message holding an enum field by its wire number.
#[derive(Clone, Copy, Debug, PartialEq, Eq, Structural)]
pub struct NestedMessage {
    pub enum_value: i32,
}

/// A message holding an optional nested message.
#[derive(Clone, Copy, Debug, PartialEq, Eq, Structural)]
pub struct TestNested {
    pub field0: Option<NestedMessage>,
}

/// A choice between the two meaningful enum values.
#[derive(Clone, Copy, Debug, PartialEq, Eq, Structural)]
pub enum Choice {
    X,
    Y,
}

/// The wire number of each enum value.
pub open spec fn spec_enum_number(e: TestEnum) -> i32 {
    match e {
        TestEnum::Unknown => 0,
        TestEnum::X => 1,
        TestEnum::Y => 2,
    }
}

impl TestEnum {
    /// The enum value with the given wire number, if any.
    pub fn from_number(value: i32) -> (r: Option<TestEnum>)
        ensures
            value == 0 ==> r == Some(TestEnum::Unknown),
            value == 1 ==> r == Some(TestEnum::X),
            value == 2 ==> r == Some(TestEnum::Y),
            !(0 <= value <= 2) ==> r is None,
    {
        if value == 0 {
            Some(TestEnum::Unknown)
        } else if value == 1 {
            Some(TestEnum::X)
        } else if value == 2 {
            Some(TestEnum::Y)
        } else {
            None
        }
    }

    /// The wire number of this enum value.
    pub fn number(self) -> (r: i32)
        ensures
            r == spec_enum_number(self),
    {
        match self {
            TestEnum::Unknown => 0,
            TestEnum::X => 1,
            TestEnum::Y => 2,
        }
    }
}

impl From<Choice> for TestEnum {
    fn from(value: Choice) -> (r: TestEnum) {
        match value {
            Choice::X => TestEnum::X,
            Choice::Y => TestEnum::Y,
        }
    }
}

impl vstd::std_specs::convert::FromSpecImpl<Choice> for TestEnum {
    open spec fn obeys_from_spec() -> bool {
        true
    }

    open spec fn from_spec(value: Choice) -> TestEnum {
        match value {
            Choice::X => TestEnum::X,
            Choice::Y => TestEnum::Y,
        }
    }
}

impl From<Choice> for NestedMessage {
    fn from(value: Choice) -> (r: NestedMessage) {
        let kind: TestEnum = TestEnum::from(value);
        NestedMessage { enum_value: kind.number() }
    }
}

impl vstd::std_specs::convert::FromSpecImpl<Choice> for NestedMessage {
    open spec fn obeys_from_spec() -> bool {
        true
    }

    open spec fn from_spec(value: Choice) -> NestedMessage {
        NestedMessage {
            enum_value: spec_enum_number(
                match value {
                    Choice::X => TestEnum::X,
                    Choice::Y => TestEnum::Y,
                },
            ),
        }
    }
}

impl From<Choice> for TestNested {
    fn from(value: Choice) -> (r: TestNested) {
        TestNested { field0: Some(NestedMessage::from(value)) }
    }
}

impl vstd::std_specs::convert::FromSpecImpl<Choice> for TestNested {
    open spec fn obeys_from_spec() -> bool {
        true
    }

    open spec fn from_spec(value: Choice) -> TestNested {
        TestNested {
            field0: Some(<NestedMessage as vstd::std_specs::convert::FromSpec<
                Choice,
            >>::from_spec(value)),
        }
    }
}

impl Choice {
    /// The choice a nested message stands for: the enum value must be `X`
    /// or `Y`; an unknown number or the `Unknown` value is refused.
    pub fn try_from(value: TestNested) -> (r: Result<Choice, ()>)
        ensures
            match value.field0 {
                Some(m) => if m.enum_value == 1 {
                    r == Ok::<Choice, ()>(Choice::X)
                } else if m.enum_value == 2 {
                    r == Ok::<Choice, ()>(Choice::Y)
                } else {
                    r is Err
                },
                None => r is Err,
            },
    {
        match value.field0 {
            Some(m) => match TestEnum::from_number(m.enum_value) {
                Some(TestEnum::X) => Ok(Choice::X),
                Some(TestEnum::Y) => Ok(Choice::Y),
                _ => Err(()),
            },
            None => Err(()),
        }
    }
}

/// One of the two branches of the request's `option` field. The right
/// branch carries the raw bits of a double, which the logic never computes
/// with.
#[derive(Clone, Copy, Debug, PartialEq, Eq, Structural)]
pub enum TestRequestOption {
    Left(i64),
    Right(u64),
}

/// One of the two branches of the response's `option` field.
#[derive(Clone, Copy, Debug, PartialEq, Eq, Structural)]
pub enum TestResponseOption {
    Left(i64),
    Right(u64),
}

/// The integration request: one field of each shape the protocol carries.
#[derive(Debug)]
pub struct TestRequest {
    pub string: String,
    pub time: Option<TimestampValue>,
    pub nested: Option<TestNested>,
    pub duration: Option<DurationValue>,
    pub any: Option<AnyValue>,
    pub value: Option<ValueKind>,
    pub option: Option<TestRequestOption>,
}

/// The integration response, mirroring the request field for field.
#[derive(Debug)]
pub struct TestResponse {
    pub string: String,
    pub time: Option<TimestampValue>,
    pub nested: Option<TestNested>,
    pub duration: Option<DurationValue>,
    pub any: Option<AnyValue>,
    pub value: Option<ValueKind>,
    pub option: Option<TestResponseOption>,
}

/// The response branch for a request branch.
pub open spec fn spec_option_echo(o: Option<TestRequestOption>) -> Option<TestResponseOption> {
    match o {
        Some(TestRequestOption::Left(l)) => Some(TestResponseOption::Left(l)),
        Some(TestRequestOption::Right(x)) => Some(TestResponseOption::Right(x)),
        None => None,
    }
}

/// Whether a response echoes a request field for field.
pub open spec fn spec_is_echo(req: TestRequest, resp: TestResponse) -> bool {
    &&& resp.string == req.string
    &&& resp.time == req.time
    &&& resp.nested == req.nested
    &&& resp.duration == req.duration
    &&& resp.any == req.any
    &&& resp.value == req.value
    &&& resp.option == spec_option_echo(req.option)
}

/// The response echoing a request: every field carried over, the `option`
/// branch mapped to the response's own branch type.
pub fn response_from_request(request: TestRequest) -> (r: TestResponse)
    ensures
        spec_is_echo(request, r),
{
    TestResponse {
        string: request.string,
        time: request.time,
        nested: request.nested,
        duration: request.duration,
        any: request.any,
        value: request.value,
        option: match request.option {
            Some(TestRequestOption::Left(l)) => Some(TestResponseOption::Left(l)),
            Some(TestRequestOption::Right(x)) => Some(TestResponseOption::Right(x)),
            None => None,
        },
    }
}

/// A bearer token taken out of an `Authorization` header.
#[derive(Debug)]
pub struct ExtractBearerToken(pub String);

/// Whether every byte of a header value is one the header codec yields as
/// text: horizontal tab, or visible ASCII including the space.
pub open spec fn spec_header_text(b: Seq<u8>) -> bool {
    forall|i: int| 0 <= i < b.len() ==> (b[i] == 9 || (32 <= #[trigger] b[i] < 127))
}

/// The bearer token in an `Authorization` header: the header must be
/// present, be header text, and start with `Bearer `; each failure is the
/// exact error the service answers with.
pub fn bearer_token_from_header(header: &Option<Vec<u8>>) -> (r: Result<
    ExtractBearerToken,
    TwirpError,
>)
    ensures
        header is None ==> (r matches Err(e) && e@ == spec_simple_error(
            TwirpErrorCode::Unauthenticated,
            "Authorization header is required"@,
        )),
        header matches Some(b) ==> (if !spec_header_text(b@) {
            r matches Err(e) && e@ == spec_simple_error(
                TwirpErrorCode::Malformed,
                "Authorization header must be valid UTF-8"@,
            )
        } else if !(b@.len() >= 7 && b@.subrange(0, 7) == crate::text::spec_bytes_of(
            "Bearer "@,
        )) {
            r matches Err(e) && e@ == spec_simple_error(
                TwirpErrorCode::Malformed,
                "The authorization header must start with `Bearer `"@,
            )
        } else {
            r matches Ok(t) && t.0@ == vstd::utf8::decode_utf8(b@.skip(7))
        }),
{
    if header.is_none() {
        return Err(
            TwirpError::new(
                TwirpErrorCode::Unauthenticated,
                String::from_str("Authorization header is required"),
            ),
        );
    }
    let b = header.as_ref().unwrap();
    let n = b.len();
    let mut i: usize = 0;
    while i < n
        invariant
            header matches Some(bv) && bv == *b,
            n == b.len(),
            i <= n,
            forall|j: int| 0 <= j < i ==> (b@[j] == 9 || (32 <= #[trigger] b@[j] < 127)),
        decreases n - i,
    {
        let c = b[i];
        if !(c == 9 || (32 <= c && c < 127)) {
            proof {
                assert(b@[i as int] == c);
                assert(!spec_header_text(b@));
            }
            return Err(
                TwirpError::new(
                    TwirpErrorCode::Malformed,
                    String::from_str("Authorization header must be valid UTF-8"),
                ),
            );
        }
        i += 1;
    }
    let prefix = "Bearer ".as_bytes();
    if n < 7 || !crate::text::bytes_eq(&b.as_slice()[0..7], prefix) {
        proof {
            if b@.len() >= 7 {
                assert(b@.subrange(0, 7) =~= b@.subrange(0, 7));
            }
        }
        return Err(
            TwirpError::new(
                TwirpErrorCode::Malformed,
                String::from_str("The authorization header must start with `Bearer `"),
            ),
        );
    }
    let token_bytes = &b.as_slice()[7..n];
    proof {
        assert(token_bytes@ =~= b@.skip(7));
        assert(forall|j: int| 0 <= j < token_bytes@.len() ==> (#[trigger] token_bytes@[j]) < 0x80);
        crate::text::lemma_ascii_bytes_valid_utf8(token_bytes@);
    }
    match crate::text::string_from_utf8(token_bytes) {
        Some(s) => Ok(ExtractBearerToken(s)),
        None => {
            proof {
                assert(false);
            }
            Err(TwirpError::new(TwirpErrorCode::Malformed, String::new()))
        },
    }
}

/// The integration service: echoes each request once the bearer token has
/// been checked.
pub struct IntegrationServiceServicer {}

/// The error a wrong bearer token is refused with.
pub open spec fn spec_invalid_password() -> crate::error::TwirpErrorView {
    spec_simple_error(TwirpErrorCode::Unauthenticated, "Invalid password"@)
}

/// Whether an output stream echoes an input stream item for item, handler
/// errors carried through unchanged.
pub open spec fn spec_stream_echo(
    inp: Seq<Result<TestRequest, TwirpError>>,
    out: Seq<Result<TestResponse, TwirpError>>,
) -> bool {
    &&& out.len() == inp.len()
    &&& forall|i: int|
        0 <= i < inp.len() ==> (match (#[trigger] inp[i], #[trigger] out[i]) {
            (Ok(rq), Ok(rs)) => spec_is_echo(rq, rs),
            (Err(e1), Err(e2)) => e2@ == e1@,
            _ => false,
        })
}

impl IntegrationServiceServicer {
    /// Echoes the request when the bearer token is the expected password.
    pub fn test(&self, request: TestRequest, bearer_token: ExtractBearerToken) -> (r: Result<
        TestResponse,
        TwirpError,
    >)
        ensures
            bearer_token.0@ == "password"@ ==> (r matches Ok(resp) && spec_is_echo(request, resp)),
            bearer_token.0@ != "password"@ ==> (r matches Err(e) && e@ == spec_invalid_password()),
    {
        if !crate::text::str_eq(bearer_token.0.as_str(), "password") {
            return Err(
                TwirpError::new(
                    TwirpErrorCode::Unauthenticated,
                    String::from_str("Invalid password"),
                ),
            );
        }
        Ok(response_from_request(request))
    }

    /// Echoes the request as the first stream item and follows it with a
    /// `not_found` error, once the bearer token has been checked.
    pub fn test_server_stream(
        &self,
        request: TestRequest,
        bearer_token: ExtractBearerToken,
    ) -> (r: Result<Vec<Result<TestResponse, TwirpError>>, TwirpError>)
        ensures
            bearer_token.0@ == "password"@ ==> (r matches Ok(items) && items@.len() == 2 && (
            items@[0] matches Ok(resp) && spec_is_echo(request, resp)) && (items@[1] matches Err(e)
                && e@ == spec_simple_error(TwirpErrorCode::NotFound, "foo"@))),
            bearer_token.0@ != "password"@ ==> (r matches Err(e) && e@ == spec_invalid_password()),
    {
        if !crate::text::str_eq(bearer_token.0.as_str(), "password") {
            return Err(
                TwirpError::new(
                    TwirpErrorCode::Unauthenticated,
                    String::from_str("Invalid password"),
                ),
            );
        }
        let mut items: Vec<Result<TestResponse, TwirpError>> = Vec::new();
        items.push(Ok(response_from_request(request)));
        items.push(
            Err(TwirpError::new(TwirpErrorCode::NotFound, String::from_str("foo"))),
        );
        Ok(items)
    }

    /// Echoes the first item of the request stream; an empty stream is
    /// `not_found`, and a failed item fails the call with its own error.
    pub fn test_client_stream(
        &self,
        requests: Vec<Result<TestRequest, TwirpError>>,
        bearer_token: ExtractBearerToken,
    ) -> (r: Result<TestResponse, TwirpError>)
        ensures
            bearer_token.0@ != "password"@ ==> (r matches Err(e) && e@ == spec_invalid_password()),
            bearer_token.0@ == "password"@ ==> (if requests@.len() == 0 {
                r matches Err(e) && e@ == spec_simple_error(TwirpErrorCode::NotFound, "No request"@)
            } else {
                match requests@[0] {
                    Ok(rq) => r matches Ok(resp) && spec_is_echo(rq, resp),
                    Err(e1) => r matches Err(e) && e@ == e1@,
                }
            }),
    {
        if !crate::text::str_eq(bearer_token.0.as_str(), "password") {
            return Err(
                TwirpError::new(
                    TwirpErrorCode::Unauthenticated,
                    String::from_str("Invalid password"),
                ),
            );
        }
        let mut requests = requests;
        if requests.len() == 0 {
            return Err(
                TwirpError::new(TwirpErrorCode::NotFound, String::from_str("No request")),
            );
        }
        match requests.remove(0) {
            Ok(rq) => Ok(response_from_request(rq)),
            Err(e) => Err(e),
        }
    }

    /// Echoes every item of the request stream, handler errors carried
    /// through unchanged, once the bearer token has been checked.
    pub fn test_stream(
        &self,
        requests: Vec<Result<TestRequest, TwirpError>>,
        bearer_token: ExtractBearerToken,
    ) -> (r: Result<Vec<Result<TestResponse, TwirpError>>, TwirpError>)
        ensures
            bearer_token.0@ == "password"@ ==> (r matches Ok(items) && spec_stream_echo(
                requests@,
                items@,
            )),
            bearer_token.0@ != "password"@ ==> (r matches Err(e) && e@ == spec_invalid_password()),
    {
        if !crate::text::str_eq(bearer_token.0.as_str(), "password") {
            return Err(
                TwirpError::new(
                    TwirpErrorCode::Unauthenticated,
                    String::from_str("Invalid password"),
                ),
            );
        }
        let ghost inp = requests@;
        let mut requests = requests;
        let mut items: Vec<Result<TestResponse, TwirpError>> = Vec::new();
        while requests.len() > 0
            invariant
                items@.len() + requests@.len() == inp.len(),
                requests@ == inp.subrange(items@.len() as int, inp.len() as int),
                forall|i: int|
                    0 <= i < items@.len() ==> (match (#[trigger] inp[i], #[trigger] items@[i]) {
                        (Ok(rq), Ok(rs)) => spec_is_echo(rq, rs),
                        (Err(e1), Err(e2)) => e2@ == e1@,
                        _ => false,
                    }),
            decreases requests.len(),
        {
            let ghost k = items@.len() as int;
            let item = requests.remove(0);
            proof {
                assert(inp[k] == item);
                assert(requests@ =~= inp.subrange(k + 1, inp.len() as int));
            }
            match item {
                Ok(rq) => items.push(Ok(response_from_request(rq))),
                Err(e) => items.push(Err(e)),
            }
        }
        proof {
            assert(items@.len() == inp.len());
        }
        Ok(items)
    }
}

} // verus!
