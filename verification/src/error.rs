//! The Twirp error model: the closed set of error codes, the `TwirpError`
//! value with its metadata, and the mapping of codes to HTTP status codes.

use vstd::prelude::*;
use crate::grpc::GrpcStatus;

verus! {

/// A Twirp error code, member of the fixed taxonomy of the Twirp
/// specification (v7).
#[derive(Clone, Copy, Debug, PartialEq, Eq, Structural)]
pub enum TwirpErrorCode {
    /// The operation was cancelled.
    Canceled,
    /// An unknown error occurred.
    Unknown,
    /// The client specified an invalid argument.
    InvalidArgument,
    /// The client sent a message which could not be decoded.
    Malformed,
    /// Operation expired before completion.
    DeadlineExceeded,
    /// Some requested entity was not found.
    NotFound,
    /// The requested URL path wasn't routable to a Twirp service and method.
    /// Produced only by the routing layer, never by user code.
    BadRoute,
    /// An attempt to create an entity failed because one already exists.
    AlreadyExists,
    /// The caller does not have permission to execute the operation.
    PermissionDenied,
    /// The request does not have valid authentication credentials.
    Unauthenticated,
    /// Some resource has been exhausted or rate-limited.
    ResourceExhausted,
    /// The system is not in a state required for the operation's execution.
    FailedPrecondition,
    /// The operation was aborted.
    Aborted,
    /// The operation was attempted past the valid range.
    OutOfRange,
    /// The operation is not implemented or not enabled in this service.
    Unimplemented,
    /// An invariant expected by the underlying system has been broken.
    Internal,
    /// The service is currently unavailable.
    Unavailable,
    /// The operation resulted in unrecoverable data loss or corruption.
    Dataloss,
}

/// The outbound HTTP status for each error code, per the Twirp specification.
pub open spec fn spec_http_status(code: TwirpErrorCode) -> u16 {
    match code {
        TwirpErrorCode::Canceled => 408,
        TwirpErrorCode::Unknown => 500,
        TwirpErrorCode::InvalidArgument => 400,
        TwirpErrorCode::Malformed => 400,
        TwirpErrorCode::DeadlineExceeded => 408,
        TwirpErrorCode::NotFound => 404,
        TwirpErrorCode::BadRoute => 404,
        TwirpErrorCode::AlreadyExists => 409,
        TwirpErrorCode::PermissionDenied => 403,
        TwirpErrorCode::Unauthenticated => 401,
        TwirpErrorCode::ResourceExhausted => 429,
        TwirpErrorCode::FailedPrecondition => 412,
        TwirpErrorCode::Aborted => 409,
        TwirpErrorCode::OutOfRange => 400,
        TwirpErrorCode::Unimplemented => 501,
        TwirpErrorCode::Internal => 500,
        TwirpErrorCode::Unavailable => 503,
        TwirpErrorCode::Dataloss => 503,
    }
}

impl TwirpErrorCode {
    /// The HTTP status code this error code maps to on the wire.
    pub fn http_status(self) -> (r: u16)
        ensures
            r == spec_http_status(self),
    {
        match self {
            TwirpErrorCode::Canceled => 408,
            TwirpErrorCode::Unknown => 500,
            TwirpErrorCode::InvalidArgument => 400,
            TwirpErrorCode::Malformed => 400,
            TwirpErrorCode::DeadlineExceeded => 408,
            TwirpErrorCode::NotFound => 404,
            TwirpErrorCode::BadRoute => 404,
            TwirpErrorCode::AlreadyExists => 409,
            TwirpErrorCode::PermissionDenied => 403,
            TwirpErrorCode::Unauthenticated => 401,
            TwirpErrorCode::ResourceExhausted => 429,
            TwirpErrorCode::FailedPrecondition => 412,
            TwirpErrorCode::Aborted => 409,
            TwirpErrorCode::OutOfRange => 400,
            TwirpErrorCode::Unimplemented => 501,
            TwirpErrorCode::Internal => 500,
            TwirpErrorCode::Unavailable => 503,
            TwirpErrorCode::Dataloss => 503,
        }
    }
}

/// The underlying cause of an error, kept for local introspection only: it is
/// never serialized and never takes part in equality.
#[derive(Debug)]
pub enum TwirpErrorCause {
    /// No recorded cause.
    Absent,
    /// The description of an arbitrary underlying error.
    Opaque(String),
    /// A gRPC status that the error was built from.
    Status(GrpcStatus),
}

/// A Twirp error: a code from the fixed taxonomy, a human message, and
/// string-to-string metadata with unique keys kept in insertion order.
#[derive(Debug)]
pub struct TwirpError {
    /// The error code.
    pub code: TwirpErrorCode,
    /// The error message (human description of the error).
    pub msg: String,
    /// Metadata describing the error, keys unique, in insertion order.
    pub meta: Vec<(String, String)>,
    /// The underlying cause, for local introspection only.
    pub cause: TwirpErrorCause,
}

/// The mathematical value of a Twirp error: its code, message and metadata.
/// The cause is deliberately left out, matching equality on the wire.
#[verifier::ext_equal]
pub ghost struct TwirpErrorView {
    pub code: TwirpErrorCode,
    pub msg: Seq<char>,
    pub meta: Seq<(Seq<char>, Seq<char>)>,
}

/// The mathematical value of a metadata vector.
pub open spec fn spec_meta_view_of(m: Seq<(String, String)>) -> Seq<(Seq<char>, Seq<char>)> {
    Seq::new(m.len(), |i: int| (m[i].0@, m[i].1@))
}

impl View for TwirpError {
    type V = TwirpErrorView;

    open spec fn view(&self) -> TwirpErrorView {
        TwirpErrorView { code: self.code, msg: self.msg@, meta: spec_meta_view_of(self.meta@) }
    }
}

/// An error value with the given code and message and nothing else.
pub open spec fn spec_simple_error(code: TwirpErrorCode, msg: Seq<char>) -> TwirpErrorView {
    TwirpErrorView { code, msg, meta: Seq::empty() }
}

/// A well-formed error holds each metadata key at most once.
pub open spec fn wf_meta(meta: Seq<(Seq<char>, Seq<char>)>) -> bool {
    forall|i: int, j: int| 0 <= i < j < meta.len() ==> meta[i].0 != meta[j].0
}

impl TwirpError {
    /// Whether the metadata keys are unique, as every constructor of this
    /// type keeps them.
    pub open spec fn wf(&self) -> bool {
        wf_meta(self@.meta)
    }

    /// The error's code.
    pub fn code(&self) -> (r: TwirpErrorCode)
        ensures
            r == self@.code,
    {
        self.code
    }

    /// The error's message.
    pub fn message(&self) -> (r: &str)
        ensures
            r@ == self@.msg,
    {
        self.msg.as_str()
    }

    /// The error's message, consuming the error.
    pub fn into_message(self) -> (r: String)
        ensures
            r@ == self@.msg,
    {
        self.msg
    }

    /// The metadata value stored under the given key, if any.
    pub fn meta(&self, key: &str) -> (r: Option<&str>)
        ensures
            match r {
                Some(v) => spec_meta_lookup(self@.meta, key@) == Some(v@),
                None => spec_meta_lookup(self@.meta, key@) is None,
            },
    {
        match meta_lookup(&self.meta, key) {
            Some(v) => Some(v.as_str()),
            None => None,
        }
    }

    /// All metadata pairs, in insertion order.
    pub fn meta_iter(&self) -> (r: Vec<(String, String)>)
        ensures
            r@.len() == self@.meta.len(),
            forall|i: int|
                0 <= i < r@.len() ==> (#[trigger] r@[i].0)@ == self@.meta[i].0 && r@[i].1@
                    == self@.meta[i].1,
    {
        let n = self.meta.len();
        let mut out: Vec<(String, String)> = Vec::new();
        let mut i: usize = 0;
        while i < n
            invariant
                n == self.meta.len(),
                i <= n,
                out@.len() == i,
                forall|j: int|
                    0 <= j < i ==> (#[trigger] out@[j].0)@ == self@.meta[j].0 && out@[j].1@
                        == self@.meta[j].1,
            decreases n - i,
        {
            let pair = &self.meta[i];
            out.push((pair.0.clone(), pair.1.clone()));
            i += 1;
        }
        out
    }

    /// A fresh error with the given code and message, no metadata, and no
    /// cause.
    pub fn new(code: TwirpErrorCode, msg: String) -> (r: Self)
        ensures
            r@ == (TwirpErrorView { code, msg: msg@, meta: Seq::empty() }),
            r.cause is Absent,
            r.wf(),
    {
        let r = TwirpError { code, msg, meta: Vec::new(), cause: TwirpErrorCause::Absent };
        proof {
            assert(r@.meta =~= Seq::<(Seq<char>, Seq<char>)>::empty());
        }
        r
    }

    /// A fresh error that records the description of an underlying cause.
    /// The cause is kept for local introspection only.
    pub fn wrap(code: TwirpErrorCode, msg: String, cause: String) -> (r: Self)
        ensures
            r@ == (TwirpErrorView { code, msg: msg@, meta: Seq::empty() }),
            r.cause matches TwirpErrorCause::Opaque(c) && c@ == cause@,
            r.wf(),
    {
        let r = TwirpError { code, msg, meta: Vec::new(), cause: TwirpErrorCause::Opaque(cause) };
        proof {
            assert(r@.meta =~= Seq::<(Seq<char>, Seq<char>)>::empty());
        }
        r
    }

    /// An `aborted` error with the given message.
    pub fn aborted(msg: String) -> (r: Self)
        ensures
            r@ == (TwirpErrorView { code: TwirpErrorCode::Aborted, msg: msg@, meta: Seq::empty() }),
            r.cause is Absent,
            r.wf(),
    {
        Self::new(TwirpErrorCode::Aborted, msg)
    }

    /// An `already_exists` error with the given message.
    pub fn already_exists(msg: String) -> (r: Self)
        ensures
            r@ == (TwirpErrorView {
                code: TwirpErrorCode::AlreadyExists,
                msg: msg@,
                meta: Seq::empty(),
            }),
            r.cause is Absent,
            r.wf(),
    {
        Self::new(TwirpErrorCode::AlreadyExists, msg)
    }

    /// A `canceled` error with the given message.
    pub fn canceled(msg: String) -> (r: Self)
        ensures
            r@ == (TwirpErrorView {
                code: TwirpErrorCode::Canceled,
                msg: msg@,
                meta: Seq::empty(),
            }),
            r.cause is Absent,
            r.wf(),
    {
        Self::new(TwirpErrorCode::Canceled, msg)
    }

    /// A `dataloss` error with the given message.
    pub fn dataloss(msg: String) -> (r: Self)
        ensures
            r@ == (TwirpErrorView {
                code: TwirpErrorCode::Dataloss,
                msg: msg@,
                meta: Seq::empty(),
            }),
            r.cause is Absent,
            r.wf(),
    {
        Self::new(TwirpErrorCode::Dataloss, msg)
    }

    /// An `invalid_argument` error with the given message.
    pub fn invalid_argument(msg: String) -> (r: Self)
        ensures
            r@ == (TwirpErrorView {
                code: TwirpErrorCode::InvalidArgument,
                msg: msg@,
                meta: Seq::empty(),
            }),
            r.cause is Absent,
            r.wf(),
    {
        Self::new(TwirpErrorCode::InvalidArgument, msg)
    }

    /// An `internal` error with the given message.
    pub fn internal(msg: String) -> (r: Self)
        ensures
            r@ == (TwirpErrorView {
                code: TwirpErrorCode::Internal,
                msg: msg@,
                meta: Seq::empty(),
            }),
            r.cause is Absent,
            r.wf(),
    {
        Self::new(TwirpErrorCode::Internal, msg)
    }

    /// A `deadline_exceeded` error with the given message.
    pub fn deadline_exceeded(msg: String) -> (r: Self)
        ensures
            r@ == (TwirpErrorView {
                code: TwirpErrorCode::DeadlineExceeded,
                msg: msg@,
                meta: Seq::empty(),
            }),
            r.cause is Absent,
            r.wf(),
    {
        Self::new(TwirpErrorCode::DeadlineExceeded, msg)
    }

    /// A `failed_precondition` error with the given message.
    pub fn failed_precondition(msg: String) -> (r: Self)
        ensures
            r@ == (TwirpErrorView {
                code: TwirpErrorCode::FailedPrecondition,
                msg: msg@,
                meta: Seq::empty(),
            }),
            r.cause is Absent,
            r.wf(),
    {
        Self::new(TwirpErrorCode::FailedPrecondition, msg)
    }

    /// A `malformed` error with the given message.
    pub fn malformed(msg: String) -> (r: Self)
        ensures
            r@ == (TwirpErrorView {
                code: TwirpErrorCode::Malformed,
                msg: msg@,
                meta: Seq::empty(),
            }),
            r.cause is Absent,
            r.wf(),
    {
        Self::new(TwirpErrorCode::Malformed, msg)
    }

    /// A `not_found` error with the given message.
    pub fn not_found(msg: String) -> (r: Self)
        ensures
            r@ == (TwirpErrorView {
                code: TwirpErrorCode::NotFound,
                msg: msg@,
                meta: Seq::empty(),
            }),
            r.cause is Absent,
            r.wf(),
    {
        Self::new(TwirpErrorCode::NotFound, msg)
    }

    /// An `out_of_range` error with the given message.
    pub fn out_of_range(msg: String) -> (r: Self)
        ensures
            r@ == (TwirpErrorView {
                code: TwirpErrorCode::OutOfRange,
                msg: msg@,
                meta: Seq::empty(),
            }),
            r.cause is Absent,
            r.wf(),
    {
        Self::new(TwirpErrorCode::OutOfRange, msg)
    }

    /// A `permission_denied` error with the given message.
    pub fn permission_denied(msg: String) -> (r: Self)
        ensures
            r@ == (TwirpErrorView {
                code: TwirpErrorCode::PermissionDenied,
                msg: msg@,
                meta: Seq::empty(),
            }),
            r.cause is Absent,
            r.wf(),
    {
        Self::new(TwirpErrorCode::PermissionDenied, msg)
    }

    /// An `invalid_argument` error for a missing required argument.
    pub fn required_argument(msg: String) -> (r: Self)
        ensures
            r@ == (TwirpErrorView {
                code: TwirpErrorCode::InvalidArgument,
                msg: msg@,
                meta: Seq::empty(),
            }),
            r.cause is Absent,
            r.wf(),
    {
        Self::invalid_argument(msg)
    }

    /// A `resource_exhausted` error with the given message.
    pub fn resource_exhausted(msg: String) -> (r: Self)
        ensures
            r@ == (TwirpErrorView {
                code: TwirpErrorCode::ResourceExhausted,
                msg: msg@,
                meta: Seq::empty(),
            }),
            r.cause is Absent,
            r.wf(),
    {
        Self::new(TwirpErrorCode::ResourceExhausted, msg)
    }

    /// An `unauthenticated` error with the given message.
    pub fn unauthenticated(msg: String) -> (r: Self)
        ensures
            r@ == (TwirpErrorView {
                code: TwirpErrorCode::Unauthenticated,
                msg: msg@,
                meta: Seq::empty(),
            }),
            r.cause is Absent,
            r.wf(),
    {
        Self::new(TwirpErrorCode::Unauthenticated, msg)
    }

    /// An `unavailable` error with the given message.
    pub fn unavailable(msg: String) -> (r: Self)
        ensures
            r@ == (TwirpErrorView {
                code: TwirpErrorCode::Unavailable,
                msg: msg@,
                meta: Seq::empty(),
            }),
            r.cause is Absent,
            r.wf(),
    {
        Self::new(TwirpErrorCode::Unavailable, msg)
    }

    /// An `unimplemented` error with the given message.
    pub fn unimplemented(msg: String) -> (r: Self)
        ensures
            r@ == (TwirpErrorView {
                code: TwirpErrorCode::Unimplemented,
                msg: msg@,
                meta: Seq::empty(),
            }),
            r.cause is Absent,
            r.wf(),
    {
        Self::new(TwirpErrorCode::Unimplemented, msg)
    }

    /// The error with the metadata entry set: an existing key keeps its
    /// position and gets the new value, a new key is appended.
    pub fn with_meta(self, key: String, value: String) -> (r: Self)
        ensures
            r@.code == self@.code,
            r@.msg == self@.msg,
            r@.meta == spec_meta_insert(self@.meta, key@, value@),
            self.wf() ==> r.wf(),
    {
        let mut this = self;
        meta_set(&mut this.meta, key, value);
        proof {
            if wf_meta(self@.meta) {
                lemma_meta_insert_wf(self@.meta, key@, value@);
            }
        }
        this
    }
}

/// Sets a metadata entry: an existing key keeps its position and gets the
/// new value, a new key is appended.
pub fn meta_set(meta: &mut Vec<(String, String)>, key: String, value: String)
    ensures
        spec_meta_view_of(final(meta)@) == spec_meta_insert(spec_meta_view_of(old(meta)@), key@, value@),
{
    let ghost old_meta = spec_meta_view_of(meta@);
    let n = meta.len();
    let mut i: usize = 0;
    while i < n
        invariant
            n == meta.len(),
            i <= n,
            spec_meta_view_of(meta@) == old_meta,
            meta@ == old(meta)@,
            forall|j: int| 0 <= j < i ==> old_meta[j].0 != key@,
        decreases n - i,
    {
        let found = crate::text::str_eq(meta[i].0.as_str(), key.as_str());
        if found {
            proof {
                lemma_first_key_index_found(old_meta, key@, i as int);
            }
            meta[i] = (key, value);
            proof {
                assert(spec_meta_view_of(meta@) =~= old_meta.update(i as int, (key@, value@)));
                assert(spec_meta_view_of(meta@) =~= spec_meta_insert(old_meta, key@, value@));
            }
            return;
        }
        i += 1;
    }
    proof {
        lemma_first_key_index_missing(old_meta, key@);
    }
    meta.push((key, value));
    proof {
        assert(spec_meta_view_of(meta@) =~= old_meta.push((key@, value@)));
        assert(spec_meta_view_of(meta@) =~= spec_meta_insert(old_meta, key@, value@));
    }
}

/// The value stored under a key in a metadata vector, if any.
fn meta_lookup<'a>(meta: &'a Vec<(String, String)>, key: &str) -> (r: Option<&'a String>)
    ensures
        match r {
            Some(v) => spec_meta_lookup(spec_meta_view_of(meta@), key@) == Some(v@),
            None => spec_meta_lookup(spec_meta_view_of(meta@), key@) is None,
        },
{
    let n = meta.len();
    let mut i: usize = 0;
    while i < n
        invariant
            n == meta.len(),
            i <= n,
            forall|j: int| 0 <= j < i ==> spec_meta_view_of(meta@)[j].0 != key@,
        decreases n - i,
    {
        let pair = &meta[i];
        if crate::text::str_eq(pair.0.as_str(), key) {
            proof {
                lemma_first_key_index_found(spec_meta_view_of(meta@), key@, i as int);
            }
            return Some(&pair.1);
        }
        i += 1;
    }
    proof {
        lemma_first_key_index_missing(spec_meta_view_of(meta@), key@);
    }
    None
}

/// The position of the first entry with the given key, or `-1`.
pub open spec fn spec_first_key_index(meta: Seq<(Seq<char>, Seq<char>)>, k: Seq<char>) -> int
    decreases meta.len(),
{
    if meta.len() == 0 {
        -1
    } else if meta[0].0 == k {
        0
    } else {
        let rest = spec_first_key_index(meta.drop_first(), k);
        if rest == -1 {
            -1
        } else {
            rest + 1
        }
    }
}

/// The metadata value under the given key, if any.
pub open spec fn spec_meta_lookup(meta: Seq<(Seq<char>, Seq<char>)>, k: Seq<char>) -> Option<
    Seq<char>,
> {
    let i = spec_first_key_index(meta, k);
    if i == -1 {
        None
    } else {
        Some(meta[i].1)
    }
}

/// The metadata after setting a key: an existing key keeps its position and
/// gets the new value, a new key is appended.
pub open spec fn spec_meta_insert(
    meta: Seq<(Seq<char>, Seq<char>)>,
    k: Seq<char>,
    v: Seq<char>,
) -> Seq<(Seq<char>, Seq<char>)> {
    let i = spec_first_key_index(meta, k);
    if i == -1 {
        meta.push((k, v))
    } else {
        meta.update(i, (k, v))
    }
}

proof fn lemma_first_key_index_range(meta: Seq<(Seq<char>, Seq<char>)>, k: Seq<char>)
    ensures
        spec_first_key_index(meta, k) == -1 || (0 <= spec_first_key_index(meta, k) < meta.len()
            && meta[spec_first_key_index(meta, k)].0 == k),
    decreases meta.len(),
{
    if meta.len() > 0 && meta[0].0 != k {
        lemma_first_key_index_range(meta.drop_first(), k);
    }
}

/// When no entry before position `i` holds the key and the entry at `i`
/// does, `i` is the first position of the key.
pub proof fn lemma_first_key_index_found(meta: Seq<(Seq<char>, Seq<char>)>, k: Seq<char>, i: int)
    requires
        0 <= i < meta.len(),
        forall|j: int| 0 <= j < i ==> meta[j].0 != k,
        meta[i].0 == k,
    ensures
        spec_first_key_index(meta, k) == i,
    decreases i,
{
    if i > 0 {
        lemma_first_key_index_found(meta.drop_first(), k, i - 1);
    }
}

/// When no entry holds the key, there is no first position of the key.
pub proof fn lemma_first_key_index_missing(meta: Seq<(Seq<char>, Seq<char>)>, k: Seq<char>)
    requires
        forall|j: int| 0 <= j < meta.len() ==> meta[j].0 != k,
    ensures
        spec_first_key_index(meta, k) == -1,
    decreases meta.len(),
{
    if meta.len() > 0 {
        lemma_first_key_index_missing(meta.drop_first(), k);
    }
}

/// Setting a key keeps the metadata keys unique.
pub proof fn lemma_meta_insert_wf(meta: Seq<(Seq<char>, Seq<char>)>, k: Seq<char>, v: Seq<char>)
    requires
        wf_meta(meta),
    ensures
        wf_meta(spec_meta_insert(meta, k, v)),
{
    lemma_first_key_index_range(meta, k);
    let i = spec_first_key_index(meta, k);
    if i == -1 {
        lemma_first_key_index_missing_converse(meta, k);
    }
}

/// When there is no first position of a key, no entry holds it.
proof fn lemma_first_key_index_missing_converse(meta: Seq<(Seq<char>, Seq<char>)>, k: Seq<char>)
    requires
        spec_first_key_index(meta, k) == -1,
    ensures
        forall|j: int| 0 <= j < meta.len() ==> meta[j].0 != k,
    decreases meta.len(),
{
    if meta.len() > 0 {
        assert(meta[0].0 != k);
        lemma_first_key_index_range(meta.drop_first(), k);
        assert(spec_first_key_index(meta.drop_first(), k) == -1);
        lemma_first_key_index_missing_converse(meta.drop_first(), k);
        assert forall|j: int| 0 <= j < meta.len() implies meta[j].0 != k by {
            if j > 0 {
                assert(meta.drop_first()[j - 1] == meta[j]);
            }
        }
    }
}

impl Clone for TwirpError {
    /// An exact copy: same code, message and metadata, and a cause equal up
    /// to the recorded values.
    fn clone(&self) -> (r: Self)
        ensures
            r@ == self@,
            r.wf() == self.wf(),
    {
        let mut meta: Vec<(String, String)> = Vec::new();
        let n = self.meta.len();
        let mut i: usize = 0;
        while i < n
            invariant
                n == self.meta.len(),
                i <= n,
                meta@.len() == i,
                forall|j: int|
                    0 <= j < i ==> (#[trigger] meta@[j].0)@ == self@.meta[j].0 && meta@[j].1@
                        == self@.meta[j].1,
            decreases n - i,
        {
            let pair = &self.meta[i];
            meta.push((pair.0.clone(), pair.1.clone()));
            i += 1;
        }
        let cause = match &self.cause {
            TwirpErrorCause::Absent => TwirpErrorCause::Absent,
            TwirpErrorCause::Opaque(c) => TwirpErrorCause::Opaque(c.clone()),
            TwirpErrorCause::Status(s) => TwirpErrorCause::Status(s.clone()),
        };
        let r = TwirpError { code: self.code, msg: self.msg.clone(), meta, cause };
        proof {
            assert(r@.meta =~= self@.meta);
        }
        r
    }
}

/// Whether two metadata sequences hold the same mapping: equal in number,
/// and every entry of the first found under its key in the second. On
/// sequences with unique keys, as every constructor of this library keeps
/// them, this is equality of the mappings, whatever the insertion orders.
pub open spec fn spec_meta_equiv(
    a: Seq<(Seq<char>, Seq<char>)>,
    b: Seq<(Seq<char>, Seq<char>)>,
) -> bool {
    a.len() == b.len() && forall|i: int|
        0 <= i < a.len() ==> spec_meta_lookup(b, (#[trigger] a[i]).0) == Some(a[i].1)
}

impl PartialEq for TwirpError {
    /// Equality on the wire-visible value: code, message and metadata, the
    /// metadata compared as a mapping so that insertion order does not
    /// matter; the cause is ignored.
    fn eq(&self, other: &Self) -> (r: bool) {
        if !(self.code == other.code) {
            return false;
        }
        if !crate::text::str_eq(self.msg.as_str(), other.msg.as_str()) {
            return false;
        }
        if self.meta.len() != other.meta.len() {
            assert(self@.meta.len() != other@.meta.len());
            return false;
        }
        let n = self.meta.len();
        let mut i: usize = 0;
        while i < n
            invariant
                n == self.meta.len(),
                n == other.meta.len(),
                i <= n,
                self@.code == other@.code,
                self@.msg == other@.msg,
                forall|j: int|
                    0 <= j < i ==> spec_meta_lookup(other@.meta, (#[trigger] self@.meta[j]).0)
                        == Some(self@.meta[j].1),
            decreases n - i,
        {
            let pair = &self.meta[i];
            proof {
                assert(self@.meta[i as int] == (pair.0@, pair.1@));
            }
            match meta_lookup(&other.meta, pair.0.as_str()) {
                Some(v) => {
                    if !crate::text::str_eq(v.as_str(), pair.1.as_str()) {
                        proof {
                            assert(spec_meta_lookup(other@.meta, self@.meta[i as int].0) != Some(
                                self@.meta[i as int].1,
                            ));
                        }
                        return false;
                    }
                },
                None => {
                    proof {
                        assert(spec_meta_lookup(other@.meta, self@.meta[i as int].0) != Some(
                            self@.meta[i as int].1,
                        ));
                    }
                    return false;
                },
            }
            i += 1;
        }
        true
    }
}

impl vstd::std_specs::cmp::PartialEqSpecImpl for TwirpError {
    open spec fn obeys_eq_spec() -> bool {
        true
    }

    open spec fn eq_spec(&self, other: &TwirpError) -> bool {
        self@.code == other@.code && self@.msg == other@.msg && spec_meta_equiv(
            self@.meta,
            other@.meta,
        )
    }
}

} // verus!
