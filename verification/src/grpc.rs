//! A plain-value model of gRPC status codes and statuses, and the mapping
//! between the Twirp error taxonomy and gRPC codes.

use vstd::prelude::*;
use crate::error::{TwirpError, TwirpErrorCause, TwirpErrorCode};

verus! {

/// A gRPC status code.
#[derive(Clone, Copy, Debug, PartialEq, Eq, Structural)]
pub enum GrpcCode {
    Okay,
    Cancelled,
    Unknown,
    InvalidArgument,
    DeadlineExceeded,
    NotFound,
    AlreadyExists,
    PermissionDenied,
    ResourceExhausted,
    FailedPrecondition,
    Aborted,
    OutOfRange,
    Unimplemented,
    Internal,
    Unavailable,
    DataLoss,
    Unauthenticated,
}

/// A gRPC status: a code, a human message, and opaque binary details.
#[derive(Debug)]
pub struct GrpcStatus {
    pub code: GrpcCode,
    pub message: String,
    pub details: Vec<u8>,
}

/// The mathematical value of a gRPC status.
pub ghost struct GrpcStatusView {
    pub code: GrpcCode,
    pub message: Seq<char>,
    pub details: Seq<u8>,
}

impl View for GrpcStatus {
    type V = GrpcStatusView;

    open spec fn view(&self) -> GrpcStatusView {
        GrpcStatusView { code: self.code, message: self.message@, details: self.details@ }
    }
}

impl Clone for GrpcStatus {
    /// An exact copy of the status.
    fn clone(&self) -> (r: Self)
        ensures
            r@ == self@,
    {
        let details = self.details.clone();
        proof {
            assert(details@ =~= self.details@);
        }
        GrpcStatus { code: self.code, message: self.message.clone(), details }
    }
}

impl GrpcStatus {
    /// A status with the given code and message and no details.
    pub fn new(code: GrpcCode, message: String) -> (r: Self)
        ensures
            r@.code == code,
            r@.message == message@,
            r@.details == Seq::<u8>::empty(),
    {
        GrpcStatus { code, message, details: Vec::new() }
    }
}

/// The gRPC code that each Twirp error code maps to: identity where the names
/// match, with `Malformed` folded into `InvalidArgument` and `BadRoute` into
/// `NotFound`.
pub open spec fn spec_grpc_code(code: TwirpErrorCode) -> GrpcCode {
    match code {
        TwirpErrorCode::Canceled => GrpcCode::Cancelled,
        TwirpErrorCode::Unknown => GrpcCode::Unknown,
        TwirpErrorCode::InvalidArgument => GrpcCode::InvalidArgument,
        TwirpErrorCode::Malformed => GrpcCode::InvalidArgument,
        TwirpErrorCode::DeadlineExceeded => GrpcCode::DeadlineExceeded,
        TwirpErrorCode::NotFound => GrpcCode::NotFound,
        TwirpErrorCode::BadRoute => GrpcCode::NotFound,
        TwirpErrorCode::AlreadyExists => GrpcCode::AlreadyExists,
        TwirpErrorCode::PermissionDenied => GrpcCode::PermissionDenied,
        TwirpErrorCode::Unauthenticated => GrpcCode::Unauthenticated,
        TwirpErrorCode::ResourceExhausted => GrpcCode::ResourceExhausted,
        TwirpErrorCode::FailedPrecondition => GrpcCode::FailedPrecondition,
        TwirpErrorCode::Aborted => GrpcCode::Aborted,
        TwirpErrorCode::OutOfRange => GrpcCode::OutOfRange,
        TwirpErrorCode::Unimplemented => GrpcCode::Unimplemented,
        TwirpErrorCode::Internal => GrpcCode::Internal,
        TwirpErrorCode::Unavailable => GrpcCode::Unavailable,
        TwirpErrorCode::Dataloss => GrpcCode::DataLoss,
    }
}

/// The Twirp error code that each gRPC code maps to: identity where the names
/// match, with `Ok` treated as `Unknown`.
pub open spec fn spec_twirp_code(code: GrpcCode) -> TwirpErrorCode {
    match code {
        GrpcCode::Okay => TwirpErrorCode::Unknown,
        GrpcCode::Cancelled => TwirpErrorCode::Canceled,
        GrpcCode::Unknown => TwirpErrorCode::Unknown,
        GrpcCode::InvalidArgument => TwirpErrorCode::InvalidArgument,
        GrpcCode::DeadlineExceeded => TwirpErrorCode::DeadlineExceeded,
        GrpcCode::NotFound => TwirpErrorCode::NotFound,
        GrpcCode::AlreadyExists => TwirpErrorCode::AlreadyExists,
        GrpcCode::PermissionDenied => TwirpErrorCode::PermissionDenied,
        GrpcCode::ResourceExhausted => TwirpErrorCode::ResourceExhausted,
        GrpcCode::FailedPrecondition => TwirpErrorCode::FailedPrecondition,
        GrpcCode::Aborted => TwirpErrorCode::Aborted,
        GrpcCode::OutOfRange => TwirpErrorCode::OutOfRange,
        GrpcCode::Unimplemented => TwirpErrorCode::Unimplemented,
        GrpcCode::Internal => TwirpErrorCode::Internal,
        GrpcCode::Unavailable => TwirpErrorCode::Unavailable,
        GrpcCode::DataLoss => TwirpErrorCode::Dataloss,
        GrpcCode::Unauthenticated => TwirpErrorCode::Unauthenticated,
    }
}

impl From<TwirpErrorCode> for GrpcCode {
    fn from(code: TwirpErrorCode) -> (r: GrpcCode) {
        match code {
            TwirpErrorCode::Canceled => GrpcCode::Cancelled,
            TwirpErrorCode::Unknown => GrpcCode::Unknown,
            TwirpErrorCode::InvalidArgument => GrpcCode::InvalidArgument,
            TwirpErrorCode::Malformed => GrpcCode::InvalidArgument,
            TwirpErrorCode::DeadlineExceeded => GrpcCode::DeadlineExceeded,
            TwirpErrorCode::NotFound => GrpcCode::NotFound,
            TwirpErrorCode::BadRoute => GrpcCode::NotFound,
            TwirpErrorCode::AlreadyExists => GrpcCode::AlreadyExists,
            TwirpErrorCode::PermissionDenied => GrpcCode::PermissionDenied,
            TwirpErrorCode::Unauthenticated => GrpcCode::Unauthenticated,
            TwirpErrorCode::ResourceExhausted => GrpcCode::ResourceExhausted,
            TwirpErrorCode::FailedPrecondition => GrpcCode::FailedPrecondition,
            TwirpErrorCode::Aborted => GrpcCode::Aborted,
            TwirpErrorCode::OutOfRange => GrpcCode::OutOfRange,
            TwirpErrorCode::Unimplemented => GrpcCode::Unimplemented,
            TwirpErrorCode::Internal => GrpcCode::Internal,
            TwirpErrorCode::Unavailable => GrpcCode::Unavailable,
            TwirpErrorCode::Dataloss => GrpcCode::DataLoss,
        }
    }
}

impl vstd::std_specs::convert::FromSpecImpl<TwirpErrorCode> for GrpcCode {
    open spec fn obeys_from_spec() -> bool {
        true
    }

    open spec fn from_spec(code: TwirpErrorCode) -> GrpcCode {
        spec_grpc_code(code)
    }
}

impl From<GrpcCode> for TwirpErrorCode {
    fn from(code: GrpcCode) -> (r: TwirpErrorCode) {
        match code {
            GrpcCode::Okay => TwirpErrorCode::Unknown,
            GrpcCode::Cancelled => TwirpErrorCode::Canceled,
            GrpcCode::Unknown => TwirpErrorCode::Unknown,
            GrpcCode::InvalidArgument => TwirpErrorCode::InvalidArgument,
            GrpcCode::DeadlineExceeded => TwirpErrorCode::DeadlineExceeded,
            GrpcCode::NotFound => TwirpErrorCode::NotFound,
            GrpcCode::AlreadyExists => TwirpErrorCode::AlreadyExists,
            GrpcCode::PermissionDenied => TwirpErrorCode::PermissionDenied,
            GrpcCode::ResourceExhausted => TwirpErrorCode::ResourceExhausted,
            GrpcCode::FailedPrecondition => TwirpErrorCode::FailedPrecondition,
            GrpcCode::Aborted => TwirpErrorCode::Aborted,
            GrpcCode::OutOfRange => TwirpErrorCode::OutOfRange,
            GrpcCode::Unimplemented => TwirpErrorCode::Unimplemented,
            GrpcCode::Internal => TwirpErrorCode::Internal,
            GrpcCode::Unavailable => TwirpErrorCode::Unavailable,
            GrpcCode::DataLoss => TwirpErrorCode::Dataloss,
            GrpcCode::Unauthenticated => TwirpErrorCode::Unauthenticated,
        }
    }
}

impl vstd::std_specs::convert::FromSpecImpl<GrpcCode> for TwirpErrorCode {
    open spec fn obeys_from_spec() -> bool {
        true
    }

    open spec fn from_spec(code: GrpcCode) -> TwirpErrorCode {
        spec_twirp_code(code)
    }
}

/// The gRPC status produced for a Twirp error: if the error was built by
/// wrapping a status whose code and message agree with the error's own, that
/// status is returned verbatim so that its details survive the round trip;
/// otherwise a fresh status with the mapped code and the error's message.
pub open spec fn spec_status_for_error(e: TwirpError) -> GrpcStatusView {
    match e.cause {
        TwirpErrorCause::Status(s) => if s.code == spec_grpc_code(e@.code) && s.message@
            == e@.msg {
            s@
        } else {
            GrpcStatusView {
                code: spec_grpc_code(e@.code),
                message: e@.msg,
                details: Seq::empty(),
            }
        },
        _ => GrpcStatusView {
            code: spec_grpc_code(e@.code),
            message: e@.msg,
            details: Seq::empty(),
        },
    }
}

/// Builds the gRPC status for a Twirp error, preserving a wrapped status (and
/// its details) when its code and message match the error's.
pub fn grpc_status_for_twirp_error(error: TwirpError) -> (r: GrpcStatus)
    ensures
        r@ == spec_status_for_error(error),
{
    let mapped: GrpcCode = GrpcCode::from(error.code);
    match error.cause {
        TwirpErrorCause::Status(s) => {
            if s.code == mapped && crate::text::str_eq(s.message.as_str(), error.msg.as_str()) {
                s
            } else {
                GrpcStatus { code: mapped, message: error.msg, details: Vec::new() }
            }
        },
        _ => GrpcStatus { code: mapped, message: error.msg, details: Vec::new() },
    }
}

impl From<TwirpError> for GrpcStatus {
    fn from(error: TwirpError) -> (r: GrpcStatus) {
        grpc_status_for_twirp_error(error)
    }
}

impl vstd::std_specs::convert::FromSpecImpl<TwirpError> for GrpcStatus {
    open spec fn obeys_from_spec() -> bool {
        false
    }

    open spec fn from_spec(e: TwirpError) -> GrpcStatus {
        arbitrary()
    }
}

/// Builds the Twirp error for a gRPC status: the mapped code and the
/// status's message, no metadata, and the status itself retained as the
/// (never serialized) cause so that a later conversion back can return it
/// verbatim.
pub fn twirp_error_from_status(status: GrpcStatus) -> (r: TwirpError)
    ensures
        r@ == crate::error::spec_simple_error(spec_twirp_code(status@.code), status@.message),
        r.wf(),
        r.cause matches TwirpErrorCause::Status(s) && s@ == status@,
{
    let code: TwirpErrorCode = TwirpErrorCode::from(status.code);
    let msg = status.message.clone();
    let r = TwirpError { code, msg, meta: Vec::new(), cause: TwirpErrorCause::Status(status) };
    proof {
        assert(r@.meta =~= Seq::<(Seq<char>, Seq<char>)>::empty());
    }
    r
}

impl From<GrpcStatus> for TwirpError {
    fn from(status: GrpcStatus) -> (r: TwirpError) {
        twirp_error_from_status(status)
    }
}

impl vstd::std_specs::convert::FromSpecImpl<GrpcStatus> for TwirpError {
    open spec fn obeys_from_spec() -> bool {
        false
    }

    open spec fn from_spec(s: GrpcStatus) -> TwirpError {
        arbitrary()
    }
}

} // verus!
