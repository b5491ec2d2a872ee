//! The example service: an echo of a string and a timestamp.

use vstd::prelude::*;
use crate::error::TwirpError;
use crate::well_known::TimestampValue;

verus! {

/// The example request: a string and a point in time.
#[derive(Debug)]
pub struct TestRequest {
    pub string: String,
    pub time: Option<TimestampValue>,
}

/// The example response, mirroring the request.
#[derive(Debug)]
pub struct TestResponse {
    pub string: String,
    pub time: Option<TimestampValue>,
}

/// The example service: echoes each request.
pub struct ExampleServiceServicer {}

impl ExampleServiceServicer {
    /// Echoes the request's string and time.
    pub fn test(&self, request: TestRequest) -> (r: Result<TestResponse, TwirpError>)
        ensures
            r matches Ok(resp) && resp.string == request.string && resp.time == request.time,
    {
        Ok(TestResponse { string: request.string, time: request.time })
    }
}

} // verus!
