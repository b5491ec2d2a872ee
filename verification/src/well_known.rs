//! Plain-value stand-ins for the well-known protobuf types the services
//! carry through their requests and responses. What only a protobuf
//! runtime can compute stays outside; these hold the values the logic
//! reads and echoes.

use vstd::prelude::*;

verus! {

/// A point in time: seconds and nanoseconds since the Unix epoch.
#[derive(Clone, Copy, Debug, PartialEq, Eq, Structural)]
pub struct TimestampValue {
    pub seconds: i64,
    pub nanos: i32,
}

/// A span of time: seconds and nanoseconds.
#[derive(Clone, Copy, Debug, PartialEq, Eq, Structural)]
pub struct DurationValue {
    pub seconds: i64,
    pub nanos: i32,
}

/// A packed message of any type: its type URL and encoded bytes.
#[derive(Debug)]
pub struct AnyValue {
    pub type_url: String,
    pub value: Vec<u8>,
}

/// A dynamically-typed JSON-like value. A number is carried as the raw bits
/// of its double representation, which the logic never computes with.
#[derive(Debug)]
pub enum ValueKind {
    Null,
    NumberBits(u64),
    Text(String),
    Truth(bool),
}

} // verus!
