//! Verified runtime for the Twirp RPC protocol: the error model with its JSON
//! wire form and HTTP status mappings, content negotiation, request routing
//! decisions, the streaming frame format, the gRPC status bridge, and the
//! code-generation rules that bind protobuf service descriptors to it.

pub mod client;
pub mod error;
pub mod example;
pub mod generator;
pub mod grpc;
pub mod http;
pub mod integration;
pub mod json;
pub mod path_map;
pub mod postprocess;
pub mod server;
pub mod stream;
pub mod text;
pub mod well_known;
