//! The Twirp streaming transports: the length-prefixed binary frame format
//! `[flag, length as 32-bit big-endian, payload]` with flag 0 for messages
//! and flag 48 for an in-band error, and the JSON-lines envelopes
//! `{"message":…}` and `{"error":…}`.

use vstd::prelude::*;
use vstd::string::StringExecFns;
use crate::error::{TwirpError, TwirpErrorCode};

verus! {

/// The frame flag of a message payload.
pub const MESSAGE_FLAG: u8 = 0;

/// The frame flag of an in-band error payload.
pub const ERROR_FLAG: u8 = 48;

/// The four big-endian bytes of a 32-bit length.
pub open spec fn spec_be32(n: u32) -> Seq<u8> {
    seq![
        (n / 0x1000000) as u8,
        ((n / 0x10000) % 256) as u8,
        ((n / 256) % 256) as u8,
        (n % 256) as u8,
    ]
}

/// A binary stream frame: the flag, the payload length in 32-bit big-endian,
/// and the payload.
pub open spec fn spec_frame(flag: u8, len_field: u32, payload: Seq<u8>) -> Seq<u8> {
    seq![flag] + spec_be32(len_field) + payload
}

/// Appends the four big-endian bytes of a 32-bit length.
fn push_be32(out: &mut Vec<u8>, n: u32)
    ensures
        final(out)@ == old(out)@ + spec_be32(n),
{
    out.push((n / 0x1000000) as u8);
    out.push(((n / 0x10000) % 256) as u8);
    out.push(((n / 256) % 256) as u8);
    out.push((n % 256) as u8);
    proof {
        assert(out@ =~= old(out)@ + spec_be32(n));
    }
}

/// Builds the message frame for an encoded payload. A payload whose length
/// does not fit in 32 bits is refused as `internal`, with the exact wire
/// message.
pub fn encode_message_frame(payload: &Vec<u8>) -> (r: Result<Vec<u8>, TwirpError>)
    ensures
        match r {
            Ok(frame) => payload@.len() <= u32::MAX && frame@ == spec_frame(
                MESSAGE_FLAG,
                payload@.len() as u32,
                payload@,
            ),
            Err(e) => payload@.len() > u32::MAX && e@ == crate::error::spec_simple_error(
                TwirpErrorCode::Internal,
                "Too large message, its length must fit in 32bits"@,
            ) && e.wf(),
        },
{
    if payload.len() > u32::MAX as usize {
        return Err(
            TwirpError::new(
                TwirpErrorCode::Internal,
                String::from_str("Too large message, its length must fit in 32bits"),
            ),
        );
    }
    let mut frame: Vec<u8> = Vec::new();
    frame.push(MESSAGE_FLAG);
    push_be32(&mut frame, payload.len() as u32);
    crate::text::append_bytes(&mut frame, payload.as_slice());
    proof {
        assert(frame@ =~= spec_frame(MESSAGE_FLAG, payload@.len() as u32, payload@));
    }
    Ok(frame)
}

/// Builds the in-band error frame for an error: flag 48 and the error's
/// canonical JSON as the payload. A JSON body whose length does not fit in
/// 32 bits keeps its payload but writes length 0, as the transport does.
pub fn encode_error_frame(e: &TwirpError) -> (r: Vec<u8>)
    ensures
        ({
            let payload = crate::text::spec_bytes_of(crate::json::spec_error_json(e@));
            r@ == spec_frame(
                ERROR_FLAG,
                if payload.len() <= u32::MAX {
                    payload.len() as u32
                } else {
                    0
                },
                payload,
            )
        }),
{
    let json = crate::json::error_to_json(e);
    let payload = crate::text::str_to_bytes(json.as_str());
    let len_field: u32 = if payload.len() <= u32::MAX as usize {
        payload.len() as u32
    } else {
        0
    };
    let mut frame: Vec<u8> = Vec::new();
    frame.push(ERROR_FLAG);
    push_be32(&mut frame, len_field);
    crate::text::append_bytes(&mut frame, payload.as_slice());
    proof {
        assert(frame@ =~= spec_frame(ERROR_FLAG, len_field, payload@));
    }
    frame
}

/// The bytes sent on the binary stream for one item: a message frame for an
/// encoded payload that fits, and an in-band error frame both for a handler
/// error and for a payload too large to frame.
pub fn binary_stream_chunk(item: Result<Vec<u8>, TwirpError>) -> (r: Vec<u8>)
    ensures
        match item {
            Ok(payload) => if payload@.len() <= u32::MAX {
                r@ == spec_frame(MESSAGE_FLAG, payload@.len() as u32, payload@)
            } else {
                ({
                    let e = crate::error::spec_simple_error(
                        TwirpErrorCode::Internal,
                        "Too large message, its length must fit in 32bits"@,
                    );
                    let ep = crate::text::spec_bytes_of(crate::json::spec_error_json(e));
                    r@ == spec_frame(
                        ERROR_FLAG,
                        if ep.len() <= u32::MAX {
                            ep.len() as u32
                        } else {
                            0
                        },
                        ep,
                    )
                })
            },
            Err(e) => ({
                let ep = crate::text::spec_bytes_of(crate::json::spec_error_json(e@));
                r@ == spec_frame(
                    ERROR_FLAG,
                    if ep.len() <= u32::MAX {
                        ep.len() as u32
                    } else {
                        0
                    },
                    ep,
                )
            }),
        },
{
    match item {
        Ok(payload) => match encode_message_frame(&payload) {
            Ok(frame) => frame,
            Err(e) => encode_error_frame(&e),
        },
        Err(e) => encode_error_frame(&e),
    }
}

/// The bytes sent on the JSON stream for one item: a `{"message":…}`
/// envelope around an already-JSON-encoded payload, or an `{"error":…}`
/// envelope around the error's canonical JSON.
pub fn json_stream_chunk(item: Result<Vec<u8>, TwirpError>) -> (r: Vec<u8>)
    ensures
        match item {
            Ok(msg_json) => r@ == crate::text::spec_bytes_of("{\"message\":"@) + msg_json@
                + crate::text::spec_bytes_of("}"@),
            Err(e) => r@ == crate::text::spec_bytes_of("{\"error\":"@) + crate::text::spec_bytes_of(
                crate::json::spec_error_json(e@),
            ) + crate::text::spec_bytes_of("}"@),
        },
{
    let mut out: Vec<u8> = Vec::new();
    match item {
        Ok(msg_json) => {
            crate::text::append_str_bytes(&mut out, "{\"message\":");
            crate::text::append_bytes(&mut out, msg_json.as_slice());
            crate::text::append_str_bytes(&mut out, "}");
        },
        Err(e) => {
            let json = crate::json::error_to_json(&e);
            crate::text::append_str_bytes(&mut out, "{\"error\":");
            crate::text::append_bytes(&mut out, crate::text::str_to_bytes(json.as_str()).as_slice());
            crate::text::append_str_bytes(&mut out, "}");
        },
    }
    out
}

/// The `Content-Type` of a binary Twirp stream response.
pub fn protobuf_stream_content_type() -> (r: &'static str)
    ensures
        r@ == "application/x-twurst-protobuf-stream"@,
{
    "application/x-twurst-protobuf-stream"
}

/// The `Content-Type` of a JSON-lines stream response.
pub fn jsonl_content_type() -> (r: &'static str)
    ensures
        r@ == "application/jsonl"@,
{
    "application/jsonl"
}

} // verus!
