//! What the front end answers for one request: a fixed reply when no route
//! serves it or the dispatch fails, else the status and body of the response
//! frame.
use vstd::prelude::*;
use vstd::string::StringSliceAdditionalSpecFns;

use crate::dispatch::DispatchErr;
use crate::frames::{decode_response, decoded_response, encode_request, push_all, request_frame, MAX_FIELD_LEN};
use crate::router_handle::{first_match, HandlerId, RouterHandle};

verus! {

pub const STATUS_NOT_FOUND: u16 = 404;

pub const STATUS_PAYLOAD_TOO_LARGE: u16 = 413;

pub const STATUS_INTERNAL_ERROR: u16 = 500;

pub const STATUS_GATEWAY_TIMEOUT: u16 = 504;

/// An HTTP reply: a status code and a body.
pub struct Reply {
    pub status: u16,
    pub body: Vec<u8>,
}

/// Relies on `hyper::StatusCode::from_u16` (the `http` crate's): it accepts
/// exactly the codes from 100 to 999.
#[verifier::external_body]
fn is_valid_status(code: u16) -> (r: bool)
    ensures
        r == (100 <= code && code < 1000),
{
    hyper::StatusCode::from_u16(code).is_ok()
}

/// `code` if it is a valid HTTP status, else the internal-error status.
pub fn status_or_internal(code: u16) -> (r: u16)
    ensures
        r == if 100 <= code && code < 1000 { code } else { STATUS_INTERNAL_ERROR },
{
    if is_valid_status(code) {
        code
    } else {
        STATUS_INTERNAL_ERROR
    }
}

/// The bytes of `text`.
fn text_body(text: &str) -> (r: Vec<u8>)
    ensures
        r@ == text.spec_bytes(),
{
    let mut out: Vec<u8> = Vec::new();
    push_all(&mut out, text.as_bytes());
    assert(out@ =~= text.spec_bytes());
    out
}

/// The reply to a request that no route serves.
pub fn not_found_reply() -> (r: Reply)
    ensures
        r.status == STATUS_NOT_FOUND,
        r.body@ == "not found\n".spec_bytes(),
{
    Reply { status: STATUS_NOT_FOUND, body: text_body("not found\n") }
}

/// The reply to a request whose path or body is too long for a frame.
pub fn too_large_reply() -> (r: Reply)
    ensures
        r.status == STATUS_PAYLOAD_TOO_LARGE,
        r.body@ == "request too large\n".spec_bytes(),
{
    Reply { status: STATUS_PAYLOAD_TOO_LARGE, body: text_body("request too large\n") }
}

/// The handler of the first route that serves `method` on `path`, or the
/// not-found reply when none does.
pub fn resolve_route(router: &RouterHandle, method: u8, path: &str) -> (r: Result<HandlerId, Reply>)
    ensures
        match first_match(router@.routes, method, path.spec_bytes()) {
            Some(id) => r matches Ok(h) && h == id,
            None => r matches Err(reply) && reply.status == STATUS_NOT_FOUND && reply.body@
                == "not found\n".spec_bytes(),
        },
{
    match router.lookup(method, path) {
        Some(id) => Ok(id),
        None => Err(not_found_reply()),
    }
}

/// The request frame to dispatch for `method`, `path` and `body`, or the
/// too-large reply when the path or the body does not fit a frame's length
/// field.
pub fn frame_or_reply(method: u8, path: &str, body: &[u8]) -> (r: Result<Vec<u8>, Reply>)
    ensures
        if path.spec_bytes().len() <= MAX_FIELD_LEN && body@.len() <= MAX_FIELD_LEN {
            r matches Ok(frame) && frame@ == request_frame(method, path.spec_bytes(), body@)
        } else {
            r matches Err(reply) && reply.status == STATUS_PAYLOAD_TOO_LARGE && reply.body@
                == "request too large\n".spec_bytes()
        },
{
    if path.as_bytes().len() <= MAX_FIELD_LEN && body.len() <= MAX_FIELD_LEN {
        Ok(encode_request(method, path, body))
    } else {
        Err(too_large_reply())
    }
}

/// The reply to a dispatched request, given what the dispatch returned: a
/// timeout and any other dispatch error, and a response frame that does not
/// decode, get fixed replies; a decoded frame is passed on as it is, with an
/// invalid status replaced by the internal-error status.
pub fn reply_for(outcome: Result<Vec<u8>, DispatchErr>) -> (r: Reply)
    ensures
        match outcome {
            Err(DispatchErr::Timeout) => r.status == STATUS_GATEWAY_TIMEOUT && r.body@ == "timeout\n".spec_bytes(),
            Err(DispatchErr::RuntimeDropped) => r.status == STATUS_INTERNAL_ERROR && r.body@
                == "swift dispatch failed\n".spec_bytes(),
            Ok(frame) => match decoded_response(frame@) {
                None => r.status == STATUS_INTERNAL_ERROR && r.body@ == "invalid response frame\n".spec_bytes(),
                Some((status, body)) => r.status == (if 100 <= status && status < 1000 {
                    status
                } else {
                    STATUS_INTERNAL_ERROR
                }) && r.body@ == body,
            },
        },
{
    match outcome {
        Err(DispatchErr::Timeout) => Reply { status: STATUS_GATEWAY_TIMEOUT, body: text_body("timeout\n") },
        Err(DispatchErr::RuntimeDropped) => Reply {
            status: STATUS_INTERNAL_ERROR,
            body: text_body("swift dispatch failed\n"),
        },
        Ok(frame) => match decode_response(frame.as_slice()) {
            None => Reply { status: STATUS_INTERNAL_ERROR, body: text_body("invalid response frame\n") },
            Some((status, body)) => Reply { status: status_or_internal(status), body },
        },
    }
}

} // verus!
