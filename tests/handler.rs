use kiri::completion::CompletionContext;
use kiri::dispatch::{settle_dispatch, DispatchErr, WaitOutcome};
use kiri::frames::{encode_request, encode_response};
use kiri::handler::{
    frame_or_reply, not_found_reply, reply_for, resolve_route, status_or_internal, too_large_reply,
};
use kiri::router::{method_to_u8, METHOD_GET};
use kiri::router_handle::RouterHandle;
use tokio::sync::oneshot;

#[test]
fn status_validation() {
    assert_eq!(status_or_internal(200), 200);
    assert_eq!(status_or_internal(100), 100);
    assert_eq!(status_or_internal(999), 999);
    assert_eq!(status_or_internal(99), 500);
    assert_eq!(status_or_internal(42), 500);
    assert_eq!(status_or_internal(1000), 500);
    assert_eq!(status_or_internal(0), 500);
}

#[test]
fn fixed_replies() {
    let r = not_found_reply();
    assert_eq!((r.status, r.body), (404, b"not found\n".to_vec()));
    let r = too_large_reply();
    assert_eq!((r.status, r.body), (413, b"request too large\n".to_vec()));
    let r = reply_for(Err(DispatchErr::Timeout));
    assert_eq!((r.status, r.body), (504, b"timeout\n".to_vec()));
    let r = reply_for(Err(DispatchErr::RuntimeDropped));
    assert_eq!((r.status, r.body), (500, b"swift dispatch failed\n".to_vec()));
    let r = reply_for(Ok(vec![1, 2, 3]));
    assert_eq!((r.status, r.body), (500, b"invalid response frame\n".to_vec()));
}

#[test]
fn decoded_frame_is_forwarded() {
    let r = reply_for(Ok(encode_response(201, b"made")));
    assert_eq!((r.status, r.body), (201, b"made".to_vec()));
    let r = reply_for(Ok(encode_response(42, b"odd")));
    assert_eq!((r.status, r.body), (500, b"odd".to_vec()));
}

#[test]
fn plaintext_end_to_end() {
    let mut router = RouterHandle::new();
    assert_eq!(router.register(METHOD_GET, b"/plaintext", 7), Ok(()));
    assert!(router.freeze());

    // A GET to /plaintext whose handler completes with {200, "hi"}.
    let method = method_to_u8("GET");
    let handler_id = resolve_route(&router, method, "/plaintext").ok();
    assert_eq!(handler_id, Some(7));
    let request = match frame_or_reply(method, "/plaintext", b"") {
        Ok(frame) => frame,
        Err(reply) => panic!("unexpected reply {}", reply.status),
    };
    assert_eq!(request, encode_request(method, "/plaintext", b""));
    assert_eq!(request[0], METHOD_GET);
    let (tx, mut rx) = oneshot::channel::<()>();
    let mut context = CompletionContext::new(tx);
    assert!(context.complete(encode_response(200, b"hi")));
    assert_eq!(rx.try_recv(), Ok(()));
    let reply = reply_for(settle_dispatch(&mut context, WaitOutcome::Notified));
    assert_eq!((reply.status, reply.body), (200, b"hi".to_vec()));

    // A GET to /missing.
    match resolve_route(&router, method, "/missing") {
        Ok(id) => panic!("unexpected handler {}", id),
        Err(reply) => assert_eq!((reply.status, reply.body), (404, b"not found\n".to_vec())),
    }

    // A GET to /plaintext whose handler never completes.
    let (tx, _rx) = oneshot::channel::<()>();
    let mut context = CompletionContext::new(tx);
    let reply = reply_for(settle_dispatch(&mut context, WaitOutcome::Elapsed));
    assert_eq!(reply.status, 504);
    assert!(!context.complete(encode_response(200, b"hi")));
}

#[test]
fn frame_or_reply_encodes_fitting_requests() {
    match frame_or_reply(0, "/a", b"xy") {
        Ok(frame) => assert_eq!(frame, vec![0, 2, 0, 0, 0, b'/', b'a', 2, 0, 0, 0, b'x', b'y']),
        Err(reply) => panic!("unexpected reply {}", reply.status),
    }
}

#[test]
fn resolve_route_post_is_not_found() {
    let mut router = RouterHandle::new();
    assert_eq!(router.register(METHOD_GET, b"/plaintext", 7), Ok(()));
    let method = method_to_u8("POST");
    match resolve_route(&router, method, "/plaintext") {
        Ok(id) => panic!("unexpected handler {}", id),
        Err(reply) => assert_eq!(reply.status, 404),
    }
}
