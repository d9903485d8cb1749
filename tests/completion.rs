use std::sync::{Arc, Mutex};

use kiri::completion::{CompletionContext, CompletionState};
use kiri::dispatch::{settle_dispatch, DispatchErr, WaitOutcome};
use tokio::sync::oneshot;

#[test]
fn complete_stores_result_once_and_wakes() {
    let (tx, mut rx) = oneshot::channel::<()>();
    let mut context = CompletionContext::new(tx);
    assert_eq!(context.state(), CompletionState::Pending);
    assert!(context.complete(b"first".to_vec()));
    assert_eq!(context.state(), CompletionState::Completed);
    assert!(!context.complete(b"second".to_vec()));
    assert_eq!(rx.try_recv(), Ok(()));
    assert!(!context.is_cancelled());
    assert_eq!(context.take_result(), Some(b"first".to_vec()));
    assert_eq!(context.take_result(), None);
}

#[test]
fn cancel_then_complete_discards_result() {
    let (tx, mut rx) = oneshot::channel::<()>();
    let mut context = CompletionContext::new(tx);
    assert!(context.cancel());
    assert!(context.is_cancelled());
    assert!(!context.complete(b"late".to_vec()));
    assert_eq!(context.state(), CompletionState::Cancelled);
    assert_eq!(context.take_result(), None);
    assert!(rx.try_recv().is_err());
}

#[test]
fn complete_then_cancel_keeps_result() {
    let (tx, _rx) = oneshot::channel::<()>();
    let mut context = CompletionContext::new(tx);
    assert!(context.complete(b"done".to_vec()));
    assert!(!context.cancel());
    assert!(!context.is_cancelled());
    assert_eq!(context.take_result(), Some(b"done".to_vec()));
}

#[test]
fn complete_after_receiver_dropped_is_safe() {
    let (tx, rx) = oneshot::channel::<()>();
    drop(rx);
    let mut context = CompletionContext::new(tx);
    assert!(context.complete(b"nobody".to_vec()));
    assert_eq!(context.state(), CompletionState::Completed);
}

#[test]
fn releasing_every_runtime_handle_closes_the_channel() {
    let (tx, mut rx) = oneshot::channel::<()>();
    let mut context = CompletionContext::new(tx);
    context.release_runtime_handle();
    assert_eq!(rx.try_recv(), Err(oneshot::error::TryRecvError::Empty));
    context.release_runtime_handle();
    assert_eq!(rx.try_recv(), Err(oneshot::error::TryRecvError::Closed));
    let r = settle_dispatch(&mut context, WaitOutcome::Closed);
    assert_eq!(r, Err(DispatchErr::RuntimeDropped));
    assert!(context.is_cancelled());
    assert!(!context.complete(b"late".to_vec()));
}

#[test]
fn settle_notified_returns_result() {
    let (tx, _rx) = oneshot::channel::<()>();
    let mut context = CompletionContext::new(tx);
    assert!(context.complete(b"r".to_vec()));
    let r = settle_dispatch(&mut context, WaitOutcome::Notified);
    assert_eq!(r, Ok(b"r".to_vec()));
}

#[test]
fn settle_elapsed_after_completion_won_returns_result() {
    let (tx, _rx) = oneshot::channel::<()>();
    let mut context = CompletionContext::new(tx);
    assert!(context.complete(b"just in time".to_vec()));
    let r = settle_dispatch(&mut context, WaitOutcome::Elapsed);
    assert_eq!(r, Ok(b"just in time".to_vec()));
    assert_eq!(context.state(), CompletionState::Completed);
}

#[test]
fn settle_elapsed_cancels_and_late_complete_is_discarded() {
    let (tx, mut rx) = oneshot::channel::<()>();
    let mut context = CompletionContext::new(tx);
    let r = settle_dispatch(&mut context, WaitOutcome::Elapsed);
    assert_eq!(r, Err(DispatchErr::Timeout));
    assert!(context.is_cancelled());
    assert!(!context.complete(b"late".to_vec()));
    assert_eq!(context.state(), CompletionState::Cancelled);
    assert_eq!(context.take_result(), None);
    assert!(rx.try_recv().is_err());
}

#[test]
fn concurrent_complete_and_timeout_have_one_outcome() {
    let runtime = tokio::runtime::Builder::new_multi_thread().worker_threads(2).build().unwrap();
    for _ in 0..50 {
        let (tx, _rx) = oneshot::channel::<()>();
        let context = Arc::new(Mutex::new(CompletionContext::new(tx)));
        let other = Arc::clone(&context);
        let completer = runtime.spawn_blocking(move || other.lock().unwrap().complete(b"x".to_vec()));
        let settled = settle_dispatch(&mut context.lock().unwrap(), WaitOutcome::Elapsed);
        let completed = runtime.block_on(completer).unwrap();
        let state = context.lock().unwrap().state();
        if completed {
            assert_eq!(settled, Ok(b"x".to_vec()));
            assert_eq!(state, CompletionState::Completed);
        } else {
            assert_eq!(settled, Err(DispatchErr::Timeout));
            assert_eq!(state, CompletionState::Cancelled);
        }
    }
}
