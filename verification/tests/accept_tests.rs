use conn_server::Token;
use conn_server::accept::{Accept, AcceptAction, AcceptOutcome};
use conn_server::waker_queue::WakerInterest;
use conn_server::worker::WorkerHandleAccept;

fn ring(n: usize) -> Vec<WorkerHandleAccept> {
    (0..n).map(|idx| WorkerHandleAccept { idx }).collect()
}

fn acceptor(listeners: usize, workers: usize) -> Accept {
    let tokens: Vec<Token> = (0..listeners).map(Token).collect();
    Accept::new(tokens, ring(workers))
}

#[test]
fn round_robin_rotates_through_workers() {
    let mut a = acceptor(1, 3);
    let avails = vec![true, true, true];
    assert_eq!(a.select_worker(&avails), Some(0));
    assert_eq!(a.select_worker(&avails), Some(1));
    assert_eq!(a.select_worker(&avails), Some(2));
    assert_eq!(a.select_worker(&avails), Some(0));
}

#[test]
fn dispatch_skips_unavailable_workers() {
    let mut a = acceptor(1, 3);
    let avails = vec![false, false, true];
    assert_eq!(a.select_worker(&avails), Some(2));
    // The cursor advanced past the chosen worker and wraps.
    assert_eq!(a.select_worker(&vec![true, true, true]), Some(0));
}

#[test]
fn no_available_worker_parks_one_stream_per_listener() {
    let mut a = acceptor(2, 2);
    let avails = vec![false, false];

    assert_eq!(a.accept_one(0, &avails), AcceptOutcome::Held);
    assert!(!a.listeners[0].registered);
    assert!(a.listeners[0].held);

    // The listener would not be polled while deregistered, but were another
    // stream accepted for it, it is dropped for backpressure.
    assert_eq!(a.accept_one(1, &avails), AcceptOutcome::Held);
    let mut b = acceptor(1, 1);
    assert_eq!(b.accept_one(0, &vec![false]), AcceptOutcome::Held);
    b.listeners[0].registered = true;
    assert_eq!(b.accept_one(0, &vec![false]), AcceptOutcome::Dropped);
}

#[test]
fn worker_available_retries_held_stream() {
    let mut a = acceptor(1, 1);
    assert_eq!(a.accept_one(0, &vec![false]), AcceptOutcome::Held);

    // The worker flips available; its interest re-registers the listener.
    let action = a.handle_interest(WakerInterest::WorkerAvailable);
    assert_eq!(action, AcceptAction::RetryHeld);
    assert!(a.listeners[0].registered);

    assert_eq!(a.retry_held(0, &vec![true]), Some(0));
    assert!(!a.listeners[0].held);
    assert!(a.listeners[0].registered);
}

#[test]
fn pause_blocks_and_resume_restores() {
    let mut a = acceptor(3, 1);
    assert!(a.listeners.iter().all(|l| l.registered));

    let action = a.handle_interest(WakerInterest::Pause);
    assert_eq!(action, AcceptAction::Continue);
    assert!(a.paused);
    // While paused no listener is registered, so nothing can be accepted
    // and no connection reaches any worker.
    assert!(a.listeners.iter().all(|l| !l.registered));

    // A worker becoming available while paused re-registers nothing.
    a.handle_interest(WakerInterest::WorkerAvailable);
    assert!(a.listeners.iter().all(|l| !l.registered));

    let action = a.handle_interest(WakerInterest::Resume);
    assert_eq!(action, AcceptAction::Continue);
    assert!(!a.paused);
    assert!(a.listeners.iter().all(|l| l.registered));
    for (j, l) in a.listeners.iter().enumerate() {
        assert_eq!(l.token, Token(j));
        assert!(!l.held);
    }
}

#[test]
fn worker_join_extends_ring() {
    let mut a = acceptor(1, 1);
    let action = a.handle_interest(WakerInterest::Worker(WorkerHandleAccept { idx: 1 }));
    assert_eq!(action, AcceptAction::Continue);
    assert_eq!(a.handles.len(), 2);
    assert_eq!(a.handles[1].idx, 1);
}

#[test]
fn faulted_worker_is_replaced_at_same_index() {
    let mut a = acceptor(1, 2);

    // The send to the worker at ring position 1 (index 1) failed.
    a.worker_faulted(1);
    assert_eq!(a.handles.len(), 1);
    assert!(a.handles.iter().all(|h| h.idx != 1));

    // Meanwhile dispatch keeps working on the survivor.
    assert_eq!(a.select_worker(&vec![true]), Some(0));

    // The controller's replacement joins under the same index: exactly one
    // handle for index 1 again.
    a.handle_interest(WakerInterest::Worker(WorkerHandleAccept { idx: 1 }));
    assert_eq!(a.handles.iter().filter(|h| h.idx == 1).count(), 1);
    assert_eq!(a.handles.len(), 2);
}

#[test]
fn stop_deregisters_everything_and_exits() {
    let mut a = acceptor(2, 1);
    let action = a.handle_interest(WakerInterest::Stop { graceful: true });
    assert_eq!(action, AcceptAction::Exit { graceful: true });
    assert!(a.stopped);
    assert!(a.listeners.iter().all(|l| !l.registered));
}
