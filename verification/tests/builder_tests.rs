use conn_server::builder::{
    bind_addr, bind_uds_precheck, graceful_stop_complete, BindAddrError, CmdEffect,
    ServerBuilder, ServerCommand, Signal, UnlinkOutcome,
};
use conn_server::waker_queue::{WakerInterest, WakerQueue};

#[test]
fn builder_defaults() {
    let b = ServerBuilder::new();
    assert!(b.threads >= 1);
    assert_eq!(b.token, 0);
    assert_eq!(b.backlog, 2048);
    assert_eq!(b.sockets.len(), 0);
    assert!(!b.exit);
    assert!(!b.no_signals);
    assert_eq!(b.notify, 0);
    assert_eq!(b.worker_config.shutdown_timeout_secs, 30);
    assert_eq!(b.worker_config.max_concurrent_connections, 25600);
    assert!(b.worker_config.max_blocking_threads >= 1);
}

#[test]
fn builder_setters() {
    let b = ServerBuilder::new()
        .workers(1)
        .backlog(12)
        .maxconn(3)
        .shutdown_timeout(1)
        .worker_max_blocking_threads(4)
        .system_exit()
        .disable_signals();
    assert_eq!(b.threads, 1);
    assert_eq!(b.backlog, 12);
    assert_eq!(b.worker_config.max_concurrent_connections, 3);
    assert_eq!(b.worker_config.shutdown_timeout_secs, 1);
    assert_eq!(b.worker_config.max_blocking_threads, 4);
    assert!(b.exit);
    assert!(b.no_signals);
}

#[test]
fn binds_assign_dense_tokens() {
    let b = ServerBuilder::new()
        .bind_acceptable("addr1".to_string())
        .bind_acceptable("addr2".to_string())
        .bind_acceptable("addr3".to_string());
    assert_eq!(b.sockets.len(), 3);
    assert_eq!(b.token, 3);
    for (j, s) in b.sockets.iter().enumerate() {
        assert_eq!(s.token, j);
    }
    assert_eq!(b.sockets[0].name, "addr1");
    assert_eq!(b.sockets[2].name, "addr3");
}

#[test]
fn run_plans_one_handle_per_worker() {
    let plan = ServerBuilder::new()
        .workers(2)
        .disable_signals()
        .bind_acceptable("test".to_string())
        .run();
    assert_eq!(plan.handles.len(), 2);
    assert_eq!(plan.handles[0].idx, 0);
    assert_eq!(plan.handles[1].idx, 1);
    assert_eq!(plan.sockets.len(), 1);
    assert_eq!(plan.sockets[0].name, "test");
    assert!(!plan.install_signals);
    assert_eq!(plan.factories, 1);
}

#[test]
fn pause_and_resume_ack_and_queue_interests() {
    let mut q = WakerQueue::new();
    let mut b = ServerBuilder::new();
    assert_eq!(b.handle_cmd(&mut q, ServerCommand::Pause), CmdEffect::Acked);
    assert_eq!(b.handle_cmd(&mut q, ServerCommand::Resume), CmdEffect::Acked);
    assert_eq!(q.pop(), Some(WakerInterest::Pause));
    assert_eq!(q.pop(), Some(WakerInterest::Resume));
    assert_eq!(q.pop(), None);
}

#[test]
fn notify_registers_parties() {
    let mut q = WakerQueue::new();
    let mut b = ServerBuilder::new();
    assert_eq!(b.handle_cmd(&mut q, ServerCommand::Notify), CmdEffect::Noted);
    assert_eq!(b.handle_cmd(&mut q, ServerCommand::Notify), CmdEffect::Noted);
    assert_eq!(b.notify, 2);
    assert_eq!(q.len(), 0);
}

#[test]
fn stop_snapshots_exit_and_drains_notify_list() {
    let mut q = WakerQueue::new();
    let mut b = ServerBuilder::new().system_exit();
    b.handle_cmd(&mut q, ServerCommand::Notify);
    let eff = b.handle_cmd(&mut q, ServerCommand::Stop { graceful: true });
    assert_eq!(eff, CmdEffect::Stopping { graceful: true, exit: true, notify: 1 });
    assert_eq!(b.notify, 0);
    assert_eq!(q.pop(), Some(WakerInterest::Stop { graceful: true }));
}

#[test]
fn stop_is_idempotent() {
    let mut q = WakerQueue::new();
    let mut b = ServerBuilder::new();
    let first = b.handle_cmd(&mut q, ServerCommand::Stop { graceful: true });
    assert_eq!(first, CmdEffect::Stopping { graceful: true, exit: false, notify: 0 });

    // A second stop after completion still queues the interest and still
    // yields a stopping effect whose completion acknowledges the stopper.
    let second = b.handle_cmd(&mut q, ServerCommand::Stop { graceful: true });
    assert_eq!(second, CmdEffect::Stopping { graceful: true, exit: false, notify: 0 });
    assert_eq!(q.pop(), Some(WakerInterest::Stop { graceful: true }));
    assert_eq!(q.pop(), Some(WakerInterest::Stop { graceful: true }));
    // With the workers already gone the reply list is empty and the
    // aggregate completes at once.
    assert!(graceful_stop_complete(&vec![], 0));
}

#[test]
fn signals_map_to_stops() {
    let mut q = WakerQueue::new();

    let mut b = ServerBuilder::new();
    let eff = b.handle_signal(&mut q, Signal::Int);
    assert_eq!(eff, CmdEffect::Stopping { graceful: false, exit: true, notify: 0 });
    assert!(b.exit);
    assert_eq!(q.pop(), Some(WakerInterest::Stop { graceful: false }));

    let mut b = ServerBuilder::new();
    let eff = b.handle_signal(&mut q, Signal::Term);
    assert_eq!(eff, CmdEffect::Stopping { graceful: true, exit: true, notify: 0 });
    assert_eq!(q.pop(), Some(WakerInterest::Stop { graceful: true }));

    let mut b = ServerBuilder::new();
    let eff = b.handle_signal(&mut q, Signal::Quit);
    assert_eq!(eff, CmdEffect::Stopping { graceful: false, exit: true, notify: 0 });
    assert_eq!(q.pop(), Some(WakerInterest::Stop { graceful: false }));

    let mut b = ServerBuilder::new();
    let eff = b.handle_signal(&mut q, Signal::Hup);
    assert_eq!(eff, CmdEffect::Ignored);
    assert!(!b.exit);
    assert_eq!(q.len(), 0);
}

#[test]
fn worker_fault_starts_replacement() {
    let mut q = WakerQueue::new();
    let mut b = ServerBuilder::new();
    let eff = b.handle_cmd(&mut q, ServerCommand::WorkerFaulted(1));
    assert_eq!(eff, CmdEffect::WorkerRestart(1));
    match q.pop() {
        Some(WakerInterest::Worker(h)) => assert_eq!(h.idx, 1),
        other => panic!("expected a worker interest, got {:?}", other),
    }
}

#[test]
fn bind_addr_keeps_successes_in_order() {
    let results: Vec<Result<u32, u32>> = vec![Ok(10), Err(1), Ok(20)];
    assert_eq!(bind_addr(results), Ok(vec![10, 20]));
}

#[test]
fn bind_addr_surfaces_first_error() {
    let results: Vec<Result<u32, u32>> = vec![Err(1), Err(2)];
    assert_eq!(bind_addr(results), Err(BindAddrError::Failed(1)));
}

#[test]
fn bind_addr_rejects_empty_resolution() {
    let results: Vec<Result<u32, u32>> = vec![];
    assert_eq!(bind_addr(results), Err(BindAddrError::NoAddress));
}

#[test]
fn uds_bind_unlinks_stale_files() {
    // A stale file was unlinked, or none existed: the bind proceeds.
    assert_eq!(bind_uds_precheck::<u32>(UnlinkOutcome::Removed), Ok(()));
    assert_eq!(bind_uds_precheck::<u32>(UnlinkOutcome::NotFound), Ok(()));
    // Any other removal failure propagates.
    assert_eq!(bind_uds_precheck(UnlinkOutcome::Failed(13u32)), Err(13));
}

#[test]
fn graceful_stop_aggregates_worker_replies() {
    assert!(graceful_stop_complete(&vec![true, true], 2));
    assert!(!graceful_stop_complete(&vec![true, false], 2));
    assert!(graceful_stop_complete(&vec![], 0));
}
