use conn_server::Token;
use conn_server::waker_queue::{WakerInterest, WakerQueue};
use conn_server::worker::{
    AvailablePoll, Conn, ReadinessStep, ServerWorker, ServerWorkerConfig, ServicePoll,
    ShutdownPoll, StopDisposition, WorkerAvailability, WorkerServiceStatus, WorkerState,
};

fn config(maxconn: usize) -> ServerWorkerConfig {
    let mut c: ServerWorkerConfig = Default::default();
    c.max_concurrent_connections(maxconn);
    c
}

fn ready_worker(services: usize, maxconn: usize, queue: &mut WakerQueue) -> ServerWorker {
    let mut w = ServerWorker::new(services, config(maxconn));
    let created: Vec<usize> = (0..services).collect();
    w.install_services(&created);
    let polls = vec![ServicePoll::Ready; services];
    let step = w.poll_unavailable(queue, &polls);
    assert_eq!(step, ReadinessStep::BecameAvailable);
    w
}

#[test]
fn default_config_values() {
    let c: ServerWorkerConfig = Default::default();
    assert_eq!(c.shutdown_timeout_secs, 30);
    assert_eq!(c.max_concurrent_connections, 25600);
    assert!(c.max_blocking_threads >= 1);
    assert!(c.max_blocking_threads <= 512);
}

#[test]
fn config_setters() {
    let mut c: ServerWorkerConfig = Default::default();
    c.max_blocking_threads(4);
    c.max_concurrent_connections(3);
    c.shutdown_timeout(1);
    assert_eq!(c.max_blocking_threads, 4);
    assert_eq!(c.max_concurrent_connections, 3);
    assert_eq!(c.shutdown_timeout_secs, 1);
}

#[test]
fn availability_edge_wakes_acceptor_once() {
    let mut queue = WakerQueue::new();
    let mut avail = WorkerAvailability::new();
    assert!(!avail.available());

    avail.set(&mut queue, false);
    assert_eq!(queue.len(), 0);

    avail.set(&mut queue, true);
    assert!(avail.available());
    assert_eq!(queue.len(), 1);
    assert_eq!(queue.pop(), Some(WakerInterest::WorkerAvailable));

    avail.set(&mut queue, true);
    assert_eq!(queue.len(), 0);

    avail.set(&mut queue, false);
    assert_eq!(queue.len(), 0);
}

#[test]
fn startup_installs_dense_slots() {
    let mut w = ServerWorker::new(2, config(8));
    assert_eq!(w.state, WorkerState::Unavailable);
    assert!(!w.availability.available());

    w.install_services(&vec![0, 1]);
    assert_eq!(w.services.len(), 2);
    assert_eq!(w.services[0].factory, 0);
    assert_eq!(w.services[1].factory, 1);
    assert_eq!(w.services[0].status, WorkerServiceStatus::Unavailable);
    assert_eq!(w.services[1].status, WorkerServiceStatus::Unavailable);
}

#[test]
fn readiness_marks_slots() {
    let mut queue = WakerQueue::new();
    let mut w = ServerWorker::new(2, config(8));
    w.install_services(&vec![0, 1]);

    let polls = vec![ServicePoll::Ready, ServicePoll::Pending];
    let step = w.poll_unavailable(&mut queue, &polls);
    assert_eq!(step, ReadinessStep::StillUnavailable);
    assert_eq!(w.services[0].status, WorkerServiceStatus::Available);
    assert_eq!(w.services[1].status, WorkerServiceStatus::Unavailable);
    assert!(!w.availability.available());
    assert_eq!(queue.len(), 0);

    let polls = vec![ServicePoll::Ready, ServicePoll::Ready];
    let step = w.poll_unavailable(&mut queue, &polls);
    assert_eq!(step, ReadinessStep::BecameAvailable);
    assert_eq!(w.state, WorkerState::Available);
    assert!(w.availability.available());
    assert_eq!(queue.pop(), Some(WakerInterest::WorkerAvailable));
}

#[test]
fn readiness_error_restarts_same_slot() {
    let mut queue = WakerQueue::new();
    let mut w = ServerWorker::new(2, config(8));
    w.install_services(&vec![0, 1]);

    // The first probe of slot 0 fails; its own factory re-creates it.
    let polls = vec![ServicePoll::Failed, ServicePoll::Ready];
    let step = w.poll_unavailable(&mut queue, &polls);
    assert_eq!(step, ReadinessStep::RestartStarted(Token(0), 0));
    assert_eq!(w.state, WorkerState::Restarting { factory: 0, token: Token(0) });
    assert_eq!(w.services[0].status, WorkerServiceStatus::Restarting);
    assert_eq!(w.services[1].status, WorkerServiceStatus::Available);

    // The factory delivers a fresh service for the same slot.
    let installed = w.poll_restarting(Ok(vec![Token(0)]));
    assert_eq!(installed, Some(Token(0)));
    assert_eq!(w.state, WorkerState::Unavailable);
    assert_eq!(w.services[0].factory, 0);
    assert_eq!(w.services[0].status, WorkerServiceStatus::Unavailable);
    assert_eq!(w.services[1].status, WorkerServiceStatus::Available);

    // From then on the fresh service reports ready.
    let polls = vec![ServicePoll::Ready, ServicePoll::Ready];
    let step = w.poll_unavailable(&mut queue, &polls);
    assert_eq!(step, ReadinessStep::BecameAvailable);
}

#[test]
fn readiness_reports_the_last_failure() {
    let mut queue = WakerQueue::new();
    let mut w = ServerWorker::new(2, config(8));
    w.install_services(&vec![0, 1]);

    let polls = vec![ServicePoll::Failed, ServicePoll::Failed];
    let step = w.poll_unavailable(&mut queue, &polls);
    assert_eq!(step, ReadinessStep::RestartStarted(Token(1), 1));
    assert_eq!(w.services[0].status, WorkerServiceStatus::Failed);
    assert_eq!(w.services[1].status, WorkerServiceStatus::Restarting);
}

#[test]
fn failed_factory_is_fatal() {
    let mut queue = WakerQueue::new();
    let mut w = ServerWorker::new(1, config(8));
    w.install_services(&vec![0]);
    let polls = vec![ServicePoll::Failed];
    let step = w.poll_unavailable(&mut queue, &polls);
    assert_eq!(step, ReadinessStep::RestartStarted(Token(0), 0));

    assert_eq!(w.poll_restarting(Err(())), None);
    assert_eq!(w.poll_restarting(Ok(vec![])), None);
}

#[test]
fn dispatch_counts_one_per_connection() {
    let mut queue = WakerQueue::new();
    let mut w = ready_worker(1, 8, &mut queue);

    w.dispatch_connection(Conn { token: Token(0) });
    assert_eq!(w.conns.total(), 1);
    w.dispatch_connection(Conn { token: Token(0) });
    assert_eq!(w.conns.total(), 2);

    w.conn_finished();
    assert_eq!(w.conns.total(), 1);
    w.conn_finished();
    assert_eq!(w.conns.total(), 0);
}

#[test]
fn max_concurrent_connections_sim() {
    // One worker, a cap of 3, 12 arriving connections: exactly 3 go in
    // flight, the rest wait while the worker reads unavailable.
    let mut queue = WakerQueue::new();
    let mut w = ready_worker(1, 3, &mut queue);

    let mut in_flight: usize = 0;
    for _ in 0..12 {
        let polls = vec![ServicePoll::Ready];
        if w.state == WorkerState::Available {
            match w.poll_available(&mut queue, &polls) {
                AvailablePoll::ReadyToAccept => {
                    w.dispatch_connection(Conn { token: Token(0) });
                    in_flight += 1;
                }
                AvailablePoll::BecameUnavailable => {}
                AvailablePoll::RestartStarted(_, _) => unreachable!(),
            }
        } else {
            // Capacity exhausted: probes from the unavailable state keep
            // failing until a permit returns.
            let step = w.poll_unavailable(&mut queue, &polls);
            assert_eq!(step, ReadinessStep::StillUnavailable);
        }
    }
    assert_eq!(in_flight, 3);
    assert_eq!(w.conns.total(), 3);

    // A finished connection frees one permit and the worker comes back.
    w.conn_finished();
    let polls = vec![ServicePoll::Ready];
    let step = w.poll_unavailable(&mut queue, &polls);
    assert_eq!(step, ReadinessStep::BecameAvailable);
}

#[test]
fn stop_with_no_connections_replies_true() {
    let mut queue = WakerQueue::new();
    let mut w = ready_worker(1, 8, &mut queue);
    while queue.pop().is_some() {}

    let d = w.handle_stop(&mut queue, true);
    assert_eq!(d, StopDisposition::Terminated(true));
    assert!(!w.availability.available());
    assert_eq!(queue.len(), 0);
}

#[test]
fn forced_stop_replies_false_and_stops_services() {
    let mut queue = WakerQueue::new();
    let mut w = ready_worker(1, 8, &mut queue);
    w.dispatch_connection(Conn { token: Token(0) });

    let d = w.handle_stop(&mut queue, false);
    assert_eq!(d, StopDisposition::Terminated(false));
    assert_eq!(w.services[0].status, WorkerServiceStatus::Stopped);
}

#[test]
fn graceful_stop_timeout_sim() {
    // Two connections whose services never finish, a short deadline: the
    // drain ends at the deadline and reports connections remained.
    let mut queue = WakerQueue::new();
    let mut w = ready_worker(1, 8, &mut queue);
    w.dispatch_connection(Conn { token: Token(0) });
    w.dispatch_connection(Conn { token: Token(0) });

    let d = w.handle_stop(&mut queue, true);
    assert_eq!(d, StopDisposition::Draining);
    assert_eq!(w.state, WorkerState::Shutdown);
    assert_eq!(w.services[0].status, WorkerServiceStatus::Stopping);

    // Heartbeats before the deadline keep draining.
    assert_eq!(w.poll_shutdown(false), ShutdownPoll::Pending);
    assert_eq!(w.poll_shutdown(false), ShutdownPoll::Pending);

    // The deadline fires with work still in flight; the reply says so. The
    // slot already moved to stopping when the drain began.
    assert_eq!(w.poll_shutdown(true), ShutdownPoll::Terminated(false));
    assert_eq!(w.services[0].status, WorkerServiceStatus::Stopping);
}

#[test]
fn graceful_stop_drains_to_zero() {
    let mut queue = WakerQueue::new();
    let mut w = ready_worker(1, 8, &mut queue);
    w.dispatch_connection(Conn { token: Token(0) });

    let d = w.handle_stop(&mut queue, true);
    assert_eq!(d, StopDisposition::Draining);

    assert_eq!(w.poll_shutdown(false), ShutdownPoll::Pending);
    w.conn_finished();
    assert_eq!(w.poll_shutdown(false), ShutdownPoll::Terminated(true));
}
