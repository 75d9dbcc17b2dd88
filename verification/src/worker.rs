//! Worker state machine.
//!
//! A worker owns a slice of service slots (indexed by token), a bounded
//! in-flight connection counter and a shared availability flag. Its poll
//! step reacts to stop commands, service readiness outcomes, restart
//! completions and incoming connections. The futures, channels and timers
//! that produce those outcomes belong to the runtime; each step here takes
//! the observed outcome as a plain value and is verified for every value.

use vstd::prelude::*;

use crate::Token;
use crate::counter::Counter;
use crate::sys::cpu_count;
use crate::waker_queue::{WakerInterest, WakerQueue};

verus! {

/// Acceptor-side identity of a worker in the round-robin ring. The running
/// worker's connection and stop channels belong to the runtime.
#[derive(Clone, Copy, PartialEq, Eq, Structural, Debug)]
pub struct WorkerHandleAccept {
    pub idx: usize,
}

/// Status of one service slot.
#[derive(Clone, Copy, PartialEq, Eq, Structural, Debug)]
pub enum WorkerServiceStatus {
    Available,
    Unavailable,
    Failed,
    Restarting,
    Stopping,
    Stopped,
}

/// One service slot: which factory created it and its current status. The
/// service object itself is opaque to the model and lives with the runtime.
pub struct WorkerService {
    pub factory: usize,
    pub status: WorkerServiceStatus,
}

impl WorkerService {
    /// A freshly created service fills the slot and starts out unavailable;
    /// the slot keeps its factory identity.
    pub fn created(&mut self)
        ensures
            final(self).factory == old(self).factory,
            final(self).status == WorkerServiceStatus::Unavailable,
    {
        self.status = WorkerServiceStatus::Unavailable;
    }
}

/// Config for worker behavior passed down from the server builder.
#[derive(Clone, Copy)]
pub struct ServerWorkerConfig {
    pub shutdown_timeout_secs: u64,
    pub max_blocking_threads: usize,
    pub max_concurrent_connections: usize,
}

impl Default for ServerWorkerConfig {
    /// Defaults: 30 s graceful-stop deadline, 25 600 concurrent connections
    /// per worker, and a blocking-thread cap of 512 divided across the CPUs,
    /// at least one.
    fn default() -> (c: Self)
        ensures
            c.shutdown_timeout_secs == 30,
            c.max_concurrent_connections == 25600,
            1 <= c.max_blocking_threads <= 512,
    {
        let cpus = cpu_count();
        let max_blocking_threads = if 512 / cpus >= 1 {
            512 / cpus
        } else {
            1
        };
        ServerWorkerConfig {
            shutdown_timeout_secs: 30,
            max_blocking_threads,
            max_concurrent_connections: 25600,
        }
    }
}

impl ServerWorkerConfig {
    pub fn max_blocking_threads(&mut self, num: usize)
        ensures
            final(self).max_blocking_threads == num,
            final(self).shutdown_timeout_secs == old(self).shutdown_timeout_secs,
            final(self).max_concurrent_connections == old(self).max_concurrent_connections,
    {
        self.max_blocking_threads = num;
    }

    pub fn max_concurrent_connections(&mut self, num: usize)
        ensures
            final(self).max_concurrent_connections == num,
            final(self).shutdown_timeout_secs == old(self).shutdown_timeout_secs,
            final(self).max_blocking_threads == old(self).max_blocking_threads,
    {
        self.max_concurrent_connections = num;
    }

    pub fn shutdown_timeout(&mut self, secs: u64)
        ensures
            final(self).shutdown_timeout_secs == secs,
            final(self).max_blocking_threads == old(self).max_blocking_threads,
            final(self).max_concurrent_connections == old(self).max_concurrent_connections,
    {
        self.shutdown_timeout_secs = secs;
    }
}

/// Per-worker availability flag shared with the acceptor.
///
/// The worker is the only writer. A false-to-true transition must push
/// `WorkerAvailable` onto the wake queue before returning, so that the
/// acceptor wakes and retries dispatch; a true-to-false transition is
/// observed lazily and pushes nothing.
#[derive(Clone, Copy, PartialEq, Eq, Structural, Debug)]
pub struct WorkerAvailability {
    available: bool,
}

impl WorkerAvailability {
    pub closed spec fn is_available(self) -> bool {
        self.available
    }

    pub fn new() -> (a: WorkerAvailability)
        ensures
            !a.is_available(),
    {
        WorkerAvailability { available: false }
    }

    pub fn available(&self) -> (r: bool)
        ensures
            r == self.is_available(),
    {
        self.available
    }

    /// Set the flag; on a false-to-true edge notify the acceptor.
    pub fn set(&mut self, queue: &mut WakerQueue, val: bool)
        ensures
            final(self).is_available() == val,
            final(queue)@ == if !old(self).is_available() && val {
                old(queue)@.push(WakerInterest::WorkerAvailable)
            } else {
                old(queue)@
            },
    {
        let was = self.available;
        self.available = val;
        if !was && val {
            queue.wake(WakerInterest::WorkerAvailable);
        }
    }
}

/// A connection envelope handed from the acceptor: the token of the listener
/// it arrived on. The stream itself is carried by the runtime.
#[derive(Clone, Copy, PartialEq, Eq, Structural, Debug)]
pub struct Conn {
    pub token: Token,
}

/// Outcome of one readiness probe of a service, as the runtime observed it.
#[derive(Clone, Copy, PartialEq, Eq, Structural, Debug)]
pub enum ServicePoll {
    /// The probe returned ready.
    Ready,
    /// The probe is pending.
    Pending,
    /// The probe returned an error; the service must be restarted.
    Failed,
}

/// Control state of a worker.
#[derive(Clone, Copy, PartialEq, Eq, Structural, Debug)]
pub enum WorkerState {
    Available,
    Unavailable,
    /// Waiting for factory `factory` to re-create the service of `token`.
    Restarting { factory: usize, token: Token },
    /// Draining in-flight connections until they finish or the deadline fires.
    Shutdown,
}

/// What a worker does with a stop command.
#[derive(Clone, Copy, PartialEq, Eq, Structural, Debug)]
pub enum StopDisposition {
    /// The worker terminates now and replies with the given flag: true iff
    /// no connection was in flight.
    Terminated(bool),
    /// A graceful drain has begun; the reply is owed later.
    Draining,
}

/// Outcome of one poll of the drain phase.
#[derive(Clone, Copy, PartialEq, Eq, Structural, Debug)]
pub enum ShutdownPoll {
    /// The worker terminates and replies with the given flag: true iff all
    /// in-flight connections completed before the deadline.
    Terminated(bool),
    /// Connections remain and the deadline has not fired; check again later.
    Pending,
}

/// Outcome of one poll in the unavailable state.
#[derive(Clone, Copy, PartialEq, Eq, Structural, Debug)]
pub enum ReadinessStep {
    /// All slots ready and capacity spare: the worker announced itself.
    BecameAvailable,
    /// Some slot still pending; park until re-polled.
    StillUnavailable,
    /// A slot failed; its factory (second field) must re-create the service
    /// of the token (first field).
    RestartStarted(Token, usize),
}

/// Outcome of one readiness check in the available state.
#[derive(Clone, Copy, PartialEq, Eq, Structural, Debug)]
pub enum AvailablePoll {
    /// Still ready: the next connection may be received and dispatched.
    ReadyToAccept,
    /// A slot went pending or capacity ran out: availability was withdrawn.
    BecameUnavailable,
    /// A slot failed; availability was withdrawn and a restart begun.
    RestartStarted(Token, usize),
}

/// A slot takes part in readiness checks only while it is available or
/// unavailable; failed, restarting and stopping slots are skipped.
pub open spec fn considered(s: WorkerServiceStatus) -> bool {
    s == WorkerServiceStatus::Available || s == WorkerServiceStatus::Unavailable
}

/// Status of a slot after one readiness probe.
pub open spec fn status_after_poll(s: WorkerServiceStatus, p: ServicePoll) -> WorkerServiceStatus {
    if considered(s) {
        match p {
            ServicePoll::Ready => WorkerServiceStatus::Available,
            ServicePoll::Pending => WorkerServiceStatus::Unavailable,
            ServicePoll::Failed => WorkerServiceStatus::Failed,
        }
    } else {
        s
    }
}

/// Status of a slot when the worker begins to stop: available services move
/// to stopping (graceful) or stopped (forced); other slots are untouched.
pub open spec fn status_after_stop(s: WorkerServiceStatus, force: bool) -> WorkerServiceStatus {
    if s == WorkerServiceStatus::Available {
        if force {
            WorkerServiceStatus::Stopped
        } else {
            WorkerServiceStatus::Stopping
        }
    } else {
        s
    }
}

/// There is a slot that took part in the check and failed.
pub open spec fn has_failure(services: Seq<WorkerService>, polls: Seq<ServicePoll>) -> bool {
    exists|j: int|
        0 <= j < services.len() && considered(services[j].status) && polls[j] is Failed
}

/// Service worker: service slots, bounded connection counter, shared
/// availability flag, control state and config.
pub struct ServerWorker {
    pub services: Vec<WorkerService>,
    pub availability: WorkerAvailability,
    pub conns: Counter,
    /// Number of factories the worker was built from; every slot's factory
    /// index lies below it.
    pub factories: usize,
    pub state: WorkerState,
    pub config: ServerWorkerConfig,
}

impl ServerWorker {
    pub open spec fn wf(self) -> bool {
        &&& self.conns.wf()
        &&& self.conns.cap() == self.config.max_concurrent_connections
        &&& forall|j: int|
            0 <= j < self.services@.len() ==> (#[trigger] self.services@[j]).factory
                < self.factories
    }

    /// A new worker starts with no services installed, no connections in
    /// flight and availability withdrawn.
    pub fn new(factories: usize, config: ServerWorkerConfig) -> (w: ServerWorker)
        ensures
            w.wf(),
            w.services@.len() == 0,
            w.factories == factories,
            w.state == WorkerState::Unavailable,
            !w.availability.is_available(),
            w.conns.count() == 0,
            w.conns.cap() == config.max_concurrent_connections,
            w.config == config,
    {
        ServerWorker {
            services: Vec::new(),
            availability: WorkerAvailability::new(),
            conns: Counter::new(config.max_concurrent_connections),
            factories,
            state: WorkerState::Unavailable,
            config,
        }
    }

    /// Install the services the factories produced at startup. `created[t]`
    /// is the factory index that produced the service of token `t`: tokens
    /// are dense and arrive in order.
    pub fn install_services(&mut self, created: &Vec<usize>)
        requires
            old(self).wf(),
            old(self).services@.len() == 0,
            forall|j: int| 0 <= j < created@.len() ==> #[trigger] created@[j] < old(self).factories,
        ensures
            final(self).wf(),
            final(self).services@.len() == created@.len(),
            forall|j: int|
                0 <= j < created@.len() ==> (#[trigger] final(self).services@[j]) == (WorkerService {
                    factory: created@[j],
                    status: WorkerServiceStatus::Unavailable,
                }),
            final(self).availability == old(self).availability,
            final(self).conns == old(self).conns,
            final(self).state == old(self).state,
            final(self).config == old(self).config,
            final(self).factories == old(self).factories,
    {
        let n = created.len();
        let mut i: usize = 0;
        while i < n
            invariant
                i <= n,
                n == created@.len(),
                self.wf(),
                self.services@.len() == i,
                forall|j: int| 0 <= j < n ==> #[trigger] created@[j] < self.factories,
                forall|j: int|
                    0 <= j < i ==> (#[trigger] self.services@[j]) == (WorkerService {
                        factory: created@[j],
                        status: WorkerServiceStatus::Unavailable,
                    }),
                self.availability == old(self).availability,
                self.conns == old(self).conns,
                self.state == old(self).state,
                self.config == old(self).config,
                self.factories == old(self).factories,
            decreases n - i,
        {
            self.services.push(WorkerService {
                factory: created[i],
                status: WorkerServiceStatus::Unavailable,
            });
            i = i + 1;
        }
    }

    /// Probe every considered slot with the readiness outcome the runtime
    /// observed. Ready slots become available, pending slots unavailable; a
    /// failed slot is marked and the last failure is reported together with
    /// its factory. With no failure, the check reports whether every
    /// considered slot is ready and spare connection capacity remains.
    pub fn check_readiness(&mut self, polls: &Vec<ServicePoll>) -> (r: Result<bool, (Token, usize)>)
        requires
            old(self).wf(),
            polls@.len() == old(self).services@.len(),
        ensures
            final(self).wf(),
            final(self).services@.len() == old(self).services@.len(),
            forall|j: int|
                0 <= j < old(self).services@.len() ==> (#[trigger] final(self).services@[j])
                    == (WorkerService {
                    factory: old(self).services@[j].factory,
                    status: status_after_poll(old(self).services@[j].status, polls@[j]),
                }),
            final(self).conns == old(self).conns,
            final(self).state == old(self).state,
            final(self).availability == old(self).availability,
            final(self).config == old(self).config,
            final(self).factories == old(self).factories,
            (r is Err) == has_failure(old(self).services@, polls@),
            r matches Err((t, f)) ==> {
                &&& t.0 < old(self).services@.len()
                &&& considered(old(self).services@[t.0 as int].status)
                &&& polls@[t.0 as int] is Failed
                &&& f == old(self).services@[t.0 as int].factory
                &&& forall|j: int|
                    t.0 < j < old(self).services@.len() ==> !(considered(
                        (#[trigger] old(self).services@[j]).status,
                    ) && polls@[j] is Failed)
            },
            r matches Ok(ready) ==> ready == (old(self).conns.spec_available() && forall|j: int|
                0 <= j < old(self).services@.len() && considered(
                    (#[trigger] old(self).services@[j]).status,
                ) ==> polls@[j] is Ready),
    {
        let ghost s0 = self.services@;
        let n = self.services.len();
        let mut ready = self.conns.available();
        let mut failed: Option<(Token, usize)> = None;
        let mut i: usize = 0;
        while i < n
            invariant
                i <= n,
                n == s0.len(),
                polls@.len() == n,
                old(self).services@ == s0,
                old(self).wf(),
                self.services@.len() == n,
                forall|j: int|
                    0 <= j < i ==> (#[trigger] self.services@[j]) == (WorkerService {
                        factory: s0[j].factory,
                        status: status_after_poll(s0[j].status, polls@[j]),
                    }),
                forall|j: int| i <= j < n ==> (#[trigger] self.services@[j]) == s0[j],
                self.conns == old(self).conns,
                self.state == old(self).state,
                self.availability == old(self).availability,
                self.config == old(self).config,
                self.factories == old(self).factories,
                ready == (old(self).conns.spec_available() && forall|j: int|
                    0 <= j < i && considered((#[trigger] s0[j]).status) ==> !(polls@[j]
                        is Pending)),
                failed is None ==> forall|j: int|
                    0 <= j < i ==> !(considered((#[trigger] s0[j]).status) && polls@[j]
                        is Failed),
                failed matches Some((t, f)) ==> {
                    &&& t.0 < i
                    &&& considered(s0[t.0 as int].status)
                    &&& polls@[t.0 as int] is Failed
                    &&& f == s0[t.0 as int].factory
                    &&& forall|j: int|
                        t.0 < j < i ==> !(considered((#[trigger] s0[j]).status) && polls@[j]
                            is Failed)
                },
            decreases n - i,
        {
            let status = self.services[i].status;
            if status == WorkerServiceStatus::Available || status
                == WorkerServiceStatus::Unavailable {
                match polls[i] {
                    ServicePoll::Ready => {
                        self.services[i].status = WorkerServiceStatus::Available;
                    },
                    ServicePoll::Pending => {
                        ready = false;
                        self.services[i].status = WorkerServiceStatus::Unavailable;
                    },
                    ServicePoll::Failed => {
                        failed = Some((Token(i), self.services[i].factory));
                        self.services[i].status = WorkerServiceStatus::Failed;
                    },
                }
            }
            i = i + 1;
        }
        match failed {
            Some(tf) => Err(tf),
            None => {
                proof {
                    assert(ready == (old(self).conns.spec_available() && forall|j: int|
                        0 <= j < n && considered((#[trigger] s0[j]).status) ==> polls@[j]
                            is Ready));
                }
                Ok(ready)
            },
        }
    }
    /// Mark slot `token` restarting and enter the restarting state: factory
    /// `idx` (the slot's own factory) will re-create the service. Only this
    /// slot changes.
    pub fn restart_service(&mut self, token: Token, idx: usize)
        requires
            old(self).wf(),
            token.0 < old(self).services@.len(),
            idx == old(self).services@[token.0 as int].factory,
        ensures
            final(self).wf(),
            restart_marks_slot(*old(self), *final(self), token, idx),
    {
        self.services[token.0].status = WorkerServiceStatus::Restarting;
        self.state = WorkerState::Restarting { factory: idx, token };
    }

    /// Move every available service to stopping (graceful) or stopped
    /// (forced); other slots keep their status.
    pub fn shutdown(&mut self, force: bool)
        requires
            old(self).wf(),
        ensures
            final(self).wf(),
            final(self).services@.len() == old(self).services@.len(),
            forall|j: int|
                0 <= j < old(self).services@.len() ==> (#[trigger] final(self).services@[j])
                    == (WorkerService {
                    factory: old(self).services@[j].factory,
                    status: status_after_stop(old(self).services@[j].status, force),
                }),
            final(self).conns == old(self).conns,
            final(self).state == old(self).state,
            final(self).availability == old(self).availability,
            final(self).config == old(self).config,
            final(self).factories == old(self).factories,
    {
        let ghost s0 = self.services@;
        let n = self.services.len();
        let mut i: usize = 0;
        while i < n
            invariant
                i <= n,
                n == s0.len(),
                old(self).services@ == s0,
                self.services@.len() == n,
                forall|j: int|
                    0 <= j < i ==> (#[trigger] self.services@[j]) == (WorkerService {
                        factory: s0[j].factory,
                        status: status_after_stop(s0[j].status, force),
                    }),
                forall|j: int| i <= j < n ==> (#[trigger] self.services@[j]) == s0[j],
                self.conns == old(self).conns,
                self.state == old(self).state,
                self.availability == old(self).availability,
                self.config == old(self).config,
                self.factories == old(self).factories,
            decreases n - i,
        {
            if self.services[i].status == WorkerServiceStatus::Available {
                if force {
                    self.services[i].status = WorkerServiceStatus::Stopped;
                } else {
                    self.services[i].status = WorkerServiceStatus::Stopping;
                }
            }
            i = i + 1;
        }
    }

    /// React to a stop command. Availability is withdrawn at once. With no
    /// connection in flight the worker terminates and replies true; a
    /// graceful stop with work in flight begins a drain; a forced stop
    /// terminates at once and replies false.
    pub fn handle_stop(&mut self, queue: &mut WakerQueue, graceful: bool) -> (d: StopDisposition)
        requires
            old(self).wf(),
        ensures
            final(self).wf(),
            !final(self).availability.is_available(),
            final(queue)@ == old(queue)@,
            final(self).conns == old(self).conns,
            final(self).config == old(self).config,
            final(self).factories == old(self).factories,
            final(self).services@.len() == old(self).services@.len(),
            d == StopDisposition::Terminated(true) <==> old(self).conns.count() == 0,
            old(self).conns.count() == 0 ==> final(self).services@ == old(self).services@
                && final(self).state == old(self).state,
            old(self).conns.count() > 0 && graceful ==> {
                &&& d == StopDisposition::Draining
                &&& final(self).state == WorkerState::Shutdown
                &&& forall|j: int|
                    0 <= j < old(self).services@.len() ==> (#[trigger] final(self).services@[j])
                        == (WorkerService {
                        factory: old(self).services@[j].factory,
                        status: status_after_stop(old(self).services@[j].status, false),
                    })
            },
            old(self).conns.count() > 0 && !graceful ==> {
                &&& d == StopDisposition::Terminated(false)
                &&& forall|j: int|
                    0 <= j < old(self).services@.len() ==> (#[trigger] final(self).services@[j])
                        == (WorkerService {
                        factory: old(self).services@[j].factory,
                        status: status_after_stop(old(self).services@[j].status, true),
                    })
            },
    {
        self.availability.set(queue, false);
        let num = self.conns.total();
        if num == 0 {
            StopDisposition::Terminated(true)
        } else if graceful {
            self.shutdown(false);
            self.state = WorkerState::Shutdown;
            StopDisposition::Draining
        } else {
            self.shutdown(true);
            StopDisposition::Terminated(false)
        }
    }

    /// One poll of the drain phase. The worker terminates with a true reply
    /// exactly when no connection remains in flight, and with a false reply
    /// exactly when connections remain and the deadline has fired; otherwise
    /// the drain goes on.
    pub fn poll_shutdown(&mut self, deadline_reached: bool) -> (o: ShutdownPoll)
        requires
            old(self).wf(),
            old(self).state == WorkerState::Shutdown,
        ensures
            final(self).wf(),
            final(self).state == old(self).state,
            final(self).conns == old(self).conns,
            final(self).availability == old(self).availability,
            final(self).config == old(self).config,
            final(self).factories == old(self).factories,
            o == ShutdownPoll::Terminated(true) <==> old(self).conns.count() == 0,
            o == ShutdownPoll::Terminated(false) <==> old(self).conns.count() > 0
                && deadline_reached,
            o == ShutdownPoll::Pending <==> old(self).conns.count() > 0 && !deadline_reached,
            o == ShutdownPoll::Terminated(false) ==> forall|j: int|
                0 <= j < old(self).services@.len() ==> (#[trigger] final(self).services@[j])
                    == (WorkerService {
                    factory: old(self).services@[j].factory,
                    status: status_after_stop(old(self).services@[j].status, true),
                }),
            o != ShutdownPoll::Terminated(false) ==> final(self).services@
                == old(self).services@,
    {
        if self.conns.total() == 0 {
            ShutdownPoll::Terminated(true)
        } else if deadline_reached {
            self.shutdown(true);
            ShutdownPoll::Terminated(false)
        } else {
            ShutdownPoll::Pending
        }
    }
}

impl ServerWorker {
    /// One poll in the unavailable state: probe readiness. When every slot
    /// is ready and capacity remains, the worker becomes available and
    /// announces itself through the wake queue; a pending slot parks the
    /// worker; a failed slot begins a restart.
    pub fn poll_unavailable(
        &mut self,
        queue: &mut WakerQueue,
        polls: &Vec<ServicePoll>,
    ) -> (step: ReadinessStep)
        requires
            old(self).wf(),
            old(self).state == WorkerState::Unavailable,
            polls@.len() == old(self).services@.len(),
        ensures
            final(self).wf(),
            final(self).services@.len() == old(self).services@.len(),
            final(self).conns == old(self).conns,
            final(self).config == old(self).config,
            final(self).factories == old(self).factories,
            step == ReadinessStep::BecameAvailable <==> !has_failure(
                old(self).services@,
                polls@,
            ) && old(self).conns.spec_available() && (forall|j: int|
                0 <= j < old(self).services@.len() && considered(
                    (#[trigger] old(self).services@[j]).status,
                ) ==> polls@[j] is Ready),
            (step is RestartStarted) <==> has_failure(old(self).services@, polls@),
            step == ReadinessStep::BecameAvailable ==> {
                &&& final(self).state == WorkerState::Available
                &&& final(self).availability.is_available()
                &&& final(queue)@ == if !old(self).availability.is_available() {
                    old(queue)@.push(WakerInterest::WorkerAvailable)
                } else {
                    old(queue)@
                }
                &&& forall|j: int|
                    0 <= j < old(self).services@.len() ==> (#[trigger] final(self).services@[j])
                        == (WorkerService {
                        factory: old(self).services@[j].factory,
                        status: status_after_poll(old(self).services@[j].status, polls@[j]),
                    })
            },
            step == ReadinessStep::StillUnavailable ==> {
                &&& final(self).state == WorkerState::Unavailable
                &&& final(self).availability == old(self).availability
                &&& final(queue)@ == old(queue)@
                &&& forall|j: int|
                    0 <= j < old(self).services@.len() ==> (#[trigger] final(self).services@[j])
                        == (WorkerService {
                        factory: old(self).services@[j].factory,
                        status: status_after_poll(old(self).services@[j].status, polls@[j]),
                    })
            },
            step matches ReadinessStep::RestartStarted(t, f) ==> {
                &&& has_failure(old(self).services@, polls@)
                &&& t.0 < old(self).services@.len()
                &&& considered(old(self).services@[t.0 as int].status)
                &&& polls@[t.0 as int] is Failed
                &&& f == old(self).services@[t.0 as int].factory
                &&& final(self).state == (WorkerState::Restarting { factory: f, token: t })
                &&& final(self).services@[t.0 as int].status == WorkerServiceStatus::Restarting
                &&& final(self).services@[t.0 as int].factory == f
                &&& final(self).availability == old(self).availability
                &&& final(queue)@ == old(queue)@
                &&& forall|j: int|
                    0 <= j < old(self).services@.len() && j != t.0
                        ==> (#[trigger] final(self).services@[j]) == (WorkerService {
                        factory: old(self).services@[j].factory,
                        status: status_after_poll(old(self).services@[j].status, polls@[j]),
                    })
            },
    {
        match self.check_readiness(polls) {
            Ok(true) => {
                self.state = WorkerState::Available;
                self.availability.set(queue, true);
                ReadinessStep::BecameAvailable
            },
            Ok(false) => ReadinessStep::StillUnavailable,
            Err((token, idx)) => {
                self.restart_service(token, idx);
                ReadinessStep::RestartStarted(token, idx)
            },
        }
    }

    /// One readiness check in the available state. While everything stays
    /// ready the worker goes on receiving connections; a pending slot or
    /// exhausted capacity withdraws availability; a failed slot additionally
    /// begins a restart.
    pub fn poll_available(
        &mut self,
        queue: &mut WakerQueue,
        polls: &Vec<ServicePoll>,
    ) -> (step: AvailablePoll)
        requires
            old(self).wf(),
            old(self).state == WorkerState::Available,
            polls@.len() == old(self).services@.len(),
        ensures
            final(self).wf(),
            final(self).services@.len() == old(self).services@.len(),
            final(self).conns == old(self).conns,
            final(self).config == old(self).config,
            final(self).factories == old(self).factories,
            final(queue)@ == old(queue)@,
            step == AvailablePoll::ReadyToAccept <==> !has_failure(old(self).services@, polls@)
                && old(self).conns.spec_available() && (forall|j: int|
                0 <= j < old(self).services@.len() && considered(
                    (#[trigger] old(self).services@[j]).status,
                ) ==> polls@[j] is Ready),
            (step is RestartStarted) <==> has_failure(old(self).services@, polls@),
            !(step is RestartStarted) ==> forall|j: int|
                0 <= j < old(self).services@.len() ==> (#[trigger] final(self).services@[j])
                    == (WorkerService {
                    factory: old(self).services@[j].factory,
                    status: status_after_poll(old(self).services@[j].status, polls@[j]),
                }),
            step == AvailablePoll::ReadyToAccept ==> final(self).state == WorkerState::Available
                && final(self).availability == old(self).availability,
            step == AvailablePoll::BecameUnavailable ==> final(self).state
                == WorkerState::Unavailable && !final(self).availability.is_available(),
            step matches AvailablePoll::RestartStarted(t, f) ==> {
                &&& t.0 < old(self).services@.len()
                &&& considered(old(self).services@[t.0 as int].status)
                &&& polls@[t.0 as int] is Failed
                &&& f == old(self).services@[t.0 as int].factory
                &&& final(self).state == (WorkerState::Restarting { factory: f, token: t })
                &&& final(self).services@[t.0 as int].status == WorkerServiceStatus::Restarting
                &&& final(self).services@[t.0 as int].factory == f
                &&& !final(self).availability.is_available()
                &&& forall|j: int|
                    0 <= j < old(self).services@.len() && j != t.0
                        ==> (#[trigger] final(self).services@[j]) == (WorkerService {
                        factory: old(self).services@[j].factory,
                        status: status_after_poll(old(self).services@[j].status, polls@[j]),
                    })
            },
    {
        match self.check_readiness(polls) {
            Ok(true) => AvailablePoll::ReadyToAccept,
            Ok(false) => {
                self.availability.set(queue, false);
                self.state = WorkerState::Unavailable;
                AvailablePoll::BecameUnavailable
            },
            Err((token, idx)) => {
                self.restart_service(token, idx);
                self.availability.set(queue, false);
                AvailablePoll::RestartStarted(token, idx)
            },
        }
    }

    /// Receive one connection in the available state: take one permit of the
    /// counter and hand the stream to the service of the connection's token.
    /// The permit count rises by exactly one; it falls again only when
    /// `conn_finished` reports the service future's completion.
    pub fn dispatch_connection(&mut self, conn: Conn)
        requires
            old(self).wf(),
            old(self).state == WorkerState::Available,
            old(self).conns.spec_available(),
            conn.token.0 < old(self).services@.len(),
        ensures
            final(self).wf(),
            final(self).conns.count() == old(self).conns.count() + 1,
            final(self).conns.cap() == old(self).conns.cap(),
            final(self).services@ == old(self).services@,
            final(self).state == old(self).state,
            final(self).availability == old(self).availability,
            final(self).config == old(self).config,
            final(self).factories == old(self).factories,
    {
        self.conns.get();
    }

    /// The service future of one dispatched connection completed; its permit
    /// returns to the counter. The count falls by exactly one.
    pub fn conn_finished(&mut self)
        requires
            old(self).wf(),
            old(self).conns.count() > 0,
        ensures
            final(self).wf(),
            final(self).conns.count() == old(self).conns.count() - 1,
            final(self).conns.cap() == old(self).conns.cap(),
            final(self).services@ == old(self).services@,
            final(self).state == old(self).state,
            final(self).availability == old(self).availability,
            final(self).config == old(self).config,
            final(self).factories == old(self).factories,
    {
        self.conns.put();
    }

    /// The factory future of a restart completed. On success the first
    /// produced token's slot receives the fresh service and the worker goes
    /// back to probing readiness; a factory error, an empty product or a
    /// token outside the slots is fatal — the runtime terminates the worker
    /// and the controller starts a replacement.
    pub fn poll_restarting(&mut self, produced: Result<Vec<Token>, ()>) -> (r: Option<Token>)
        requires
            old(self).wf(),
            old(self).state matches WorkerState::Restarting { .. },
        ensures
            final(self).wf(),
            r is None <==> (produced matches Err(_) || (produced matches Ok(ts) && (ts@.len()
                == 0 || ts@[0].0 >= old(self).services@.len()))),
            r is None ==> *final(self) == *old(self),
            r matches Some(t) ==> produced matches Ok(ts) && t == ts@[0]
                && restart_installs_slot(*old(self), *final(self), t),
    {
        match produced {
            Err(()) => None,
            Ok(tokens) => {
                if tokens.len() == 0 {
                    None
                } else {
                    let t = tokens[0];
                    if t.0 < self.services.len() {
                        self.services[t.0].created();
                        self.state = WorkerState::Unavailable;
                        Some(t)
                    } else {
                        None
                    }
                }
            },
        }
    }
}

/// At no time does a worker hold more connections in flight than the cap it
/// was configured with: the bound is part of its well-formedness, which
/// every step preserves.
pub proof fn lemma_worker_within_cap(w: ServerWorker)
    requires
        w.wf(),
    ensures
        w.conns.count() <= w.config.max_concurrent_connections,
{
    crate::counter::lemma_in_flight_bounded(w.conns);
}

/// The restart step's first half: slot `t` is marked restarting, keeps its
/// factory identity `f`, and no other slot changes.
pub open spec fn restart_marks_slot(pre: ServerWorker, post: ServerWorker, t: Token, f: usize) -> bool {
    &&& t.0 < pre.services@.len()
    &&& post.services@.len() == pre.services@.len()
    &&& f == pre.services@[t.0 as int].factory
    &&& post.services@[t.0 as int] == (WorkerService {
        factory: pre.services@[t.0 as int].factory,
        status: WorkerServiceStatus::Restarting,
    })
    &&& forall|j: int|
        0 <= j < pre.services@.len() && j != t.0 ==> (#[trigger] post.services@[j])
            == pre.services@[j]
    &&& post.state == (WorkerState::Restarting { factory: f, token: t })
    &&& post.conns == pre.conns
    &&& post.availability == pre.availability
    &&& post.config == pre.config
    &&& post.factories == pre.factories
}

/// The restart step's second half: the freshly created service fills slot
/// `t`, which keeps its factory identity, and no other slot changes.
pub open spec fn restart_installs_slot(pre: ServerWorker, post: ServerWorker, t: Token) -> bool {
    &&& t.0 < pre.services@.len()
    &&& post.services@.len() == pre.services@.len()
    &&& post.services@[t.0 as int] == (WorkerService {
        factory: pre.services@[t.0 as int].factory,
        status: WorkerServiceStatus::Unavailable,
    })
    &&& forall|j: int|
        0 <= j < pre.services@.len() && j != t.0 ==> (#[trigger] post.services@[j])
            == pre.services@[j]
    &&& post.state == WorkerState::Unavailable
    &&& post.conns == pre.conns
    &&& post.availability == pre.availability
    &&& post.config == pre.config
    &&& post.factories == pre.factories
}

/// After a readiness error of slot `t`, the restart re-creates the service
/// of that slot by the slot's own factory, and no other slot's identity or
/// status changes across the whole restart.
pub proof fn lemma_restart_same_slot(
    before: ServerWorker,
    during: ServerWorker,
    after: ServerWorker,
    t: Token,
    f: usize,
)
    requires
        restart_marks_slot(before, during, t, f),
        restart_installs_slot(during, after, t),
    ensures
        f == before.services@[t.0 as int].factory,
        after.services@[t.0 as int] == (WorkerService {
            factory: before.services@[t.0 as int].factory,
            status: WorkerServiceStatus::Unavailable,
        }),
        forall|j: int|
            0 <= j < before.services@.len() && j != t.0 ==> (#[trigger] after.services@[j])
                == before.services@[j],
{
}

} // verus!
