//! Server builder and controller.
//!
//! The builder assembles configuration and listener bookkeeping before the
//! server starts; `run` turns it into a start plan (one worker handle per
//! configured thread, the bound sockets, the signal toggle). The controller
//! part translates each command into wake-queue interests and effects that
//! the runtime carries out: acknowledging, draining workers on stop,
//! starting a replacement worker after a fault.

use vstd::prelude::*;

use crate::waker_queue::{WakerInterest, WakerQueue};
use crate::worker::{ServerWorkerConfig, WorkerHandleAccept};
use crate::sys::cpu_count;

verus! {

/// The three recognized OS signals, and one stand-in for any other signal
/// the source may report; others are ignored.
#[derive(Clone, Copy, PartialEq, Eq, Structural, Debug)]
pub enum Signal {
    Int,
    Term,
    Quit,
    Hup,
}

/// A command the controller consumes.
#[derive(Clone, Copy, PartialEq, Eq, Structural, Debug)]
pub enum ServerCommand {
    /// Stop accepting on all listeners; acknowledged when submitted.
    Pause,
    /// Accept again; acknowledged when submitted.
    Resume,
    /// An OS signal arrived.
    Signal(Signal),
    /// Register one more party to be told when the server has stopped.
    Notify,
    /// Stop the server; `graceful` lets workers drain first.
    Stop { graceful: bool },
    /// The worker with this index died; start a replacement.
    WorkerFaulted(usize),
}

/// What the runtime must do after the controller handled one command.
#[derive(Clone, Copy, PartialEq, Eq, Structural, Debug)]
pub enum CmdEffect {
    /// Acknowledge the submitter; the interest is queued.
    Acked,
    /// The notification was registered; nothing to do yet.
    Noted,
    /// The command means nothing; do nothing.
    Ignored,
    /// The stop interest is queued. Await every worker's stop reply, then
    /// acknowledge the stopper and the `notify` registered parties, and if
    /// `exit` also stop the hosting runtime.
    Stopping { graceful: bool, exit: bool, notify: usize },
    /// Start a replacement worker with this index; its handle is already
    /// queued for the acceptor's ring.
    WorkerRestart(usize),
}

/// How a signal translates into a stop: None to ignore it, otherwise
/// whether the stop is graceful.
pub open spec fn signal_stop_kind(sig: Signal) -> Option<bool> {
    match sig {
        Signal::Int => Some(false),
        Signal::Term => Some(true),
        Signal::Quit => Some(false),
        Signal::Hup => None,
    }
}

/// One bound listener as the builder records it: its dense token and its
/// informational name.
pub struct SocketInfo {
    pub token: usize,
    pub name: String,
}

/// Server builder.
pub struct ServerBuilder {
    /// Number of workers to start.
    pub threads: usize,
    /// Next token to assign; equals the number of bound sockets.
    pub token: usize,
    pub backlog: u32,
    pub sockets: Vec<SocketInfo>,
    /// Stop the hosting runtime once the server has stopped.
    pub exit: bool,
    pub no_signals: bool,
    /// Parties registered to hear about the finished stop.
    pub notify: usize,
    pub worker_config: ServerWorkerConfig,
}

impl ServerBuilder {
    /// Tokens are dense in binding order and the worker count is positive.
    pub open spec fn wf(self) -> bool {
        &&& self.threads >= 1
        &&& self.token == self.sockets@.len()
        &&& forall|j: int|
            0 <= j < self.sockets@.len() ==> (#[trigger] self.sockets@[j]).token == j
    }

    /// A fresh builder: one worker per logical CPU, backlog 2048, signals
    /// installed, default worker config.
    pub fn new() -> (b: ServerBuilder)
        ensures
            b.wf(),
            b.threads >= 1,
            b.token == 0,
            b.backlog == 2048,
            b.sockets@.len() == 0,
            !b.exit,
            !b.no_signals,
            b.notify == 0,
            b.worker_config.shutdown_timeout_secs == 30,
            b.worker_config.max_concurrent_connections == 25600,
            1 <= b.worker_config.max_blocking_threads <= 512,
    {
        ServerBuilder {
            threads: cpu_count(),
            token: 0,
            backlog: 2048,
            sockets: Vec::new(),
            exit: false,
            no_signals: false,
            notify: 0,
            worker_config: Default::default(),
        }
    }

    /// Set the number of workers to start; must be greater than zero.
    pub fn workers(self, num: usize) -> (b: ServerBuilder)
        requires
            num > 0,
        ensures
            b.threads == num,
            b.token == self.token,
            b.backlog == self.backlog,
            b.sockets@ == self.sockets@,
            b.exit == self.exit,
            b.no_signals == self.no_signals,
            b.notify == self.notify,
            b.worker_config == self.worker_config,
            self.wf() ==> b.wf(),
    {
        ServerBuilder { threads: num, ..self }
    }

    /// Set the per-worker cap on blocking-pool threads.
    pub fn worker_max_blocking_threads(self, num: usize) -> (b: ServerBuilder)
        ensures
            b.worker_config.max_blocking_threads == num,
            b.worker_config.shutdown_timeout_secs == self.worker_config.shutdown_timeout_secs,
            b.worker_config.max_concurrent_connections
                == self.worker_config.max_concurrent_connections,
            b.threads == self.threads,
            b.token == self.token,
            b.backlog == self.backlog,
            b.sockets@ == self.sockets@,
            b.exit == self.exit,
            b.no_signals == self.no_signals,
            b.notify == self.notify,
            self.wf() ==> b.wf(),
    {
        let mut config = self.worker_config;
        config.max_blocking_threads(num);
        ServerBuilder { worker_config: config, ..self }
    }

    /// Set the TCP listen backlog used by later binds.
    pub fn backlog(self, num: u32) -> (b: ServerBuilder)
        ensures
            b.backlog == num,
            b.threads == self.threads,
            b.token == self.token,
            b.sockets@ == self.sockets@,
            b.exit == self.exit,
            b.no_signals == self.no_signals,
            b.notify == self.notify,
            b.worker_config == self.worker_config,
            self.wf() ==> b.wf(),
    {
        ServerBuilder { backlog: num, ..self }
    }

    /// Set the per-worker cap on concurrent connections.
    pub fn maxconn(self, num: usize) -> (b: ServerBuilder)
        ensures
            b.worker_config.max_concurrent_connections == num,
            b.worker_config.shutdown_timeout_secs == self.worker_config.shutdown_timeout_secs,
            b.worker_config.max_blocking_threads == self.worker_config.max_blocking_threads,
            b.threads == self.threads,
            b.token == self.token,
            b.backlog == self.backlog,
            b.sockets@ == self.sockets@,
            b.exit == self.exit,
            b.no_signals == self.no_signals,
            b.notify == self.notify,
            self.wf() ==> b.wf(),
    {
        let mut config = self.worker_config;
        config.max_concurrent_connections(num);
        ServerBuilder { worker_config: config, ..self }
    }

    /// Stop the hosting runtime once the server has stopped.
    pub fn system_exit(self) -> (b: ServerBuilder)
        ensures
            b.exit,
            b.threads == self.threads,
            b.token == self.token,
            b.backlog == self.backlog,
            b.sockets@ == self.sockets@,
            b.no_signals == self.no_signals,
            b.notify == self.notify,
            b.worker_config == self.worker_config,
            self.wf() ==> b.wf(),
    {
        ServerBuilder { exit: true, ..self }
    }

    /// Skip installing the signal source.
    pub fn disable_signals(self) -> (b: ServerBuilder)
        ensures
            b.no_signals,
            b.threads == self.threads,
            b.token == self.token,
            b.backlog == self.backlog,
            b.sockets@ == self.sockets@,
            b.exit == self.exit,
            b.notify == self.notify,
            b.worker_config == self.worker_config,
            self.wf() ==> b.wf(),
    {
        ServerBuilder { no_signals: true, ..self }
    }

    /// Set the graceful-stop deadline in seconds.
    pub fn shutdown_timeout(self, secs: u64) -> (b: ServerBuilder)
        ensures
            b.worker_config.shutdown_timeout_secs == secs,
            b.worker_config.max_blocking_threads == self.worker_config.max_blocking_threads,
            b.worker_config.max_concurrent_connections
                == self.worker_config.max_concurrent_connections,
            b.threads == self.threads,
            b.token == self.token,
            b.backlog == self.backlog,
            b.sockets@ == self.sockets@,
            b.exit == self.exit,
            b.no_signals == self.no_signals,
            b.notify == self.notify,
            self.wf() ==> b.wf(),
    {
        let mut config = self.worker_config;
        config.shutdown_timeout(secs);
        ServerBuilder { worker_config: config, ..self }
    }

    /// Record one bound listener under the next dense token, paired with the
    /// service factory of the same index that the runtime keeps.
    pub fn bind_acceptable(self, name: String) -> (b: ServerBuilder)
        requires
            self.wf(),
            self.sockets@.len() < usize::MAX,
        ensures
            b.wf(),
            b.sockets@.len() == self.sockets@.len() + 1,
            b.sockets@.last().token == self.sockets@.len(),
            b.sockets@.last().name == name,
            forall|j: int|
                0 <= j < self.sockets@.len() ==> (#[trigger] b.sockets@[j])
                    == self.sockets@[j],
            b.token == self.token + 1,
            b.threads == self.threads,
            b.backlog == self.backlog,
            b.exit == self.exit,
            b.no_signals == self.no_signals,
            b.notify == self.notify,
            b.worker_config == self.worker_config,
    {
        let mut b = self;
        let token = b.token;
        b.token = b.token + 1;
        b.sockets.push(SocketInfo { token, name });
        b
    }
}

/// Everything `run` hands to the runtime: the worker handles for the
/// acceptor's ring (one per thread, by index), the bound sockets, whether to
/// install the signal source, and the per-worker config. The runtime spawns
/// one worker per handle from clones of the same factory list.
pub struct StartPlan {
    pub handles: Vec<WorkerHandleAccept>,
    pub sockets: Vec<SocketInfo>,
    pub install_signals: bool,
    pub config: ServerWorkerConfig,
    /// Factories each worker is built from: one per bound socket.
    pub factories: usize,
}

/// The controller's stop step: the stop interest is queued, the effect
/// carries the exit snapshot and the drained notify list, and the list is
/// emptied.
pub open spec fn stop_rel(
    pre: ServerBuilder,
    post: ServerBuilder,
    queue_pre: Seq<WakerInterest>,
    queue_post: Seq<WakerInterest>,
    graceful: bool,
    eff: CmdEffect,
) -> bool {
    &&& queue_post == queue_pre.push(WakerInterest::Stop { graceful })
    &&& eff == (CmdEffect::Stopping { graceful, exit: pre.exit, notify: pre.notify })
    &&& post.notify == 0
    &&& post.threads == pre.threads
    &&& post.token == pre.token
    &&& post.backlog == pre.backlog
    &&& post.sockets@ == pre.sockets@
    &&& post.exit == pre.exit
    &&& post.no_signals == pre.no_signals
    &&& post.worker_config == pre.worker_config
}

impl ServerBuilder {
    /// Identity of the worker to start at ring join time; the runtime spawns
    /// the worker itself from clones of the factories.
    pub fn start_worker(&self, idx: usize) -> (h: WorkerHandleAccept)
        ensures
            h.idx == idx,
    {
        WorkerHandleAccept { idx }
    }

    /// Turn the finished builder into a start plan. The server must have at
    /// least one bound socket.
    pub fn run(self) -> (plan: StartPlan)
        requires
            self.wf(),
            self.sockets@.len() > 0,
        ensures
            plan.handles@.len() == self.threads,
            forall|j: int|
                0 <= j < plan.handles@.len() ==> (#[trigger] plan.handles@[j]).idx == j,
            plan.sockets@ == self.sockets@,
            plan.install_signals == !self.no_signals,
            plan.config == self.worker_config,
            plan.factories == self.sockets@.len(),
    {
        let mut handles: Vec<WorkerHandleAccept> = Vec::new();
        let threads = self.threads;
        let mut i: usize = 0;
        while i < threads
            invariant
                i <= threads,
                handles@.len() == i,
                forall|j: int| 0 <= j < i ==> (#[trigger] handles@[j]).idx == j,
            decreases threads - i,
        {
            let h = self.start_worker(i);
            handles.push(h);
            i = i + 1;
        }
        let factories = self.sockets.len();
        StartPlan {
            handles,
            sockets: self.sockets,
            install_signals: !self.no_signals,
            config: self.worker_config,
            factories,
        }
    }

    /// The stop path shared by the stop command and the stopping signals.
    fn do_stop(&mut self, queue: &mut WakerQueue, graceful: bool) -> (eff: CmdEffect)
        ensures
            stop_rel(*old(self), *final(self), old(queue)@, final(queue)@, graceful, eff),
    {
        let exit = self.exit;
        let notify = self.notify;
        self.notify = 0;
        queue.wake(WakerInterest::Stop { graceful });
        CmdEffect::Stopping { graceful, exit, notify }
    }

    /// Handle one command: queue the matching interest for the acceptor and
    /// tell the runtime what remains to be done.
    pub fn handle_cmd(&mut self, queue: &mut WakerQueue, cmd: ServerCommand) -> (eff: CmdEffect)
        requires
            cmd == ServerCommand::Notify ==> old(self).notify < usize::MAX,
        ensures
            cmd == ServerCommand::Pause ==> final(queue)@ == old(queue)@.push(
                WakerInterest::Pause,
            ) && *final(self) == *old(self) && eff == CmdEffect::Acked,
            cmd == ServerCommand::Resume ==> final(queue)@ == old(queue)@.push(
                WakerInterest::Resume,
            ) && *final(self) == *old(self) && eff == CmdEffect::Acked,
            cmd == ServerCommand::Notify ==> final(self).notify == old(self).notify + 1
                && final(queue)@ == old(queue)@ && eff == CmdEffect::Noted
                && final(self).threads == old(self).threads && final(self).token == old(
                self,
            ).token && final(self).backlog == old(self).backlog && final(self).sockets@ == old(
                self,
            ).sockets@ && final(self).exit == old(self).exit && final(self).no_signals == old(
                self,
            ).no_signals && final(self).worker_config == old(self).worker_config,
            cmd matches ServerCommand::Stop { graceful } ==> stop_rel(
                *old(self),
                *final(self),
                old(queue)@,
                final(queue)@,
                graceful,
                eff,
            ),
            cmd matches ServerCommand::Signal(sig) ==> match signal_stop_kind(sig) {
                Some(graceful) => {
                    &&& final(self).exit
                    &&& stop_rel(
                        ServerBuilder { exit: true, ..*old(self) },
                        *final(self),
                        old(queue)@,
                        final(queue)@,
                        graceful,
                        eff,
                    )
                    &&& eff == (CmdEffect::Stopping {
                        graceful,
                        exit: true,
                        notify: old(self).notify,
                    })
                },
                None => *final(self) == *old(self) && final(queue)@ == old(queue)@ && eff
                    == CmdEffect::Ignored,
            },
            cmd matches ServerCommand::WorkerFaulted(idx) ==> final(queue)@ == old(queue)@.push(
                WakerInterest::Worker(WorkerHandleAccept { idx }),
            ) && *final(self) == *old(self) && eff == CmdEffect::WorkerRestart(idx),
    {
        match cmd {
            ServerCommand::Pause => {
                queue.wake(WakerInterest::Pause);
                CmdEffect::Acked
            },
            ServerCommand::Resume => {
                queue.wake(WakerInterest::Resume);
                CmdEffect::Acked
            },
            ServerCommand::Signal(sig) => {
                match sig {
                    Signal::Int => {
                        self.exit = true;
                        self.do_stop(queue, false)
                    },
                    Signal::Term => {
                        self.exit = true;
                        self.do_stop(queue, true)
                    },
                    Signal::Quit => {
                        self.exit = true;
                        self.do_stop(queue, false)
                    },
                    Signal::Hup => CmdEffect::Ignored,
                }
            },
            ServerCommand::Notify => {
                self.notify = self.notify + 1;
                CmdEffect::Noted
            },
            ServerCommand::Stop { graceful } => self.do_stop(queue, graceful),
            ServerCommand::WorkerFaulted(idx) => {
                let handle = self.start_worker(idx);
                queue.wake(WakerInterest::Worker(handle));
                CmdEffect::WorkerRestart(idx)
            },
        }
    }

    /// Translate one OS signal: interrupt and quit stop at once, terminate
    /// stops gracefully, anything else is ignored; every stopping signal
    /// also makes the server exit the hosting runtime afterwards.
    pub fn handle_signal(&mut self, queue: &mut WakerQueue, sig: Signal) -> (eff: CmdEffect)
        ensures
            match signal_stop_kind(sig) {
                Some(graceful) => final(self).exit && stop_rel(
                    ServerBuilder { exit: true, ..*old(self) },
                    *final(self),
                    old(queue)@,
                    final(queue)@,
                    graceful,
                    eff,
                ),
                None => *final(self) == *old(self) && final(queue)@ == old(queue)@ && eff
                    == CmdEffect::Ignored,
            },
    {
        self.handle_cmd(queue, ServerCommand::Signal(sig))
    }
}

/// Stop is idempotent: whatever stops ran before, a further stop command
/// still queues the stop interest and still yields a stopping effect, whose
/// completion acknowledges the stopper — with an empty reply list when the
/// workers are already gone.
pub proof fn lemma_stop_idempotent(
    b0: ServerBuilder,
    b1: ServerBuilder,
    b2: ServerBuilder,
    q0: Seq<WakerInterest>,
    q1: Seq<WakerInterest>,
    q2: Seq<WakerInterest>,
    g1: bool,
    g2: bool,
    e1: CmdEffect,
    e2: CmdEffect,
)
    requires
        stop_rel(b0, b1, q0, q1, g1, e1),
        stop_rel(b1, b2, q1, q2, g2, e2),
    ensures
        e2 == (CmdEffect::Stopping { graceful: g2, exit: b0.exit, notify: 0 }),
        q2 == q1.push(WakerInterest::Stop { graceful: g2 }),
{
}

/// The controller's stop task replies only once it holds one stop reply
/// from every worker — each of which reported zero in-flight connections or
/// hit its deadline; the aggregate is true iff every worker drained fully.
pub fn graceful_stop_complete(replies: &Vec<bool>, workers: usize) -> (all: bool)
    requires
        replies@.len() == workers,
    ensures
        all == (forall|j: int| 0 <= j < replies@.len() ==> replies@[j]),
{
    let n = replies.len();
    let mut all = true;
    let mut i: usize = 0;
    while i < n
        invariant
            i <= n,
            n == replies@.len(),
            all == (forall|j: int| 0 <= j < i ==> replies@[j]),
        decreases n - i,
    {
        if !replies[i] {
            all = false;
        }
        i = i + 1;
    }
    all
}

/// Why binding an address produced no listener.
#[derive(PartialEq, Eq, Debug)]
pub enum BindAddrError<E> {
    /// The address resolved to nothing, so nothing was tried.
    NoAddress,
    /// Every resolved address failed; this is the first failure.
    Failed(E),
}

/// The listeners of the successful attempts, in order.
pub open spec fn ok_values<T, E>(s: Seq<Result<T, E>>) -> Seq<T>
    decreases s.len(),
{
    if s.len() == 0 {
        Seq::empty()
    } else {
        let rest = ok_values(s.drop_last());
        match s.last() {
            Ok(t) => rest.push(t),
            Err(_) => rest,
        }
    }
}

/// At least one attempt succeeded.
pub open spec fn any_ok<T, E>(s: Seq<Result<T, E>>) -> bool
    decreases s.len(),
{
    if s.len() == 0 {
        false
    } else {
        s.last() is Ok || any_ok(s.drop_last())
    }
}

/// The error of the first failed attempt, if any failed.
pub open spec fn first_bind_error<T, E>(s: Seq<Result<T, E>>) -> Option<E>
    decreases s.len(),
{
    if s.len() == 0 {
        None
    } else {
        match s[0] {
            Err(e) => Some(e),
            Ok(_) => first_bind_error(s.drop_first()),
        }
    }
}

/// A later attempt never displaces the first error.
proof fn lemma_first_bind_error_push<T, E>(s: Seq<Result<T, E>>, x: Result<T, E>)
    ensures
        first_bind_error(s.push(x)) == (match first_bind_error(s) {
            Some(e) => Some(e),
            None => match x {
                Err(e) => Some(e),
                Ok(_) => None::<E>,
            },
        }),
    decreases s.len(),
{
    let sx = s.push(x);
    if s.len() == 0 {
        assert(sx[0] == x);
        assert(sx.drop_first() =~= Seq::<Result<T, E>>::empty());
        assert(s =~= Seq::<Result<T, E>>::empty());
        assert(first_bind_error(Seq::<Result<T, E>>::empty()) == None::<E>);
        match x {
            Err(e) => {
                assert(first_bind_error(sx) == Some(e));
            },
            Ok(_) => {
                assert(first_bind_error(sx) == first_bind_error(sx.drop_first()));
            },
        }
    } else {
        assert(sx[0] == s[0]);
        assert(sx.drop_first() =~= s.drop_first().push(x));
        lemma_first_bind_error_push(s.drop_first(), x);
        match s[0] {
            Err(e) => {
                assert(first_bind_error(sx) == Some(e));
                assert(first_bind_error(s) == Some(e));
            },
            Ok(_) => {
                assert(first_bind_error(sx) == first_bind_error(s.drop_first().push(x)));
                assert(first_bind_error(s) == first_bind_error(s.drop_first()));
            },
        }
    }
}

/// Gather the listeners bound for one address. `results` holds the create
/// and bind outcome for each resolved socket address, in resolution order.
/// One success is enough; with none, the first error surfaces, and an empty
/// resolution is its own error.
pub fn bind_addr<T, E>(results: Vec<Result<T, E>>) -> (r: Result<Vec<T>, BindAddrError<E>>)
    ensures
        (r is Ok) == any_ok(results@),
        r matches Ok(v) ==> v@ == ok_values(results@),
        r matches Err(e) ==> !any_ok(results@) && e == (match first_bind_error(results@) {
            Some(e0) => BindAddrError::Failed(e0),
            None => BindAddrError::<E>::NoAddress,
        }),
{
    let mut rest = results;
    let ghost r0 = rest@;
    let mut sockets: Vec<T> = Vec::new();
    let mut err: Option<E> = None;
    let mut succ = false;
    let n = rest.len();
    let mut i: usize = 0;
    proof {
        assert(rest@ =~= r0.skip(0));
    }
    while i < n
        invariant
            i <= n,
            n == r0.len(),
            rest@ == r0.skip(i as int),
            sockets@ == ok_values(r0.take(i as int)),
            succ == any_ok(r0.take(i as int)),
            err == first_bind_error(r0.take(i as int)),
        decreases n - i,
    {
        let item = rest.remove(0);
        proof {
            assert(r0.skip(i as int)[0] == r0[i as int]);
            assert(rest@ =~= r0.skip(i as int + 1));
            assert(r0.take(i as int + 1).drop_last() =~= r0.take(i as int));
            assert(r0.take(i as int + 1).last() == r0[i as int]);
            assert(r0.take(i as int + 1) =~= r0.take(i as int).push(r0[i as int]));
            lemma_first_bind_error_push(r0.take(i as int), r0[i as int]);
        }
        match item {
            Ok(t) => {
                succ = true;
                sockets.push(t);
            },
            Err(e) => {
                if err.is_none() {
                    err = Some(e);
                }
            },
        }
        i = i + 1;
    }
    proof {
        assert(r0.take(n as int) =~= r0);
    }
    if succ {
        Ok(sockets)
    } else {
        match err {
            Some(e) => Err(BindAddrError::Failed(e)),
            None => Err(BindAddrError::NoAddress),
        }
    }
}

/// Outcome of removing a stale socket file before a Unix-domain bind, as
/// the runtime observed it.
pub enum UnlinkOutcome<E> {
    /// A stale file existed and was unlinked.
    Removed,
    /// No file existed; nothing to do.
    NotFound,
    /// The removal failed for some other reason.
    Failed(E),
}

/// Decide whether a Unix-domain bind may proceed after the stale-file
/// removal: a removed or missing file is fine, any other failure propagates.
pub fn bind_uds_precheck<E>(unlink: UnlinkOutcome<E>) -> (r: Result<(), E>)
    ensures
        (r is Ok) == !(unlink is Failed),
        unlink matches UnlinkOutcome::Failed(e) ==> (r matches Err(e2) && e2 == e),
{
    match unlink {
        UnlinkOutcome::Removed => Ok(()),
        UnlinkOutcome::NotFound => Ok(()),
        UnlinkOutcome::Failed(e) => Err(e),
    }
}

} // verus!
