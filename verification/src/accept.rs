//! Acceptor state machine.
//!
//! The acceptor owns the listener registry, the ring of worker handles and a
//! round-robin cursor. The runtime blocks on the OS poller; when it drains
//! the wake queue it applies each interest here, and when a listener is
//! readable it accepts streams and asks here which worker takes each one.
//! When no worker is available one accepted stream per listener is held and
//! the listener is deregistered, so the kernel queue absorbs further
//! arrivals; the next worker-available interest re-registers it for a retry.

use vstd::prelude::*;

use crate::Token;
use crate::waker_queue::WakerInterest;
use crate::worker::WorkerHandleAccept;

verus! {

/// One bound listener as the acceptor tracks it.
#[derive(Clone, Copy, PartialEq, Eq, Structural, Debug)]
pub struct ListenerSlot {
    pub token: Token,
    /// Registered with the acceptor's poller: new connections arrive.
    pub registered: bool,
    /// One accepted stream is parked, waiting for a worker to free up.
    pub held: bool,
}

/// What the acceptor does after applying one interest.
#[derive(Clone, Copy, PartialEq, Eq, Structural, Debug)]
pub enum AcceptAction {
    /// Keep polling.
    Continue,
    /// Workers freed up: retry dispatch of every held stream.
    RetryHeld,
    /// Shut down; with `graceful` the workers drain before replying.
    Exit { graceful: bool },
}

/// Where one accepted connection went.
#[derive(Clone, Copy, PartialEq, Eq, Structural, Debug)]
pub enum AcceptOutcome {
    /// Sent to the worker at this ring position.
    Delivered(usize),
    /// No worker available: the stream is parked and the listener
    /// deregistered until a worker frees up.
    Held,
    /// No worker available and a stream is already parked for this
    /// listener: the connection is dropped for backpressure.
    Dropped,
}

/// Cursor arithmetic: position `i` wrapped once into the ring of size `n`,
/// for `0 <= i < 2 * n`.
pub open spec fn wrap_index(i: int, n: int) -> int {
    if i >= n {
        i - n
    } else {
        i
    }
}

/// The ring cursor after the handle at `pos` is removed.
pub open spec fn cursor_after_removal(next: int, pos: int, new_len: int) -> int {
    let shifted = if next > pos {
        next - 1
    } else {
        next
    };
    if shifted >= new_len {
        0
    } else {
        shifted
    }
}

/// No two handles in the ring answer for the same worker index.
pub open spec fn unique_idxs(hs: Seq<WorkerHandleAccept>) -> bool {
    forall|i: int, j: int|
        0 <= i < hs.len() && 0 <= j < hs.len() && i != j ==> (#[trigger] hs[i]).idx
            != (#[trigger] hs[j]).idx
}

pub struct Accept {
    pub listeners: Vec<ListenerSlot>,
    pub handles: Vec<WorkerHandleAccept>,
    /// Round-robin cursor: the ring position the next dispatch scan starts at.
    pub next: usize,
    pub paused: bool,
    pub stopped: bool,
}

impl Accept {
    /// While paused or stopped no listener is registered, and the cursor
    /// stays inside the ring.
    pub open spec fn wf(self) -> bool {
        &&& self.paused ==> forall|j: int|
            0 <= j < self.listeners@.len() ==> !(#[trigger] self.listeners@[j]).registered
        &&& self.stopped ==> forall|j: int|
            0 <= j < self.listeners@.len() ==> !(#[trigger] self.listeners@[j]).registered
        &&& if self.handles@.len() == 0 {
            self.next == 0
        } else {
            self.next < self.handles@.len()
        }
    }

    /// Every listener is registered and accepting.
    pub open spec fn steady(self) -> bool {
        &&& !self.paused
        &&& !self.stopped
        &&& forall|j: int|
            0 <= j < self.listeners@.len() ==> (#[trigger] self.listeners@[j]).registered
    }

    /// The acceptor starts with every listener registered and the ring of
    /// startup workers, cursor at the front.
    pub fn new(tokens: Vec<Token>, handles: Vec<WorkerHandleAccept>) -> (a: Accept)
        ensures
            a.wf(),
            a.steady(),
            a.listeners@.len() == tokens@.len(),
            forall|j: int|
                0 <= j < tokens@.len() ==> (#[trigger] a.listeners@[j]) == (ListenerSlot {
                    token: tokens@[j],
                    registered: true,
                    held: false,
                }),
            a.handles@ == handles@,
            a.next == 0,
    {
        let mut listeners: Vec<ListenerSlot> = Vec::new();
        let n = tokens.len();
        let mut i: usize = 0;
        while i < n
            invariant
                i <= n,
                n == tokens@.len(),
                listeners@.len() == i,
                forall|j: int|
                    0 <= j < i ==> (#[trigger] listeners@[j]) == (ListenerSlot {
                        token: tokens@[j],
                        registered: true,
                        held: false,
                    }),
            decreases n - i,
        {
            listeners.push(ListenerSlot { token: tokens[i], registered: true, held: false });
            i = i + 1;
        }
        Accept { listeners, handles, next: 0, paused: false, stopped: false }
    }
}

/// Pausing deregisters every listener and raises the pause flag; tokens,
/// held streams, the ring and the cursor are untouched.
pub open spec fn pause_rel(a: Accept, b: Accept) -> bool {
    &&& b.listeners@.len() == a.listeners@.len()
    &&& forall|j: int|
        0 <= j < a.listeners@.len() ==> (#[trigger] b.listeners@[j]) == (ListenerSlot {
            token: a.listeners@[j].token,
            registered: false,
            held: a.listeners@[j].held,
        })
    &&& b.paused
    &&& b.handles@ == a.handles@
    &&& b.next == a.next
    &&& b.stopped == a.stopped
}

/// Resuming re-registers every listener and clears the pause flag; tokens,
/// held streams, the ring and the cursor are untouched.
pub open spec fn resume_rel(a: Accept, b: Accept) -> bool {
    &&& b.listeners@.len() == a.listeners@.len()
    &&& forall|j: int|
        0 <= j < a.listeners@.len() ==> (#[trigger] b.listeners@[j]) == (ListenerSlot {
            token: a.listeners@[j].token,
            registered: true,
            held: a.listeners@[j].held,
        })
    &&& !b.paused
    &&& b.handles@ == a.handles@
    &&& b.next == a.next
    &&& b.stopped == a.stopped
}

/// The pause flag after one interest: only pause raises it and only resume
/// clears it.
pub open spec fn paused_after(p: bool, i: WakerInterest) -> bool {
    match i {
        WakerInterest::Pause => true,
        WakerInterest::Resume => false,
        _ => p,
    }
}

impl Accept {
    /// Apply one interest drained from the wake queue.
    pub fn handle_interest(&mut self, interest: WakerInterest) -> (action: AcceptAction)
        requires
            old(self).wf(),
            !old(self).stopped,
        ensures
            final(self).wf(),
            final(self).paused == paused_after(old(self).paused, interest),
            interest == WakerInterest::Pause ==> pause_rel(*old(self), *final(self))
                && action == AcceptAction::Continue,
            interest == WakerInterest::Resume ==> resume_rel(*old(self), *final(self))
                && action == AcceptAction::Continue,
            interest matches WakerInterest::Worker(h) ==> final(self).handles@
                == old(self).handles@.push(h) && final(self).listeners@ == old(self).listeners@
                && final(self).next == old(self).next && action == AcceptAction::Continue
                && final(self).paused == old(self).paused && final(self).stopped == old(
                self,
            ).stopped,
            interest == WakerInterest::WorkerAvailable ==> {
                &&& action == AcceptAction::RetryHeld
                &&& final(self).handles@ == old(self).handles@
                &&& final(self).next == old(self).next
                &&& final(self).stopped == old(self).stopped
                &&& final(self).listeners@.len() == old(self).listeners@.len()
                &&& forall|j: int|
                    0 <= j < old(self).listeners@.len() ==> (#[trigger] final(self).listeners@[j])
                        == (ListenerSlot {
                        token: old(self).listeners@[j].token,
                        registered: if !old(self).paused && old(self).listeners@[j].held {
                            true
                        } else {
                            old(self).listeners@[j].registered
                        },
                        held: old(self).listeners@[j].held,
                    })
            },
            interest matches WakerInterest::Stop { graceful } ==> {
                &&& action == (AcceptAction::Exit { graceful })
                &&& final(self).stopped
                &&& final(self).handles@ == old(self).handles@
                &&& final(self).next == old(self).next
                &&& final(self).listeners@.len() == old(self).listeners@.len()
                &&& forall|j: int|
                    0 <= j < old(self).listeners@.len() ==> (#[trigger] final(self).listeners@[j])
                        == (ListenerSlot {
                        token: old(self).listeners@[j].token,
                        registered: false,
                        held: old(self).listeners@[j].held,
                    })
            },
    {
        match interest {
            WakerInterest::Pause => {
                self.paused = true;
                self.set_all_registered(false);
                AcceptAction::Continue
            },
            WakerInterest::Resume => {
                self.paused = false;
                self.set_all_registered(true);
                AcceptAction::Continue
            },
            WakerInterest::Worker(h) => {
                self.handles.push(h);
                AcceptAction::Continue
            },
            WakerInterest::WorkerAvailable => {
                if !self.paused {
                    self.reregister_held();
                }
                AcceptAction::RetryHeld
            },
            WakerInterest::Stop { graceful } => {
                self.set_all_registered(false);
                self.stopped = true;
                AcceptAction::Exit { graceful }
            },
        }
    }

    /// Register or deregister every listener with the poller.
    fn set_all_registered(&mut self, val: bool)
        ensures
            final(self).listeners@.len() == old(self).listeners@.len(),
            forall|j: int|
                0 <= j < old(self).listeners@.len() ==> (#[trigger] final(self).listeners@[j])
                    == (ListenerSlot {
                    token: old(self).listeners@[j].token,
                    registered: val,
                    held: old(self).listeners@[j].held,
                }),
            final(self).handles@ == old(self).handles@,
            final(self).next == old(self).next,
            final(self).paused == old(self).paused,
            final(self).stopped == old(self).stopped,
    {
        let ghost l0 = self.listeners@;
        let n = self.listeners.len();
        let mut i: usize = 0;
        while i < n
            invariant
                i <= n,
                n == l0.len(),
                old(self).listeners@ == l0,
                self.listeners@.len() == n,
                forall|j: int|
                    0 <= j < i ==> (#[trigger] self.listeners@[j]) == (ListenerSlot {
                        token: l0[j].token,
                        registered: val,
                        held: l0[j].held,
                    }),
                forall|j: int| i <= j < n ==> (#[trigger] self.listeners@[j]) == l0[j],
                self.handles@ == old(self).handles@,
                self.next == old(self).next,
                self.paused == old(self).paused,
                self.stopped == old(self).stopped,
            decreases n - i,
        {
            self.listeners[i].registered = val;
            i = i + 1;
        }
    }

    /// Re-register every listener that parked a stream while no worker was
    /// available, so the held stream and the kernel queue are retried.
    fn reregister_held(&mut self)
        ensures
            final(self).listeners@.len() == old(self).listeners@.len(),
            forall|j: int|
                0 <= j < old(self).listeners@.len() ==> (#[trigger] final(self).listeners@[j])
                    == (ListenerSlot {
                    token: old(self).listeners@[j].token,
                    registered: old(self).listeners@[j].held || old(self).listeners@[j].registered,
                    held: old(self).listeners@[j].held,
                }),
            final(self).handles@ == old(self).handles@,
            final(self).next == old(self).next,
            final(self).paused == old(self).paused,
            final(self).stopped == old(self).stopped,
    {
        let ghost l0 = self.listeners@;
        let n = self.listeners.len();
        let mut i: usize = 0;
        while i < n
            invariant
                i <= n,
                n == l0.len(),
                old(self).listeners@ == l0,
                self.listeners@.len() == n,
                forall|j: int|
                    0 <= j < i ==> (#[trigger] self.listeners@[j]) == (ListenerSlot {
                        token: l0[j].token,
                        registered: l0[j].held || l0[j].registered,
                        held: l0[j].held,
                    }),
                forall|j: int| i <= j < n ==> (#[trigger] self.listeners@[j]) == l0[j],
                self.handles@ == old(self).handles@,
                self.next == old(self).next,
                self.paused == old(self).paused,
                self.stopped == old(self).stopped,
            decreases n - i,
        {
            if self.listeners[i].held {
                self.listeners[i].registered = true;
            }
            i = i + 1;
        }
    }
}

/// `pos` is the first available ring position when scanning one full
/// revolution from `next`.
pub open spec fn first_available_from(next: int, avails: Seq<bool>, pos: int) -> bool {
    &&& 0 <= pos < avails.len()
    &&& avails[pos]
    &&& exists|o: int|
        0 <= o < avails.len() && pos == #[trigger] wrap_index(next + o, avails.len() as int) && (forall|
            o2: int,
        |
            0 <= o2 < o ==> !(#[trigger] avails[wrap_index(next + o2, avails.len() as int)]))
}

impl Accept {
    /// Scan the ring from the cursor, one full revolution, for the first
    /// worker whose availability flag reads true; advance the cursor past
    /// it. `avails[i]` is the flag of the worker at ring position `i` as the
    /// acceptor just read it. None means no worker was available anywhere.
    pub fn select_worker(&mut self, avails: &Vec<bool>) -> (r: Option<usize>)
        requires
            old(self).wf(),
            avails@.len() == old(self).handles@.len(),
        ensures
            final(self).wf(),
            final(self).listeners@ == old(self).listeners@,
            final(self).handles@ == old(self).handles@,
            final(self).paused == old(self).paused,
            final(self).stopped == old(self).stopped,
            r is None ==> final(self).next == old(self).next && (forall|j: int|
                0 <= j < avails@.len() ==> !avails@[j]),
            r matches Some(pos) ==> first_available_from(old(self).next as int, avails@, pos as int)
                && final(self).next as int == wrap_index(
                pos as int + 1,
                old(self).handles@.len() as int,
            ),
    {
        let n = self.handles.len();
        if n == 0 {
            return None;
        }
        let mut pos = self.next;
        let mut offset: usize = 0;
        while offset < n
            invariant
                n == self.handles@.len(),
                n == avails@.len(),
                n > 0,
                old(self).wf(),
                *self == *old(self),
                self.next < n,
                offset <= n,
                pos < n,
                pos as int == wrap_index(old(self).next as int + offset as int, n as int),
                forall|o2: int|
                    0 <= o2 < offset ==> !avails@[#[trigger] wrap_index(
                        old(self).next + o2,
                        n as int,
                    )],
            decreases n - offset,
        {
            if avails[pos] {
                let bumped = pos + 1;
                self.next = if bumped == n {
                    0
                } else {
                    bumped
                };
                return Some(pos);
            }
            pos = if pos + 1 == n {
                0
            } else {
                pos + 1
            };
            offset = offset + 1;
        }
        proof {
            assert forall|j: int| 0 <= j < avails@.len() implies !avails@[j] by {
                let o2 = if j >= self.next as int {
                    j - self.next
                } else {
                    j + n - self.next
                };
                assert(0 <= o2 < n);
                assert(wrap_index(self.next + o2, n as int) == j);
                assert(!avails@[wrap_index(self.next + o2, n as int)]);
            }
        }
        None
    }

    /// One connection was accepted on listener `lst`. Deliver it to the
    /// first available worker from the cursor; with no worker available,
    /// park the stream (at most one per listener) and deregister the
    /// listener, or drop the connection if one is already parked.
    pub fn accept_one(&mut self, lst: usize, avails: &Vec<bool>) -> (r: AcceptOutcome)
        requires
            old(self).wf(),
            lst < old(self).listeners@.len(),
            old(self).listeners@[lst as int].registered,
            avails@.len() == old(self).handles@.len(),
        ensures
            final(self).wf(),
            final(self).handles@ == old(self).handles@,
            final(self).paused == old(self).paused,
            final(self).stopped == old(self).stopped,
            r matches AcceptOutcome::Delivered(pos) ==> first_available_from(
                old(self).next as int,
                avails@,
                pos as int,
            ) && final(self).next as int == wrap_index(
                pos as int + 1,
                old(self).handles@.len() as int,
            ) && final(self).listeners@ == old(self).listeners@,
            r == AcceptOutcome::Held ==> {
                &&& forall|j: int| 0 <= j < avails@.len() ==> !avails@[j]
                &&& !old(self).listeners@[lst as int].held
                &&& final(self).next == old(self).next
                &&& final(self).listeners@ == old(self).listeners@.update(
                    lst as int,
                    ListenerSlot {
                        token: old(self).listeners@[lst as int].token,
                        registered: false,
                        held: true,
                    },
                )
            },
            r == AcceptOutcome::Dropped ==> {
                &&& forall|j: int| 0 <= j < avails@.len() ==> !avails@[j]
                &&& old(self).listeners@[lst as int].held
                &&& final(self).next == old(self).next
                &&& final(self).listeners@ == old(self).listeners@
            },
    {
        match self.select_worker(avails) {
            Some(pos) => AcceptOutcome::Delivered(pos),
            None => {
                if !self.listeners[lst].held {
                    self.listeners[lst].held = true;
                    self.listeners[lst].registered = false;
                    proof {
                        assert(self.listeners@ =~= old(self).listeners@.update(
                            lst as int,
                            ListenerSlot {
                                token: old(self).listeners@[lst as int].token,
                                registered: false,
                                held: true,
                            },
                        ));
                    }
                    AcceptOutcome::Held
                } else {
                    AcceptOutcome::Dropped
                }
            },
        }
    }

    /// Retry the stream parked for listener `lst` after workers freed up.
    /// Delivered, the park is cleared; with still no worker available the
    /// listener is deregistered again and keeps its parked stream.
    pub fn retry_held(&mut self, lst: usize, avails: &Vec<bool>) -> (r: Option<usize>)
        requires
            old(self).wf(),
            lst < old(self).listeners@.len(),
            old(self).listeners@[lst as int].registered,
            old(self).listeners@[lst as int].held,
            avails@.len() == old(self).handles@.len(),
        ensures
            final(self).wf(),
            final(self).handles@ == old(self).handles@,
            final(self).paused == old(self).paused,
            final(self).stopped == old(self).stopped,
            r matches Some(pos) ==> first_available_from(old(self).next as int, avails@, pos as int)
                && final(self).next as int == wrap_index(
                pos as int + 1,
                old(self).handles@.len() as int,
            ) && final(self).listeners@ == old(self).listeners@.update(
                lst as int,
                ListenerSlot {
                    token: old(self).listeners@[lst as int].token,
                    registered: true,
                    held: false,
                },
            ),
            r is None ==> {
                &&& forall|j: int| 0 <= j < avails@.len() ==> !avails@[j]
                &&& final(self).next == old(self).next
                &&& final(self).listeners@ == old(self).listeners@.update(
                    lst as int,
                    ListenerSlot {
                        token: old(self).listeners@[lst as int].token,
                        registered: false,
                        held: true,
                    },
                )
            },
    {
        match self.select_worker(avails) {
            Some(pos) => {
                self.listeners[lst].held = false;
                proof {
                    assert(self.listeners@ =~= old(self).listeners@.update(
                        lst as int,
                        ListenerSlot {
                            token: old(self).listeners@[lst as int].token,
                            registered: true,
                            held: false,
                        },
                    ));
                }
                Some(pos)
            },
            None => {
                self.listeners[lst].registered = false;
                proof {
                    assert(self.listeners@ =~= old(self).listeners@.update(
                        lst as int,
                        ListenerSlot {
                            token: old(self).listeners@[lst as int].token,
                            registered: false,
                            held: true,
                        },
                    ));
                }
                None
            },
        }
    }

    /// A send to the worker at ring position `pos` failed because its
    /// channel closed: drop the dead handle from the ring and pull the
    /// cursor back into range. The controller is told separately and starts
    /// a replacement.
    pub fn worker_faulted(&mut self, pos: usize)
        requires
            old(self).wf(),
            pos < old(self).handles@.len(),
        ensures
            final(self).wf(),
            final(self).handles@ == old(self).handles@.remove(pos as int),
            final(self).next as int == cursor_after_removal(
                old(self).next as int,
                pos as int,
                old(self).handles@.len() - 1,
            ),
            final(self).listeners@ == old(self).listeners@,
            final(self).paused == old(self).paused,
            final(self).stopped == old(self).stopped,
    {
        self.handles.remove(pos);
        if self.next > pos {
            self.next = self.next - 1;
        }
        if self.next >= self.handles.len() {
            self.next = 0;
        }
    }
}

/// The pause flag after a whole sequence of interests is applied in order.
pub open spec fn paused_after_all(p: bool, interests: Seq<WakerInterest>) -> bool
    decreases interests.len(),
{
    if interests.len() == 0 {
        p
    } else {
        paused_after_all(paused_after(p, interests[0]), interests.drop_first())
    }
}

/// Once paused, the acceptor stays paused under any sequence of interests
/// that contains no resume.
pub proof fn lemma_paused_until_resume(p: bool, interests: Seq<WakerInterest>)
    requires
        p,
        forall|k: int| 0 <= k < interests.len() ==> !((#[trigger] interests[k]) is Resume),
    ensures
        paused_after_all(p, interests),
    decreases interests.len(),
{
    if interests.len() > 0 {
        assert(!(interests[0] is Resume));
        let rest = interests.drop_first();
        assert forall|k: int| 0 <= k < rest.len() implies !((#[trigger] rest[k]) is Resume) by {
            assert(rest[k] == interests[k + 1]);
        }
        lemma_paused_until_resume(paused_after(p, interests[0]), rest);
    }
}

/// While paused no listener is registered, so no connection can be accepted
/// and handed to a worker: every delivering step requires a registered
/// listener.
pub proof fn lemma_paused_blocks_delivery(s: Accept, lst: int)
    requires
        s.wf(),
        s.paused,
        0 <= lst < s.listeners@.len(),
    ensures
        !s.listeners@[lst].registered,
{
}

/// Pause followed by resume restores the steady state: the same listeners,
/// all registered again, with the ring, the cursor and the held streams
/// untouched.
pub proof fn lemma_pause_resume_round_trip(s0: Accept, s1: Accept, s2: Accept)
    requires
        pause_rel(s0, s1),
        resume_rel(s1, s2),
    ensures
        s2.handles@ == s0.handles@,
        s2.next == s0.next,
        s2.stopped == s0.stopped,
        !s2.paused,
        s2.listeners@.len() == s0.listeners@.len(),
        forall|j: int|
            0 <= j < s0.listeners@.len() ==> (#[trigger] s2.listeners@[j]) == (ListenerSlot {
                token: s0.listeners@[j].token,
                registered: true,
                held: s0.listeners@[j].held,
            }),
        s0.steady() ==> s2.listeners@ =~= s0.listeners@,
{
    assert forall|j: int| 0 <= j < s0.listeners@.len() implies (#[trigger] s2.listeners@[j])
        == (ListenerSlot {
        token: s0.listeners@[j].token,
        registered: true,
        held: s0.listeners@[j].held,
    }) by {
        assert(s1.listeners@[j] == (ListenerSlot {
            token: s0.listeners@[j].token,
            registered: false,
            held: s0.listeners@[j].held,
        }));
    }
}

/// After a worker fault at ring position `pos` and the join of its
/// replacement handle `h` (same worker index), the ring holds exactly one
/// handle for that index — the replacement, at the back — and the ring's
/// indices stay pairwise distinct.
pub proof fn lemma_fault_replacement(hs: Seq<WorkerHandleAccept>, pos: int, h: WorkerHandleAccept)
    requires
        unique_idxs(hs),
        0 <= pos < hs.len(),
        h.idx == hs[pos].idx,
    ensures
        unique_idxs(hs.remove(pos).push(h)),
        hs.remove(pos).push(h).last() == h,
        forall|i: int|
            0 <= i < hs.remove(pos).len() ==> (#[trigger] hs.remove(pos)[i]).idx != h.idx,
{
    let hs1 = hs.remove(pos);
    hs.remove_ensures(pos);
    assert forall|i: int| 0 <= i < hs1.len() implies (#[trigger] hs1[i]).idx != h.idx by {
        if i < pos {
            assert(hs1[i] == hs[i]);
        } else {
            assert(hs1[i] == hs[i + 1]);
        }
    }
    let hs2 = hs1.push(h);
    assert forall|i: int, j: int|
        0 <= i < hs2.len() && 0 <= j < hs2.len() && i != j implies (#[trigger] hs2[i]).idx
        != (#[trigger] hs2[j]).idx by {
        if i < hs1.len() && j < hs1.len() {
            if i < pos {
                assert(hs2[i] == hs[i]);
            } else {
                assert(hs2[i] == hs[i + 1]);
            }
            if j < pos {
                assert(hs2[j] == hs[j]);
            } else {
                assert(hs2[j] == hs[j + 1]);
            }
        } else if i < hs1.len() {
            assert(hs2[j] == h);
            assert(hs1[i].idx != h.idx);
        } else {
            assert(hs2[i] == h);
            assert(hs1[j].idx != h.idx);
        }
    }
}

} // verus!
