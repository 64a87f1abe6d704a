use vstd::prelude::*;

use crate::error::PoolError;
use crate::options::Options;

verus! {

/// One live connection as the pool tracks it: an opaque identity handed out
/// by the driver, plus the two timestamps (milliseconds) the age policies
/// read. The wire-level connection object itself stays with the driver; the
/// pool only ever consults these plain values.
#[derive(Clone, Copy, Debug, PartialEq, Eq, Structural)]
pub struct ConnEntry {
    /// Identity of the underlying connection, chosen by the driver.
    pub id: u64,
    /// Instant the connection was opened; never changes afterwards.
    pub created_at: u64,
    /// Instant the connection last went back to the idle registry.
    pub last_used_at: u64,
}

/// One pending acquire: the caller's identity, when it joined the queue, and
/// the instant at which its acquire budget runs out. Each waiter is resolved
/// exactly once: with a connection, a permit to construct one, or a terminal
/// error.
#[derive(Clone, Copy, Debug, PartialEq, Eq, Structural)]
pub struct Waiter {
    /// Identity of the waiting caller, chosen by the caller.
    pub id: u64,
    /// Instant the waiter joined the queue; the fair order is by this value.
    pub enqueued_at: u64,
    /// Instant at which the waiter times out.
    pub deadline: u64,
}

/// Was the connection older than the configured maximum lifetime at `now`?
/// With no maximum lifetime configured, never.
pub open spec fn lifetime_expired(options: Options, entry: ConnEntry, now: u64) -> bool {
    match options.max_lifetime {
        Some(limit) => now > entry.created_at + limit,
        None => false,
    }
}

/// Had the connection sat idle longer than the configured idle timeout at
/// `now`? With no idle timeout configured, never.
pub open spec fn idle_expired(options: Options, entry: ConnEntry, now: u64) -> bool {
    match options.idle_timeout {
        Some(limit) => now > entry.last_used_at + limit,
        None => false,
    }
}

/// An idle connection the reaper must evict at `now`: too old, or idle too
/// long.
pub open spec fn expired(options: Options, entry: ConnEntry, now: u64) -> bool {
    lifetime_expired(options, entry, now) || idle_expired(options, entry, now)
}

/// Does the lifetime policy condemn this connection at `now`? Returns
/// exactly `lifetime_expired`.
pub fn lifetime_check(options: &Options, entry: &ConnEntry, now: u64) -> (b: bool)
    ensures
        b == lifetime_expired(*options, *entry, now),
{
    match options.max_lifetime {
        Some(limit) => now > entry.created_at && now - entry.created_at > limit,
        None => false,
    }
}

/// Does the idle policy condemn this connection at `now`? Returns exactly
/// `idle_expired`.
pub fn idle_check(options: &Options, entry: &ConnEntry, now: u64) -> (b: bool)
    ensures
        b == idle_expired(*options, *entry, now),
{
    match options.idle_timeout {
        Some(limit) => now > entry.last_used_at && now - entry.last_used_at > limit,
        None => false,
    }
}

/// Must the reaper evict this idle connection at `now`? Returns exactly
/// `expired`.
pub fn expired_check(options: &Options, entry: &ConnEntry, now: u64) -> (b: bool)
    ensures
        b == expired(*options, *entry, now),
{
    lifetime_check(options, entry, now) || idle_check(options, entry, now)
}

/// Has this waiter's acquire budget run out at `now`? The caller then
/// removes the waiter and reports `PoolError::Timeout`.
pub fn waiter_deadline_passed(waiter: &Waiter, now: u64) -> (b: bool)
    ensures
        b == (now > waiter.deadline),
{
    now > waiter.deadline
}

/// The idle connections a sweep at `now` keeps: those no policy condemns.
pub open spec fn keep_pred(options: Options, now: u64) -> spec_fn(ConnEntry) -> bool {
    |e: ConnEntry| !expired(options, e, now)
}

/// The idle connections a sweep at `now` evicts: those past their maximum
/// lifetime or idle timeout.
pub open spec fn evict_pred(options: Options, now: u64) -> spec_fn(ConnEntry) -> bool {
    |e: ConnEntry| expired(options, e, now)
}

/// What an acquire call must do next, decided by the pool under its lock.
///
/// The caller performs any I/O the decision asks for (opening or pinging a
/// connection) strictly outside the pool state and reports the outcome back
/// through the matching transition.
#[derive(Clone, Copy, Debug, PartialEq, Eq, Structural)]
pub enum AcquireStep {
    /// The pool is closed; fail at once with `PoolError::Closed`.
    Closed,
    /// An idle connection was withdrawn for this caller; it is now counted
    /// as checked out. Ping it first when `test_on_acquire` is set.
    Ready(ConnEntry),
    /// A construction permit was granted; open a new connection within the
    /// caller's remaining budget, then report the outcome.
    Construct,
    /// Nothing is available (or, in fair mode, earlier callers are still
    /// queued): the caller was appended to the waiter queue.
    Wait,
}

/// What the releasing caller must do after handing a connection back.
#[derive(Clone, Copy, Debug, PartialEq, Eq, Structural)]
pub enum ReleaseAction {
    /// Close the connection; its permit was freed. The woken waiter, if any,
    /// holds first right to open a replacement.
    Discard(Option<Waiter>),
    /// Hand the still-healthy connection directly to this waiter; it stays
    /// checked out.
    HandOff(Waiter),
    /// The connection went back to the idle registry.
    Idle,
}

/// The shared pool state: everything the acquire/release protocol and the
/// reaper mutate, guarded in a running system by one short critical section.
/// Opening, pinging and closing connections happen strictly outside it.
pub struct PoolState {
    /// The immutable configuration the pool was built from.
    pub options: Options,
    /// The idle registry, oldest return first: fair withdrawal takes the
    /// front, unfair withdrawal the back.
    pub idle: Vec<ConnEntry>,
    /// Connections currently lent out to callers.
    pub checked_out: u32,
    /// Construction permits currently held: connections being opened.
    pub constructing: u32,
    /// Pending acquires in arrival order; the front has waited longest.
    pub waiters: Vec<Waiter>,
    /// Monotonic: once set, the pool accepts no new acquires and holds no
    /// idle connections.
    pub closed: bool,
}

impl PoolState {
    /// Total of live connections: idle, checked out, and under construction.
    /// A permit is released only when a connection is closed, never when it
    /// merely goes idle.
    pub open spec fn live(self) -> int {
        self.idle@.len() + self.checked_out + self.constructing
    }

    /// The waiter queue is ordered by arrival time.
    pub open spec fn waiters_ordered(self) -> bool {
        forall|i: int, j: int|
            0 <= i <= j < self.waiters@.len()
                ==> self.waiters@[i].enqueued_at <= self.waiters@[j].enqueued_at
    }

    /// Well-formedness: every transition below preserves this.
    ///
    /// The live total never exceeds `max_size`; the waiter queue is in
    /// arrival order; a closed pool holds no idle connections and no
    /// waiters.
    pub open spec fn wf(self) -> bool {
        &&& self.options.valid()
        &&& self.live() <= self.options.max_size
        &&& self.waiters_ordered()
        &&& self.closed ==> self.idle@.len() == 0 && self.waiters@.len() == 0
    }

    /// `now` is not earlier than any queued waiter's arrival; callers pass
    /// instants from one monotonic clock, so this holds whenever they do.
    pub open spec fn time_ok(self, now: u64) -> bool {
        forall|i: int| 0 <= i < self.waiters@.len() ==> self.waiters@[i].enqueued_at <= now
    }

    /// Build a pool from a validated configuration and the connections the
    /// warm-up opened, one per unit of `min_size`. The caller opens exactly
    /// `min_size` connections (within `connect_timeout` overall) before
    /// calling; a failed warm-up never reaches this point.
    ///
    /// Returns `Err(PoolError::Config)` exactly when the configuration is
    /// invalid, in which case the opened connections are handed back for
    /// closing. On success the warm connections form the idle registry, so
    /// the pool starts with `min_size` live connections.
    pub fn build(options: Options, warm: Vec<ConnEntry>) -> (r: Result<PoolState, (PoolError, Vec<ConnEntry>)>)
        requires
            warm@.len() == options.min_size,
        ensures
            match r {
                Ok(s) => {
                    &&& options.valid()
                    &&& s.wf()
                    &&& s.options == options
                    &&& s.idle@ == warm@
                    &&& s.checked_out == 0
                    &&& s.constructing == 0
                    &&& s.waiters@.len() == 0
                    &&& !s.closed
                    &&& s.idle@.len() + s.checked_out >= options.min_size
                },
                Err((e, back)) => {
                    &&& !options.valid()
                    &&& e == PoolError::Config
                    &&& back@ == warm@
                },
            },
    {
        if options.max_size >= 1 && options.min_size <= options.max_size && options.connect_timeout > 0 {
            Ok(PoolState {
                options,
                idle: warm,
                checked_out: 0,
                constructing: 0,
                waiters: Vec::new(),
                closed: false,
            })
        } else {
            Err((PoolError::Config, warm))
        }
    }

    /// One acquire attempt under the lock, at instant `now` with the
    /// caller's deadline. In order: a closed pool fails at once; in fair
    /// mode a non-empty waiter queue is never jumped, the caller joins it;
    /// an idle connection is withdrawn (oldest first in fair mode, newest
    /// first otherwise) and counted checked out; with room below `max_size`
    /// a construction permit is granted; otherwise the caller joins the
    /// waiter queue.
    pub fn acquire_start(&mut self, waiter_id: u64, now: u64, deadline: u64) -> (r: AcquireStep)
        requires
            old(self).wf(),
            old(self).time_ok(now),
        ensures
            final(self).wf(),
            final(self).options == old(self).options,
            final(self).closed == old(self).closed,
            match r {
                AcquireStep::Closed => old(self).closed && *final(self) == *old(self),
                AcquireStep::Ready(e) => {
                    &&& !old(self).closed
                    &&& old(self).idle@.len() > 0
                    &&& (old(self).options.fair ==> old(self).waiters@.len() == 0)
                    &&& (if old(self).options.fair {
                        e == old(self).idle@.first() && final(self).idle@ == old(self).idle@.drop_first()
                    } else {
                        e == old(self).idle@.last() && final(self).idle@ == old(self).idle@.drop_last()
                    })
                    &&& final(self).checked_out == old(self).checked_out + 1
                    &&& final(self).constructing == old(self).constructing
                    &&& final(self).waiters@ == old(self).waiters@
                },
                AcquireStep::Construct => {
                    &&& !old(self).closed
                    &&& (old(self).options.fair ==> old(self).waiters@.len() == 0)
                    &&& old(self).idle@.len() == 0
                    &&& old(self).live() < old(self).options.max_size
                    &&& final(self).constructing == old(self).constructing + 1
                    &&& final(self).idle@ == old(self).idle@
                    &&& final(self).checked_out == old(self).checked_out
                    &&& final(self).waiters@ == old(self).waiters@
                },
                AcquireStep::Wait => {
                    &&& !old(self).closed
                    &&& ((old(self).options.fair && old(self).waiters@.len() > 0)
                        || (old(self).idle@.len() == 0 && old(self).live() >= old(self).options.max_size))
                    &&& final(self).waiters@ == old(self).waiters@.push(
                        (Waiter { id: waiter_id, enqueued_at: now, deadline }),
                    )
                    &&& final(self).idle@ == old(self).idle@
                    &&& final(self).checked_out == old(self).checked_out
                    &&& final(self).constructing == old(self).constructing
                },
            },
    {
        if self.closed {
            return AcquireStep::Closed;
        }
        if self.options.fair && self.waiters.len() > 0 {
            self.enqueue(waiter_id, now, deadline);
            return AcquireStep::Wait;
        }
        if self.idle.len() > 0 {
            let e = if self.options.fair {
                self.idle.remove(0)
            } else {
                let last: usize = self.idle.len() - 1;
                self.idle.remove(last)
            };
            proof {
                if self.options.fair {
                    assert(self.idle@ =~= old(self).idle@.drop_first());
                } else {
                    assert(self.idle@ =~= old(self).idle@.drop_last());
                }
            }
            self.checked_out = self.checked_out + 1;
            return AcquireStep::Ready(e);
        }
        let live: u64 = self.idle.len() as u64 + self.checked_out as u64 + self.constructing as u64;
        if live < self.options.max_size as u64 {
            self.constructing = self.constructing + 1;
            return AcquireStep::Construct;
        }
        self.enqueue(waiter_id, now, deadline);
        AcquireStep::Wait
    }

    /// Append one waiter at `now`; arrival order is preserved because the
    /// clock is monotonic.
    fn enqueue(&mut self, waiter_id: u64, now: u64, deadline: u64)
        requires
            old(self).wf(),
            old(self).time_ok(now),
            !old(self).closed,
        ensures
            final(self).wf(),
            *final(self) == (PoolState {
                waiters: final(self).waiters,
                ..*old(self)
            }),
            final(self).waiters@ == old(self).waiters@.push(
                (Waiter { id: waiter_id, enqueued_at: now, deadline }),
            ),
    {
        self.waiters.push(Waiter { id: waiter_id, enqueued_at: now, deadline });
        proof {
            let w = self.waiters@;
            assert forall|i: int, j: int| 0 <= i <= j < w.len() implies w[i].enqueued_at
                <= w[j].enqueued_at by {
                if j < w.len() - 1 {
                    assert(old(self).waiters@[i].enqueued_at <= old(self).waiters@[j].enqueued_at);
                }
            }
        }
    }

    /// An open attempt succeeded and the connection goes straight to the
    /// caller that held the permit: the permit becomes a checked-out count.
    pub fn finish_construct_checkout(&mut self)
        requires
            old(self).wf(),
            old(self).constructing > 0,
        ensures
            final(self).wf(),
            *final(self) == (PoolState {
                checked_out: final(self).checked_out,
                constructing: final(self).constructing,
                ..*old(self)
            }),
            final(self).checked_out == old(self).checked_out + 1,
            final(self).constructing == old(self).constructing - 1,
    {
        self.constructing = self.constructing - 1;
        self.checked_out = self.checked_out + 1;
    }

    /// An open attempt failed (or was abandoned at the deadline): the permit
    /// goes back, nothing else changes. The caller retries within its
    /// budget, or reports `PoolError::Connect` or `PoolError::Timeout`.
    pub fn finish_construct_failure(&mut self)
        requires
            old(self).wf(),
            old(self).constructing > 0,
        ensures
            final(self).wf(),
            *final(self) == (PoolState {
                constructing: final(self).constructing,
                ..*old(self)
            }),
            final(self).constructing == old(self).constructing - 1,
    {
        self.constructing = self.constructing - 1;
    }

    /// A replenishment open (the reaper's path) succeeded. On a live pool
    /// the new connection joins the idle registry and `keep` is true; on a
    /// pool that closed while the open was in flight the permit is freed,
    /// `keep` is false, and the caller closes the connection instead.
    pub fn finish_construct_idle(&mut self, entry: ConnEntry) -> (keep: bool)
        requires
            old(self).wf(),
            old(self).constructing > 0,
        ensures
            final(self).wf(),
            keep == !old(self).closed,
            final(self).constructing == old(self).constructing - 1,
            *final(self) == (PoolState {
                idle: final(self).idle,
                constructing: final(self).constructing,
                ..*old(self)
            }),
            if keep {
                final(self).idle@ == old(self).idle@.push(entry)
            } else {
                final(self).idle@ == old(self).idle@
            },
    {
        self.constructing = self.constructing - 1;
        if self.closed {
            false
        } else {
            self.idle.push(entry);
            true
        }
    }

    /// Grant a construction permit when the pool is open and below
    /// `max_size`; used by a woken waiter and by the reaper's
    /// replenishment. Returns exactly whether the permit was granted.
    pub fn try_begin_construct(&mut self) -> (granted: bool)
        requires
            old(self).wf(),
        ensures
            final(self).wf(),
            granted == (!old(self).closed && old(self).live() < old(self).options.max_size),
            *final(self) == (PoolState {
                constructing: final(self).constructing,
                ..*old(self)
            }),
            final(self).constructing == if granted {
                old(self).constructing + 1
            } else {
                old(self).constructing as int
            },
    {
        if self.closed {
            return false;
        }
        let live: u64 = self.idle.len() as u64 + self.checked_out as u64 + self.constructing as u64;
        if live < self.options.max_size as u64 {
            self.constructing = self.constructing + 1;
            true
        } else {
            false
        }
    }

    /// Remove the front waiter; the queue stays in arrival order.
    fn pop_front_waiter(&mut self) -> (w: Waiter)
        requires
            old(self).wf(),
            old(self).waiters@.len() > 0,
        ensures
            final(self).wf(),
            w == old(self).waiters@.first(),
            *final(self) == (PoolState { waiters: final(self).waiters, ..*old(self) }),
            final(self).waiters@ == old(self).waiters@.drop_first(),
    {
        let w = self.waiters.remove(0);
        proof {
            assert(self.waiters@ =~= old(self).waiters@.drop_first());
            assert forall|i: int, j: int|
                0 <= i <= j < self.waiters@.len() implies self.waiters@[i].enqueued_at
                <= self.waiters@[j].enqueued_at by {
                assert(self.waiters@[i] == old(self).waiters@[i + 1]);
                assert(self.waiters@[j] == old(self).waiters@[j + 1]);
            }
        }
        w
    }

    /// A caller hands its connection back at instant `now`; never blocks.
    ///
    /// A connection returned to a closed pool, flagged broken by the caller,
    /// or past its maximum lifetime is discarded: its permit is freed and
    /// the front waiter, if any, is woken with first right to open a
    /// replacement. Otherwise the connection is still good: with waiters
    /// queued it is handed to the front waiter directly and stays checked
    /// out; with none its `last_used_at` is refreshed to `now` and it
    /// rejoins the idle registry.
    ///
    /// A failed health check during acquire comes through this same path
    /// with `error_flag` set, so a dead connection is never re-idled and the
    /// acquiring caller retries against the remaining deadline.
    pub fn release(&mut self, entry: ConnEntry, error_flag: bool, now: u64) -> (r: ReleaseAction)
        requires
            old(self).wf(),
            old(self).checked_out > 0,
        ensures
            final(self).wf(),
            final(self).options == old(self).options,
            final(self).closed == old(self).closed,
            final(self).constructing == old(self).constructing,
            match r {
                ReleaseAction::Discard(w) => {
                    &&& (old(self).closed || error_flag || lifetime_expired(
                        old(self).options,
                        entry,
                        now,
                    ))
                    &&& final(self).checked_out == old(self).checked_out - 1
                    &&& final(self).idle@ == old(self).idle@
                    &&& (match w {
                        Some(wt) => old(self).waiters@.len() > 0 && wt == old(
                            self,
                        ).waiters@.first() && final(self).waiters@ == old(
                            self,
                        ).waiters@.drop_first(),
                        None => old(self).waiters@.len() == 0 && final(self).waiters@ == old(
                            self,
                        ).waiters@,
                    })
                },
                ReleaseAction::HandOff(wt) => {
                    &&& !old(self).closed
                    &&& !error_flag
                    &&& !lifetime_expired(old(self).options, entry, now)
                    &&& old(self).waiters@.len() > 0
                    &&& wt == old(self).waiters@.first()
                    &&& final(self).waiters@ == old(self).waiters@.drop_first()
                    &&& final(self).checked_out == old(self).checked_out
                    &&& final(self).idle@ == old(self).idle@
                },
                ReleaseAction::Idle => {
                    &&& !old(self).closed
                    &&& !error_flag
                    &&& !lifetime_expired(old(self).options, entry, now)
                    &&& old(self).waiters@.len() == 0
                    &&& final(self).waiters@ == old(self).waiters@
                    &&& final(self).checked_out == old(self).checked_out - 1
                    &&& final(self).idle@ == old(self).idle@.push(
                        (ConnEntry { last_used_at: now, ..entry }),
                    )
                },
            },
    {
        let discard = self.closed || error_flag || lifetime_check(&self.options, &entry, now);
        if discard {
            self.checked_out = self.checked_out - 1;
            if self.waiters.len() > 0 {
                let wt = self.pop_front_waiter();
                ReleaseAction::Discard(Some(wt))
            } else {
                ReleaseAction::Discard(None)
            }
        } else if self.waiters.len() > 0 {
            let wt = self.pop_front_waiter();
            ReleaseAction::HandOff(wt)
        } else {
            self.checked_out = self.checked_out - 1;
            let mut refreshed = entry;
            refreshed.last_used_at = now;
            self.idle.push(refreshed);
            ReleaseAction::Idle
        }
    }

    /// Remove the first waiter carrying `waiter_id`, if any: the caller's
    /// deadline fired or its task was cancelled while suspended. The rest of
    /// the queue keeps its order, so no other caller loses its place.
    pub fn cancel_waiter(&mut self, waiter_id: u64) -> (r: Option<Waiter>)
        requires
            old(self).wf(),
        ensures
            final(self).wf(),
            *final(self) == (PoolState { waiters: final(self).waiters, ..*old(self) }),
            match r {
                Some(w) => exists|i: int|
                    {
                        &&& 0 <= i < old(self).waiters@.len()
                        &&& old(self).waiters@[i].id == waiter_id
                        &&& w == old(self).waiters@[i]
                        &&& final(self).waiters@ == old(self).waiters@.remove(i)
                        &&& (forall|j: int| 0 <= j < i ==> old(self).waiters@[j].id != waiter_id)
                    },
                None => final(self).waiters@ == old(self).waiters@ && (forall|i: int|
                    0 <= i < old(self).waiters@.len() ==> old(self).waiters@[i].id != waiter_id),
            },
    {
        let mut i: usize = 0;
        while i < self.waiters.len()
            invariant
                old(self).wf(),
                *self == *old(self),
                i <= self.waiters@.len(),
                forall|j: int| 0 <= j < i ==> self.waiters@[j].id != waiter_id,
            decreases self.waiters@.len() - i,
        {
            if self.waiters[i].id == waiter_id {
                let w = self.waiters.remove(i);
                proof {
                    let ghost gi = i as int;
                    let ghost ov = old(self).waiters@;
                    let ghost nv = self.waiters@;
                    assert forall|a: int, b: int|
                        0 <= a <= b < nv.len() implies nv[a].enqueued_at <= nv[b].enqueued_at by {
                        if a < gi {
                            assert(nv[a] == ov[a]);
                        } else {
                            assert(nv[a] == ov[a + 1]);
                        }
                        if b < gi {
                            assert(nv[b] == ov[b]);
                        } else {
                            assert(nv[b] == ov[b + 1]);
                        }
                    }
                    assert(0 <= gi < ov.len() && ov[gi].id == waiter_id && w == ov[gi] && nv
                        == ov.remove(gi) && (forall|j: int| 0 <= j < gi ==> ov[j].id != waiter_id));
                }
                return Some(w);
            }
            i = i + 1;
        }
        None
    }

    /// Wake the front waiter with an idle connection, when there is one of
    /// each: the waiter leaves the queue, the connection leaves the idle
    /// registry (oldest first in fair mode, newest first otherwise) and is
    /// counted checked out for the woken caller. Used when a replenished or
    /// returned connection reaches the idle registry while callers are
    /// still queued, so no waiter starves next to a free connection.
    pub fn wake_front_with_idle(&mut self) -> (r: Option<(Waiter, ConnEntry)>)
        requires
            old(self).wf(),
        ensures
            final(self).wf(),
            final(self).options == old(self).options,
            final(self).closed == old(self).closed,
            final(self).constructing == old(self).constructing,
            match r {
                Some((w, e)) => {
                    &&& old(self).waiters@.len() > 0
                    &&& old(self).idle@.len() > 0
                    &&& w == old(self).waiters@.first()
                    &&& final(self).waiters@ == old(self).waiters@.drop_first()
                    &&& (if old(self).options.fair {
                        e == old(self).idle@.first() && final(self).idle@ == old(
                            self,
                        ).idle@.drop_first()
                    } else {
                        e == old(self).idle@.last() && final(self).idle@ == old(
                            self,
                        ).idle@.drop_last()
                    })
                    &&& final(self).checked_out == old(self).checked_out + 1
                },
                None => {
                    &&& (old(self).waiters@.len() == 0 || old(self).idle@.len() == 0)
                    &&& *final(self) == *old(self)
                },
            },
    {
        if self.waiters.len() > 0 && self.idle.len() > 0 {
            let w = self.pop_front_waiter();
            let e = if self.options.fair {
                self.idle.remove(0)
            } else {
                let last: usize = self.idle.len() - 1;
                self.idle.remove(last)
            };
            proof {
                if self.options.fair {
                    assert(self.idle@ =~= old(self).idle@.drop_first());
                } else {
                    assert(self.idle@ =~= old(self).idle@.drop_last());
                }
            }
            self.checked_out = self.checked_out + 1;
            Some((w, e))
        } else {
            None
        }
    }

    /// One reaper sweep at instant `now`: every idle connection past its
    /// maximum lifetime or its idle timeout is removed and handed back for
    /// closing; the survivors keep their order. Checked-out connections are
    /// never touched — their age is re-examined when they are released.
    pub fn reap_sweep(&mut self, now: u64) -> (evicted: Vec<ConnEntry>)
        requires
            old(self).wf(),
        ensures
            final(self).wf(),
            *final(self) == (PoolState { idle: final(self).idle, ..*old(self) }),
            final(self).idle@ == old(self).idle@.filter(keep_pred(old(self).options, now)),
            evicted@ == old(self).idle@.filter(evict_pred(old(self).options, now)),
            forall|i: int|
                0 <= i < final(self).idle@.len() ==> !expired(
                    old(self).options,
                    final(self).idle@[i],
                    now,
                ),
            final(self).idle@.len() + evicted@.len() == old(self).idle@.len(),
    {
        let ghost keep = keep_pred(self.options, now);
        let ghost evict = evict_pred(self.options, now);
        let mut kept: Vec<ConnEntry> = Vec::new();
        let mut evicted: Vec<ConnEntry> = Vec::new();
        let n: usize = self.idle.len();
        let mut i: usize = 0;
        proof {
            reveal(Seq::filter);
            assert(self.idle@.subrange(0, 0).filter(keep) =~= Seq::<ConnEntry>::empty());
            assert(self.idle@.subrange(0, 0).filter(evict) =~= Seq::<ConnEntry>::empty());
        }
        while i < n
            invariant
                old(self).wf(),
                *self == *old(self),
                n == self.idle@.len(),
                i <= n,
                keep == keep_pred(old(self).options, now),
                evict == evict_pred(old(self).options, now),
                kept@ == self.idle@.subrange(0, i as int).filter(keep),
                evicted@ == self.idle@.subrange(0, i as int).filter(evict),
                kept@.len() + evicted@.len() == i,
                forall|k: int|
                    0 <= k < kept@.len() ==> !expired(old(self).options, kept@[k], now),
            decreases n - i,
        {
            let e = self.idle[i];
            proof {
                let pre = self.idle@.subrange(0, i as int);
                let post = self.idle@.subrange(0, i as int + 1);
                assert(post =~= pre.push(e));
                pre.lemma_filter_push(e, keep);
                pre.lemma_filter_push(e, evict);
            }
            if expired_check(&self.options, &e, now) {
                evicted.push(e);
            } else {
                kept.push(e);
            }
            i = i + 1;
        }
        proof {
            assert(self.idle@.subrange(0, n as int) =~= self.idle@);
        }
        self.idle = kept;
        evicted
    }

    /// How many replacement connections the reaper should open after a
    /// sweep: the shortfall below `min_size`, and none once the pool is
    /// closed. Each replacement goes through `try_begin_construct` and
    /// `finish_construct_idle`; a failed open is retried on the next sweep,
    /// never surfaced.
    pub fn replenish_deficit(&self) -> (n: u32)
        requires
            self.wf(),
        ensures
            n == if !self.closed && self.live() < self.options.min_size {
                self.options.min_size - self.live()
            } else {
                0
            },
    {
        if self.closed {
            return 0;
        }
        let live: u64 = self.idle.len() as u64 + self.checked_out as u64 + self.constructing as u64;
        if live < self.options.min_size as u64 {
            (self.options.min_size as u64 - live) as u32
        } else {
            0
        }
    }

    /// Close the pool. Idempotent and monotonic: the closed flag is set and
    /// never cleared. Every idle connection and every queued waiter is
    /// drained and handed back — the caller closes the connections and
    /// fails each waiter with `PoolError::Closed`. Checked-out connections
    /// are untouched; `release` sees the flag and discards them as they
    /// come back.
    pub fn close(&mut self) -> (r: (Vec<ConnEntry>, Vec<Waiter>))
        requires
            old(self).wf(),
        ensures
            final(self).wf(),
            final(self).closed,
            final(self).idle@.len() == 0,
            final(self).waiters@.len() == 0,
            final(self).checked_out == old(self).checked_out,
            final(self).constructing == old(self).constructing,
            final(self).options == old(self).options,
            r.0@ == old(self).idle@,
            r.1@ == old(self).waiters@,
    {
        self.closed = true;
        let mut drained_idle: Vec<ConnEntry> = Vec::new();
        core::mem::swap(&mut drained_idle, &mut self.idle);
        let mut drained_waiters: Vec<Waiter> = Vec::new();
        core::mem::swap(&mut drained_waiters, &mut self.waiters);
        (drained_idle, drained_waiters)
    }

    /// After `close`, a caller that must also wait for every lent-out
    /// connection to come home polls this between releases.
    pub fn is_drained(&self) -> (b: bool)
        ensures
            b == (self.checked_out == 0 && self.constructing == 0),
    {
        self.checked_out == 0 && self.constructing == 0
    }
}

/// Law: fairness. Against a fair pool whose one healthy connection each
/// caller holds until its release, the queued callers are served in exactly
/// their arrival order: the sequence of hand-offs equals the waiter queue as
/// it stood, first to last, and no waiter is left behind.
///
/// This performs every release in turn and returns the waiters in the order
/// they were served; the contract pins that order to the arrival order.
pub fn resolve_queue_in_arrival_order(s: &mut PoolState, entry: ConnEntry, now: u64) -> (served:
    Vec<Waiter>)
    requires
        old(s).wf(),
        old(s).options.fair,
        !old(s).closed,
        old(s).checked_out > 0,
        !lifetime_expired(old(s).options, entry, now),
    ensures
        final(s).wf(),
        served@ == old(s).waiters@,
        final(s).waiters@.len() == 0,
        final(s).checked_out == old(s).checked_out,
        final(s).idle@ == old(s).idle@,
        final(s).constructing == old(s).constructing,
{
    let ghost queue = s.waiters@;
    let ghost n = queue.len() as int;
    let mut served: Vec<Waiter> = Vec::new();
    proof {
        assert(queue.subrange(0, 0) =~= served@);
        assert(queue.subrange(0, n) =~= queue);
    }
    while s.waiters.len() > 0
        invariant
            s.wf(),
            s.options == old(s).options,
            s.options.fair,
            !s.closed,
            s.checked_out == old(s).checked_out,
            s.checked_out > 0,
            s.idle@ == old(s).idle@,
            s.constructing == old(s).constructing,
            !lifetime_expired(s.options, entry, now),
            n == queue.len(),
            served@.len() <= n,
            served@ == queue.subrange(0, served@.len() as int),
            s.waiters@ == queue.subrange(served@.len() as int, n),
        decreases s.waiters@.len(),
    {
        let ghost k = served@.len() as int;
        proof {
            assert(s.waiters@.len() == n - k);
            assert(0 <= k < n);
        }
        let action = s.release(entry, false, now);
        match action {
            ReleaseAction::HandOff(w) => {
                served.push(w);
                proof {
                    assert(queue.subrange(k, n).drop_first() =~= queue.subrange(k + 1, n));
                    assert(queue.subrange(0, k).push(queue[k]) =~= queue.subrange(0, k + 1));
                }
                // the hand-off keeps the connection checked out for the
                // served waiter, who holds it until the next turn of the
                // loop releases it again
            },
            _ => {
                proof {
                    // with waiters queued and a healthy connection, release
                    // always hands off to the front waiter
                    assert(false);
                }
            },
        }
    }
    proof {
        assert(served@ =~= queue);
    }
    served
}

/// Law: at every well-formed instant the live total — idle plus checked
/// out plus under construction — is bounded by `max_size`. Every transition
/// above returns a well-formed state, so the bound holds at every reachable
/// instant.
pub proof fn lemma_live_bounded(s: PoolState)
    requires
        s.wf(),
    ensures
        s.idle@.len() + s.checked_out + s.constructing <= s.options.max_size,
{
}

/// Law: in a well-formed pool the front waiter arrived no later than any
/// other waiter. Since a released or freed connection always goes to the
/// front waiter, and in fair mode a newcomer never bypasses a non-empty
/// queue, waiters are resolved in arrival order.
pub proof fn lemma_front_waiter_longest(s: PoolState)
    requires
        s.wf(),
        s.waiters@.len() > 0,
    ensures
        forall|i: int|
            0 <= i < s.waiters@.len() ==> s.waiters@.first().enqueued_at
                <= s.waiters@[i].enqueued_at,
{
}

/// Law: a closed pool holds no idle connections and no pending waiters, so
/// nothing can be handed out after `close`.
pub proof fn lemma_closed_holds_nothing(s: PoolState)
    requires
        s.wf(),
        s.closed,
    ensures
        s.idle@.len() == 0,
        s.waiters@.len() == 0,
{
}

} // verus!
