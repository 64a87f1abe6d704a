use vstd::prelude::*;

verus! {

/// The immutable configuration a pool is built from.
///
/// All durations are whole milliseconds. `max_lifetime` and `idle_timeout`
/// are optional policies: `None` switches the corresponding eviction off.
#[derive(Clone, Copy, Debug, PartialEq, Eq, Structural)]
pub struct Options {
    /// Largest number of live connections (idle, checked out, or under
    /// construction) the pool may hold at any instant.
    pub max_size: u32,
    /// Budget, in milliseconds, for an acquire call and for the warm-up
    /// performed while the pool is built.
    pub connect_timeout: u64,
    /// Number of connections the pool keeps open at all times; the pool is
    /// warmed up to this size before `build` returns.
    pub min_size: u32,
    /// A connection older than this many milliseconds is closed rather than
    /// reused, whether that is noticed at release time or by the reaper.
    pub max_lifetime: Option<u64>,
    /// A connection idle for longer than this many milliseconds is closed by
    /// the next reaper sweep.
    pub idle_timeout: Option<u64>,
    /// When set, an idle connection is pinged before it is handed to a
    /// caller; a dead connection is discarded and the acquire retries.
    pub test_on_acquire: bool,
    /// When set, acquire calls are served strictly first-come-first-serve;
    /// otherwise a later caller may take a free connection ahead of an
    /// earlier waiter.
    pub fair: bool,
}

impl Options {
    /// A configuration the pool accepts: at least one connection is allowed,
    /// the floor does not exceed the ceiling, and the acquire budget is not
    /// zero.
    pub open spec fn valid(self) -> bool {
        &&& self.max_size >= 1
        &&& self.min_size <= self.max_size
        &&& self.connect_timeout > 0
    }
}

/// Factory for the configuration of a new connection pool.
pub struct Builder {
    pub options: Options,
}

impl Builder {
    /// Get a new builder with default options: at most 10 connections, none
    /// opened ahead of need, a 60 second connect budget, a 30 minute maximum
    /// lifetime, no idle timeout, health checks on acquire, and fair
    /// ordering.
    pub fn new() -> (r: Builder)
        ensures
            r.options.max_size == 10,
            r.options.min_size == 0,
            r.options.connect_timeout == 60_000,
            r.options.max_lifetime == Some(1_800_000u64),
            r.options.idle_timeout is None,
            r.options.test_on_acquire,
            r.options.fair,
            r.options.valid(),
    {
        Builder {
            options: Options {
                max_size: 10,
                min_size: 0,
                connect_timeout: 60_000,
                max_lifetime: Some(1_800_000),
                idle_timeout: None,
                test_on_acquire: true,
                fair: true,
            },
        }
    }

    /// Set the maximum number of connections that this pool should maintain.
    pub fn max_size(self, max_size: u32) -> (r: Builder)
        ensures
            r.options == (Options { max_size, ..self.options }),
    {
        let mut b = self;
        b.options.max_size = max_size;
        b
    }

    /// Set the amount of time, in milliseconds, to attempt connecting to the
    /// database before an acquire gives up.
    pub fn connect_timeout(self, connect_timeout: u64) -> (r: Builder)
        ensures
            r.options == (Options { connect_timeout, ..self.options }),
    {
        let mut b = self;
        b.options.connect_timeout = connect_timeout;
        b
    }

    /// Set the minimum number of connections to maintain at all times.
    pub fn min_size(self, min_size: u32) -> (r: Builder)
        ensures
            r.options == (Options { min_size, ..self.options }),
    {
        let mut b = self;
        b.options.min_size = min_size;
        b
    }

    /// Set the maximum lifetime, in milliseconds, of individual connections;
    /// `None` lets connections live until reaped for idleness or closed.
    pub fn max_lifetime(self, max_lifetime: Option<u64>) -> (r: Builder)
        ensures
            r.options == (Options { max_lifetime, ..self.options }),
    {
        let mut b = self;
        b.options.max_lifetime = max_lifetime;
        b
    }

    /// Set a maximum idle duration, in milliseconds, for individual
    /// connections; `None` switches idle-based eviction off.
    pub fn idle_timeout(self, idle_timeout: Option<u64>) -> (r: Builder)
        ensures
            r.options == (Options { idle_timeout, ..self.options }),
    {
        let mut b = self;
        b.options.idle_timeout = idle_timeout;
        b
    }

    /// If true, the health of a connection is verified by a ping before the
    /// connection is returned from an acquire.
    pub fn test_on_acquire(self, test: bool) -> (r: Builder)
        ensures
            r.options == (Options { test_on_acquire: test, ..self.options }),
    {
        let mut b = self;
        b.options.test_on_acquire = test;
        b
    }

    /// If true, acquire calls are fair and connections are issued in
    /// first-come-first-serve order; if false, later callers may steal idle
    /// connections ahead of callers that have been waiting.
    pub fn fair(self, fair: bool) -> (r: Builder)
        ensures
            r.options == (Options { fair, ..self.options }),
    {
        let mut b = self;
        b.options.fair = fair;
        b
    }
}

impl Default for Builder {
    /// The same defaults as `Builder::new`.
    fn default() -> (r: Builder)
        ensures
            r.options.max_size == 10,
            r.options.min_size == 0,
            r.options.connect_timeout == 60_000,
            r.options.max_lifetime == Some(1_800_000u64),
            r.options.idle_timeout is None,
            r.options.test_on_acquire,
            r.options.fair,
    {
        Builder::new()
    }
}

} // verus!
