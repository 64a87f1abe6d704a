//! A bounded connection pool core for database client drivers.
//!
//! The pool manages a set of live, reusable connections shared by many
//! callers: it caps the live total at a configured maximum, serves acquire
//! calls fairly or unfairly, health-checks and ages connections out, keeps a
//! configured minimum warm, and drains cleanly on close.
//!
//! The heart of the crate is [`pool::PoolState`]: the bookkeeping a running
//! pool mutates under its one critical section, written as verified
//! transitions from plain values to plain values. The driver performing the
//! actual network I/O (opening, pinging, closing connections) sits outside
//! and carries out the action each transition decides on.

pub mod error;
pub mod options;
pub mod pool;
pub mod statement;
