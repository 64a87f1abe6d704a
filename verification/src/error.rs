use vstd::prelude::*;

verus! {

/// The terminal errors a pool operation can surface to a caller.
///
/// Transient per-connection failures (a failed ping, a failed open while
/// warming toward the minimum size) are handled inside the pool by discarding
/// the connection and retrying; only these terminal conditions propagate.
#[derive(Clone, Copy, Debug, PartialEq, Eq, Structural)]
pub enum PoolError {
    /// The configuration is inconsistent (for example a minimum size larger
    /// than the maximum size), rejected when the pool is built.
    Config,
    /// The connection string or options handed to the driver were malformed.
    ParseOptions,
    /// Opening a connection failed at the network or authentication layer.
    Connect,
    /// The acquire deadline elapsed before a connection became available.
    Timeout,
    /// The operation was attempted after the pool was closed.
    Closed,
}

} // verus!
