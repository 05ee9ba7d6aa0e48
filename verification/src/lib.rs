//! A local, on-disk mirror of remotely hosted text lists, each with its own
//! staleness policy: the decision of whether a cached copy is still valid,
//! the conditional-request protocol against the remote origin, and the
//! bookkeeping of server-provided freshness metadata. The network and file
//! I/O around these decisions is left to the caller.

pub mod dates;
pub mod freshness;
pub mod paths;
pub mod engine;
