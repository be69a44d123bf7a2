//! The limits on a connection before its peer is authorized. They bound each
//! exchange, not a whole connection.
use vstd::prelude::*;

verus! {

/// How many connections one accept loop serves at once.
pub const MAX_CONCURRENT_CONNECTIONS: usize = 64;

/// Within how many seconds the TLS handshake must be complete.
pub const HANDSHAKE_TIMEOUT_SECS: u64 = 10;

/// Within how many seconds the head of each request must be read.
pub const HEADER_READ_TIMEOUT_SECS: u64 = 15;

/// Within how many seconds the body of each request must be read.
pub const BODY_READ_TIMEOUT_SECS: u64 = 30;

} // verus!
