//! The session-side decisions: one live connection runs an independent
//! liveness heartbeat, and the only decision it ever takes on its own is
//! whether to probe the peer or to give the connection up. The caller owns
//! the socket and the clock; it reports how long ago the last sign of life
//! arrived and performs whichever action is returned. A timeout is treated
//! exactly like a client-initiated disconnect.

use vstd::prelude::*;

verus! {

/// How often the liveness probe fires.
pub const HEARTBEAT_INTERVAL_MS: u64 = 5000;

/// Silence longer than this costs the client its connection.
pub const CLIENT_TIMEOUT_MS: u64 = 10000;

#[derive(Clone, Copy, Debug, PartialEq, Eq, Structural)]
pub enum HeartbeatAction {
    /// Send a liveness probe and keep waiting.
    Ping,
    /// Notify the room of the departure and close the connection.
    Disconnect,
}

/// The heartbeat decision: disconnect exactly when the last sign of life
/// lies longer ago than the timeout, probe otherwise.
pub fn heartbeat_action(elapsed_ms: u64) -> (r: HeartbeatAction)
    ensures
        r == (if elapsed_ms > CLIENT_TIMEOUT_MS {
            HeartbeatAction::Disconnect
        } else {
            HeartbeatAction::Ping
        }),
{
    if elapsed_ms > CLIENT_TIMEOUT_MS {
        HeartbeatAction::Disconnect
    } else {
        HeartbeatAction::Ping
    }
}

} // verus!
