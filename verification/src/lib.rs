//! Network and state-synchronization core of a real-time multiplayer
//! environment: a binary wire protocol shared by client and server, a
//! sparse diff/patch model for entity updates, the server's client
//! registry and session lifecycle, and the decisions of the tick-paced
//! broadcast scheduler.

use vstd::prelude::*;

pub mod cfg;
pub mod client;
pub mod codec;
pub mod err;
pub mod fps;
pub mod keys;
pub mod obj;
pub mod packet;
pub mod patch;
pub mod registry;
pub mod render;
pub mod sched;
pub mod wire;

verus! {

/// Entity identity: a small signed integer, unique per connected client,
/// monotonically allocated by the server starting above zero. Negative and
/// reserved ids denote static, non-player entities seeded at startup.
pub type Id = i8;

/// Fixed capacity of every packet buffer, shared by client and server.
pub const PACKET_SIZE: usize = 1024;

/// Default control-plane (reliable channel) port.
pub const TCP_PORT: u16 = 54269;

/// Default data-plane (unreliable channel) port.
pub const UDP_PORT: u16 = 54277;

/// One second, in nanoseconds.
pub const SECOND: u64 = 1_000_000_000;

/// One millisecond, in nanoseconds.
pub const MILISECOND: u64 = 1_000_000;

/// Cadence of the movement-integration loop, in nanoseconds.
pub const GAME_SPEED: u64 = 3_000_000;

/// Minimum interval between liveness probes, in nanoseconds.
pub const PING_MINIMUM: u64 = 10_000_000;

} // verus!
