//! The error taxonomy of the protocol layer.
//!
//! Protocol errors reject the offending packet or connection and never
//! abort the process; channel errors are fatal to the thread that owns the
//! channel.

use vstd::prelude::*;
use crate::packet::PacketKind;

verus! {

/// Why a handshake was rejected.
#[derive(Clone, Copy, Debug, Eq, PartialEq, Structural)]
pub enum HandshakeError {
    /// The handshake carried the wrong shared secret.
    InvalidContent,
    /// The first packet was not a handshake at all.
    InvalidType,
    /// The handshake failed for a reason outside the protocol.
    Unknown,
}

/// Why a received buffer was rejected by the decoder.
#[derive(Clone, Copy, Debug, Eq, PartialEq, Structural)]
pub enum PacketError {
    /// A handshake-phase rejection.
    Handshake(HandshakeError),
    /// The packet kind is not admitted by the current protocol phase.
    Unexpected {
        /// The mask of kinds the phase admits.
        expected: u8,
        /// The kind that was found.
        found: PacketKind,
    },
    /// The buffer is not a well-formed packet of any kind.
    Malformed,
}

impl PacketError {
    /// The rejection of a kind that the current phase does not admit.
    pub fn unexpected(expected: u8, found: PacketKind) -> (r: PacketError)
        ensures
            r == (PacketError::Unexpected { expected, found }),
    {
        PacketError::Unexpected { expected, found }
    }
}

/// Why an internal relay channel failed.
#[derive(Clone, Copy, Debug, Eq, PartialEq, Structural)]
pub enum SyncError {
    /// A blocking send failed.
    Send,
    /// A non-blocking send failed on a full channel.
    TrySend,
    /// A blocking receive failed.
    Recv,
    /// A non-blocking receive failed on an empty channel.
    TryRecv,
    /// The other end of the channel is gone.
    Disconnected,
}

} // verus!
