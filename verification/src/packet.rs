//! The packet variants of the wire protocol, their kind tags, and the
//! kind masks that each protocol phase passes to the decoder.

use vstd::prelude::*;
use crate::Id;
use crate::obj::{UptObj, UptObjOpt};

verus! {

/// The kind of a packet: one for each variant of [`Packet`].
#[derive(Clone, Copy, Debug, Eq, PartialEq, Structural)]
pub enum PacketKind {
    /// Client or server half of the handshake.
    Handshake,
    /// Liveness probe or its echo.
    Ping,
    /// End-of-bulk-transfer marker.
    Flush,
    /// High-frequency user input.
    Input,
    /// Full state of one entity.
    AddEntity,
    /// Departure of one entity.
    RemoveEntity,
    /// Sparse update of one entity.
    UpdateEntity,
}

/// Mask bit for [`PacketKind::Handshake`].
pub const MASK_HANDSHAKE: u8 = 0b0000_0001;
/// Mask bit for [`PacketKind::Ping`].
pub const MASK_PING: u8 = 0b0000_0010;
/// Mask bit for [`PacketKind::Flush`].
pub const MASK_FLUSH: u8 = 0b0000_0100;
/// Mask bit for [`PacketKind::Input`].
pub const MASK_INPUT: u8 = 0b0000_1000;
/// Mask bit for [`PacketKind::AddEntity`].
pub const MASK_ADD_ENTITY: u8 = 0b0001_0000;
/// Mask bit for [`PacketKind::RemoveEntity`].
pub const MASK_REMOVE_ENTITY: u8 = 0b0010_0000;
/// Mask bit for [`PacketKind::UpdateEntity`].
pub const MASK_UPDATE_ENTITY: u8 = 0b0100_0000;

/// The mask bit of one packet kind.
pub open spec fn spec_kind_mask(kind: PacketKind) -> u8 {
    match kind {
        PacketKind::Handshake => MASK_HANDSHAKE,
        PacketKind::Ping => MASK_PING,
        PacketKind::Flush => MASK_FLUSH,
        PacketKind::Input => MASK_INPUT,
        PacketKind::AddEntity => MASK_ADD_ENTITY,
        PacketKind::RemoveEntity => MASK_REMOVE_ENTITY,
        PacketKind::UpdateEntity => MASK_UPDATE_ENTITY,
    }
}

/// The mask bit of one packet kind.
pub fn kind_mask(kind: PacketKind) -> (r: u8)
    ensures
        r == spec_kind_mask(kind),
{
    match kind {
        PacketKind::Handshake => MASK_HANDSHAKE,
        PacketKind::Ping => MASK_PING,
        PacketKind::Flush => MASK_FLUSH,
        PacketKind::Input => MASK_INPUT,
        PacketKind::AddEntity => MASK_ADD_ENTITY,
        PacketKind::RemoveEntity => MASK_REMOVE_ENTITY,
        PacketKind::UpdateEntity => MASK_UPDATE_ENTITY,
    }
}

/// Whether a mask admits a packet kind.
pub open spec fn spec_mask_allows(mask: u8, kind: PacketKind) -> bool {
    mask & spec_kind_mask(kind) != 0
}

/// Whether a mask admits a packet kind.
pub fn mask_allows(mask: u8, kind: PacketKind) -> (r: bool)
    ensures
        r == spec_mask_allows(mask, kind),
{
    mask & kind_mask(kind) != 0
}

/// The two-phase handshake: the client presents the shared secret; the
/// server answers with the identity it assigned.
#[derive(Clone, Copy, Debug, Eq, PartialEq, Structural)]
pub struct Handshake {
    /// Shared secret that admits a client.
    pub secret: u64,
    /// Identity assigned by the server; absent in the client's half.
    pub id: Option<Id>,
}

/// A change of pressed keys: the affected key bits, and whether they were
/// pressed (`1`) or released (`0`).
#[derive(Clone, Copy, Debug, Eq, PartialEq, Structural)]
pub struct Keyboard {
    /// The key bits that changed.
    pub bits: u16,
    /// `1` when the keys went down, `0` when they came up.
    pub is_pressed: u8,
}

/// A mouse-wheel step: the vertical scroll amount as the bit pattern of a
/// 32-bit scalar.
#[derive(Clone, Copy, Debug, Eq, PartialEq, Structural)]
pub struct Wheel {
    /// Scroll amount (bit pattern of a 32-bit scalar).
    pub precise_y: u32,
}

/// A relative mouse motion, in pixels per axis.
#[derive(Clone, Copy, Debug, Eq, PartialEq, Structural)]
pub struct Motion {
    /// Horizontal motion.
    pub xrel: i32,
    /// Vertical motion.
    pub yrel: i32,
}

/// Departure of one entity.
#[derive(Clone, Copy, Debug, Eq, PartialEq, Structural)]
pub struct RemObj {
    /// The departed entity.
    pub id: Id,
}

/// The input variants carried by an [`PacketKind::Input`] packet.
#[derive(Clone, Copy, Debug, Eq, PartialEq, Structural)]
pub enum Input {
    /// A change of pressed keys.
    Keyboard(Keyboard),
    /// A mouse-wheel step.
    Wheel(Wheel),
    /// A relative mouse motion.
    Motion(Motion),
}

/// A packet of either transport: a tagged union, one tag byte on the wire
/// followed by a kind-specific body.
#[derive(Clone, Copy, Debug, Eq, PartialEq)]
pub enum Packet {
    /// Client or server half of the handshake.
    Handshake(Handshake),
    /// Liveness probe or its echo.
    Ping,
    /// End-of-bulk-transfer marker.
    Flush,
    /// High-frequency user input.
    Input(Input),
    /// Full state of one entity.
    AddEntity(UptObj),
    /// Departure of one entity.
    RemoveEntity(RemObj),
    /// Sparse update of one entity.
    UpdateEntity(UptObjOpt),
}

impl Packet {
    /// The kind of this packet.
    pub open spec fn spec_kind(self) -> PacketKind {
        match self {
            Packet::Handshake(..) => PacketKind::Handshake,
            Packet::Ping => PacketKind::Ping,
            Packet::Flush => PacketKind::Flush,
            Packet::Input(..) => PacketKind::Input,
            Packet::AddEntity(..) => PacketKind::AddEntity,
            Packet::RemoveEntity(..) => PacketKind::RemoveEntity,
            Packet::UpdateEntity(..) => PacketKind::UpdateEntity,
        }
    }

    /// The kind of this packet.
    pub fn kind(&self) -> (r: PacketKind)
        ensures
            r == self.spec_kind(),
    {
        match self {
            Packet::Handshake(..) => PacketKind::Handshake,
            Packet::Ping => PacketKind::Ping,
            Packet::Flush => PacketKind::Flush,
            Packet::Input(..) => PacketKind::Input,
            Packet::AddEntity(..) => PacketKind::AddEntity,
            Packet::RemoveEntity(..) => PacketKind::RemoveEntity,
            Packet::UpdateEntity(..) => PacketKind::UpdateEntity,
        }
    }
}

} // verus!
