//! The server's client registry: one entry per connected client, holding
//! its identity, its data-plane address, its live entity state and its
//! pending diff/patch record.
//!
//! The registry is the only shared, mutable server state. An entry is
//! created only by [`Registry::register_client`], after the whole
//! handshake has succeeded, and destroyed only by [`Registry::teardown`],
//! the single removal path. Identities are allocated monotonically,
//! starting above zero; negative and reserved ids stay free for static
//! entities.

use vstd::prelude::*;
use crate::Id;
use crate::codec::{decode, spec_decode};
use crate::err::{HandshakeError, PacketError};
use crate::keys::Keys;
use crate::obj::{CameraAttr, CameraAttrOpt, UptObj, UptObjOpt, Vec3w, Word};
use crate::packet::{
    Handshake, Input, Keyboard, MASK_HANDSHAKE, MASK_INPUT, Packet, PacketKind, RemObj,
};
use crate::patch::{AttrWrite, spec_write};

verus! {

/// A data-plane address: one IPv4 address and port, as plain values.
#[derive(Clone, Copy, Debug, Eq, Hash, PartialEq, Structural)]
pub struct Addr {
    /// The IPv4 address, as its four bytes in big-endian order.
    pub ip: u32,
    /// The port.
    pub port: u16,
}

/// One connected client: identity, data-plane address, live entity state,
/// and the pending diff/patch record for the next broadcast tick.
#[derive(Clone, Copy, Debug, Eq, PartialEq, Structural)]
pub struct ClientEntry {
    /// The identity the server assigned.
    pub id: Id,
    /// The source address of the client's datagrams.
    pub addr: Addr,
    /// The live entity state.
    pub state: UptObj,
    /// The pending diff/patch record.
    pub patch: UptObjOpt,
}

/// The client registry, with the monotonic identity counter.
#[derive(Clone, Debug, Eq, PartialEq)]
pub struct Registry {
    /// One entry per connected client.
    pub entries: Vec<ClientEntry>,
    /// The next identity to assign.
    pub next_id: Id,
}

/// What the server does with one inbound datagram, by its source address:
/// apply the input of a registered client, relay the first handshake of an
/// unregistered one to the control plane, or drop the datagram.
#[derive(Clone, Copy, Debug, Eq, PartialEq, Structural)]
pub enum IngestDecision {
    /// The address is registered and sent well-formed input: apply it.
    Apply(Input),
    /// The address is unregistered and sent a handshake: relay the
    /// address to the control-plane correlator.
    RelayHandshake,
    /// Anything else: drop the datagram with the protocol error, never
    /// fatally.
    Drop(PacketError),
}

/// What checking the first packet of a connection against the shared
/// secret yields.
pub open spec fn spec_handshake_outcome(bytes: Seq<u8>, secret: u64) -> Result<
    (),
    HandshakeError,
> {
    match spec_decode(bytes, MASK_HANDSHAKE) {
        Ok(p) => match p {
            Packet::Handshake(h) => if h.secret == secret {
                Ok(())
            } else {
                Err(HandshakeError::InvalidContent)
            },
            _ => Err(HandshakeError::InvalidType),
        },
        Err(e) => match e {
            PacketError::Unexpected { .. } => Err(HandshakeError::InvalidType),
            _ => Err(HandshakeError::Unknown),
        },
    }
}

/// The pending patches of the touched entries, in entry order.
pub open spec fn spec_touched_patches(entries: Seq<ClientEntry>) -> Seq<UptObjOpt>
    decreases entries.len(),
{
    if entries.len() == 0 {
        Seq::empty()
    } else {
        let prefix = spec_touched_patches(entries.drop_last());
        if entries.last().patch.spec_is_modified() {
            prefix.push(entries.last().patch)
        } else {
            prefix
        }
    }
}

/// The handshake law: a handshake packet is accepted exactly when it
/// presents the shared secret; one with any other secret is rejected as
/// invalid content. Together with [`Registry::handle_handshake`], whose
/// rejections leave the registry untouched, a connection with the wrong
/// secret produces no registry entry.
pub proof fn lemma_secret_decides_handshake(h: Handshake, secret: u64)
    ensures
        h.secret == secret ==> spec_handshake_outcome(
            crate::codec::spec_encode(Packet::Handshake(h)),
            secret,
        ) == Ok::<(), HandshakeError>(()),
        h.secret != secret ==> spec_handshake_outcome(
            crate::codec::spec_encode(Packet::Handshake(h)),
            secret,
        ) == Err::<(), HandshakeError>(HandshakeError::InvalidContent),
{
    assert((0b0000_0001u8 & 0b0000_0001u8) != 0) by (bit_vector);
    assert(crate::packet::spec_mask_allows(MASK_HANDSHAKE, PacketKind::Handshake));
    crate::codec::lemma_decode_encode(Packet::Handshake(h), MASK_HANDSHAKE);
}

/// The departure law: once the single removal path has torn a client
/// down, its id is gone, and a departure broadcast over the remaining
/// registry reaches every remaining client exactly once - the targets
/// are the remaining ids, each unique - and never the departed client.
pub proof fn lemma_departure_broadcast_exact(reg: Registry, departed: Id)
    requires
        reg.wf(),
        !reg.spec_contains_id(departed),
    ensures
        forall|i: int, j: int|
            0 <= i < j < reg.entries@.len() ==> #[trigger] reg.entries@[i].id
                != #[trigger] reg.entries@[j].id,
        forall|i: int| 0 <= i < reg.entries@.len() ==> (#[trigger] reg.entries@[i]).id != departed,
{
}

/// The bulk-transfer law: the joining client is registered only after its
/// whole handshake has succeeded, so while its bulk transfer is assembled
/// the registry holds no entry with its id, and the transfer carries one
/// entity per previously connected client - never one for the joiner.
pub proof fn lemma_bulk_transfer_excludes_joiner(reg: Registry, joining: Id)
    requires
        reg.wf(),
        !reg.spec_contains_id(joining),
    ensures
        forall|i: int|
            0 <= i < reg.entries@.len() ==> (#[trigger] reg.entries@[i]).state.id != joining,
{
}

/// A touched entry's patch is among the drained patches.
pub proof fn lemma_touched_patch_is_drained(entries: Seq<ClientEntry>, i: int)
    requires
        0 <= i < entries.len(),
        entries[i].patch.spec_is_modified(),
    ensures
        spec_touched_patches(entries).contains(entries[i].patch),
    decreases entries.len(),
{
    if i == entries.len() - 1 {
        let drained = spec_touched_patches(entries);
        assert(drained.last() == entries[i].patch);
    } else {
        lemma_touched_patch_is_drained(entries.drop_last(), i);
        let prefix = spec_touched_patches(entries.drop_last());
        let j = choose|j: int| 0 <= j < prefix.len() && prefix[j] == entries[i].patch;
        assert(spec_touched_patches(entries)[j] == entries[i].patch);
    }
}

impl Registry {
    /// Well-formedness: identities and addresses are unique, every state
    /// and patch carries its entry's identity, and every assigned
    /// identity lies strictly between zero and the counter.
    pub open spec fn wf(self) -> bool {
        &&& forall|i: int, j: int|
            0 <= i < j < self.entries@.len() ==> #[trigger] self.entries@[i].id
                != #[trigger] self.entries@[j].id
        &&& forall|i: int, j: int|
            0 <= i < j < self.entries@.len() ==> #[trigger] self.entries@[i].addr
                != #[trigger] self.entries@[j].addr
        &&& forall|i: int|
            0 <= i < self.entries@.len() ==> (#[trigger] self.entries@[i]).state.id
                == self.entries@[i].id && self.entries@[i].patch.id == self.entries@[i].id
        &&& 0 < self.next_id
        &&& forall|i: int|
            0 <= i < self.entries@.len() ==> 0 < (#[trigger] self.entries@[i]).id < self.next_id
    }

    /// Whether some entry has the given identity.
    pub open spec fn spec_contains_id(self, id: Id) -> bool {
        exists|i: int| 0 <= i < self.entries@.len() && (#[trigger] self.entries@[i]).id == id
    }

    /// Whether some entry has the given address.
    pub open spec fn spec_contains_addr(self, addr: Addr) -> bool {
        exists|i: int| 0 <= i < self.entries@.len() && (#[trigger] self.entries@[i]).addr == addr
    }

    /// The index of the entry with the given address.
    pub open spec fn spec_index_of_addr(self, addr: Addr) -> int {
        choose|i: int| 0 <= i < self.entries@.len() && (#[trigger] self.entries@[i]).addr == addr
    }

    /// Whether any entry's client is holding a key down.
    pub open spec fn spec_any_keys_held(self) -> bool {
        exists|i: int|
            0 <= i < self.entries@.len() && (#[trigger] self.entries@[i]).state.keys.bits != 0
    }

    /// Whether any entry has a pending (touched) patch.
    pub open spec fn spec_any_touched(self) -> bool {
        exists|i: int|
            0 <= i < self.entries@.len() && (#[trigger] self.entries@[i]).patch.spec_is_modified()
    }

    /// The empty registry; the first client will get identity one.
    pub fn new() -> (r: Registry)
        ensures
            r.wf(),
            r.entries@.len() == 0,
            r.next_id == 1,
    {
        Registry { entries: Vec::new(), next_id: 1 }
    }

    /// The number of connected clients.
    pub fn len(&self) -> (r: usize)
        ensures
            r == self.entries@.len(),
    {
        self.entries.len()
    }

    /// Find the entry with the given address.
    fn index_of_addr(&self, addr: Addr) -> (r: Option<usize>)
        requires
            self.wf(),
        ensures
            match r {
                Some(i) => i < self.entries@.len() && self.entries@[i as int].addr == addr && i
                    == self.spec_index_of_addr(addr),
                None => !self.spec_contains_addr(addr),
            },
    {
        let n = self.entries.len();
        let mut i: usize = 0;
        while i < n
            invariant
                self.wf(),
                n == self.entries@.len(),
                i <= n,
                forall|j: int| 0 <= j < i ==> (#[trigger] self.entries@[j]).addr != addr,
            decreases n - i,
        {
            if self.entries[i].addr == addr {
                proof {
                    let k = self.spec_index_of_addr(addr);
                    assert(0 <= k < self.entries@.len() && self.entries@[k].addr == addr);
                    if k != i as int {
                        assert(self.entries@[i as int].addr == self.entries@[k].addr);
                        assert(false);
                    }
                }
                return Some(i);
            }
            i = i + 1;
        }
        None
    }

    /// Whether the given identity is registered.
    pub fn contains_id(&self, id: Id) -> (r: bool)
        ensures
            r == self.spec_contains_id(id),
    {
        let n = self.entries.len();
        let mut i: usize = 0;
        while i < n
            invariant
                n == self.entries@.len(),
                i <= n,
                forall|j: int| 0 <= j < i ==> (#[trigger] self.entries@[j]).id != id,
            decreases n - i,
        {
            if self.entries[i].id == id {
                return true;
            }
            i = i + 1;
        }
        false
    }

    /// Whether the given address is registered.
    pub fn contains_addr(&self, addr: Addr) -> (r: bool)
        requires
            self.wf(),
        ensures
            r == self.spec_contains_addr(addr),
    {
        match self.index_of_addr(addr) {
            Some(_) => true,
            None => false,
        }
    }

    /// The first step of the reliable-channel state machine: read exactly
    /// one handshake carrying the shared secret, and on success assign
    /// the next identity and build the reply. No registry entry is
    /// created here, so a rejected connection leaves the registry
    /// unchanged and a successful one becomes visible only at
    /// [`Registry::register_client`].
    pub fn handle_handshake(&mut self, buf: &Vec<u8>, secret: u64) -> (r: Result<
        (Id, Packet),
        HandshakeError,
    >)
        requires
            old(self).wf(),
            old(self).next_id < i8::MAX,
        ensures
            final(self).wf(),
            final(self).entries@ == old(self).entries@,
            match spec_handshake_outcome(buf@, secret) {
                Ok(()) => r == Ok::<_, HandshakeError>(
                    (
                        old(self).next_id,
                        Packet::Handshake(Handshake { secret, id: Some(old(self).next_id) }),
                    ),
                ) && final(self).next_id == old(self).next_id + 1,
                Err(e) => r == Err::<(Id, Packet), _>(e) && *final(self) == *old(self),
            },
    {
        match decode(buf, MASK_HANDSHAKE) {
            Ok(p) => match p {
                Packet::Handshake(h) => {
                    if h.secret == secret {
                        let id = self.next_id;
                        self.next_id = self.next_id + 1;
                        Ok((id, Packet::Handshake(Handshake { secret, id: Some(id) })))
                    } else {
                        Err(HandshakeError::InvalidContent)
                    }
                },
                _ => Err(HandshakeError::InvalidType),
            },
            Err(e) => match e {
                PacketError::Unexpected { .. } => Err(HandshakeError::InvalidType),
                _ => Err(HandshakeError::Unknown),
            },
        }
    }

    /// The bulk-transfer phase of the handshake: one full entity state
    /// per currently registered client, terminated by the
    /// end-of-bulk-transfer marker. A client that has not been
    /// registered yet - such as the one joining - contributes nothing.
    pub fn bulk_transfer(&self) -> (r: Vec<Packet>)
        ensures
            r@.len() == self.entries@.len() + 1,
            forall|i: int|
                0 <= i < self.entries@.len() ==> r@[i] == Packet::AddEntity(
                    (#[trigger] self.entries@[i]).state,
                ),
            r@[self.entries@.len() as int] == Packet::Flush,
    {
        let n = self.entries.len();
        let mut r: Vec<Packet> = Vec::new();
        let mut i: usize = 0;
        while i < n
            invariant
                n == self.entries@.len(),
                i <= n,
                r@.len() == i,
                forall|j: int|
                    0 <= j < i ==> r@[j] == Packet::AddEntity((#[trigger] self.entries@[j]).state),
            decreases n - i,
        {
            r.push(Packet::AddEntity(self.entries[i].state));
            i = i + 1;
        }
        r.push(Packet::Flush);
        r
    }

    /// The atomic insert that ends a successful handshake: the client
    /// becomes visible to every other thread at once, with a fresh player
    /// state and an empty patch. Returns the state, to be broadcast as
    /// the join event.
    pub fn register_client(&mut self, id: Id, addr: Addr) -> (r: UptObj)
        requires
            old(self).wf(),
            0 < id < old(self).next_id,
            !old(self).spec_contains_id(id),
            !old(self).spec_contains_addr(addr),
        ensures
            final(self).wf(),
            r == UptObj::spec_new_player(id),
            final(self).entries@ == old(self).entries@.push(
                ClientEntry { id, addr, state: UptObj::spec_new_player(id), patch: UptObjOpt::spec_empty(id) },
            ),
            final(self).next_id == old(self).next_id,
            final(self).spec_contains_id(id),
            final(self).spec_contains_addr(addr),
    {
        let state = UptObj::new_player(id);
        let patch = UptObjOpt::empty(id);
        self.entries.push(ClientEntry { id, addr, state, patch });
        proof {
            let n = self.entries@.len() - 1;
            assert(self.entries@[n].id == id);
            assert(self.entries@[n].addr == addr);
        }
        state
    }

    /// The single removal path: tear a client down by its data-plane
    /// address, removing its entry, and hand back its identity with the
    /// departure packet to broadcast to every remaining client.
    pub fn teardown(&mut self, addr: Addr) -> (r: Option<(Id, Packet)>)
        requires
            old(self).wf(),
        ensures
            final(self).wf(),
            final(self).next_id == old(self).next_id,
            match r {
                Some(t) => old(self).spec_contains_addr(addr) && ({
                    let i = old(self).spec_index_of_addr(addr);
                    &&& t.0 == old(self).entries@[i].id
                    &&& t.1 == Packet::RemoveEntity(RemObj { id: t.0 })
                    &&& final(self).entries@ == old(self).entries@.remove(i)
                    &&& !final(self).spec_contains_id(t.0)
                    &&& !final(self).spec_contains_addr(addr)
                }),
                None => !old(self).spec_contains_addr(addr) && *final(self) == *old(self),
            },
    {
        match self.index_of_addr(addr) {
            Some(i) => {
                let id = self.entries[i].id;
                self.entries.remove(i);
                proof {
                    let old_entries = old(self).entries@;
                    let k = i as int;
                    assert forall|j: int|
                        0 <= j < self.entries@.len() implies (#[trigger] self.entries@[j]).id
                        != id by {
                        if j < k {
                            assert(self.entries@[j] == old_entries[j]);
                        } else {
                            assert(self.entries@[j] == old_entries[j + 1]);
                        }
                    }
                    assert forall|j: int|
                        0 <= j < self.entries@.len() implies (#[trigger] self.entries@[j]).addr
                        != addr by {
                        if j < k {
                            assert(self.entries@[j] == old_entries[j]);
                        } else {
                            assert(self.entries@[j] == old_entries[j + 1]);
                        }
                    }
                }
                Some((id, Packet::RemoveEntity(RemObj { id })))
            },
            None => None,
        }
    }

    /// The fan-out plan of one reliable-channel event: the same packet,
    /// addressed to every currently registered client, one send each.
    pub fn broadcast_plan(&self, pkt: &Packet) -> (r: Vec<(Id, Packet)>)
        ensures
            r@.len() == self.entries@.len(),
            forall|i: int|
                0 <= i < r@.len() ==> (#[trigger] r@[i]).0 == self.entries@[i].id && r@[i].1
                    == *pkt,
    {
        let n = self.entries.len();
        let mut r: Vec<(Id, Packet)> = Vec::new();
        let mut i: usize = 0;
        while i < n
            invariant
                n == self.entries@.len(),
                i <= n,
                r@.len() == i,
                forall|j: int|
                    0 <= j < i ==> (#[trigger] r@[j]).0 == self.entries@[j].id && r@[j].1 == *pkt,
            decreases n - i,
        {
            r.push((self.entries[i].id, *pkt));
            i = i + 1;
        }
        r
    }

    /// Demultiplex one inbound datagram by its source address: a
    /// registered address must send input, an unregistered one must send
    /// a handshake to be relayed; anything else is dropped, never fatal.
    pub fn route_datagram(&self, addr: Addr, buf: &Vec<u8>) -> (r: IngestDecision)
        requires
            self.wf(),
        ensures
            self.spec_contains_addr(addr) ==> r == (match spec_decode(buf@, MASK_INPUT) {
                Ok(p) => match p {
                    Packet::Input(i) => IngestDecision::Apply(i),
                    _ => IngestDecision::Drop(PacketError::Malformed),
                },
                Err(e) => IngestDecision::Drop(e),
            }),
            !self.spec_contains_addr(addr) ==> r == (match spec_decode(buf@, MASK_HANDSHAKE) {
                Ok(p) => match p {
                    Packet::Handshake(..) => IngestDecision::RelayHandshake,
                    _ => IngestDecision::Drop(PacketError::Malformed),
                },
                Err(e) => IngestDecision::Drop(e),
            }),
    {
        if self.contains_addr(addr) {
            match decode(buf, MASK_INPUT) {
                Ok(p) => match p {
                    Packet::Input(i) => IngestDecision::Apply(i),
                    _ => IngestDecision::Drop(PacketError::Malformed),
                },
                Err(e) => IngestDecision::Drop(e),
            }
        } else {
            match decode(buf, MASK_HANDSHAKE) {
                Ok(p) => match p {
                    Packet::Handshake(..) => IngestDecision::RelayHandshake,
                    _ => IngestDecision::Drop(PacketError::Malformed),
                },
                Err(e) => IngestDecision::Drop(e),
            }
        }
    }

    /// Apply a keyboard change to the registered client at the given
    /// address: pressed key bits accumulate into the held set, released
    /// ones leave it. Returns whether the movement loop must be woken,
    /// which is the case exactly when the client held nothing before a
    /// press.
    pub fn apply_keyboard(&mut self, addr: Addr, kb: Keyboard) -> (wake: bool)
        requires
            old(self).wf(),
            old(self).spec_contains_addr(addr),
        ensures
            final(self).wf(),
            final(self).next_id == old(self).next_id,
            ({
                let i = old(self).spec_index_of_addr(addr);
                let e = old(self).entries@[i];
                let newbits = if kb.is_pressed == 1 {
                    e.state.keys.bits | kb.bits
                } else {
                    e.state.keys.bits & !kb.bits
                };
                &&& final(self).entries@ == old(self).entries@.update(
                    i,
                    ClientEntry {
                        state: UptObj { keys: Keys { bits: newbits }, ..e.state },
                        ..e
                    },
                )
                &&& wake == (kb.is_pressed == 1 && e.state.keys.bits == 0)
            }),
    {
        let i = self.index_of_addr(addr).unwrap();
        let mut e = self.entries[i];
        let was_empty = e.state.keys.bits == 0;
        let wake: bool;
        if kb.is_pressed == 1 {
            e.state.keys.bits = e.state.keys.bits | kb.bits;
            wake = was_empty;
        } else {
            e.state.keys.bits = e.state.keys.bits & !kb.bits;
            wake = false;
        }
        self.entries.set(i, e);
        wake
    }

    /// Apply a mouse-wheel result to the registered client at the given
    /// address: the new field of view, already clamped by the camera
    /// mathematics around the library, becomes the live value and exactly
    /// the field-of-view attribute of the pending patch.
    pub fn apply_wheel(&mut self, addr: Addr, new_fov: Word)
        requires
            old(self).wf(),
            old(self).spec_contains_addr(addr),
        ensures
            final(self).wf(),
            final(self).next_id == old(self).next_id,
            ({
                let i = old(self).spec_index_of_addr(addr);
                let e = old(self).entries@[i];
                final(self).entries@ == old(self).entries@.update(
                    i,
                    ClientEntry {
                        state: UptObj { cam: CameraAttr { fov: new_fov, ..e.state.cam }, ..e.state },
                        patch: spec_write(e.patch, AttrWrite::Fov(new_fov)),
                        ..e
                    },
                )
            }),
    {
        let i = self.index_of_addr(addr).unwrap();
        let mut e = self.entries[i];
        e.state.cam.fov = new_fov;
        e.patch.cam.fov = Some(new_fov);
        self.entries.set(i, e);
    }

    /// Apply a mouse-motion result to the registered client at the given
    /// address: the new yaw, pitch and look target, already wrapped and
    /// clamped by the camera mathematics around the library, become the
    /// live values and exactly the yaw, pitch and target attributes of
    /// the pending patch.
    pub fn apply_motion(&mut self, addr: Addr, yaw: crate::obj::Axis, pitch: crate::obj::Axis, target: Vec3w)
        requires
            old(self).wf(),
            old(self).spec_contains_addr(addr),
        ensures
            final(self).wf(),
            final(self).next_id == old(self).next_id,
            ({
                let i = old(self).spec_index_of_addr(addr);
                let e = old(self).entries@[i];
                final(self).entries@ == old(self).entries@.update(
                    i,
                    ClientEntry {
                        state: UptObj {
                            cam: CameraAttr { yaw, pitch, target, ..e.state.cam },
                            ..e.state
                        },
                        patch: spec_write(
                            spec_write(
                                spec_write(e.patch, AttrWrite::Yaw(yaw)),
                                AttrWrite::Pitch(pitch),
                            ),
                            AttrWrite::Target(target),
                        ),
                        ..e
                    },
                )
            }),
    {
        let i = self.index_of_addr(addr).unwrap();
        let mut e = self.entries[i];
        e.state.cam.yaw = yaw;
        e.state.cam.pitch = pitch;
        e.state.cam.target = target;
        e.patch.cam.yaw = Some(yaw);
        e.patch.cam.pitch = Some(pitch);
        e.patch.cam.target = Some(target);
        self.entries.set(i, e);
    }

    /// Apply one movement-integration result to the registered client at
    /// the given address: the new position becomes the live value and
    /// exactly the position attribute of the pending patch.
    pub fn apply_movement(&mut self, addr: Addr, new_eye: Vec3w)
        requires
            old(self).wf(),
            old(self).spec_contains_addr(addr),
        ensures
            final(self).wf(),
            final(self).next_id == old(self).next_id,
            ({
                let i = old(self).spec_index_of_addr(addr);
                let e = old(self).entries@[i];
                final(self).entries@ == old(self).entries@.update(
                    i,
                    ClientEntry {
                        state: UptObj { cam: CameraAttr { eye: new_eye, ..e.state.cam }, ..e.state },
                        patch: spec_write(e.patch, AttrWrite::Eye(new_eye)),
                        ..e
                    },
                )
            }),
    {
        let i = self.index_of_addr(addr).unwrap();
        let mut e = self.entries[i];
        e.state.cam.eye = new_eye;
        e.patch.cam.eye = Some(new_eye);
        self.entries.set(i, e);
    }

    /// Whether no client is holding a key: the movement loop parks on
    /// this.
    pub fn is_idle(&self) -> (r: bool)
        ensures
            r == !self.spec_any_keys_held(),
    {
        let n = self.entries.len();
        let mut i: usize = 0;
        while i < n
            invariant
                n == self.entries@.len(),
                i <= n,
                forall|j: int| 0 <= j < i ==> (#[trigger] self.entries@[j]).state.keys.bits == 0,
            decreases n - i,
        {
            if self.entries[i].state.keys.bits != 0 {
                return false;
            }
            i = i + 1;
        }
        true
    }

    /// Whether any patch is pending: the broadcast loop parks when none
    /// is and no wake signal arrived.
    pub fn any_touched(&self) -> (r: bool)
        ensures
            r == self.spec_any_touched(),
    {
        let n = self.entries.len();
        let mut i: usize = 0;
        while i < n
            invariant
                n == self.entries@.len(),
                i <= n,
                forall|j: int|
                    0 <= j < i ==> !(#[trigger] self.entries@[j]).patch.spec_is_modified(),
            decreases n - i,
        {
            if self.entries[i].patch.is_modified() {
                return true;
            }
            i = i + 1;
        }
        false
    }

    /// One broadcast tick's drain: hand out every pending patch, in entry
    /// order, and clear each one's touched state. States, identities and
    /// addresses are untouched, and afterwards nothing is pending.
    pub fn drain_updates(&mut self) -> (r: Vec<UptObjOpt>)
        requires
            old(self).wf(),
        ensures
            final(self).wf(),
            final(self).next_id == old(self).next_id,
            r@ == spec_touched_patches(old(self).entries@),
            final(self).entries@.len() == old(self).entries@.len(),
            forall|i: int|
                0 <= i < old(self).entries@.len() ==> #[trigger] final(self).entries@[i] == (
                if old(self).entries@[i].patch.spec_is_modified() {
                    ClientEntry {
                        patch: UptObjOpt {
                            id: old(self).entries@[i].patch.id,
                            kind: None,
                            dim: None,
                            color: None,
                            cam: CameraAttrOpt::spec_empty(),
                            keys: old(self).entries@[i].patch.keys,
                        },
                        ..old(self).entries@[i]
                    }
                } else {
                    old(self).entries@[i]
                }),
            !final(self).spec_any_touched(),
    {
        let n = self.entries.len();
        let mut r: Vec<UptObjOpt> = Vec::new();
        let mut i: usize = 0;
        while i < n
            invariant
                n == self.entries@.len(),
                n == old(self).entries@.len(),
                i <= n,
                self.next_id == old(self).next_id,
                old(self).wf(),
                r@ == spec_touched_patches(old(self).entries@.subrange(0, i as int)),
                forall|j: int| i <= j < n ==> self.entries@[j] == old(self).entries@[j],
                forall|j: int|
                    0 <= j < i ==> #[trigger] self.entries@[j] == (
                    if old(self).entries@[j].patch.spec_is_modified() {
                        ClientEntry {
                            patch: UptObjOpt {
                                id: old(self).entries@[j].patch.id,
                                kind: None,
                                dim: None,
                                color: None,
                                cam: CameraAttrOpt::spec_empty(),
                                keys: old(self).entries@[j].patch.keys,
                            },
                            ..old(self).entries@[j]
                        }
                    } else {
                        old(self).entries@[j]
                    }),
            decreases n - i,
        {
            proof {
                assert(old(self).entries@.subrange(0, i as int + 1).drop_last() =~= old(
                    self,
                ).entries@.subrange(0, i as int));
                assert(old(self).entries@.subrange(0, i as int + 1).last() == old(
                    self,
                ).entries@[i as int]);
            }
            let mut e = self.entries[i];
            if e.patch.is_modified() {
                let taken = e.patch.take();
                self.entries.set(i, e);
                r.push(taken);
            }
            i = i + 1;
        }
        proof {
            assert(old(self).entries@.subrange(0, n as int) =~= old(self).entries@);
            assert forall|j: int|
                0 <= j < self.entries@.len() implies !(#[trigger] self.entries@[j]).patch.spec_is_modified() by {
            }
            assert forall|j: int, k: int|
                0 <= j < k < self.entries@.len() implies #[trigger] self.entries@[j].id
                != #[trigger] self.entries@[k].id by {
                assert(self.entries@[j].id == old(self).entries@[j].id);
                assert(self.entries@[k].id == old(self).entries@[k].id);
            }
            assert forall|j: int, k: int|
                0 <= j < k < self.entries@.len() implies #[trigger] self.entries@[j].addr
                != #[trigger] self.entries@[k].addr by {
                assert(self.entries@[j].addr == old(self).entries@[j].addr);
                assert(self.entries@[k].addr == old(self).entries@[k].addr);
            }
        }
        r
    }
}

} // verus!
