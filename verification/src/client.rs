//! The client side of the protocol: the handshake phases, the
//! reconciliation decisions for control-plane and data-plane traffic, and
//! the local mirror of remote entities.
//!
//! A packet whose id equals the local player's id is authoritative
//! confirmation of the client's own predicted state; any other id names a
//! remote entity, created on a full state, patched on a sparse update -
//! present attributes only - and deleted on a departure.

use vstd::prelude::*;
use crate::Id;
use crate::codec::{decode, spec_decode};
use crate::err::{HandshakeError, PacketError};
use crate::keys::{KeyState, Keys};
use crate::obj::{CameraAttrOpt, UptObj, UptObjOpt};
use crate::packet::{
    MASK_ADD_ENTITY, MASK_FLUSH, MASK_HANDSHAKE, MASK_PING, MASK_REMOVE_ENTITY,
    MASK_UPDATE_ENTITY, Packet,
};
use crate::patch::{patch_obj, spec_patch_obj};

verus! {

/// The kinds a client accepts on the reliable channel once established.
pub const MASK_CONTROL: u8 = MASK_PING | MASK_REMOVE_ENTITY | MASK_ADD_ENTITY;

/// The kinds a client accepts on the unreliable channel.
pub const MASK_DATA: u8 = MASK_UPDATE_ENTITY;

/// The kinds a client accepts during the bulk-transfer phase.
pub const MASK_BULK: u8 = MASK_ADD_ENTITY | MASK_FLUSH;

/// What the client does with one control-plane packet.
#[derive(Clone, Copy, Debug, Eq, PartialEq)]
pub enum ControlAction {
    /// Echo the liveness probe back to the server.
    EchoPing,
    /// Delete the remote entity with this id.
    Remove {
        /// The departed entity.
        id: Id,
    },
    /// Create a remote entity from its full state.
    AddRemote(UptObj),
    /// The state is the local player's own: apply it as authoritative
    /// confirmation of the predicted state.
    ConfirmLocal(UptObjOpt),
    /// Nothing to do for this packet.
    Ignore,
}

/// What the client does with one data-plane packet.
#[derive(Clone, Copy, Debug, Eq, PartialEq)]
pub enum DataAction {
    /// The update is the local player's own: apply it as authoritative
    /// confirmation of the predicted state.
    ConfirmLocal(UptObjOpt),
    /// Patch the remote entity with this update's present attributes.
    PatchRemote(UptObjOpt),
    /// Nothing to do for this packet.
    Ignore,
}

/// One step of the bulk-transfer phase.
#[derive(Clone, Copy, Debug, Eq, PartialEq)]
pub enum BulkStep {
    /// One more entity to mirror.
    Add(UptObj),
    /// The end-of-bulk-transfer marker: the phase is over.
    Done,
}

/// A full entity state promoted to a sparse update with every attribute
/// present, for applying one's own authoritative state wholesale.
pub open spec fn spec_promote(o: UptObj) -> UptObjOpt {
    UptObjOpt {
        id: o.id,
        kind: Some(o.kind),
        dim: Some(o.dim),
        color: Some(o.color),
        cam: CameraAttrOpt {
            fov: Some(o.cam.fov),
            speed: Some(o.cam.speed),
            yaw: Some(o.cam.yaw),
            pitch: Some(o.cam.pitch),
            eye: Some(o.cam.eye),
            target: Some(o.cam.target),
            up: Some(o.cam.up),
        },
        keys: o.keys,
    }
}

/// Promote a full entity state to a sparse update with every attribute
/// present.
pub fn promote(o: &UptObj) -> (r: UptObjOpt)
    ensures
        r == spec_promote(*o),
{
    UptObjOpt {
        id: o.id,
        kind: Some(o.kind),
        dim: Some(o.dim),
        color: Some(o.color),
        cam: CameraAttrOpt {
            fov: Some(o.cam.fov),
            speed: Some(o.cam.speed),
            yaw: Some(o.cam.yaw),
            pitch: Some(o.cam.pitch),
            eye: Some(o.cam.eye),
            target: Some(o.cam.target),
            up: Some(o.cam.up),
        },
        keys: o.keys,
    }
}

/// The reconciliation decision for one control-plane packet.
pub open spec fn spec_reconcile_control(local_id: Id, p: Packet) -> ControlAction {
    match p {
        Packet::Ping => ControlAction::EchoPing,
        Packet::RemoveEntity(r) => ControlAction::Remove { id: r.id },
        Packet::AddEntity(o) => if o.id == local_id {
            ControlAction::ConfirmLocal(spec_promote(o))
        } else {
            ControlAction::AddRemote(o)
        },
        _ => ControlAction::Ignore,
    }
}

/// Decide what to do with one control-plane packet: echo probes, delete
/// departed entities, create remote entities, and treat one's own id as
/// authoritative confirmation rather than a duplicate remote entity.
pub fn reconcile_control(local_id: Id, p: &Packet) -> (r: ControlAction)
    ensures
        r == spec_reconcile_control(local_id, *p),
{
    match p {
        Packet::Ping => ControlAction::EchoPing,
        Packet::RemoveEntity(rem) => ControlAction::Remove { id: rem.id },
        Packet::AddEntity(o) => {
            if o.id == local_id {
                ControlAction::ConfirmLocal(promote(o))
            } else {
                ControlAction::AddRemote(*o)
            }
        },
        _ => ControlAction::Ignore,
    }
}

/// The reconciliation decision for one data-plane packet.
pub open spec fn spec_reconcile_data(local_id: Id, p: Packet) -> DataAction {
    match p {
        Packet::UpdateEntity(o) => if o.id == local_id {
            DataAction::ConfirmLocal(o)
        } else {
            DataAction::PatchRemote(o)
        },
        _ => DataAction::Ignore,
    }
}

/// Decide what to do with one data-plane packet: one's own id confirms
/// the predicted state, any other patches its remote entity.
pub fn reconcile_data(local_id: Id, p: &Packet) -> (r: DataAction)
    ensures
        r == spec_reconcile_data(local_id, *p),
{
    match p {
        Packet::UpdateEntity(o) => {
            if o.id == local_id {
                DataAction::ConfirmLocal(*o)
            } else {
                DataAction::PatchRemote(*o)
            }
        },
        _ => DataAction::Ignore,
    }
}

/// What reading the server's handshake reply yields.
pub open spec fn spec_server_handshake_outcome(bytes: Seq<u8>) -> Result<Id, HandshakeError> {
    match spec_decode(bytes, MASK_HANDSHAKE) {
        Ok(p) => match p {
            Packet::Handshake(h) => match h.id {
                Some(id) => Ok(id),
                None => Err(HandshakeError::InvalidContent),
            },
            _ => Err(HandshakeError::InvalidType),
        },
        Err(e) => match e {
            PacketError::Unexpected { .. } => Err(HandshakeError::InvalidType),
            _ => Err(HandshakeError::Unknown),
        },
    }
}

/// Read the server's handshake reply: it must be a handshake carrying the
/// assigned identity; one without an identity is invalid content, any
/// other kind is an invalid type.
pub fn expect_server_handshake(buf: &Vec<u8>) -> (r: Result<Id, HandshakeError>)
    ensures
        r == spec_server_handshake_outcome(buf@),
{
    match decode(buf, MASK_HANDSHAKE) {
        Ok(p) => match p {
            Packet::Handshake(h) => match h.id {
                Some(id) => Ok(id),
                None => Err(HandshakeError::InvalidContent),
            },
            _ => Err(HandshakeError::InvalidType),
        },
        Err(e) => match e {
            PacketError::Unexpected { .. } => Err(HandshakeError::InvalidType),
            _ => Err(HandshakeError::Unknown),
        },
    }
}

/// What one bulk-transfer packet yields.
pub open spec fn spec_bulk_step(bytes: Seq<u8>) -> Result<BulkStep, PacketError> {
    match spec_decode(bytes, MASK_BULK) {
        Ok(p) => match p {
            Packet::AddEntity(o) => Ok(BulkStep::Add(o)),
            Packet::Flush => Ok(BulkStep::Done),
            _ => Err(PacketError::Malformed),
        },
        Err(e) => Err(e),
    }
}

/// Read one packet of the bulk-transfer phase: a full entity state to
/// mirror, or the end-of-bulk-transfer marker. Any other kind is a
/// protocol violation, reported, never silently ignored.
pub fn bulk_step(buf: &Vec<u8>) -> (r: Result<BulkStep, PacketError>)
    ensures
        r == spec_bulk_step(buf@),
{
    match decode(buf, MASK_BULK) {
        Ok(p) => match p {
            Packet::AddEntity(o) => Ok(BulkStep::Add(o)),
            Packet::Flush => Ok(BulkStep::Done),
            _ => Err(PacketError::Malformed),
        },
        Err(e) => Err(e),
    }
}

/// The client's division of pressed keys: the held (continuous) set that
/// drives movement as long as it is non-empty, and the once-per-press
/// set that fires on each change.
#[derive(Clone, Copy, Debug, Default, Eq, PartialEq, Structural)]
pub struct KeyTracker {
    /// The held movement keys.
    pub cont: Keys,
    /// The once-per-press keys currently down.
    pub norm: Keys,
}

/// What one keyboard change asks of the input machinery.
#[derive(Clone, Copy, Debug, Eq, PartialEq, Structural)]
pub enum KeyRouting {
    /// A held key was pressed while nothing was held: wake the loop that
    /// applies the held set every game step.
    Wake,
    /// A held key changed while the loop was already driven.
    Held,
    /// A once-per-press key changed: hand the whole once-per-press set
    /// to the event handler.
    Forward(Keys),
}

/// Fold one keyboard change into the tracker. A held key accumulates
/// into the continuous set, waking the movement loop exactly when the
/// set was empty before a press; any other key updates the
/// once-per-press set, which is forwarded whole.
pub fn track_key(t: &mut KeyTracker, key: Keys, pressed: bool, state: KeyState) -> (r: KeyRouting)
    ensures
        ({
            let is_cont = state is Player && (crate::keys::KEYS_CONTINUOUS & key.bits)
                == key.bits && (crate::keys::KEYS_NORMAL & key.bits) != key.bits;
            if is_cont {
                &&& final(t).norm == old(t).norm
                &&& if pressed {
                    &&& final(t).cont.bits == (old(t).cont.bits | key.bits)
                    &&& r == if old(t).cont.bits == 0 {
                        KeyRouting::Wake
                    } else {
                        KeyRouting::Held
                    }
                } else {
                    &&& final(t).cont.bits == (old(t).cont.bits & !key.bits)
                    &&& r == KeyRouting::Held
                }
            } else {
                &&& final(t).cont == old(t).cont
                &&& final(t).norm.bits == if pressed {
                    old(t).norm.bits | key.bits
                } else {
                    old(t).norm.bits & !key.bits
                }
                &&& r == KeyRouting::Forward(final(t).norm)
            }
        }),
{
    if key.is_continuous(state) {
        if pressed {
            let was_empty = t.cont.is_empty();
            t.cont.insert(key);
            if was_empty {
                KeyRouting::Wake
            } else {
                KeyRouting::Held
            }
        } else {
            t.cont.remove(key);
            KeyRouting::Held
        }
    } else {
        if pressed {
            t.norm.insert(key);
        } else {
            t.norm.remove(key);
        }
        KeyRouting::Forward(t.norm)
    }
}

/// The client's local mirror of remote entities: one state record per
/// live remote entity id.
#[derive(Clone, Debug, Eq, PartialEq)]
pub struct Mirror {
    /// One record per remote entity.
    pub entries: Vec<UptObj>,
}

impl Mirror {
    /// Well-formedness: every live entity id maps to exactly one record.
    pub open spec fn wf(self) -> bool {
        forall|i: int, j: int|
            0 <= i < j < self.entries@.len() ==> #[trigger] self.entries@[i].id
                != #[trigger] self.entries@[j].id
    }

    /// Whether some record has the given id.
    pub open spec fn spec_contains_id(self, id: Id) -> bool {
        exists|i: int| 0 <= i < self.entries@.len() && (#[trigger] self.entries@[i]).id == id
    }

    /// The index of the record with the given id.
    pub open spec fn spec_index_of_id(self, id: Id) -> int {
        choose|i: int| 0 <= i < self.entries@.len() && (#[trigger] self.entries@[i]).id == id
    }

    /// The empty mirror.
    pub fn new() -> (r: Mirror)
        ensures
            r.wf(),
            r.entries@.len() == 0,
    {
        Mirror { entries: Vec::new() }
    }

    /// The number of mirrored entities.
    pub fn len(&self) -> (r: usize)
        ensures
            r == self.entries@.len(),
    {
        self.entries.len()
    }

    /// Find the record with the given id.
    fn index_of_id(&self, id: Id) -> (r: Option<usize>)
        requires
            self.wf(),
        ensures
            match r {
                Some(i) => i < self.entries@.len() && self.entries@[i as int].id == id && i
                    == self.spec_index_of_id(id),
                None => !self.spec_contains_id(id),
            },
    {
        let n = self.entries.len();
        let mut i: usize = 0;
        while i < n
            invariant
                self.wf(),
                n == self.entries@.len(),
                i <= n,
                forall|j: int| 0 <= j < i ==> (#[trigger] self.entries@[j]).id != id,
            decreases n - i,
        {
            if self.entries[i].id == id {
                proof {
                    let k = self.spec_index_of_id(id);
                    assert(0 <= k < self.entries@.len() && self.entries@[k].id == id);
                    if k != i as int {
                        assert(self.entries@[i as int].id == self.entries@[k].id);
                        assert(false);
                    }
                }
                return Some(i);
            }
            i = i + 1;
        }
        None
    }

    /// The record with the given id, if the entity is mirrored.
    pub fn get(&self, id: Id) -> (r: Option<UptObj>)
        requires
            self.wf(),
        ensures
            match r {
                Some(o) => self.spec_contains_id(id) && o == self.entries@[self.spec_index_of_id(
                    id,
                )],
                None => !self.spec_contains_id(id),
            },
    {
        match self.index_of_id(id) {
            Some(i) => Some(self.entries[i]),
            None => None,
        }
    }

    /// Create the record for a full entity state; a record with the same
    /// id, should one exist, is replaced, keeping one record per id.
    pub fn add(&mut self, data: UptObj)
        requires
            old(self).wf(),
        ensures
            final(self).wf(),
            old(self).spec_contains_id(data.id) ==> final(self).entries@ == old(
                self,
            ).entries@.update(old(self).spec_index_of_id(data.id), data),
            !old(self).spec_contains_id(data.id) ==> final(self).entries@ == old(
                self,
            ).entries@.push(data),
    {
        match self.index_of_id(data.id) {
            Some(i) => {
                self.entries.set(i, data);
            },
            None => {
                self.entries.push(data);
            },
        }
    }

    /// Delete the record of a departed entity. Returns whether it was
    /// mirrored.
    pub fn remove(&mut self, id: Id) -> (found: bool)
        requires
            old(self).wf(),
        ensures
            final(self).wf(),
            found == old(self).spec_contains_id(id),
            found ==> final(self).entries@ == old(self).entries@.remove(
                old(self).spec_index_of_id(id),
            ) && !final(self).spec_contains_id(id),
            !found ==> *final(self) == *old(self),
    {
        match self.index_of_id(id) {
            Some(i) => {
                self.entries.remove(i);
                proof {
                    let old_entries = old(self).entries@;
                    let k = i as int;
                    assert forall|j: int|
                        0 <= j < self.entries@.len() implies (#[trigger] self.entries@[j]).id
                        != id by {
                        if j < k {
                            assert(self.entries@[j] == old_entries[j]);
                        } else {
                            assert(self.entries@[j] == old_entries[j + 1]);
                        }
                    }
                }
                true
            },
            None => false,
        }
    }

    /// Patch the record of a remote entity: present attributes overwrite,
    /// absent attributes stay untouched. Returns whether the entity was
    /// mirrored; an update for an unknown id changes nothing.
    pub fn apply_update(&mut self, p: &UptObjOpt) -> (found: bool)
        requires
            old(self).wf(),
        ensures
            final(self).wf(),
            found == old(self).spec_contains_id(p.id),
            found ==> ({
                let i = old(self).spec_index_of_id(p.id);
                final(self).entries@ == old(self).entries@.update(
                    i,
                    spec_patch_obj(old(self).entries@[i], *p),
                )
            }),
            !found ==> *final(self) == *old(self),
    {
        match self.index_of_id(p.id) {
            Some(i) => {
                let mut e = self.entries[i];
                patch_obj(&mut e, p);
                self.entries.set(i, e);
                true
            },
            None => false,
        }
    }

    /// Forget every remote entity, as on connection loss, before the
    /// reconnection handshake mirrors the world afresh.
    pub fn clear(&mut self)
        ensures
            final(self).wf(),
            final(self).entries@.len() == 0,
    {
        self.entries.clear();
    }
}

} // verus!
