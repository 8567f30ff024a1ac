//! Writes into a pending diff/patch record, and their coalescing law:
//! between two broadcast ticks a patch holds at most one outstanding value
//! per attribute, and a new write overwrites the pending value, so the
//! patch always reflects the last write applied. Also the application of a
//! sparse update to full state: present attributes overwrite, absent
//! attributes stay untouched.

use vstd::prelude::*;
use crate::obj::{Axis, CameraAttr, CameraAttrOpt, Color, ObjType, UptObj, UptObjOpt, Vec3w, Word};

verus! {

/// One write of a whole attribute value into a pending patch.
#[derive(Clone, Copy, Debug, Eq, PartialEq, Structural)]
pub enum AttrWrite {
    /// Set the pending entity kind.
    Kind(ObjType),
    /// Set the pending extent.
    Dim(Vec3w),
    /// Set the pending color.
    Color(Color),
    /// Set the pending field of view.
    Fov(Word),
    /// Set the pending movement speed.
    Speed(Word),
    /// Set the pending yaw.
    Yaw(Axis),
    /// Set the pending pitch.
    Pitch(Axis),
    /// Set the pending position.
    Eye(Vec3w),
    /// Set the pending look target.
    Target(Vec3w),
    /// Set the pending up vector.
    Up(Vec3w),
}

/// The name of one patch attribute.
#[derive(Clone, Copy, Debug, Eq, PartialEq, Structural)]
pub enum Attr {
    /// The entity kind.
    Kind,
    /// The extent.
    Dim,
    /// The color.
    Color,
    /// The field of view.
    Fov,
    /// The movement speed.
    Speed,
    /// The yaw.
    Yaw,
    /// The pitch.
    Pitch,
    /// The position.
    Eye,
    /// The look target.
    Target,
    /// The up vector.
    Up,
}

/// The attribute a write touches.
pub open spec fn spec_attr_of_write(w: AttrWrite) -> Attr {
    match w {
        AttrWrite::Kind(..) => Attr::Kind,
        AttrWrite::Dim(..) => Attr::Dim,
        AttrWrite::Color(..) => Attr::Color,
        AttrWrite::Fov(..) => Attr::Fov,
        AttrWrite::Speed(..) => Attr::Speed,
        AttrWrite::Yaw(..) => Attr::Yaw,
        AttrWrite::Pitch(..) => Attr::Pitch,
        AttrWrite::Eye(..) => Attr::Eye,
        AttrWrite::Target(..) => Attr::Target,
        AttrWrite::Up(..) => Attr::Up,
    }
}

/// The pending value of one attribute of a patch, expressed as the write
/// that would have put it there; `None` while the attribute is absent.
pub open spec fn spec_pending(p: UptObjOpt, a: Attr) -> Option<AttrWrite> {
    match a {
        Attr::Kind => match p.kind {
            Some(v) => Some(AttrWrite::Kind(v)),
            None => None,
        },
        Attr::Dim => match p.dim {
            Some(v) => Some(AttrWrite::Dim(v)),
            None => None,
        },
        Attr::Color => match p.color {
            Some(v) => Some(AttrWrite::Color(v)),
            None => None,
        },
        Attr::Fov => match p.cam.fov {
            Some(v) => Some(AttrWrite::Fov(v)),
            None => None,
        },
        Attr::Speed => match p.cam.speed {
            Some(v) => Some(AttrWrite::Speed(v)),
            None => None,
        },
        Attr::Yaw => match p.cam.yaw {
            Some(v) => Some(AttrWrite::Yaw(v)),
            None => None,
        },
        Attr::Pitch => match p.cam.pitch {
            Some(v) => Some(AttrWrite::Pitch(v)),
            None => None,
        },
        Attr::Eye => match p.cam.eye {
            Some(v) => Some(AttrWrite::Eye(v)),
            None => None,
        },
        Attr::Target => match p.cam.target {
            Some(v) => Some(AttrWrite::Target(v)),
            None => None,
        },
        Attr::Up => match p.cam.up {
            Some(v) => Some(AttrWrite::Up(v)),
            None => None,
        },
    }
}

/// One write applied to a patch: the written attribute becomes present
/// with the new value, every other attribute keeps its pending state.
pub open spec fn spec_write(p: UptObjOpt, w: AttrWrite) -> UptObjOpt {
    match w {
        AttrWrite::Kind(v) => UptObjOpt { kind: Some(v), ..p },
        AttrWrite::Dim(v) => UptObjOpt { dim: Some(v), ..p },
        AttrWrite::Color(v) => UptObjOpt { color: Some(v), ..p },
        AttrWrite::Fov(v) => UptObjOpt { cam: CameraAttrOpt { fov: Some(v), ..p.cam }, ..p },
        AttrWrite::Speed(v) => UptObjOpt { cam: CameraAttrOpt { speed: Some(v), ..p.cam }, ..p },
        AttrWrite::Yaw(v) => UptObjOpt { cam: CameraAttrOpt { yaw: Some(v), ..p.cam }, ..p },
        AttrWrite::Pitch(v) => UptObjOpt { cam: CameraAttrOpt { pitch: Some(v), ..p.cam }, ..p },
        AttrWrite::Eye(v) => UptObjOpt { cam: CameraAttrOpt { eye: Some(v), ..p.cam }, ..p },
        AttrWrite::Target(v) => UptObjOpt { cam: CameraAttrOpt { target: Some(v), ..p.cam }, ..p },
        AttrWrite::Up(v) => UptObjOpt { cam: CameraAttrOpt { up: Some(v), ..p.cam }, ..p },
    }
}

/// A sequence of writes applied in order.
pub open spec fn spec_write_all(p: UptObjOpt, ws: Seq<AttrWrite>) -> UptObjOpt
    decreases ws.len(),
{
    if ws.len() == 0 {
        p
    } else {
        spec_write(spec_write_all(p, ws.drop_last()), ws.last())
    }
}

/// The last write to a given attribute in a sequence of writes, if any.
pub open spec fn spec_last_write(ws: Seq<AttrWrite>, a: Attr) -> Option<AttrWrite>
    decreases ws.len(),
{
    if ws.len() == 0 {
        None
    } else if spec_attr_of_write(ws.last()) == a {
        Some(ws.last())
    } else {
        spec_last_write(ws.drop_last(), a)
    }
}

/// Apply one whole-attribute write to a pending patch.
pub fn write_attr(p: &mut UptObjOpt, w: AttrWrite)
    ensures
        *final(p) == spec_write(*old(p), w),
{
    match w {
        AttrWrite::Kind(v) => p.kind = Some(v),
        AttrWrite::Dim(v) => p.dim = Some(v),
        AttrWrite::Color(v) => p.color = Some(v),
        AttrWrite::Fov(v) => p.cam.fov = Some(v),
        AttrWrite::Speed(v) => p.cam.speed = Some(v),
        AttrWrite::Yaw(v) => p.cam.yaw = Some(v),
        AttrWrite::Pitch(v) => p.cam.pitch = Some(v),
        AttrWrite::Eye(v) => p.cam.eye = Some(v),
        AttrWrite::Target(v) => p.cam.target = Some(v),
        AttrWrite::Up(v) => p.cam.up = Some(v),
    }
}

/// A write sets exactly its own attribute: afterwards that attribute is
/// pending with the written value, and every other attribute, the
/// identity and the carried keys are untouched. No value is ever torn
/// across attributes.
pub proof fn lemma_write_sets_exactly(p: UptObjOpt, w: AttrWrite)
    ensures
        spec_pending(spec_write(p, w), spec_attr_of_write(w)) == Some(w),
        forall|a: Attr|
            a != spec_attr_of_write(w) ==> spec_pending(spec_write(p, w), a) == spec_pending(p, a),
        spec_write(p, w).id == p.id,
        spec_write(p, w).keys == p.keys,
{
}

/// The coalescing law: after any sequence of writes between two ticks,
/// each attribute of the patch holds exactly the value of the last write
/// to that attribute, or its prior pending state if the sequence never
/// wrote it. The broadcast therefore reflects the last write applied
/// before the tick boundary, with no queueing and no torn value.
pub proof fn lemma_coalesce_last_write_wins(p: UptObjOpt, ws: Seq<AttrWrite>, a: Attr)
    ensures
        spec_pending(spec_write_all(p, ws), a) == match spec_last_write(ws, a) {
            Some(w) => Some(w),
            None => spec_pending(p, a),
        },
    decreases ws.len(),
{
    if ws.len() == 0 {
    } else {
        lemma_coalesce_last_write_wins(p, ws.drop_last(), a);
        lemma_write_sets_exactly(spec_write_all(p, ws.drop_last()), ws.last());
    }
}

/// Writes never change the identity or the carried keys of a patch.
pub proof fn lemma_writes_keep_identity(p: UptObjOpt, ws: Seq<AttrWrite>)
    ensures
        spec_write_all(p, ws).id == p.id,
        spec_write_all(p, ws).keys == p.keys,
    decreases ws.len(),
{
    if ws.len() == 0 {
    } else {
        lemma_writes_keep_identity(p, ws.drop_last());
    }
}

/// Sparse camera attributes applied to full ones: present attributes
/// overwrite, absent attributes stay untouched.
pub open spec fn spec_patch_cam(c: CameraAttr, p: CameraAttrOpt) -> CameraAttr {
    CameraAttr {
        fov: match p.fov {
            Some(v) => v,
            None => c.fov,
        },
        speed: match p.speed {
            Some(v) => v,
            None => c.speed,
        },
        yaw: match p.yaw {
            Some(v) => v,
            None => c.yaw,
        },
        pitch: match p.pitch {
            Some(v) => v,
            None => c.pitch,
        },
        eye: match p.eye {
            Some(v) => v,
            None => c.eye,
        },
        target: match p.target {
            Some(v) => v,
            None => c.target,
        },
        up: match p.up {
            Some(v) => v,
            None => c.up,
        },
    }
}

/// Apply sparse camera attributes to full ones.
pub fn patch_cam(c: &mut CameraAttr, p: &CameraAttrOpt)
    ensures
        *final(c) == spec_patch_cam(*old(c), *p),
{
    if let Some(v) = p.fov {
        c.fov = v;
    }
    if let Some(v) = p.speed {
        c.speed = v;
    }
    if let Some(v) = p.yaw {
        c.yaw = v;
    }
    if let Some(v) = p.pitch {
        c.pitch = v;
    }
    if let Some(v) = p.eye {
        c.eye = v;
    }
    if let Some(v) = p.target {
        c.target = v;
    }
    if let Some(v) = p.up {
        c.up = v;
    }
}

/// A sparse update applied to full entity state: present attributes
/// overwrite, absent attributes stay untouched; the identity and the held
/// keys of the state are not update material and stay as they are.
pub open spec fn spec_patch_obj(o: UptObj, p: UptObjOpt) -> UptObj {
    UptObj {
        id: o.id,
        kind: match p.kind {
            Some(v) => v,
            None => o.kind,
        },
        dim: match p.dim {
            Some(v) => v,
            None => o.dim,
        },
        color: match p.color {
            Some(v) => v,
            None => o.color,
        },
        cam: spec_patch_cam(o.cam, p.cam),
        keys: o.keys,
    }
}

/// Apply a sparse update to full entity state.
pub fn patch_obj(o: &mut UptObj, p: &UptObjOpt)
    ensures
        *final(o) == spec_patch_obj(*old(o), *p),
{
    if let Some(v) = p.kind {
        o.kind = v;
    }
    if let Some(v) = p.dim {
        o.dim = v;
    }
    if let Some(v) = p.color {
        o.color = v;
    }
    patch_cam(&mut o.cam, &p.cam);
}

/// The movement-update law: a position write into an empty pending patch
/// leaves exactly the position attribute present - the broadcast built
/// from it carries the new position and nothing else.
pub proof fn lemma_movement_patch_only_position(id: crate::Id, eye: Vec3w)
    ensures
        ({
            let p = spec_write(UptObjOpt::spec_empty(id), AttrWrite::Eye(eye));
            &&& p.cam.eye == Some(eye)
            &&& p.kind is None
            &&& p.dim is None
            &&& p.color is None
            &&& p.cam.fov is None
            &&& p.cam.speed is None
            &&& p.cam.yaw is None
            &&& p.cam.pitch is None
            &&& p.cam.target is None
            &&& p.cam.up is None
            &&& p.spec_is_modified()
        }),
{
}

/// Applying an empty patch changes nothing.
pub proof fn lemma_empty_patch_is_identity(o: UptObj, id: crate::Id)
    ensures
        spec_patch_obj(o, UptObjOpt::spec_empty(id)) == o,
{
}

} // verus!
