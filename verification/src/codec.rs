//! The wire format of [`Packet`]: one kind-tag byte followed by a
//! kind-specific body, every 32-bit scalar little-endian, every optional
//! attribute prefixed by a one-byte presence flag.
//!
//! The format is stated twice: as spec-level encoders and front-consuming
//! peelers, against which the executable [`encode`] and [`decode`] are
//! verified, and which the round-trip lemmas relate to each other.

use vstd::prelude::*;
use crate::Id;
use crate::err::PacketError;
use crate::keys::Keys;
use crate::obj::{Axis, CameraAttr, CameraAttrOpt, Color, ObjType, UptObj, UptObjOpt, Vec3w, Word};
use crate::packet::{
    Handshake, Input, Keyboard, Motion, Packet, PacketKind, RemObj, Wheel, spec_mask_allows,
};
use crate::wire::{
    enc_i32, enc_i8, enc_u16, enc_u32, enc_u64, enc_u8, lemma_peel_i32, lemma_peel_i8,
    lemma_peel_u16, lemma_peel_u32, lemma_peel_u64, lemma_peel_u8, peel_i32, peel_i8, peel_u16,
    peel_u32, peel_u64, peel_u8,
};

verus! {

/// Wire tag of a handshake packet.
pub const TAG_HANDSHAKE: u8 = 1;

/// Wire tag of a liveness probe.
pub const TAG_PING: u8 = 2;

/// Wire tag of the end-of-bulk-transfer marker.
pub const TAG_FLUSH: u8 = 3;

/// Wire tag of an input packet.
pub const TAG_INPUT: u8 = 4;

/// Wire tag of a full entity state.
pub const TAG_ADD_ENTITY: u8 = 5;

/// Wire tag of an entity departure.
pub const TAG_REMOVE_ENTITY: u8 = 6;

/// Wire tag of a sparse entity update.
pub const TAG_UPDATE_ENTITY: u8 = 7;

/// Input subtag of a keyboard change.
pub const SUBTAG_KEYBOARD: u8 = 1;

/// Input subtag of a mouse-wheel step.
pub const SUBTAG_WHEEL: u8 = 2;

/// Input subtag of a mouse motion.
pub const SUBTAG_MOTION: u8 = 3;

/// The wire tag of one packet kind.
pub open spec fn spec_tag_of_kind(kind: PacketKind) -> u8 {
    match kind {
        PacketKind::Handshake => TAG_HANDSHAKE,
        PacketKind::Ping => TAG_PING,
        PacketKind::Flush => TAG_FLUSH,
        PacketKind::Input => TAG_INPUT,
        PacketKind::AddEntity => TAG_ADD_ENTITY,
        PacketKind::RemoveEntity => TAG_REMOVE_ENTITY,
        PacketKind::UpdateEntity => TAG_UPDATE_ENTITY,
    }
}

/// The packet kind of one wire tag, if the tag is known.
pub open spec fn spec_kind_of_tag(tag: u8) -> Option<PacketKind> {
    if tag == TAG_HANDSHAKE {
        Some(PacketKind::Handshake)
    } else if tag == TAG_PING {
        Some(PacketKind::Ping)
    } else if tag == TAG_FLUSH {
        Some(PacketKind::Flush)
    } else if tag == TAG_INPUT {
        Some(PacketKind::Input)
    } else if tag == TAG_ADD_ENTITY {
        Some(PacketKind::AddEntity)
    } else if tag == TAG_REMOVE_ENTITY {
        Some(PacketKind::RemoveEntity)
    } else if tag == TAG_UPDATE_ENTITY {
        Some(PacketKind::UpdateEntity)
    } else {
        None
    }
}

// ------------------------------------------------------------------
// Spec-level encoders of the field types.
// ------------------------------------------------------------------

/// Bytes of a flag: one for true, zero for false.
pub open spec fn enc_bool(v: bool) -> Seq<u8> {
    if v {
        seq![1u8]
    } else {
        seq![0u8]
    }
}

/// Bytes of an entity kind.
pub open spec fn enc_objtype(v: ObjType) -> Seq<u8> {
    match v {
        ObjType::Basic => seq![1u8],
        ObjType::Player => seq![2u8],
    }
}

/// Bytes of a three-component vector.
pub open spec fn enc_vec3(v: Vec3w) -> Seq<u8> {
    enc_u32(v.x) + enc_u32(v.y) + enc_u32(v.z)
}

/// Bytes of a rotation axis.
pub open spec fn enc_axis(v: Axis) -> Seq<u8> {
    enc_u32(v.degrees) + enc_u32(v.radians) + enc_u32(v.sensitivity)
}

/// Bytes of a color.
pub open spec fn enc_color(v: Color) -> Seq<u8> {
    enc_u32(v.r) + enc_u32(v.g) + enc_u32(v.b) + enc_u32(v.a) + enc_bool(v.emits)
}

/// Bytes of full camera attributes.
pub open spec fn enc_cam(c: CameraAttr) -> Seq<u8> {
    enc_u32(c.fov) + enc_u32(c.speed) + enc_axis(c.yaw) + enc_axis(c.pitch) + enc_vec3(c.eye)
        + enc_vec3(c.target) + enc_vec3(c.up)
}

/// Bytes of an optional 32-bit scalar: a presence flag, then the value.
pub open spec fn enc_opt_u32(v: Option<Word>) -> Seq<u8> {
    match v {
        None => seq![0u8],
        Some(w) => seq![1u8] + enc_u32(w),
    }
}

/// Bytes of an optional identity.
pub open spec fn enc_opt_i8(v: Option<Id>) -> Seq<u8> {
    match v {
        None => seq![0u8],
        Some(id) => seq![1u8] + enc_i8(id),
    }
}

/// Bytes of an optional rotation axis.
pub open spec fn enc_opt_axis(v: Option<Axis>) -> Seq<u8> {
    match v {
        None => seq![0u8],
        Some(a) => seq![1u8] + enc_axis(a),
    }
}

/// Bytes of an optional vector.
pub open spec fn enc_opt_vec3(v: Option<Vec3w>) -> Seq<u8> {
    match v {
        None => seq![0u8],
        Some(w) => seq![1u8] + enc_vec3(w),
    }
}

/// Bytes of an optional color.
pub open spec fn enc_opt_color(v: Option<Color>) -> Seq<u8> {
    match v {
        None => seq![0u8],
        Some(c) => seq![1u8] + enc_color(c),
    }
}

/// Bytes of an optional entity kind.
pub open spec fn enc_opt_objtype(v: Option<ObjType>) -> Seq<u8> {
    match v {
        None => seq![0u8],
        Some(t) => seq![1u8] + enc_objtype(t),
    }
}

/// Bytes of sparse camera attributes.
pub open spec fn enc_cam_opt(c: CameraAttrOpt) -> Seq<u8> {
    enc_opt_u32(c.fov) + enc_opt_u32(c.speed) + enc_opt_axis(c.yaw) + enc_opt_axis(c.pitch)
        + enc_opt_vec3(c.eye) + enc_opt_vec3(c.target) + enc_opt_vec3(c.up)
}

/// Body bytes of a handshake.
pub open spec fn enc_handshake(h: Handshake) -> Seq<u8> {
    enc_u64(h.secret) + enc_opt_i8(h.id)
}

/// Body bytes of an input.
pub open spec fn enc_input(i: Input) -> Seq<u8> {
    match i {
        Input::Keyboard(k) => seq![SUBTAG_KEYBOARD] + enc_u16(k.bits) + enc_u8(k.is_pressed),
        Input::Wheel(w) => seq![SUBTAG_WHEEL] + enc_u32(w.precise_y),
        Input::Motion(m) => seq![SUBTAG_MOTION] + enc_i32(m.xrel) + enc_i32(m.yrel),
    }
}

/// Body bytes of a full entity state.
pub open spec fn enc_uptobj(o: UptObj) -> Seq<u8> {
    enc_i8(o.id) + enc_objtype(o.kind) + enc_vec3(o.dim) + enc_color(o.color) + enc_cam(o.cam)
        + enc_u16(o.keys.bits)
}

/// Body bytes of a sparse entity update.
pub open spec fn enc_uptobjopt(o: UptObjOpt) -> Seq<u8> {
    enc_i8(o.id) + enc_opt_objtype(o.kind) + enc_opt_vec3(o.dim) + enc_opt_color(o.color)
        + enc_cam_opt(o.cam) + enc_u16(o.keys.bits)
}

/// The bytes of a whole packet: the kind tag, then the body.
pub open spec fn spec_encode(p: Packet) -> Seq<u8> {
    seq![spec_tag_of_kind(p.spec_kind())] + match p {
        Packet::Handshake(h) => enc_handshake(h),
        Packet::Ping => Seq::empty(),
        Packet::Flush => Seq::empty(),
        Packet::Input(i) => enc_input(i),
        Packet::AddEntity(o) => enc_uptobj(o),
        Packet::RemoveEntity(r) => enc_i8(r.id),
        Packet::UpdateEntity(o) => enc_uptobjopt(o),
    }
}

// ------------------------------------------------------------------
// Spec-level peelers of the field types.
// ------------------------------------------------------------------

/// Read a flag from the front; any byte other than zero or one is refused.
pub open spec fn peel_bool(s: Seq<u8>) -> Option<(bool, Seq<u8>)> {
    match peel_u8(s) {
        Some((b, rest)) => if b == 0 {
            Some((false, rest))
        } else if b == 1 {
            Some((true, rest))
        } else {
            None
        },
        None => None,
    }
}

/// Read an entity kind from the front.
pub open spec fn peel_objtype(s: Seq<u8>) -> Option<(ObjType, Seq<u8>)> {
    match peel_u8(s) {
        Some((b, rest)) => if b == 1 {
            Some((ObjType::Basic, rest))
        } else if b == 2 {
            Some((ObjType::Player, rest))
        } else {
            None
        },
        None => None,
    }
}

/// Read a three-component vector from the front.
pub open spec fn peel_vec3(s: Seq<u8>) -> Option<(Vec3w, Seq<u8>)> {
    match peel_u32(s) {
        Some((x, s1)) => match peel_u32(s1) {
            Some((y, s2)) => match peel_u32(s2) {
                Some((z, s3)) => Some((Vec3w { x, y, z }, s3)),
                None => None,
            },
            None => None,
        },
        None => None,
    }
}

/// Read a rotation axis from the front.
pub open spec fn peel_axis(s: Seq<u8>) -> Option<(Axis, Seq<u8>)> {
    match peel_u32(s) {
        Some((degrees, s1)) => match peel_u32(s1) {
            Some((radians, s2)) => match peel_u32(s2) {
                Some((sensitivity, s3)) => Some((Axis { degrees, radians, sensitivity }, s3)),
                None => None,
            },
            None => None,
        },
        None => None,
    }
}

/// Read a color from the front.
pub open spec fn peel_color(s: Seq<u8>) -> Option<(Color, Seq<u8>)> {
    match peel_u32(s) {
        Some((r, s1)) => match peel_u32(s1) {
            Some((g, s2)) => match peel_u32(s2) {
                Some((b, s3)) => match peel_u32(s3) {
                    Some((a, s4)) => match peel_bool(s4) {
                        Some((emits, s5)) => Some((Color { r, g, b, a, emits }, s5)),
                        None => None,
                    },
                    None => None,
                },
                None => None,
            },
            None => None,
        },
        None => None,
    }
}

/// Read full camera attributes from the front.
pub open spec fn peel_cam(s: Seq<u8>) -> Option<(CameraAttr, Seq<u8>)> {
    match peel_u32(s) {
        Some((fov, s1)) => match peel_u32(s1) {
            Some((speed, s2)) => match peel_axis(s2) {
                Some((yaw, s3)) => match peel_axis(s3) {
                    Some((pitch, s4)) => match peel_vec3(s4) {
                        Some((eye, s5)) => match peel_vec3(s5) {
                            Some((target, s6)) => match peel_vec3(s6) {
                                Some((up, s7)) => Some(
                                    (CameraAttr { fov, speed, yaw, pitch, eye, target, up }, s7),
                                ),
                                None => None,
                            },
                            None => None,
                        },
                        None => None,
                    },
                    None => None,
                },
                None => None,
            },
            None => None,
        },
        None => None,
    }
}

/// Read an optional 32-bit scalar from the front.
pub open spec fn peel_opt_u32(s: Seq<u8>) -> Option<(Option<Word>, Seq<u8>)> {
    match peel_u8(s) {
        Some((flag, rest)) => if flag == 0 {
            Some((None, rest))
        } else if flag == 1 {
            match peel_u32(rest) {
                Some((w, s2)) => Some((Some(w), s2)),
                None => None,
            }
        } else {
            None
        },
        None => None,
    }
}

/// Read an optional identity from the front.
pub open spec fn peel_opt_i8(s: Seq<u8>) -> Option<(Option<Id>, Seq<u8>)> {
    match peel_u8(s) {
        Some((flag, rest)) => if flag == 0 {
            Some((None, rest))
        } else if flag == 1 {
            match peel_i8(rest) {
                Some((id, s2)) => Some((Some(id), s2)),
                None => None,
            }
        } else {
            None
        },
        None => None,
    }
}

/// Read an optional rotation axis from the front.
pub open spec fn peel_opt_axis(s: Seq<u8>) -> Option<(Option<Axis>, Seq<u8>)> {
    match peel_u8(s) {
        Some((flag, rest)) => if flag == 0 {
            Some((None, rest))
        } else if flag == 1 {
            match peel_axis(rest) {
                Some((a, s2)) => Some((Some(a), s2)),
                None => None,
            }
        } else {
            None
        },
        None => None,
    }
}

/// Read an optional vector from the front.
pub open spec fn peel_opt_vec3(s: Seq<u8>) -> Option<(Option<Vec3w>, Seq<u8>)> {
    match peel_u8(s) {
        Some((flag, rest)) => if flag == 0 {
            Some((None, rest))
        } else if flag == 1 {
            match peel_vec3(rest) {
                Some((v, s2)) => Some((Some(v), s2)),
                None => None,
            }
        } else {
            None
        },
        None => None,
    }
}

/// Read an optional color from the front.
pub open spec fn peel_opt_color(s: Seq<u8>) -> Option<(Option<Color>, Seq<u8>)> {
    match peel_u8(s) {
        Some((flag, rest)) => if flag == 0 {
            Some((None, rest))
        } else if flag == 1 {
            match peel_color(rest) {
                Some((c, s2)) => Some((Some(c), s2)),
                None => None,
            }
        } else {
            None
        },
        None => None,
    }
}

/// Read an optional entity kind from the front.
pub open spec fn peel_opt_objtype(s: Seq<u8>) -> Option<(Option<ObjType>, Seq<u8>)> {
    match peel_u8(s) {
        Some((flag, rest)) => if flag == 0 {
            Some((None, rest))
        } else if flag == 1 {
            match peel_objtype(rest) {
                Some((t, s2)) => Some((Some(t), s2)),
                None => None,
            }
        } else {
            None
        },
        None => None,
    }
}

/// Read sparse camera attributes from the front.
pub open spec fn peel_cam_opt(s: Seq<u8>) -> Option<(CameraAttrOpt, Seq<u8>)> {
    match peel_opt_u32(s) {
        Some((fov, s1)) => match peel_opt_u32(s1) {
            Some((speed, s2)) => match peel_opt_axis(s2) {
                Some((yaw, s3)) => match peel_opt_axis(s3) {
                    Some((pitch, s4)) => match peel_opt_vec3(s4) {
                        Some((eye, s5)) => match peel_opt_vec3(s5) {
                            Some((target, s6)) => match peel_opt_vec3(s6) {
                                Some((up, s7)) => Some(
                                    (CameraAttrOpt { fov, speed, yaw, pitch, eye, target, up }, s7),
                                ),
                                None => None,
                            },
                            None => None,
                        },
                        None => None,
                    },
                    None => None,
                },
                None => None,
            },
            None => None,
        },
        None => None,
    }
}

/// Read a handshake body from the front.
pub open spec fn peel_handshake(s: Seq<u8>) -> Option<(Handshake, Seq<u8>)> {
    match peel_u64(s) {
        Some((secret, s1)) => match peel_opt_i8(s1) {
            Some((id, s2)) => Some((Handshake { secret, id }, s2)),
            None => None,
        },
        None => None,
    }
}

/// Read an input body from the front.
pub open spec fn peel_input(s: Seq<u8>) -> Option<(Input, Seq<u8>)> {
    match peel_u8(s) {
        Some((subtag, rest)) => if subtag == SUBTAG_KEYBOARD {
            match peel_u16(rest) {
                Some((bits, s1)) => match peel_u8(s1) {
                    Some((is_pressed, s2)) => Some(
                        (Input::Keyboard(Keyboard { bits, is_pressed }), s2),
                    ),
                    None => None,
                },
                None => None,
            }
        } else if subtag == SUBTAG_WHEEL {
            match peel_u32(rest) {
                Some((precise_y, s1)) => Some((Input::Wheel(Wheel { precise_y }), s1)),
                None => None,
            }
        } else if subtag == SUBTAG_MOTION {
            match peel_i32(rest) {
                Some((xrel, s1)) => match peel_i32(s1) {
                    Some((yrel, s2)) => Some((Input::Motion(Motion { xrel, yrel }), s2)),
                    None => None,
                },
                None => None,
            }
        } else {
            None
        },
        None => None,
    }
}

/// Read a full entity state body from the front.
pub open spec fn peel_uptobj(s: Seq<u8>) -> Option<(UptObj, Seq<u8>)> {
    match peel_i8(s) {
        Some((id, s1)) => match peel_objtype(s1) {
            Some((kind, s2)) => match peel_vec3(s2) {
                Some((dim, s3)) => match peel_color(s3) {
                    Some((color, s4)) => match peel_cam(s4) {
                        Some((cam, s5)) => match peel_u16(s5) {
                            Some((bits, s6)) => Some(
                                (UptObj { id, kind, dim, color, cam, keys: Keys { bits } }, s6),
                            ),
                            None => None,
                        },
                        None => None,
                    },
                    None => None,
                },
                None => None,
            },
            None => None,
        },
        None => None,
    }
}

/// Read a sparse entity update body from the front.
pub open spec fn peel_uptobjopt(s: Seq<u8>) -> Option<(UptObjOpt, Seq<u8>)> {
    match peel_i8(s) {
        Some((id, s1)) => match peel_opt_objtype(s1) {
            Some((kind, s2)) => match peel_opt_vec3(s2) {
                Some((dim, s3)) => match peel_opt_color(s3) {
                    Some((color, s4)) => match peel_cam_opt(s4) {
                        Some((cam, s5)) => match peel_u16(s5) {
                            Some((bits, s6)) => Some(
                                (UptObjOpt { id, kind, dim, color, cam, keys: Keys { bits } }, s6),
                            ),
                            None => None,
                        },
                        None => None,
                    },
                    None => None,
                },
                None => None,
            },
            None => None,
        },
        None => None,
    }
}

/// The packet held by a body, if the body is well formed and fully
/// consumed.
pub open spec fn spec_body_packet(kind: PacketKind, s: Seq<u8>) -> Option<Packet> {
    match kind {
        PacketKind::Handshake => match peel_handshake(s) {
            Some((h, rest)) => if rest.len() == 0 {
                Some(Packet::Handshake(h))
            } else {
                None
            },
            None => None,
        },
        PacketKind::Ping => if s.len() == 0 {
            Some(Packet::Ping)
        } else {
            None
        },
        PacketKind::Flush => if s.len() == 0 {
            Some(Packet::Flush)
        } else {
            None
        },
        PacketKind::Input => match peel_input(s) {
            Some((i, rest)) => if rest.len() == 0 {
                Some(Packet::Input(i))
            } else {
                None
            },
            None => None,
        },
        PacketKind::AddEntity => match peel_uptobj(s) {
            Some((o, rest)) => if rest.len() == 0 {
                Some(Packet::AddEntity(o))
            } else {
                None
            },
            None => None,
        },
        PacketKind::RemoveEntity => match peel_i8(s) {
            Some((id, rest)) => if rest.len() == 0 {
                Some(Packet::RemoveEntity(RemObj { id }))
            } else {
                None
            },
            None => None,
        },
        PacketKind::UpdateEntity => match peel_uptobjopt(s) {
            Some((o, rest)) => if rest.len() == 0 {
                Some(Packet::UpdateEntity(o))
            } else {
                None
            },
            None => None,
        },
    }
}

// ------------------------------------------------------------------
// Reading each field type undoes writing it.
// ------------------------------------------------------------------

/// Reading a flag undoes writing one.
pub proof fn lemma_peel_bool(v: bool, rest: Seq<u8>)
    ensures
        peel_bool(enc_bool(v) + rest) == Some((v, rest)),
{
    if v {
        assert(enc_bool(v) + rest =~= enc_u8(1) + rest);
        lemma_peel_u8(1, rest);
    } else {
        assert(enc_bool(v) + rest =~= enc_u8(0) + rest);
        lemma_peel_u8(0, rest);
    }
}

/// Reading an entity kind undoes writing one.
pub proof fn lemma_peel_objtype(v: ObjType, rest: Seq<u8>)
    ensures
        peel_objtype(enc_objtype(v) + rest) == Some((v, rest)),
{
    match v {
        ObjType::Basic => {
            assert(enc_objtype(v) + rest =~= enc_u8(1) + rest);
            lemma_peel_u8(1, rest);
        },
        ObjType::Player => {
            assert(enc_objtype(v) + rest =~= enc_u8(2) + rest);
            lemma_peel_u8(2, rest);
        },
    }
}

/// Reading a vector undoes writing one.
pub proof fn lemma_peel_vec3(v: Vec3w, rest: Seq<u8>)
    ensures
        peel_vec3(enc_vec3(v) + rest) == Some((v, rest)),
{
    let t2 = enc_u32(v.z) + rest;
    let t1 = enc_u32(v.y) + t2;
    assert(enc_vec3(v) + rest =~= enc_u32(v.x) + t1);
    lemma_peel_u32(v.x, t1);
    lemma_peel_u32(v.y, t2);
    lemma_peel_u32(v.z, rest);
}

/// Reading a rotation axis undoes writing one.
pub proof fn lemma_peel_axis(v: Axis, rest: Seq<u8>)
    ensures
        peel_axis(enc_axis(v) + rest) == Some((v, rest)),
{
    let t2 = enc_u32(v.sensitivity) + rest;
    let t1 = enc_u32(v.radians) + t2;
    assert(enc_axis(v) + rest =~= enc_u32(v.degrees) + t1);
    lemma_peel_u32(v.degrees, t1);
    lemma_peel_u32(v.radians, t2);
    lemma_peel_u32(v.sensitivity, rest);
}

/// Reading a color undoes writing one.
pub proof fn lemma_peel_color(v: Color, rest: Seq<u8>)
    ensures
        peel_color(enc_color(v) + rest) == Some((v, rest)),
{
    let t4 = enc_bool(v.emits) + rest;
    let t3 = enc_u32(v.a) + t4;
    let t2 = enc_u32(v.b) + t3;
    let t1 = enc_u32(v.g) + t2;
    assert(enc_color(v) + rest =~= enc_u32(v.r) + t1);
    lemma_peel_u32(v.r, t1);
    lemma_peel_u32(v.g, t2);
    lemma_peel_u32(v.b, t3);
    lemma_peel_u32(v.a, t4);
    lemma_peel_bool(v.emits, rest);
}

/// Sequence concatenation reassociates.
proof fn seq_assoc(a: Seq<u8>, b: Seq<u8>, c: Seq<u8>)
    ensures
        (a + b) + c == a + (b + c),
{
    assert((a + b) + c =~= a + (b + c));
}

/// Reading full camera attributes undoes writing them.
pub proof fn lemma_peel_cam(c: CameraAttr, rest: Seq<u8>)
    ensures
        peel_cam(enc_cam(c) + rest) == Some((c, rest)),
{
    let e1 = enc_u32(c.fov);
    let e2 = enc_u32(c.speed);
    let e3 = enc_axis(c.yaw);
    let e4 = enc_axis(c.pitch);
    let e5 = enc_vec3(c.eye);
    let e6 = enc_vec3(c.target);
    let e7 = enc_vec3(c.up);
    let t6 = e7 + rest;
    let t5 = e6 + t6;
    let t4 = e5 + t5;
    let t3 = e4 + t4;
    let t2 = e3 + t3;
    let t1 = e2 + t2;
    assert(enc_cam(c) == (((((e1 + e2) + e3) + e4) + e5) + e6) + e7);
    seq_assoc((((((e1 + e2) + e3) + e4) + e5) + e6), e7, rest);
    seq_assoc(((((e1 + e2) + e3) + e4) + e5), e6, t6);
    seq_assoc((((e1 + e2) + e3) + e4), e5, t5);
    seq_assoc(((e1 + e2) + e3), e4, t4);
    seq_assoc((e1 + e2), e3, t3);
    seq_assoc(e1, e2, t2);
    assert(enc_cam(c) + rest == e1 + t1);
    lemma_peel_u32(c.fov, t1);
    lemma_peel_u32(c.speed, t2);
    lemma_peel_axis(c.yaw, t3);
    lemma_peel_axis(c.pitch, t4);
    lemma_peel_vec3(c.eye, t5);
    lemma_peel_vec3(c.target, t6);
    lemma_peel_vec3(c.up, rest);
}

/// Reading an optional scalar undoes writing one.
pub proof fn lemma_peel_opt_u32(v: Option<Word>, rest: Seq<u8>)
    ensures
        peel_opt_u32(enc_opt_u32(v) + rest) == Some((v, rest)),
{
    match v {
        None => {
            assert(enc_opt_u32(v) + rest =~= enc_u8(0) + rest);
            lemma_peel_u8(0, rest);
        },
        Some(w) => {
            let t1 = enc_u32(w) + rest;
            assert(enc_opt_u32(v) + rest =~= enc_u8(1) + t1);
            lemma_peel_u8(1, t1);
            lemma_peel_u32(w, rest);
        },
    }
}

/// Reading an optional identity undoes writing one.
pub proof fn lemma_peel_opt_i8(v: Option<Id>, rest: Seq<u8>)
    ensures
        peel_opt_i8(enc_opt_i8(v) + rest) == Some((v, rest)),
{
    match v {
        None => {
            assert(enc_opt_i8(v) + rest =~= enc_u8(0) + rest);
            lemma_peel_u8(0, rest);
        },
        Some(id) => {
            let t1 = enc_i8(id) + rest;
            assert(enc_opt_i8(v) + rest =~= enc_u8(1) + t1);
            lemma_peel_u8(1, t1);
            lemma_peel_i8(id, rest);
        },
    }
}

/// Reading an optional rotation axis undoes writing one.
pub proof fn lemma_peel_opt_axis(v: Option<Axis>, rest: Seq<u8>)
    ensures
        peel_opt_axis(enc_opt_axis(v) + rest) == Some((v, rest)),
{
    match v {
        None => {
            assert(enc_opt_axis(v) + rest =~= enc_u8(0) + rest);
            lemma_peel_u8(0, rest);
        },
        Some(a) => {
            let t1 = enc_axis(a) + rest;
            assert(enc_opt_axis(v) + rest =~= enc_u8(1) + t1);
            lemma_peel_u8(1, t1);
            lemma_peel_axis(a, rest);
        },
    }
}

/// Reading an optional vector undoes writing one.
pub proof fn lemma_peel_opt_vec3(v: Option<Vec3w>, rest: Seq<u8>)
    ensures
        peel_opt_vec3(enc_opt_vec3(v) + rest) == Some((v, rest)),
{
    match v {
        None => {
            assert(enc_opt_vec3(v) + rest =~= enc_u8(0) + rest);
            lemma_peel_u8(0, rest);
        },
        Some(w) => {
            let t1 = enc_vec3(w) + rest;
            assert(enc_opt_vec3(v) + rest =~= enc_u8(1) + t1);
            lemma_peel_u8(1, t1);
            lemma_peel_vec3(w, rest);
        },
    }
}

/// Reading an optional color undoes writing one.
pub proof fn lemma_peel_opt_color(v: Option<Color>, rest: Seq<u8>)
    ensures
        peel_opt_color(enc_opt_color(v) + rest) == Some((v, rest)),
{
    match v {
        None => {
            assert(enc_opt_color(v) + rest =~= enc_u8(0) + rest);
            lemma_peel_u8(0, rest);
        },
        Some(c) => {
            let t1 = enc_color(c) + rest;
            assert(enc_opt_color(v) + rest =~= enc_u8(1) + t1);
            lemma_peel_u8(1, t1);
            lemma_peel_color(c, rest);
        },
    }
}

/// Reading an optional entity kind undoes writing one.
pub proof fn lemma_peel_opt_objtype(v: Option<ObjType>, rest: Seq<u8>)
    ensures
        peel_opt_objtype(enc_opt_objtype(v) + rest) == Some((v, rest)),
{
    match v {
        None => {
            assert(enc_opt_objtype(v) + rest =~= enc_u8(0) + rest);
            lemma_peel_u8(0, rest);
        },
        Some(t) => {
            let t1 = enc_objtype(t) + rest;
            assert(enc_opt_objtype(v) + rest =~= enc_u8(1) + t1);
            lemma_peel_u8(1, t1);
            lemma_peel_objtype(t, rest);
        },
    }
}

/// Reading sparse camera attributes undoes writing them.
pub proof fn lemma_peel_cam_opt(c: CameraAttrOpt, rest: Seq<u8>)
    ensures
        peel_cam_opt(enc_cam_opt(c) + rest) == Some((c, rest)),
{
    let e1 = enc_opt_u32(c.fov);
    let e2 = enc_opt_u32(c.speed);
    let e3 = enc_opt_axis(c.yaw);
    let e4 = enc_opt_axis(c.pitch);
    let e5 = enc_opt_vec3(c.eye);
    let e6 = enc_opt_vec3(c.target);
    let e7 = enc_opt_vec3(c.up);
    let t6 = e7 + rest;
    let t5 = e6 + t6;
    let t4 = e5 + t5;
    let t3 = e4 + t4;
    let t2 = e3 + t3;
    let t1 = e2 + t2;
    assert(enc_cam_opt(c) == (((((e1 + e2) + e3) + e4) + e5) + e6) + e7);
    seq_assoc((((((e1 + e2) + e3) + e4) + e5) + e6), e7, rest);
    seq_assoc(((((e1 + e2) + e3) + e4) + e5), e6, t6);
    seq_assoc((((e1 + e2) + e3) + e4), e5, t5);
    seq_assoc(((e1 + e2) + e3), e4, t4);
    seq_assoc((e1 + e2), e3, t3);
    seq_assoc(e1, e2, t2);
    assert(enc_cam_opt(c) + rest == e1 + t1);
    lemma_peel_opt_u32(c.fov, t1);
    lemma_peel_opt_u32(c.speed, t2);
    lemma_peel_opt_axis(c.yaw, t3);
    lemma_peel_opt_axis(c.pitch, t4);
    lemma_peel_opt_vec3(c.eye, t5);
    lemma_peel_opt_vec3(c.target, t6);
    lemma_peel_opt_vec3(c.up, rest);
}

/// Reading a handshake body undoes writing one.
pub proof fn lemma_peel_handshake(h: Handshake, rest: Seq<u8>)
    ensures
        peel_handshake(enc_handshake(h) + rest) == Some((h, rest)),
{
    let t1 = enc_opt_i8(h.id) + rest;
    assert(enc_handshake(h) + rest =~= enc_u64(h.secret) + t1);
    lemma_peel_u64(h.secret, t1);
    lemma_peel_opt_i8(h.id, rest);
}

/// Reading an input body undoes writing one.
pub proof fn lemma_peel_input(i: Input, rest: Seq<u8>)
    ensures
        peel_input(enc_input(i) + rest) == Some((i, rest)),
{
    match i {
        Input::Keyboard(k) => {
            let t2 = enc_u8(k.is_pressed) + rest;
            let t1 = enc_u16(k.bits) + t2;
            assert(enc_input(i) + rest =~= enc_u8(SUBTAG_KEYBOARD) + t1);
            lemma_peel_u8(SUBTAG_KEYBOARD, t1);
            lemma_peel_u16(k.bits, t2);
            lemma_peel_u8(k.is_pressed, rest);
        },
        Input::Wheel(w) => {
            let t1 = enc_u32(w.precise_y) + rest;
            assert(enc_input(i) + rest =~= enc_u8(SUBTAG_WHEEL) + t1);
            lemma_peel_u8(SUBTAG_WHEEL, t1);
            lemma_peel_u32(w.precise_y, rest);
        },
        Input::Motion(m) => {
            let t2 = enc_i32(m.yrel) + rest;
            let t1 = enc_i32(m.xrel) + t2;
            assert(enc_input(i) + rest =~= enc_u8(SUBTAG_MOTION) + t1);
            lemma_peel_u8(SUBTAG_MOTION, t1);
            lemma_peel_i32(m.xrel, t2);
            lemma_peel_i32(m.yrel, rest);
        },
    }
}

/// Reading a full entity state body undoes writing one.
pub proof fn lemma_peel_uptobj(o: UptObj, rest: Seq<u8>)
    ensures
        peel_uptobj(enc_uptobj(o) + rest) == Some((o, rest)),
{
    let e1 = enc_i8(o.id);
    let e2 = enc_objtype(o.kind);
    let e3 = enc_vec3(o.dim);
    let e4 = enc_color(o.color);
    let e5 = enc_cam(o.cam);
    let e6 = enc_u16(o.keys.bits);
    let t5 = e6 + rest;
    let t4 = e5 + t5;
    let t3 = e4 + t4;
    let t2 = e3 + t3;
    let t1 = e2 + t2;
    assert(enc_uptobj(o) == ((((e1 + e2) + e3) + e4) + e5) + e6);
    seq_assoc(((((e1 + e2) + e3) + e4) + e5), e6, rest);
    seq_assoc((((e1 + e2) + e3) + e4), e5, t5);
    seq_assoc(((e1 + e2) + e3), e4, t4);
    seq_assoc((e1 + e2), e3, t3);
    seq_assoc(e1, e2, t2);
    assert(enc_uptobj(o) + rest == e1 + t1);
    lemma_peel_i8(o.id, t1);
    lemma_peel_objtype(o.kind, t2);
    lemma_peel_vec3(o.dim, t3);
    lemma_peel_color(o.color, t4);
    lemma_peel_cam(o.cam, t5);
    lemma_peel_u16(o.keys.bits, rest);
}

/// Reading a sparse entity update body undoes writing one.
pub proof fn lemma_peel_uptobjopt(o: UptObjOpt, rest: Seq<u8>)
    ensures
        peel_uptobjopt(enc_uptobjopt(o) + rest) == Some((o, rest)),
{
    let e1 = enc_i8(o.id);
    let e2 = enc_opt_objtype(o.kind);
    let e3 = enc_opt_vec3(o.dim);
    let e4 = enc_opt_color(o.color);
    let e5 = enc_cam_opt(o.cam);
    let e6 = enc_u16(o.keys.bits);
    let t5 = e6 + rest;
    let t4 = e5 + t5;
    let t3 = e4 + t4;
    let t2 = e3 + t3;
    let t1 = e2 + t2;
    assert(enc_uptobjopt(o) == ((((e1 + e2) + e3) + e4) + e5) + e6);
    seq_assoc(((((e1 + e2) + e3) + e4) + e5), e6, rest);
    seq_assoc((((e1 + e2) + e3) + e4), e5, t5);
    seq_assoc(((e1 + e2) + e3), e4, t4);
    seq_assoc((e1 + e2), e3, t3);
    seq_assoc(e1, e2, t2);
    assert(enc_uptobjopt(o) + rest == e1 + t1);
    lemma_peel_i8(o.id, t1);
    lemma_peel_opt_objtype(o.kind, t2);
    lemma_peel_opt_vec3(o.dim, t3);
    lemma_peel_opt_color(o.color, t4);
    lemma_peel_cam_opt(o.cam, t5);
    lemma_peel_u16(o.keys.bits, rest);
}

/// The body bytes of a packet: everything after the kind tag.
pub open spec fn spec_body(p: Packet) -> Seq<u8> {
    match p {
        Packet::Handshake(h) => enc_handshake(h),
        Packet::Ping => Seq::empty(),
        Packet::Flush => Seq::empty(),
        Packet::Input(i) => enc_input(i),
        Packet::AddEntity(o) => enc_uptobj(o),
        Packet::RemoveEntity(r) => enc_i8(r.id),
        Packet::UpdateEntity(o) => enc_uptobjopt(o),
    }
}

/// Every encoded packet fits the fixed packet buffer.
pub proof fn lemma_encode_fits(p: Packet)
    ensures
        spec_encode(p).len() <= crate::PACKET_SIZE,
{
    match p {
        Packet::Handshake(h) => {
            match h.id {
                None => {},
                Some(_) => {},
            }
        },
        Packet::Ping => {},
        Packet::Flush => {},
        Packet::Input(i) => {
            match i {
                Input::Keyboard(_) => {},
                Input::Wheel(_) => {},
                Input::Motion(_) => {},
            }
        },
        Packet::AddEntity(_) => {},
        Packet::RemoveEntity(_) => {},
        Packet::UpdateEntity(o) => {
            assert(enc_opt_objtype(o.kind).len() <= 2);
            assert(enc_opt_vec3(o.dim).len() <= 13);
            assert(enc_opt_color(o.color).len() <= 18);
            assert(enc_opt_u32(o.cam.fov).len() <= 5);
            assert(enc_opt_u32(o.cam.speed).len() <= 5);
            assert(enc_opt_axis(o.cam.yaw).len() <= 13);
            assert(enc_opt_axis(o.cam.pitch).len() <= 13);
            assert(enc_opt_vec3(o.cam.eye).len() <= 13);
            assert(enc_opt_vec3(o.cam.target).len() <= 13);
            assert(enc_opt_vec3(o.cam.up).len() <= 13);
        },
    }
}

/// What decoding a buffer against a phase mask yields: the packet, a
/// protocol violation for a kind the phase does not admit, or a malformed
/// rejection.
pub open spec fn spec_decode(bytes: Seq<u8>, mask: u8) -> Result<Packet, PacketError> {
    match peel_u8(bytes) {
        None => Err(PacketError::Malformed),
        Some((tag, rest)) => match spec_kind_of_tag(tag) {
            None => Err(PacketError::Malformed),
            Some(kind) => if !spec_mask_allows(mask, kind) {
                Err(PacketError::Unexpected { expected: mask, found: kind })
            } else {
                match spec_body_packet(kind, rest) {
                    Some(p) => Ok(p),
                    None => Err(PacketError::Malformed),
                }
            },
        },
    }
}

/// The round-trip law of the wire protocol: decoding an encoded packet
/// under a mask that admits its kind reproduces the packet, field for
/// field; decoding it under a mask that excludes its kind yields the
/// protocol violation naming that mask and kind.
pub proof fn lemma_decode_encode(p: Packet, mask: u8)
    ensures
        spec_mask_allows(mask, p.spec_kind()) ==> spec_decode(spec_encode(p), mask) == Ok::<
            Packet,
            PacketError,
        >(p),
        !spec_mask_allows(mask, p.spec_kind()) ==> spec_decode(spec_encode(p), mask) == Err::<
            Packet,
            PacketError,
        >(PacketError::Unexpected { expected: mask, found: p.spec_kind() }),
{
    let kind = p.spec_kind();
    let tag = spec_tag_of_kind(kind);
    let body = spec_body(p);
    let empty = Seq::<u8>::empty();
    assert(spec_encode(p) =~= enc_u8(tag) + body);
    lemma_peel_u8(tag, body);
    assert(spec_kind_of_tag(tag) == Some(kind));
    if spec_mask_allows(mask, kind) {
        match p {
            Packet::Handshake(h) => {
                assert(body =~= enc_handshake(h) + empty);
                lemma_peel_handshake(h, empty);
            },
            Packet::Ping => {},
            Packet::Flush => {},
            Packet::Input(i) => {
                assert(body =~= enc_input(i) + empty);
                lemma_peel_input(i, empty);
            },
            Packet::AddEntity(o) => {
                assert(body =~= enc_uptobj(o) + empty);
                lemma_peel_uptobj(o, empty);
            },
            Packet::RemoveEntity(r) => {
                assert(body =~= enc_i8(r.id) + empty);
                lemma_peel_i8(r.id, empty);
            },
            Packet::UpdateEntity(o) => {
                assert(body =~= enc_uptobjopt(o) + empty);
                lemma_peel_uptobjopt(o, empty);
            },
        }
    }
}

// ------------------------------------------------------------------
// The executable encoder.
// ------------------------------------------------------------------

/// Append the bytes of a flag.
fn push_bool(buf: &mut Vec<u8>, v: bool)
    ensures
        final(buf)@ == old(buf)@ + enc_bool(v),
{
    if v {
        crate::wire::push_u8(buf, 1);
    } else {
        crate::wire::push_u8(buf, 0);
    }
    proof {
        assert(buf@ =~= old(buf)@ + enc_bool(v));
    }
}

/// Append the bytes of an entity kind.
fn push_objtype(buf: &mut Vec<u8>, v: ObjType)
    ensures
        final(buf)@ == old(buf)@ + enc_objtype(v),
{
    match v {
        ObjType::Basic => crate::wire::push_u8(buf, 1),
        ObjType::Player => crate::wire::push_u8(buf, 2),
    }
    proof {
        assert(buf@ =~= old(buf)@ + enc_objtype(v));
    }
}

/// Append the bytes of a vector.
fn push_vec3(buf: &mut Vec<u8>, v: &Vec3w)
    ensures
        final(buf)@ == old(buf)@ + enc_vec3(*v),
{
    crate::wire::push_u32(buf, v.x);
    crate::wire::push_u32(buf, v.y);
    crate::wire::push_u32(buf, v.z);
    proof {
        assert(buf@ =~= old(buf)@ + enc_vec3(*v));
    }
}

/// Append the bytes of a rotation axis.
fn push_axis(buf: &mut Vec<u8>, v: &Axis)
    ensures
        final(buf)@ == old(buf)@ + enc_axis(*v),
{
    crate::wire::push_u32(buf, v.degrees);
    crate::wire::push_u32(buf, v.radians);
    crate::wire::push_u32(buf, v.sensitivity);
    proof {
        assert(buf@ =~= old(buf)@ + enc_axis(*v));
    }
}

/// Append the bytes of a color.
fn push_color(buf: &mut Vec<u8>, v: &Color)
    ensures
        final(buf)@ == old(buf)@ + enc_color(*v),
{
    crate::wire::push_u32(buf, v.r);
    crate::wire::push_u32(buf, v.g);
    crate::wire::push_u32(buf, v.b);
    crate::wire::push_u32(buf, v.a);
    push_bool(buf, v.emits);
    proof {
        assert(buf@ =~= old(buf)@ + enc_color(*v));
    }
}

/// Append the bytes of full camera attributes.
fn push_cam(buf: &mut Vec<u8>, c: &CameraAttr)
    ensures
        final(buf)@ == old(buf)@ + enc_cam(*c),
{
    crate::wire::push_u32(buf, c.fov);
    crate::wire::push_u32(buf, c.speed);
    push_axis(buf, &c.yaw);
    push_axis(buf, &c.pitch);
    push_vec3(buf, &c.eye);
    push_vec3(buf, &c.target);
    push_vec3(buf, &c.up);
    proof {
        assert(buf@ =~= old(buf)@ + enc_cam(*c));
    }
}

/// Append the bytes of an optional scalar.
fn push_opt_u32(buf: &mut Vec<u8>, v: &Option<Word>)
    ensures
        final(buf)@ == old(buf)@ + enc_opt_u32(*v),
{
    match v {
        None => crate::wire::push_u8(buf, 0),
        Some(w) => {
            crate::wire::push_u8(buf, 1);
            crate::wire::push_u32(buf, *w);
        },
    }
    proof {
        assert(buf@ =~= old(buf)@ + enc_opt_u32(*v));
    }
}

/// Append the bytes of an optional identity.
fn push_opt_i8(buf: &mut Vec<u8>, v: &Option<Id>)
    ensures
        final(buf)@ == old(buf)@ + enc_opt_i8(*v),
{
    match v {
        None => crate::wire::push_u8(buf, 0),
        Some(id) => {
            crate::wire::push_u8(buf, 1);
            crate::wire::push_i8(buf, *id);
        },
    }
    proof {
        assert(buf@ =~= old(buf)@ + enc_opt_i8(*v));
    }
}

/// Append the bytes of an optional rotation axis.
fn push_opt_axis(buf: &mut Vec<u8>, v: &Option<Axis>)
    ensures
        final(buf)@ == old(buf)@ + enc_opt_axis(*v),
{
    match v {
        None => crate::wire::push_u8(buf, 0),
        Some(a) => {
            crate::wire::push_u8(buf, 1);
            push_axis(buf, a);
        },
    }
    proof {
        assert(buf@ =~= old(buf)@ + enc_opt_axis(*v));
    }
}

/// Append the bytes of an optional vector.
fn push_opt_vec3(buf: &mut Vec<u8>, v: &Option<Vec3w>)
    ensures
        final(buf)@ == old(buf)@ + enc_opt_vec3(*v),
{
    match v {
        None => crate::wire::push_u8(buf, 0),
        Some(w) => {
            crate::wire::push_u8(buf, 1);
            push_vec3(buf, w);
        },
    }
    proof {
        assert(buf@ =~= old(buf)@ + enc_opt_vec3(*v));
    }
}

/// Append the bytes of an optional color.
fn push_opt_color(buf: &mut Vec<u8>, v: &Option<Color>)
    ensures
        final(buf)@ == old(buf)@ + enc_opt_color(*v),
{
    match v {
        None => crate::wire::push_u8(buf, 0),
        Some(c) => {
            crate::wire::push_u8(buf, 1);
            push_color(buf, c);
        },
    }
    proof {
        assert(buf@ =~= old(buf)@ + enc_opt_color(*v));
    }
}

/// Append the bytes of an optional entity kind.
fn push_opt_objtype(buf: &mut Vec<u8>, v: &Option<ObjType>)
    ensures
        final(buf)@ == old(buf)@ + enc_opt_objtype(*v),
{
    match v {
        None => crate::wire::push_u8(buf, 0),
        Some(t) => {
            crate::wire::push_u8(buf, 1);
            push_objtype(buf, *t);
        },
    }
    proof {
        assert(buf@ =~= old(buf)@ + enc_opt_objtype(*v));
    }
}

/// Append the bytes of sparse camera attributes.
fn push_cam_opt(buf: &mut Vec<u8>, c: &CameraAttrOpt)
    ensures
        final(buf)@ == old(buf)@ + enc_cam_opt(*c),
{
    push_opt_u32(buf, &c.fov);
    push_opt_u32(buf, &c.speed);
    push_opt_axis(buf, &c.yaw);
    push_opt_axis(buf, &c.pitch);
    push_opt_vec3(buf, &c.eye);
    push_opt_vec3(buf, &c.target);
    push_opt_vec3(buf, &c.up);
    proof {
        assert(buf@ =~= old(buf)@ + enc_cam_opt(*c));
    }
}

/// Append the body bytes of a full entity state.
fn push_uptobj(buf: &mut Vec<u8>, o: &UptObj)
    ensures
        final(buf)@ == old(buf)@ + enc_uptobj(*o),
{
    crate::wire::push_i8(buf, o.id);
    push_objtype(buf, o.kind);
    push_vec3(buf, &o.dim);
    push_color(buf, &o.color);
    push_cam(buf, &o.cam);
    crate::wire::push_u16(buf, o.keys.bits);
    proof {
        assert(buf@ =~= old(buf)@ + enc_uptobj(*o));
    }
}

/// Append the body bytes of a sparse entity update.
fn push_uptobjopt(buf: &mut Vec<u8>, o: &UptObjOpt)
    ensures
        final(buf)@ == old(buf)@ + enc_uptobjopt(*o),
{
    crate::wire::push_i8(buf, o.id);
    push_opt_objtype(buf, &o.kind);
    push_opt_vec3(buf, &o.dim);
    push_opt_color(buf, &o.color);
    push_cam_opt(buf, &o.cam);
    crate::wire::push_u16(buf, o.keys.bits);
    proof {
        assert(buf@ =~= old(buf)@ + enc_uptobjopt(*o));
    }
}

/// Encode a packet: its kind tag, then its body. The result always fits
/// the fixed packet buffer.
pub fn encode(p: &Packet) -> (r: Vec<u8>)
    ensures
        r@ == spec_encode(*p),
        r@.len() <= crate::PACKET_SIZE,
{
    let mut buf: Vec<u8> = Vec::new();
    match p {
        Packet::Handshake(h) => {
            crate::wire::push_u8(&mut buf, TAG_HANDSHAKE);
            crate::wire::push_u64(&mut buf, h.secret);
            push_opt_i8(&mut buf, &h.id);
        },
        Packet::Ping => {
            crate::wire::push_u8(&mut buf, TAG_PING);
        },
        Packet::Flush => {
            crate::wire::push_u8(&mut buf, TAG_FLUSH);
        },
        Packet::Input(i) => {
            crate::wire::push_u8(&mut buf, TAG_INPUT);
            match i {
                Input::Keyboard(k) => {
                    crate::wire::push_u8(&mut buf, SUBTAG_KEYBOARD);
                    crate::wire::push_u16(&mut buf, k.bits);
                    crate::wire::push_u8(&mut buf, k.is_pressed);
                },
                Input::Wheel(w) => {
                    crate::wire::push_u8(&mut buf, SUBTAG_WHEEL);
                    crate::wire::push_u32(&mut buf, w.precise_y);
                },
                Input::Motion(m) => {
                    crate::wire::push_u8(&mut buf, SUBTAG_MOTION);
                    crate::wire::push_i32(&mut buf, m.xrel);
                    crate::wire::push_i32(&mut buf, m.yrel);
                },
            }
        },
        Packet::AddEntity(o) => {
            crate::wire::push_u8(&mut buf, TAG_ADD_ENTITY);
            push_uptobj(&mut buf, o);
        },
        Packet::RemoveEntity(r) => {
            crate::wire::push_u8(&mut buf, TAG_REMOVE_ENTITY);
            crate::wire::push_i8(&mut buf, r.id);
        },
        Packet::UpdateEntity(o) => {
            crate::wire::push_u8(&mut buf, TAG_UPDATE_ENTITY);
            push_uptobjopt(&mut buf, o);
        },
    }
    proof {
        lemma_encode_fits(*p);
        assert(buf@ =~= spec_encode(*p));
    }
    buf
}

// ------------------------------------------------------------------
// The executable decoder: a cursor over the buffer, one reader per field
// type, each verified against its spec-level peeler.
// ------------------------------------------------------------------

/// Read the `u8` at the cursor, if the buffer still holds one.
fn take_u8(buf: &Vec<u8>, pos: usize) -> (r: Option<(u8, usize)>)
    requires
        pos <= buf@.len(),
    ensures
        match r {
            Some(t) => peel_u8(buf@.skip(pos as int)) == Some((t.0, buf@.skip(t.1 as int)))
                && pos < t.1 <= buf@.len(),
            None => peel_u8(buf@.skip(pos as int)) is None,
        },
{
    let n = buf.len();
    if n - pos >= 1 {
        let v = crate::wire::read_u8(buf, pos);
        Some((v, pos + 1))
    } else {
        None
    }
}

/// Read the `u16` at the cursor, if the buffer still holds one.
fn take_u16(buf: &Vec<u8>, pos: usize) -> (r: Option<(u16, usize)>)
    requires
        pos <= buf@.len(),
    ensures
        match r {
            Some(t) => peel_u16(buf@.skip(pos as int)) == Some((t.0, buf@.skip(t.1 as int)))
                && pos < t.1 <= buf@.len(),
            None => peel_u16(buf@.skip(pos as int)) is None,
        },
{
    let n = buf.len();
    if n - pos >= 2 {
        let v = crate::wire::read_u16(buf, pos);
        Some((v, pos + 2))
    } else {
        None
    }
}

/// Read the `u32` at the cursor, if the buffer still holds one.
fn take_u32(buf: &Vec<u8>, pos: usize) -> (r: Option<(u32, usize)>)
    requires
        pos <= buf@.len(),
    ensures
        match r {
            Some(t) => peel_u32(buf@.skip(pos as int)) == Some((t.0, buf@.skip(t.1 as int)))
                && pos < t.1 <= buf@.len(),
            None => peel_u32(buf@.skip(pos as int)) is None,
        },
{
    let n = buf.len();
    if n - pos >= 4 {
        let v = crate::wire::read_u32(buf, pos);
        Some((v, pos + 4))
    } else {
        None
    }
}

/// Read the `u64` at the cursor, if the buffer still holds one.
fn take_u64(buf: &Vec<u8>, pos: usize) -> (r: Option<(u64, usize)>)
    requires
        pos <= buf@.len(),
    ensures
        match r {
            Some(t) => peel_u64(buf@.skip(pos as int)) == Some((t.0, buf@.skip(t.1 as int)))
                && pos < t.1 <= buf@.len(),
            None => peel_u64(buf@.skip(pos as int)) is None,
        },
{
    let n = buf.len();
    if n - pos >= 8 {
        let v = crate::wire::read_u64(buf, pos);
        Some((v, pos + 8))
    } else {
        None
    }
}

/// Read the `i8` at the cursor, if the buffer still holds one.
fn take_i8(buf: &Vec<u8>, pos: usize) -> (r: Option<(i8, usize)>)
    requires
        pos <= buf@.len(),
    ensures
        match r {
            Some(t) => peel_i8(buf@.skip(pos as int)) == Some((t.0, buf@.skip(t.1 as int)))
                && pos < t.1 <= buf@.len(),
            None => peel_i8(buf@.skip(pos as int)) is None,
        },
{
    let n = buf.len();
    if n - pos >= 1 {
        let v = crate::wire::read_i8(buf, pos);
        Some((v, pos + 1))
    } else {
        None
    }
}

/// Read the `i32` at the cursor, if the buffer still holds one.
fn take_i32(buf: &Vec<u8>, pos: usize) -> (r: Option<(i32, usize)>)
    requires
        pos <= buf@.len(),
    ensures
        match r {
            Some(t) => peel_i32(buf@.skip(pos as int)) == Some((t.0, buf@.skip(t.1 as int)))
                && pos < t.1 <= buf@.len(),
            None => peel_i32(buf@.skip(pos as int)) is None,
        },
{
    let n = buf.len();
    if n - pos >= 4 {
        let v = crate::wire::read_i32(buf, pos);
        Some((v, pos + 4))
    } else {
        None
    }
}

/// Read the flag at the cursor, refusing any byte but zero or one.
fn take_bool(buf: &Vec<u8>, pos: usize) -> (r: Option<(bool, usize)>)
    requires
        pos <= buf@.len(),
    ensures
        match r {
            Some(t) => peel_bool(buf@.skip(pos as int)) == Some((t.0, buf@.skip(t.1 as int)))
                && pos < t.1 <= buf@.len(),
            None => peel_bool(buf@.skip(pos as int)) is None,
        },
{
    match take_u8(buf, pos) {
        Some((b, p2)) => if b == 0 {
            Some((false, p2))
        } else if b == 1 {
            Some((true, p2))
        } else {
            None
        },
        None => None,
    }
}

/// Read the entity kind at the cursor.
fn take_objtype(buf: &Vec<u8>, pos: usize) -> (r: Option<(ObjType, usize)>)
    requires
        pos <= buf@.len(),
    ensures
        match r {
            Some(t) => peel_objtype(buf@.skip(pos as int)) == Some((t.0, buf@.skip(t.1 as int)))
                && pos < t.1 <= buf@.len(),
            None => peel_objtype(buf@.skip(pos as int)) is None,
        },
{
    match take_u8(buf, pos) {
        Some((b, p2)) => if b == 1 {
            Some((ObjType::Basic, p2))
        } else if b == 2 {
            Some((ObjType::Player, p2))
        } else {
            None
        },
        None => None,
    }
}

/// Read the vector at the cursor.
fn take_vec3(buf: &Vec<u8>, pos: usize) -> (r: Option<(Vec3w, usize)>)
    requires
        pos <= buf@.len(),
    ensures
        match r {
            Some(t) => peel_vec3(buf@.skip(pos as int)) == Some((t.0, buf@.skip(t.1 as int)))
                && pos < t.1 <= buf@.len(),
            None => peel_vec3(buf@.skip(pos as int)) is None,
        },
{
    match take_u32(buf, pos) {
        Some((x, p1)) => match take_u32(buf, p1) {
            Some((y, p2)) => match take_u32(buf, p2) {
                Some((z, p3)) => Some((Vec3w { x, y, z }, p3)),
                None => None,
            },
            None => None,
        },
        None => None,
    }
}

/// Read the rotation axis at the cursor.
fn take_axis(buf: &Vec<u8>, pos: usize) -> (r: Option<(Axis, usize)>)
    requires
        pos <= buf@.len(),
    ensures
        match r {
            Some(t) => peel_axis(buf@.skip(pos as int)) == Some((t.0, buf@.skip(t.1 as int)))
                && pos < t.1 <= buf@.len(),
            None => peel_axis(buf@.skip(pos as int)) is None,
        },
{
    match take_u32(buf, pos) {
        Some((degrees, p1)) => match take_u32(buf, p1) {
            Some((radians, p2)) => match take_u32(buf, p2) {
                Some((sensitivity, p3)) => Some((Axis { degrees, radians, sensitivity }, p3)),
                None => None,
            },
            None => None,
        },
        None => None,
    }
}

/// Read the color at the cursor.
fn take_color(buf: &Vec<u8>, pos: usize) -> (r: Option<(Color, usize)>)
    requires
        pos <= buf@.len(),
    ensures
        match r {
            Some(t) => peel_color(buf@.skip(pos as int)) == Some((t.0, buf@.skip(t.1 as int)))
                && pos < t.1 <= buf@.len(),
            None => peel_color(buf@.skip(pos as int)) is None,
        },
{
    match take_u32(buf, pos) {
        Some((r, p1)) => match take_u32(buf, p1) {
            Some((g, p2)) => match take_u32(buf, p2) {
                Some((b, p3)) => match take_u32(buf, p3) {
                    Some((a, p4)) => match take_bool(buf, p4) {
                        Some((emits, p5)) => Some((Color { r, g, b, a, emits }, p5)),
                        None => None,
                    },
                    None => None,
                },
                None => None,
            },
            None => None,
        },
        None => None,
    }
}

/// Read the full camera attributes at the cursor.
fn take_cam(buf: &Vec<u8>, pos: usize) -> (r: Option<(CameraAttr, usize)>)
    requires
        pos <= buf@.len(),
    ensures
        match r {
            Some(t) => peel_cam(buf@.skip(pos as int)) == Some((t.0, buf@.skip(t.1 as int)))
                && pos < t.1 <= buf@.len(),
            None => peel_cam(buf@.skip(pos as int)) is None,
        },
{
    match take_u32(buf, pos) {
        Some((fov, p1)) => match take_u32(buf, p1) {
            Some((speed, p2)) => match take_axis(buf, p2) {
                Some((yaw, p3)) => match take_axis(buf, p3) {
                    Some((pitch, p4)) => match take_vec3(buf, p4) {
                        Some((eye, p5)) => match take_vec3(buf, p5) {
                            Some((target, p6)) => match take_vec3(buf, p6) {
                                Some((up, p7)) => Some(
                                    (CameraAttr { fov, speed, yaw, pitch, eye, target, up }, p7),
                                ),
                                None => None,
                            },
                            None => None,
                        },
                        None => None,
                    },
                    None => None,
                },
                None => None,
            },
            None => None,
        },
        None => None,
    }
}

/// Read the optional scalar at the cursor.
fn take_opt_u32(buf: &Vec<u8>, pos: usize) -> (r: Option<(Option<Word>, usize)>)
    requires
        pos <= buf@.len(),
    ensures
        match r {
            Some(t) => peel_opt_u32(buf@.skip(pos as int)) == Some((t.0, buf@.skip(t.1 as int)))
                && pos < t.1 <= buf@.len(),
            None => peel_opt_u32(buf@.skip(pos as int)) is None,
        },
{
    match take_u8(buf, pos) {
        Some((flag, p1)) => if flag == 0 {
            Some((None, p1))
        } else if flag == 1 {
            match take_u32(buf, p1) {
                Some((w, p2)) => Some((Some(w), p2)),
                None => None,
            }
        } else {
            None
        },
        None => None,
    }
}

/// Read the optional identity at the cursor.
fn take_opt_i8(buf: &Vec<u8>, pos: usize) -> (r: Option<(Option<Id>, usize)>)
    requires
        pos <= buf@.len(),
    ensures
        match r {
            Some(t) => peel_opt_i8(buf@.skip(pos as int)) == Some((t.0, buf@.skip(t.1 as int)))
                && pos < t.1 <= buf@.len(),
            None => peel_opt_i8(buf@.skip(pos as int)) is None,
        },
{
    match take_u8(buf, pos) {
        Some((flag, p1)) => if flag == 0 {
            Some((None, p1))
        } else if flag == 1 {
            match take_i8(buf, p1) {
                Some((id, p2)) => Some((Some(id), p2)),
                None => None,
            }
        } else {
            None
        },
        None => None,
    }
}

/// Read the optional rotation axis at the cursor.
fn take_opt_axis(buf: &Vec<u8>, pos: usize) -> (r: Option<(Option<Axis>, usize)>)
    requires
        pos <= buf@.len(),
    ensures
        match r {
            Some(t) => peel_opt_axis(buf@.skip(pos as int)) == Some((t.0, buf@.skip(t.1 as int)))
                && pos < t.1 <= buf@.len(),
            None => peel_opt_axis(buf@.skip(pos as int)) is None,
        },
{
    match take_u8(buf, pos) {
        Some((flag, p1)) => if flag == 0 {
            Some((None, p1))
        } else if flag == 1 {
            match take_axis(buf, p1) {
                Some((a, p2)) => Some((Some(a), p2)),
                None => None,
            }
        } else {
            None
        },
        None => None,
    }
}

/// Read the optional vector at the cursor.
fn take_opt_vec3(buf: &Vec<u8>, pos: usize) -> (r: Option<(Option<Vec3w>, usize)>)
    requires
        pos <= buf@.len(),
    ensures
        match r {
            Some(t) => peel_opt_vec3(buf@.skip(pos as int)) == Some((t.0, buf@.skip(t.1 as int)))
                && pos < t.1 <= buf@.len(),
            None => peel_opt_vec3(buf@.skip(pos as int)) is None,
        },
{
    match take_u8(buf, pos) {
        Some((flag, p1)) => if flag == 0 {
            Some((None, p1))
        } else if flag == 1 {
            match take_vec3(buf, p1) {
                Some((v, p2)) => Some((Some(v), p2)),
                None => None,
            }
        } else {
            None
        },
        None => None,
    }
}

/// Read the optional color at the cursor.
fn take_opt_color(buf: &Vec<u8>, pos: usize) -> (r: Option<(Option<Color>, usize)>)
    requires
        pos <= buf@.len(),
    ensures
        match r {
            Some(t) => peel_opt_color(buf@.skip(pos as int)) == Some((t.0, buf@.skip(t.1 as int)))
                && pos < t.1 <= buf@.len(),
            None => peel_opt_color(buf@.skip(pos as int)) is None,
        },
{
    match take_u8(buf, pos) {
        Some((flag, p1)) => if flag == 0 {
            Some((None, p1))
        } else if flag == 1 {
            match take_color(buf, p1) {
                Some((c, p2)) => Some((Some(c), p2)),
                None => None,
            }
        } else {
            None
        },
        None => None,
    }
}

/// Read the optional entity kind at the cursor.
fn take_opt_objtype(buf: &Vec<u8>, pos: usize) -> (r: Option<(Option<ObjType>, usize)>)
    requires
        pos <= buf@.len(),
    ensures
        match r {
            Some(t) => peel_opt_objtype(buf@.skip(pos as int)) == Some(
                (t.0, buf@.skip(t.1 as int)),
            ) && pos < t.1 <= buf@.len(),
            None => peel_opt_objtype(buf@.skip(pos as int)) is None,
        },
{
    match take_u8(buf, pos) {
        Some((flag, p1)) => if flag == 0 {
            Some((None, p1))
        } else if flag == 1 {
            match take_objtype(buf, p1) {
                Some((t, p2)) => Some((Some(t), p2)),
                None => None,
            }
        } else {
            None
        },
        None => None,
    }
}

/// Read the sparse camera attributes at the cursor.
fn take_cam_opt(buf: &Vec<u8>, pos: usize) -> (r: Option<(CameraAttrOpt, usize)>)
    requires
        pos <= buf@.len(),
    ensures
        match r {
            Some(t) => peel_cam_opt(buf@.skip(pos as int)) == Some((t.0, buf@.skip(t.1 as int)))
                && pos < t.1 <= buf@.len(),
            None => peel_cam_opt(buf@.skip(pos as int)) is None,
        },
{
    match take_opt_u32(buf, pos) {
        Some((fov, p1)) => match take_opt_u32(buf, p1) {
            Some((speed, p2)) => match take_opt_axis(buf, p2) {
                Some((yaw, p3)) => match take_opt_axis(buf, p3) {
                    Some((pitch, p4)) => match take_opt_vec3(buf, p4) {
                        Some((eye, p5)) => match take_opt_vec3(buf, p5) {
                            Some((target, p6)) => match take_opt_vec3(buf, p6) {
                                Some((up, p7)) => Some(
                                    (CameraAttrOpt { fov, speed, yaw, pitch, eye, target, up }, p7),
                                ),
                                None => None,
                            },
                            None => None,
                        },
                        None => None,
                    },
                    None => None,
                },
                None => None,
            },
            None => None,
        },
        None => None,
    }
}

/// Read the full entity state body at the cursor.
fn take_uptobj(buf: &Vec<u8>, pos: usize) -> (r: Option<(UptObj, usize)>)
    requires
        pos <= buf@.len(),
    ensures
        match r {
            Some(t) => peel_uptobj(buf@.skip(pos as int)) == Some((t.0, buf@.skip(t.1 as int)))
                && pos < t.1 <= buf@.len(),
            None => peel_uptobj(buf@.skip(pos as int)) is None,
        },
{
    match take_i8(buf, pos) {
        Some((id, p1)) => match take_objtype(buf, p1) {
            Some((kind, p2)) => match take_vec3(buf, p2) {
                Some((dim, p3)) => match take_color(buf, p3) {
                    Some((color, p4)) => match take_cam(buf, p4) {
                        Some((cam, p5)) => match take_u16(buf, p5) {
                            Some((bits, p6)) => Some(
                                (UptObj { id, kind, dim, color, cam, keys: Keys { bits } }, p6),
                            ),
                            None => None,
                        },
                        None => None,
                    },
                    None => None,
                },
                None => None,
            },
            None => None,
        },
        None => None,
    }
}

/// Read the sparse entity update body at the cursor.
fn take_uptobjopt(buf: &Vec<u8>, pos: usize) -> (r: Option<(UptObjOpt, usize)>)
    requires
        pos <= buf@.len(),
    ensures
        match r {
            Some(t) => peel_uptobjopt(buf@.skip(pos as int)) == Some((t.0, buf@.skip(t.1 as int)))
                && pos < t.1 <= buf@.len(),
            None => peel_uptobjopt(buf@.skip(pos as int)) is None,
        },
{
    match take_i8(buf, pos) {
        Some((id, p1)) => match take_opt_objtype(buf, p1) {
            Some((kind, p2)) => match take_opt_vec3(buf, p2) {
                Some((dim, p3)) => match take_opt_color(buf, p3) {
                    Some((color, p4)) => match take_cam_opt(buf, p4) {
                        Some((cam, p5)) => match take_u16(buf, p5) {
                            Some((bits, p6)) => Some(
                                (UptObjOpt { id, kind, dim, color, cam, keys: Keys { bits } }, p6),
                            ),
                            None => None,
                        },
                        None => None,
                    },
                    None => None,
                },
                None => None,
            },
            None => None,
        },
        None => None,
    }
}

/// The packet kind of a wire tag.
fn kind_of_tag(tag: u8) -> (r: Option<PacketKind>)
    ensures
        r == spec_kind_of_tag(tag),
{
    if tag == TAG_HANDSHAKE {
        Some(PacketKind::Handshake)
    } else if tag == TAG_PING {
        Some(PacketKind::Ping)
    } else if tag == TAG_FLUSH {
        Some(PacketKind::Flush)
    } else if tag == TAG_INPUT {
        Some(PacketKind::Input)
    } else if tag == TAG_ADD_ENTITY {
        Some(PacketKind::AddEntity)
    } else if tag == TAG_REMOVE_ENTITY {
        Some(PacketKind::RemoveEntity)
    } else if tag == TAG_UPDATE_ENTITY {
        Some(PacketKind::UpdateEntity)
    } else {
        None
    }
}

/// Decode a received buffer against the mask of kinds the current
/// protocol phase admits. A kind outside the mask is a protocol
/// violation, not a silent ignore; a buffer that is not a well-formed
/// packet, or has bytes left over, is malformed.
pub fn decode(buf: &Vec<u8>, mask: u8) -> (r: Result<Packet, PacketError>)
    ensures
        r == spec_decode(buf@, mask),
{
    proof {
        assert(buf@.skip(0) =~= buf@);
    }
    let n = buf.len();
    match take_u8(buf, 0) {
        None => Err(PacketError::Malformed),
        Some((tag, pos)) => match kind_of_tag(tag) {
            None => Err(PacketError::Malformed),
            Some(kind) => if !crate::packet::mask_allows(mask, kind) {
                Err(PacketError::unexpected(mask, kind))
            } else {
                match kind {
                    PacketKind::Handshake => match take_u64(buf, pos) {
                        Some((secret, p1)) => match take_opt_i8(buf, p1) {
                            Some((id, p2)) => if p2 == n {
                                Ok(Packet::Handshake(Handshake { secret, id }))
                            } else {
                                Err(PacketError::Malformed)
                            },
                            None => Err(PacketError::Malformed),
                        },
                        None => Err(PacketError::Malformed),
                    },
                    PacketKind::Ping => if pos == n {
                        Ok(Packet::Ping)
                    } else {
                        Err(PacketError::Malformed)
                    },
                    PacketKind::Flush => if pos == n {
                        Ok(Packet::Flush)
                    } else {
                        Err(PacketError::Malformed)
                    },
                    PacketKind::Input => match take_u8(buf, pos) {
                        Some((subtag, p1)) => if subtag == SUBTAG_KEYBOARD {
                            match take_u16(buf, p1) {
                                Some((bits, p2)) => match take_u8(buf, p2) {
                                    Some((is_pressed, p3)) => if p3 == n {
                                        Ok(
                                            Packet::Input(
                                                Input::Keyboard(Keyboard { bits, is_pressed }),
                                            ),
                                        )
                                    } else {
                                        Err(PacketError::Malformed)
                                    },
                                    None => Err(PacketError::Malformed),
                                },
                                None => Err(PacketError::Malformed),
                            }
                        } else if subtag == SUBTAG_WHEEL {
                            match take_u32(buf, p1) {
                                Some((precise_y, p2)) => if p2 == n {
                                    Ok(Packet::Input(Input::Wheel(Wheel { precise_y })))
                                } else {
                                    Err(PacketError::Malformed)
                                },
                                None => Err(PacketError::Malformed),
                            }
                        } else if subtag == SUBTAG_MOTION {
                            match take_i32(buf, p1) {
                                Some((xrel, p2)) => match take_i32(buf, p2) {
                                    Some((yrel, p3)) => if p3 == n {
                                        Ok(Packet::Input(Input::Motion(Motion { xrel, yrel })))
                                    } else {
                                        Err(PacketError::Malformed)
                                    },
                                    None => Err(PacketError::Malformed),
                                },
                                None => Err(PacketError::Malformed),
                            }
                        } else {
                            Err(PacketError::Malformed)
                        },
                        None => Err(PacketError::Malformed),
                    },
                    PacketKind::AddEntity => match take_uptobj(buf, pos) {
                        Some((o, p1)) => if p1 == n {
                            Ok(Packet::AddEntity(o))
                        } else {
                            Err(PacketError::Malformed)
                        },
                        None => Err(PacketError::Malformed),
                    },
                    PacketKind::RemoveEntity => match take_i8(buf, pos) {
                        Some((id, p1)) => if p1 == n {
                            Ok(Packet::RemoveEntity(RemObj { id }))
                        } else {
                            Err(PacketError::Malformed)
                        },
                        None => Err(PacketError::Malformed),
                    },
                    PacketKind::UpdateEntity => match take_uptobjopt(buf, pos) {
                        Some((o, p1)) => if p1 == n {
                            Ok(Packet::UpdateEntity(o))
                        } else {
                            Err(PacketError::Malformed)
                        },
                        None => Err(PacketError::Malformed),
                    },
                }
            },
        },
    }
}

} // verus!
