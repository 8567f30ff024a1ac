//! Round trips and rejections of the wire codec.

use blazed_net::codec::{decode, encode};
use blazed_net::err::PacketError;
use blazed_net::keys::{Keys, KEY_A, KEY_W};
use blazed_net::obj::{Axis, CameraAttr, CameraAttrOpt, Color, ObjType, UptObj, UptObjOpt, Vec3w};
use blazed_net::packet::{
    Handshake, Input, Keyboard, Motion, Packet, PacketKind, RemObj, Wheel, MASK_ADD_ENTITY,
    MASK_FLUSH, MASK_HANDSHAKE, MASK_INPUT, MASK_PING, MASK_REMOVE_ENTITY, MASK_UPDATE_ENTITY,
};
use blazed_net::PACKET_SIZE;

const MASK_ALL: u8 = MASK_HANDSHAKE | MASK_PING | MASK_FLUSH | MASK_INPUT | MASK_ADD_ENTITY
    | MASK_REMOVE_ENTITY | MASK_UPDATE_ENTITY;

fn sample_obj(id: i8) -> UptObj {
    UptObj {
        id,
        kind: ObjType::Player,
        dim: Vec3w::new(0x3F800000, 0x3F800000, 0x3F800000),
        color: Color::new(0x3F800000, 0, 0x3E800000, 0x3F000000, true),
        cam: CameraAttr::new(Vec3w::new(0x40A00000, 0xC0A00000, 0)),
        keys: Keys::from_bits(KEY_W | KEY_A),
    }
}

fn sample_patch(id: i8) -> UptObjOpt {
    UptObjOpt {
        id,
        kind: Some(ObjType::Basic),
        dim: None,
        color: Some(Color::new(1, 2, 3, 4, false)),
        cam: CameraAttrOpt {
            fov: Some(0x42B40000),
            speed: None,
            yaw: Some(Axis { degrees: 7, radians: 8, sensitivity: 9 }),
            pitch: None,
            eye: Some(Vec3w::new(10, 11, 12)),
            target: None,
            up: None,
        },
        keys: Keys::empty(),
    }
}

#[test]
fn roundtrip_client_handshake() {
    let p = Packet::Handshake(Handshake { secret: 0x0123_4567_89AB_CDEF, id: None });
    assert_eq!(decode(&encode(&p), MASK_HANDSHAKE), Ok(p));
}

#[test]
fn roundtrip_server_handshake() {
    let p = Packet::Handshake(Handshake { secret: 99, id: Some(-3) });
    assert_eq!(decode(&encode(&p), MASK_HANDSHAKE), Ok(p));
}

#[test]
fn roundtrip_ping_and_flush() {
    assert_eq!(decode(&encode(&Packet::Ping), MASK_PING), Ok(Packet::Ping));
    assert_eq!(decode(&encode(&Packet::Flush), MASK_FLUSH), Ok(Packet::Flush));
}

#[test]
fn roundtrip_keyboard() {
    let p = Packet::Input(Input::Keyboard(Keyboard { bits: KEY_W, is_pressed: 1 }));
    assert_eq!(decode(&encode(&p), MASK_INPUT), Ok(p));
}

#[test]
fn roundtrip_wheel() {
    let p = Packet::Input(Input::Wheel(Wheel { precise_y: 0xBF80_0000 }));
    assert_eq!(decode(&encode(&p), MASK_INPUT), Ok(p));
}

#[test]
fn roundtrip_motion() {
    let p = Packet::Input(Input::Motion(Motion { xrel: -17, yrel: 2_000_000 }));
    assert_eq!(decode(&encode(&p), MASK_INPUT), Ok(p));
}

#[test]
fn roundtrip_add_entity() {
    let p = Packet::AddEntity(sample_obj(5));
    assert_eq!(decode(&encode(&p), MASK_ADD_ENTITY), Ok(p));
}

#[test]
fn roundtrip_remove_entity() {
    let p = Packet::RemoveEntity(RemObj { id: -128 });
    assert_eq!(decode(&encode(&p), MASK_REMOVE_ENTITY), Ok(p));
}

#[test]
fn roundtrip_update_entity() {
    let p = Packet::UpdateEntity(sample_patch(4));
    assert_eq!(decode(&encode(&p), MASK_UPDATE_ENTITY), Ok(p));
}

#[test]
fn roundtrip_update_entity_all_present() {
    let full = sample_obj(9);
    let p = Packet::UpdateEntity(blazed_net::client::promote(&full));
    assert_eq!(decode(&encode(&p), MASK_ALL), Ok(p));
}

#[test]
fn mask_exclusion_is_unexpected() {
    let p = Packet::Ping;
    assert_eq!(
        decode(&encode(&p), MASK_FLUSH),
        Err(PacketError::Unexpected { expected: MASK_FLUSH, found: PacketKind::Ping })
    );
    let q = Packet::AddEntity(sample_obj(1));
    assert_eq!(
        decode(&encode(&q), MASK_INPUT),
        Err(PacketError::Unexpected { expected: MASK_INPUT, found: PacketKind::AddEntity })
    );
}

#[test]
fn empty_buffer_is_malformed() {
    assert_eq!(decode(&vec![], MASK_ALL), Err(PacketError::Malformed));
}

#[test]
fn unknown_tag_is_malformed() {
    assert_eq!(decode(&vec![0xEE], MASK_ALL), Err(PacketError::Malformed));
}

#[test]
fn truncated_body_is_malformed() {
    let mut bytes = encode(&Packet::Handshake(Handshake { secret: 1, id: None }));
    bytes.pop();
    assert_eq!(decode(&bytes, MASK_ALL), Err(PacketError::Malformed));
}

#[test]
fn trailing_bytes_are_malformed() {
    let mut bytes = encode(&Packet::Ping);
    bytes.push(0);
    assert_eq!(decode(&bytes, MASK_ALL), Err(PacketError::Malformed));
}

#[test]
fn bad_input_subtag_is_malformed() {
    let p = Packet::Input(Input::Wheel(Wheel { precise_y: 3 }));
    let mut bytes = encode(&p);
    bytes[1] = 0x44;
    assert_eq!(decode(&bytes, MASK_ALL), Err(PacketError::Malformed));
}

#[test]
fn every_packet_fits_the_buffer() {
    let packets = vec![
        Packet::Handshake(Handshake { secret: u64::MAX, id: Some(127) }),
        Packet::Ping,
        Packet::Flush,
        Packet::Input(Input::Motion(Motion { xrel: i32::MIN, yrel: i32::MAX })),
        Packet::AddEntity(sample_obj(127)),
        Packet::RemoveEntity(RemObj { id: 0 }),
        Packet::UpdateEntity(blazed_net::client::promote(&sample_obj(-1))),
    ];
    for p in packets {
        assert!(encode(&p).len() <= PACKET_SIZE);
    }
}

#[test]
fn tag_byte_leads_the_frame() {
    assert_eq!(encode(&Packet::Ping), vec![2]);
    assert_eq!(encode(&Packet::Flush), vec![3]);
    let hs = encode(&Packet::Handshake(Handshake { secret: 0x0102, id: None }));
    assert_eq!(hs, vec![1, 0x02, 0x01, 0, 0, 0, 0, 0, 0, 0]);
}
