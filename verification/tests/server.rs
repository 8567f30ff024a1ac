//! The server's registry lifecycle, ingest path and tick scheduler.

use blazed_net::cfg::parse_tps;
use blazed_net::codec::encode;
use blazed_net::err::{HandshakeError, PacketError};
use blazed_net::keys::KEY_W;
use blazed_net::obj::Vec3w;
use blazed_net::packet::{
    Handshake, Input, Keyboard, Motion, Packet, PacketKind, RemObj, Wheel, MASK_HANDSHAKE,
    MASK_INPUT,
};
use blazed_net::patch::{write_attr, AttrWrite};
use blazed_net::registry::{Addr, IngestDecision, Registry};
use blazed_net::sched::{tick_decision, SchedDecision};

const SECRET: u64 = 0x5EC7_E7A1;

fn addr(port: u16) -> Addr {
    Addr { ip: 0x7F00_0001, port }
}

/// Run the whole handshake for one client and register it.
fn join(reg: &mut Registry, a: Addr) -> i8 {
    let hello = encode(&Packet::Handshake(Handshake { secret: SECRET, id: None }));
    let (id, reply) = reg.handle_handshake(&hello, SECRET).unwrap();
    assert_eq!(reply, Packet::Handshake(Handshake { secret: SECRET, id: Some(id) }));
    reg.register_client(id, a);
    id
}

#[test]
fn identities_are_monotonic_from_one() {
    let mut reg = Registry::new();
    assert_eq!(join(&mut reg, addr(50_000)), 1);
    assert_eq!(join(&mut reg, addr(50_001)), 2);
    assert_eq!(join(&mut reg, addr(50_002)), 3);
}

#[test]
fn wrong_secret_is_rejected_and_registry_unchanged() {
    let mut reg = Registry::new();
    join(&mut reg, addr(50_000));
    let bad = encode(&Packet::Handshake(Handshake { secret: SECRET + 1, id: None }));
    assert_eq!(reg.handle_handshake(&bad, SECRET), Err(HandshakeError::InvalidContent));
    assert_eq!(reg.len(), 1);
    assert!(!reg.contains_id(2));
}

#[test]
fn wrong_first_packet_is_invalid_type() {
    let mut reg = Registry::new();
    let ping = encode(&Packet::Ping);
    assert_eq!(reg.handle_handshake(&ping, SECRET), Err(HandshakeError::InvalidType));
    assert_eq!(reg.len(), 0);
}

#[test]
fn garbage_first_packet_is_unknown() {
    let mut reg = Registry::new();
    let garbage = vec![0xAB, 0xCD];
    assert_eq!(reg.handle_handshake(&garbage, SECRET), Err(HandshakeError::Unknown));
    assert_eq!(reg.len(), 0);
}

#[test]
fn second_clients_bulk_transfer_lists_only_the_first() {
    let mut reg = Registry::new();
    let first = join(&mut reg, addr(50_000));

    // The second client's bulk transfer is assembled before it is
    // registered.
    let hello = encode(&Packet::Handshake(Handshake { secret: SECRET, id: None }));
    let (second, _) = reg.handle_handshake(&hello, SECRET).unwrap();
    let bulk = reg.bulk_transfer();
    assert_eq!(bulk.len(), 2);
    match bulk[0] {
        Packet::AddEntity(state) => assert_eq!(state.id, first),
        ref other => panic!("expected a full entity state, got {:?}", other),
    }
    assert_eq!(bulk[1], Packet::Flush);
    for p in &bulk {
        if let Packet::AddEntity(state) = p {
            assert_ne!(state.id, second);
        }
    }
}

#[test]
fn teardown_removes_id_and_notifies_every_other_client_once() {
    let mut reg = Registry::new();
    let a = join(&mut reg, addr(50_000));
    let b = join(&mut reg, addr(50_001));

    let (gone, leave) = reg.teardown(addr(50_000)).unwrap();
    assert_eq!(gone, a);
    assert_eq!(leave, Packet::RemoveEntity(RemObj { id: a }));
    assert!(!reg.contains_id(a));
    assert_eq!(reg.len(), 1);

    let plan = reg.broadcast_plan(&leave);
    assert_eq!(plan.len(), 1);
    assert_eq!(plan[0], (b, leave));
}

#[test]
fn teardown_of_unknown_address_changes_nothing() {
    let mut reg = Registry::new();
    join(&mut reg, addr(50_000));
    assert_eq!(reg.teardown(addr(50_999)), None);
    assert_eq!(reg.len(), 1);
}

#[test]
fn registered_address_routes_input() {
    let mut reg = Registry::new();
    join(&mut reg, addr(50_000));
    let input = encode(&Packet::Input(Input::Wheel(Wheel { precise_y: 5 })));
    assert_eq!(
        reg.route_datagram(addr(50_000), &input),
        IngestDecision::Apply(Input::Wheel(Wheel { precise_y: 5 }))
    );
}

#[test]
fn unregistered_address_relays_handshake_only() {
    let reg = Registry::new();
    let hello = encode(&Packet::Handshake(Handshake { secret: SECRET, id: None }));
    assert_eq!(reg.route_datagram(addr(50_000), &hello), IngestDecision::RelayHandshake);

    let input = encode(&Packet::Input(Input::Motion(Motion { xrel: 1, yrel: 2 })));
    assert_eq!(
        reg.route_datagram(addr(50_000), &input),
        IngestDecision::Drop(PacketError::Unexpected {
            expected: MASK_HANDSHAKE,
            found: PacketKind::Input,
        })
    );
}

#[test]
fn registered_address_must_not_resend_handshake() {
    let mut reg = Registry::new();
    join(&mut reg, addr(50_000));
    let hello = encode(&Packet::Handshake(Handshake { secret: SECRET, id: None }));
    assert_eq!(
        reg.route_datagram(addr(50_000), &hello),
        IngestDecision::Drop(PacketError::Unexpected {
            expected: MASK_INPUT,
            found: PacketKind::Handshake,
        })
    );
}

#[test]
fn keyboard_press_wakes_only_from_empty() {
    let mut reg = Registry::new();
    join(&mut reg, addr(50_000));
    let wake = reg.apply_keyboard(addr(50_000), Keyboard { bits: KEY_W, is_pressed: 1 });
    assert!(wake);
    let wake_again = reg.apply_keyboard(addr(50_000), Keyboard { bits: 0b10, is_pressed: 1 });
    assert!(!wake_again);
    let release = reg.apply_keyboard(addr(50_000), Keyboard { bits: KEY_W, is_pressed: 0 });
    assert!(!release);
    assert!(!reg.is_idle());
    reg.apply_keyboard(addr(50_000), Keyboard { bits: 0b10, is_pressed: 0 });
    assert!(reg.is_idle());
}

#[test]
fn idle_scheduler_parks_and_first_input_flushes_within_one_tick() {
    let mut reg = Registry::new();
    let a = join(&mut reg, addr(50_000));

    // Idle window: nothing pending, no signal - the loop parks.
    assert_eq!(tick_decision(&reg, false), SchedDecision::Park);

    // First input after idling: the ingest path applies it and signals.
    let eye = Vec3w::new(1, 2, 3);
    reg.apply_movement(addr(50_000), eye);
    assert_eq!(tick_decision(&reg, true), SchedDecision::Flush);
    assert_eq!(tick_decision(&reg, false), SchedDecision::Flush);

    // The very next tick's drain carries the change.
    let drained = reg.drain_updates();
    assert_eq!(drained.len(), 1);
    assert_eq!(drained[0].id, a);
    assert_eq!(drained[0].cam.eye, Some(eye));

    // And the loop goes back to parking.
    assert_eq!(tick_decision(&reg, false), SchedDecision::Park);
    assert_eq!(reg.drain_updates().len(), 0);
}

#[test]
fn forward_input_broadcast_has_only_the_position_present() {
    // Server configured at 128 ticks per second.
    assert_eq!(parse_tps("128"), Ok(7_812_500));

    let mut reg = Registry::new();
    let a = join(&mut reg, addr(50_000));
    let b = join(&mut reg, addr(50_001));

    // Client A holds the forward key; the movement loop integrates one
    // step and records the new position.
    reg.apply_keyboard(addr(50_000), Keyboard { bits: KEY_W, is_pressed: 1 });
    let eye = Vec3w::new(0, 0, 0xBC44_9BA6);
    reg.apply_movement(addr(50_000), eye);

    // Within the next tick the patch goes out, position only.
    let drained = reg.drain_updates();
    assert_eq!(drained.len(), 1);
    let p = drained[0];
    assert_eq!(p.id, a);
    assert_eq!(p.cam.eye, Some(eye));
    assert_eq!(p.kind, None);
    assert_eq!(p.dim, None);
    assert_eq!(p.color, None);
    assert_eq!(p.cam.fov, None);
    assert_eq!(p.cam.speed, None);
    assert_eq!(p.cam.yaw, None);
    assert_eq!(p.cam.pitch, None);
    assert_eq!(p.cam.target, None);
    assert_eq!(p.cam.up, None);

    // The datagram fan-out reaches every registered client, the
    // originator included.
    let pkt = Packet::UpdateEntity(p);
    let plan = reg.broadcast_plan(&pkt);
    assert_eq!(plan.len(), 2);
    assert_eq!(plan[0].0, a);
    assert_eq!(plan[1].0, b);
}

#[test]
fn concurrent_writes_coalesce_to_the_last() {
    let mut reg = Registry::new();
    join(&mut reg, addr(50_000));

    reg.apply_wheel(addr(50_000), 0x42B4_0000);
    reg.apply_wheel(addr(50_000), 0x42DC_0000);
    reg.apply_movement(addr(50_000), Vec3w::new(1, 1, 1));
    reg.apply_movement(addr(50_000), Vec3w::new(2, 2, 2));

    let drained = reg.drain_updates();
    assert_eq!(drained.len(), 1);
    assert_eq!(drained[0].cam.fov, Some(0x42DC_0000));
    assert_eq!(drained[0].cam.eye, Some(Vec3w::new(2, 2, 2)));
}

#[test]
fn write_sequence_keeps_only_last_value_per_attribute() {
    let mut p = blazed_net::obj::UptObjOpt::empty(3);
    write_attr(&mut p, AttrWrite::Eye(Vec3w::new(1, 0, 0)));
    write_attr(&mut p, AttrWrite::Fov(77));
    write_attr(&mut p, AttrWrite::Eye(Vec3w::new(2, 0, 0)));
    write_attr(&mut p, AttrWrite::Eye(Vec3w::new(3, 0, 0)));
    assert_eq!(p.cam.eye, Some(Vec3w::new(3, 0, 0)));
    assert_eq!(p.cam.fov, Some(77));
    assert_eq!(p.cam.target, None);
    assert_eq!(p.id, 3);
}

#[test]
fn motion_marks_yaw_pitch_and_target() {
    let mut reg = Registry::new();
    join(&mut reg, addr(50_000));
    let yaw = blazed_net::obj::Axis { degrees: 1, radians: 2, sensitivity: 3 };
    let pitch = blazed_net::obj::Axis { degrees: 4, radians: 5, sensitivity: 6 };
    let target = Vec3w::new(7, 8, 9);
    reg.apply_motion(addr(50_000), yaw, pitch, target);
    let drained = reg.drain_updates();
    assert_eq!(drained.len(), 1);
    assert_eq!(drained[0].cam.yaw, Some(yaw));
    assert_eq!(drained[0].cam.pitch, Some(pitch));
    assert_eq!(drained[0].cam.target, Some(target));
    assert_eq!(drained[0].cam.eye, None);
    assert_eq!(drained[0].cam.fov, None);
}
