//! Client-side reconciliation, the entity mirror, input classification,
//! and the small timing helpers.

use blazed_net::cfg::{parse_tps, TpsError};
use blazed_net::client::{
    bulk_step, expect_server_handshake, promote, reconcile_control, reconcile_data, track_key,
    BulkStep, ControlAction, DataAction, KeyRouting, KeyTracker, Mirror,
};
use blazed_net::codec::encode;
use blazed_net::err::HandshakeError;
use blazed_net::fps::{ping_handler, ping_wait, tick_dur, Fps, Limit, PingStats};
use blazed_net::keys::{KeyState, Keys, KEY_CTRL, KEY_UP, KEY_W};
use blazed_net::obj::{ObjType, UptObj, UptObjOpt, Vec3w};
use blazed_net::packet::{Handshake, Packet, RemObj};
use blazed_net::patch::patch_obj;
use blazed_net::render::{program_for, InstanceKind, ProgramKind};
use blazed_net::{PING_MINIMUM, SECOND};

#[test]
fn ping_is_echoed() {
    assert_eq!(reconcile_control(1, &Packet::Ping), ControlAction::EchoPing);
}

#[test]
fn departure_removes_remote_entity() {
    assert_eq!(
        reconcile_control(1, &Packet::RemoveEntity(RemObj { id: 4 })),
        ControlAction::Remove { id: 4 }
    );
}

#[test]
fn own_state_confirms_instead_of_duplicating() {
    let own = UptObj::new_player(1);
    match reconcile_control(1, &Packet::AddEntity(own)) {
        ControlAction::ConfirmLocal(p) => {
            assert_eq!(p, promote(&own));
            assert_eq!(p.cam.fov, Some(own.cam.fov));
            assert_eq!(p.cam.up, Some(own.cam.up));
        },
        other => panic!("expected confirmation of the local player, got {:?}", other),
    }
}

#[test]
fn foreign_state_adds_remote_entity() {
    let other = UptObj::new_player(2);
    assert_eq!(reconcile_control(1, &Packet::AddEntity(other)), ControlAction::AddRemote(other));
}

#[test]
fn data_plane_splits_own_and_remote() {
    let mut upd = UptObjOpt::empty(2);
    upd.cam.eye = Some(Vec3w::new(1, 2, 3));
    assert_eq!(reconcile_data(2, &Packet::UpdateEntity(upd)), DataAction::ConfirmLocal(upd));
    assert_eq!(reconcile_data(1, &Packet::UpdateEntity(upd)), DataAction::PatchRemote(upd));
    assert_eq!(reconcile_data(1, &Packet::Ping), DataAction::Ignore);
}

#[test]
fn server_handshake_reply_carries_the_identity() {
    let reply = encode(&Packet::Handshake(Handshake { secret: 9, id: Some(5) }));
    assert_eq!(expect_server_handshake(&reply), Ok(5));

    let without_id = encode(&Packet::Handshake(Handshake { secret: 9, id: None }));
    assert_eq!(expect_server_handshake(&without_id), Err(HandshakeError::InvalidContent));

    let wrong_kind = encode(&Packet::Ping);
    assert_eq!(expect_server_handshake(&wrong_kind), Err(HandshakeError::InvalidType));
}

#[test]
fn bulk_phase_accepts_states_until_the_marker() {
    let state = UptObj::new_player(3);
    let add = encode(&Packet::AddEntity(state));
    assert_eq!(bulk_step(&add), Ok(BulkStep::Add(state)));

    let flush = encode(&Packet::Flush);
    assert_eq!(bulk_step(&flush), Ok(BulkStep::Done));

    let ping = encode(&Packet::Ping);
    assert!(bulk_step(&ping).is_err());
}

#[test]
fn mirror_creates_patches_and_deletes() {
    let mut m = Mirror::new();
    m.add(UptObj::new_player(2));
    m.add(UptObj::new_player(3));
    assert_eq!(m.len(), 2);

    // Patch only the position of entity 2; everything else untouched.
    let mut upd = UptObjOpt::empty(2);
    let eye = Vec3w::new(9, 9, 9);
    upd.cam.eye = Some(eye);
    assert!(m.apply_update(&upd));
    let two = m.get(2).unwrap();
    assert_eq!(two.cam.eye, eye);
    assert_eq!(two.cam.fov, UptObj::new_player(2).cam.fov);
    assert_eq!(two.kind, ObjType::Player);

    // An update for an unknown id changes nothing.
    let stray = UptObjOpt::empty(9);
    assert!(!m.apply_update(&stray));
    assert_eq!(m.len(), 2);

    // Delete on departure.
    assert!(m.remove(2));
    assert!(m.get(2).is_none());
    assert!(!m.remove(2));
    assert_eq!(m.len(), 1);

    // Connection loss clears every remote entity.
    m.clear();
    assert_eq!(m.len(), 0);
}

#[test]
fn mirror_replaces_a_record_with_the_same_id() {
    let mut m = Mirror::new();
    m.add(UptObj::new_player(2));
    let mut newer = UptObj::new_player(2);
    newer.cam.fov = 123;
    m.add(newer);
    assert_eq!(m.len(), 1);
    assert_eq!(m.get(2).unwrap().cam.fov, 123);
}

#[test]
fn patch_application_leaves_absent_attributes_untouched() {
    let mut o = UptObj::new_player(7);
    let before = o;
    let mut p = UptObjOpt::empty(7);
    p.dim = Some(Vec3w::new(4, 5, 6));
    patch_obj(&mut o, &p);
    assert_eq!(o.dim, Vec3w::new(4, 5, 6));
    assert_eq!(o.cam, before.cam);
    assert_eq!(o.color, before.color);
    assert_eq!(o.keys, before.keys);

    let empty = UptObjOpt::empty(7);
    let frozen = o;
    patch_obj(&mut o, &empty);
    assert_eq!(o, frozen);
}

#[test]
fn arrow_keys_are_normal_movement_keys_are_continuous() {
    let arrows = Keys::from_bits(KEY_UP | KEY_CTRL);
    assert!(arrows.is_normal());
    assert!(!arrows.is_continuous(KeyState::Player));

    let forward = Keys::from_bits(KEY_W);
    assert!(!forward.is_normal());
    assert!(forward.is_continuous(KeyState::Player));
    assert!(!forward.is_continuous(KeyState::Idle));
    assert!(!forward.is_continuous(KeyState::Typing));

    let mixed = Keys::from_bits(KEY_W | KEY_UP);
    assert!(!mixed.is_normal());
    assert!(!mixed.is_continuous(KeyState::Player));
}

#[test]
fn key_sets_accumulate_and_release() {
    let mut held = Keys::empty();
    assert!(held.is_empty());
    held.insert(Keys::from_bits(KEY_W));
    held.insert(Keys::from_bits(KEY_UP));
    assert!(held.contains(Keys::from_bits(KEY_W)));
    held.remove(Keys::from_bits(KEY_W));
    assert!(!held.contains(Keys::from_bits(KEY_W)));
    assert_eq!(held.bits(), KEY_UP);
}

#[test]
fn tick_rate_parsing_accepts_exactly_one_to_1024() {
    assert_eq!(parse_tps("128"), Ok(7_812_500));
    assert_eq!(parse_tps("1"), Ok(1_000_000_000));
    assert_eq!(parse_tps("1024"), Ok(976_562));
    assert_eq!(parse_tps("0"), Err(TpsError::OutOfRange));
    assert_eq!(parse_tps("1025"), Err(TpsError::OutOfRange));
    assert_eq!(parse_tps("99999999999999999999999"), Err(TpsError::OutOfRange));
    assert_eq!(parse_tps(""), Err(TpsError::NotANumber));
    assert_eq!(parse_tps("12a"), Err(TpsError::NotANumber));
    assert_eq!(parse_tps("-3"), Err(TpsError::NotANumber));
}

#[test]
fn interval_durations() {
    assert_eq!(tick_dur(120), SECOND / 120);
    assert_eq!(tick_dur(0), 0);
    assert_eq!(tick_dur(-5), 0);
}

#[test]
fn probe_interval_floor_is_enforced() {
    assert_eq!(ping_wait(PING_MINIMUM - 1), 1);
    assert_eq!(ping_wait(0), PING_MINIMUM);
    assert_eq!(ping_wait(PING_MINIMUM), 0);
    assert_eq!(ping_wait(PING_MINIMUM + 5), 0);
}

#[test]
fn ping_publication_resets_the_accumulator() {
    let mut stats = PingStats { ping: 0, rate: 31_000 };
    ping_handler(&mut stats);
    assert_eq!(stats.ping, 31_000);
    assert_eq!(stats.rate, 0);
}

#[test]
fn fps_counter_saturates_and_publishes() {
    let mut fps = Fps::default();
    for _ in 0..300 {
        fps.incr();
    }
    assert_eq!(fps.get(), 0);
    fps.reset();
    assert_eq!(fps.get(), i8::MAX);
    assert_eq!(fps.swap_target(60), 0);
    assert_eq!(fps.target(), 60);
}

#[test]
fn frame_limit_follows_the_target() {
    let mut limit = Limit::default();
    limit.set(120);
    assert_eq!(limit.get(), SECOND / 120);
    limit.set(0);
    assert_eq!(limit.get(), 0);
}

#[test]
fn held_keys_wake_the_movement_loop_only_from_empty() {
    let mut t = KeyTracker::default();
    let w = Keys::from_bits(KEY_W);
    let up = Keys::from_bits(KEY_UP);

    // The first held key wakes the loop; further ones do not.
    assert_eq!(track_key(&mut t, w, true, KeyState::Player), KeyRouting::Wake);
    assert_eq!(track_key(&mut t, w, true, KeyState::Player), KeyRouting::Held);
    assert_eq!(t.cont, w);

    // Releasing empties the held set; the next press wakes again.
    assert_eq!(track_key(&mut t, w, false, KeyState::Player), KeyRouting::Held);
    assert!(t.cont.is_empty());
    assert_eq!(track_key(&mut t, w, true, KeyState::Player), KeyRouting::Wake);

    // A once-per-press key forwards the whole once-per-press set.
    assert_eq!(track_key(&mut t, up, true, KeyState::Player), KeyRouting::Forward(up));
    assert_eq!(
        track_key(&mut t, up, false, KeyState::Player),
        KeyRouting::Forward(Keys::empty())
    );

    // Outside play, even a movement key is not continuous.
    let mut idle = KeyTracker::default();
    assert_eq!(track_key(&mut idle, w, true, KeyState::Idle), KeyRouting::Forward(w));
    assert!(idle.cont.is_empty());
}

#[test]
fn each_group_has_its_program() {
    assert_eq!(program_for(InstanceKind::SimpleCube), ProgramKind::Simple);
    assert_eq!(program_for(InstanceKind::NormalCube), ProgramKind::Normal);
}
