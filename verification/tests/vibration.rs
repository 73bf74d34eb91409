use sculk_vibration::game_event::GameEvent;
use sculk_vibration::math::{BlockPos, Vec3Bits};
use sculk_vibration::nbt::NbtCompound;
use sculk_vibration::particle::vibration_particle_data;
use sculk_vibration::sculk_sensor::{
    BlockSnapshot, SculkSensorPhase, SculkSensorProperties,
};
use sculk_vibration::vibration::{
    chunks_around, f32_bits_less_than, is_ignored_when_sneaking, is_occluded, is_valid_vibration,
    redstone_strength, AffectedState, GameEventContext, ListenerParticle, ReceivedVibration,
    SculkSensorVibrationUser, SourceEntity, VibrationData, VibrationInfo, VibrationListener,
    VibrationSelector,
};
use uuid::Uuid;

fn floor_ticks(distance: u32) -> i32 {
    f32::from_bits(distance).floor() as i32
}

fn vec3(x: f64, y: f64, z: f64) -> Vec3Bits {
    Vec3Bits { x: x.to_bits(), y: y.to_bits(), z: z.to_bits() }
}

fn info(event: GameEvent, distance: f32, tick: i64) -> VibrationInfo {
    VibrationInfo {
        game_event: event,
        pos: vec3(0.0, 0.0, 0.0),
        source_entity: None,
        source_entity_uuid: None,
        distance: distance.to_bits(),
        tick,
    }
}

fn entity(uuid: u128) -> SourceEntity {
    SourceEntity { uuid, is_spectator: false, dampens_vibrations: false, is_sneaking: false }
}

#[test]
fn vibration_vibration_particle_encodes_block_destination_and_arrival() {
    assert_eq!(
        vibration_particle_data(BlockPos { x: 0, y: 0, z: 0 }, 300),
        [0, 0, 0, 0, 0, 0, 0, 0, 0, 0xAC, 0x02]
    );
}

#[test]
fn particle_data_packs_position_and_small_arrival() {
    // x = 1 lands at bit 38, z = 2 at bit 12, y = 3 at bit 0.
    let packed: u64 = (1u64 << 38) | (2u64 << 12) | 3;
    let mut expected = vec![0u8];
    expected.extend_from_slice(&packed.to_be_bytes());
    expected.push(5);
    assert_eq!(vibration_particle_data(BlockPos { x: 1, y: 3, z: 2 }, 5), expected);
}

#[test]
fn particle_data_wraps_negative_coordinates_and_arrival() {
    let packed: u64 = ((((-1i64) & 0x3FF_FFFF) << 38) | (((-1i64) & 0x3FF_FFFF) << 12)
        | ((-1i64) & 0xFFF)) as u64;
    let mut expected = vec![0u8];
    expected.extend_from_slice(&packed.to_be_bytes());
    // -1 as a variable-length integer of its 32 bits.
    expected.extend_from_slice(&[0xFF, 0xFF, 0xFF, 0xFF, 0x0F]);
    let data = vibration_particle_data(BlockPos { x: -1, y: -1, z: -1 }, -1);
    assert_eq!(data, expected);
    assert_eq!(data.len(), 14);
}

#[test]
fn shared_vibration_filters_use_vanilla_tags() {
    assert!(is_valid_vibration(GameEvent::Step, &GameEventContext::default()));
    assert!(!is_valid_vibration(GameEvent::JukeboxPlay, &GameEventContext::default()));
    let wool = AffectedState { state_id: 2093, dampens_vibrations: true };
    assert!(!is_valid_vibration(
        GameEvent::BlockPlace,
        &GameEventContext::default().with_affected_state(wool)
    ));
    assert!(is_ignored_when_sneaking(GameEvent::ProjectileShoot));
    assert!(!is_ignored_when_sneaking(GameEvent::ProjectileLand));
}

#[test]
fn entity_filters_spectators_dampening_and_sneaking() {
    let walker = entity(1);
    assert!(is_valid_vibration(GameEvent::Step, &GameEventContext::of_entity(walker)));
    let spectator = SourceEntity { is_spectator: true, ..walker };
    assert!(!is_valid_vibration(GameEvent::EntityDamage, &GameEventContext::of_entity(spectator)));
    let woolly = SourceEntity { dampens_vibrations: true, ..walker };
    assert!(!is_valid_vibration(GameEvent::Explode, &GameEventContext::of_entity(woolly)));
    let sneaker = SourceEntity { is_sneaking: true, ..walker };
    assert!(!is_valid_vibration(GameEvent::Step, &GameEventContext::of_entity(sneaker)));
    assert!(is_valid_vibration(GameEvent::Eat, &GameEventContext::of_entity(sneaker)));
    let stone = AffectedState { state_id: 1, dampens_vibrations: false };
    assert!(is_valid_vibration(
        GameEvent::BlockPlace,
        &GameEventContext::of_entity(walker).with_affected_state(stone)
    ));
}

#[test]
fn float_bits_order_matches_f32() {
    let values = [0.0f32, -0.0, 1.0, -1.0, 2.5, f32::INFINITY, f32::NEG_INFINITY, f32::NAN, 1e-40];
    for a in values {
        for b in values {
            assert_eq!(f32_bits_less_than(a.to_bits(), b.to_bits()), a < b, "{a} < {b}");
        }
    }
}

#[test]
fn selector_keeps_closest_of_the_tick() {
    let mut selector = VibrationSelector::new();
    selector.add_candidate(info(GameEvent::Step, 5.0, 100));
    selector.add_candidate(info(GameEvent::Step, 3.0, 100));
    assert_eq!(selector.candidate.unwrap().distance, 3.0f32.to_bits());
    selector.add_candidate(info(GameEvent::Explode, 4.0, 100));
    assert_eq!(selector.candidate.unwrap().game_event, GameEvent::Step);
    // Same distance: the higher frequency wins.
    selector.add_candidate(info(GameEvent::Explode, 3.0, 100));
    assert_eq!(selector.candidate.unwrap().game_event, GameEvent::Explode);
    // A later tick never replaces.
    selector.add_candidate(info(GameEvent::Step, 0.5, 101));
    assert_eq!(selector.candidate.unwrap().tick, 100);
}

#[test]
fn selector_chooses_only_after_its_tick() {
    let mut selector = VibrationSelector::new();
    assert_eq!(selector.choose_at(10), None);
    selector.add_candidate(info(GameEvent::Step, 5.0, 100));
    assert_eq!(selector.choose_at(100), None);
    assert!(selector.candidate.is_some());
    let chosen = selector.choose_at(101).unwrap();
    assert_eq!(chosen.tick, 100);
    assert_eq!(selector.candidate, None);
    assert_eq!(selector.choose_at(102), None);
}

#[test]
fn data_schedules_counts_down_and_delivers() {
    let mut data = VibrationData::new();
    data.selector_mut().add_candidate(info(GameEvent::Step, 2.7, 5));
    assert_eq!(data.try_select_and_schedule(5, &floor_ticks), None);
    let (origin, arrival) = data.try_select_and_schedule(6, &floor_ticks).unwrap();
    assert_eq!(origin, vec3(0.0, 0.0, 0.0));
    assert_eq!(arrival, 2);
    assert!(data.has_current_vibration());
    // Nothing else is set off while one is in flight.
    data.selector_mut().add_candidate(info(GameEvent::Step, 1.0, 6));
    assert_eq!(data.try_select_and_schedule(7, &floor_ticks), None);
    assert!(!data.tick_receive());
    assert!(data.tick_receive());
    let received = data.consume_current().unwrap();
    assert_eq!(received.tick, 5);
    assert!(!data.has_current_vibration());
    assert!(!data.tick_receive());
}

#[test]
fn listener_tick_sends_particle_and_waits_for_ticking_chunks() {
    let mut data = VibrationData::new();
    data.selector_mut().add_candidate(info(GameEvent::Step, 1.5, 0));
    let tick = data.listener_tick(1, false, &floor_ticks);
    assert_eq!(
        tick.particle,
        Some(ListenerParticle::Scheduled { origin: vec3(0.0, 0.0, 0.0), arrival_in_ticks: 1 })
    );
    assert!(tick.should_persist);
    assert_eq!(tick.vibration, None);
    assert_eq!(data.receive_time, 0);
    // Arrived, but the chunks around are not ticking: it stays in flight.
    let tick = data.listener_tick(2, false, &floor_ticks);
    assert_eq!(tick.particle, None);
    assert_eq!(tick.vibration, None);
    let tick = data.listener_tick(3, true, &floor_ticks);
    assert_eq!(tick.vibration.unwrap().game_event, GameEvent::Step);
    assert!(tick.should_persist);
    assert!(!data.has_current_vibration());
}

#[test]
fn reloaded_particle_is_drawn_once() {
    let mut data = VibrationData::new();
    data.current_vibration = Some(info(GameEvent::Eat, 6.5, -1));
    data.receive_time = 4;
    data.reload_particle = true;
    let p = data.reload_particle(&floor_ticks).unwrap();
    assert_eq!(p.receive_time, 4);
    assert_eq!(p.initial_time, 6);
    assert!(!data.reload_particle);
    assert_eq!(data.reload_particle(&floor_ticks), None);
}

#[test]
fn vibration_data_nbt_round_trips_in_flight_state() {
    let source = Uuid::from_u128(42).as_u128();
    let data = VibrationData {
        current_vibration: Some(VibrationInfo {
            game_event: GameEvent::ProjectileShoot,
            pos: vec3(1.25, 2.5, 3.75),
            source_entity: None,
            source_entity_uuid: Some(source),
            distance: 6.5f32.to_bits(),
            tick: -1,
        }),
        receive_time: 4,
        selector: VibrationSelector {
            candidate: Some(VibrationInfo {
                game_event: GameEvent::Step,
                pos: vec3(4.0, 5.0, 6.0),
                source_entity: None,
                source_entity_uuid: None,
                distance: 3.0f32.to_bits(),
                tick: 99,
            }),
        },
        reload_particle: false,
    };

    let restored = VibrationData::from_nbt(&data.to_nbt());
    let current = restored.current_vibration.as_ref().unwrap();
    let candidate = restored.selector.candidate.as_ref().unwrap();
    assert_eq!(current.game_event, GameEvent::ProjectileShoot);
    assert_eq!(current.pos, vec3(1.25, 2.5, 3.75));
    assert_eq!(current.source_entity_uuid, Some(source));
    assert_eq!(restored.receive_time, 4);
    assert!(restored.reload_particle);
    assert_eq!(candidate.game_event, GameEvent::Step);
    assert_eq!(candidate.tick, 99);
}

#[test]
fn saved_source_entity_comes_back_as_uuid() {
    let uuid = Uuid::from_u128(0x0123_4567_89AB_CDEF_FEDC_BA98_7654_3210).as_u128();
    let mut data = VibrationData::new();
    data.current_vibration = Some(VibrationInfo {
        source_entity: Some(entity(uuid)),
        ..info(GameEvent::Swim, 1.0, 7)
    });
    data.receive_time = -3;
    let restored = VibrationData::from_nbt(&data.to_nbt());
    let current = restored.current_vibration.unwrap();
    assert_eq!(current.source_entity, None);
    assert_eq!(current.source_entity_uuid, Some(uuid));
    assert_eq!(current.tick, -1);
    assert_eq!(restored.receive_time, 0);
    assert_eq!(restored.selector.candidate, None);
}

#[test]
fn loading_empty_or_broken_compounds() {
    let empty = NbtCompound::new();
    assert_eq!(VibrationData::from_nbt(&empty), VibrationData::new());
    assert_eq!(VibrationSelector::from_nbt(&empty), VibrationSelector::new());
    assert_eq!(VibrationInfo::from_nbt(&empty, 3), None);
    let mut saved = info(GameEvent::Step, 1.0, 3).to_nbt();
    assert!(VibrationInfo::from_nbt(&saved, 3).is_some());
    saved.put_string("game_event", "minecraft:no_such_event".to_string());
    assert_eq!(VibrationInfo::from_nbt(&saved, 3), None);
    let mut saved = info(GameEvent::Step, 1.0, 3).to_nbt();
    saved.put_list("pos", Vec::new());
    assert_eq!(VibrationInfo::from_nbt(&saved, 3), None);
}

#[test]
fn listener_hears_only_when_free_valid_and_unoccluded() {
    let pos = BlockPos { x: 0, y: 64, z: 0 };
    let mut listener = VibrationListener::new(pos);
    let ctx = GameEventContext::default();
    let source = vec3(3.0, 64.0, 0.0);
    assert!(!listener.handle_game_event(GameEvent::Step, &ctx, source, false, false, true, 3.0f32.to_bits(), 10));
    assert!(!listener.handle_game_event(GameEvent::Step, &ctx, source, true, true, true, 3.0f32.to_bits(), 10));
    assert!(!listener.handle_game_event(GameEvent::Step, &ctx, source, true, false, false, 3.0f32.to_bits(), 10));
    assert!(!listener.handle_game_event(GameEvent::JukeboxPlay, &ctx, source, true, false, true, 3.0f32.to_bits(), 10));
    assert!(listener.data.selector.candidate.is_none());
    assert!(listener.precheck_game_event(true, GameEvent::Step, &ctx));
    assert!(listener.handle_game_event(GameEvent::Step, &ctx, source, true, false, true, 3.0f32.to_bits(), 10));
    let candidate = listener.data.selector.candidate.unwrap();
    assert_eq!(candidate.pos, source);
    assert_eq!(candidate.tick, 10);
    listener.data.current_vibration = Some(candidate);
    assert!(!listener.precheck_game_event(true, GameEvent::Step, &ctx));
    assert!(!listener.handle_game_event(GameEvent::Step, &ctx, source, true, false, true, 1.0f32.to_bits(), 10));
}

#[test]
fn redstone_strength_scales_with_distance() {
    assert_eq!(redstone_strength(0, 7), 0);
    assert_eq!(redstone_strength(8, 0), 15);
    assert_eq!(redstone_strength(8, 9), 6);
    assert_eq!(redstone_strength(8, 14), 1);
    assert_eq!(redstone_strength(8, 40), 1);
}

#[test]
fn sculk_user_ignores_own_block_and_active_sensors() {
    let pos = BlockPos { x: 1, y: 2, z: 3 };
    let user = SculkSensorVibrationUser::new(pos, 8);
    assert_eq!(user.get_listener_radius(), 8);
    let inactive = BlockSnapshot::SculkSensor(SculkSensorProperties {
        sculk_sensor_phase: SculkSensorPhase::Inactive,
        power: 0,
        waterlogged: false,
    });
    let active = BlockSnapshot::SculkSensor(SculkSensorProperties {
        sculk_sensor_phase: SculkSensorPhase::Active,
        power: 3,
        waterlogged: false,
    });
    assert!(!user.can_receive_vibration(pos, pos, GameEvent::BlockPlace, inactive));
    assert!(user.can_receive_vibration(pos, pos, GameEvent::BlockChange, inactive));
    assert!(user.can_receive_vibration(pos, BlockPos { x: 0, y: 2, z: 3 }, GameEvent::BlockDestroy, inactive));
    assert!(!user.can_receive_vibration(pos, BlockPos { x: 0, y: 2, z: 3 }, GameEvent::Step, active));
    assert!(!user.can_receive_vibration(pos, BlockPos { x: 0, y: 2, z: 3 }, GameEvent::Step, BlockSnapshot::Other));
    assert_eq!(
        user.on_receive_vibration(inactive, GameEvent::Explode, 3),
        Some(ReceivedVibration { frequency: 15, power: 12 })
    );
    assert_eq!(user.on_receive_vibration(active, GameEvent::Explode, 3), None);
}

#[test]
fn chunks_around_cover_three_by_three() {
    let around = chunks_around(BlockPos { x: -1, y: 0, z: 17 });
    assert_eq!(
        around,
        vec![(-2, 0), (-2, 1), (-2, 2), (-1, 0), (-1, 1), (-1, 2), (0, 0), (0, 1), (0, 2)]
    );
}

#[test]
fn occlusion_needs_every_ray_blocked() {
    assert!(is_occluded(&vec![true; 6]));
    assert!(!is_occluded(&vec![true, true, false]));
    assert!(!is_occluded(&vec![false]));
}

#[test]
fn selector_keeps_best_of_a_run_of_offers() {
    let offers = [
        info(GameEvent::Step, 4.0, 20),
        info(GameEvent::Eat, 2.0, 20),
        info(GameEvent::Explode, 1.0, 21),
        info(GameEvent::Drink, 2.0, 20),
        info(GameEvent::Shear, 2.0, 20),
    ];
    let mut selector = VibrationSelector::new();
    for o in offers {
        selector.add_candidate(o);
    }
    // Eat and Drink tie on distance and frequency: the earlier is kept.
    assert_eq!(selector.candidate, Some(offers[1]));
}

#[test]
fn vibration_is_delivered_once_after_its_trip() {
    for trip_distance in [0.5f32, 1.0, 3.9, 6.0] {
        let mut data = VibrationData::new();
        data.selector_mut().add_candidate(info(GameEvent::Step, trip_distance, 10));
        let trip = trip_distance.floor() as i64;
        let arrival = if trip >= 1 { trip - 1 } else { 0 };
        let mut deliveries = Vec::new();
        for k in 0..12i64 {
            let tick = data.listener_tick(11 + k, true, &floor_ticks);
            if tick.vibration.is_some() {
                deliveries.push(k);
            }
        }
        assert_eq!(deliveries, vec![arrival], "distance {trip_distance}");
    }
}
