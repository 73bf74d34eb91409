use sculk_vibration::block_entity::{CalibratedSculkSensorBlockEntity, SculkSensorBlockEntity};
use sculk_vibration::game_event::GameEvent;
use sculk_vibration::math::{BlockDirection, BlockPos, HorizontalFacing, Vec3Bits};
use sculk_vibration::nbt::NbtCompound;
use sculk_vibration::sculk_sensor::{
    horizontal_facing_to_dir, is_phase_inactive, next_phase, transition_sound, BlockSnapshot,
    CalibratedSculkSensorProperties, ScheduledTickAction, SculkSensorBlock, SculkSensorPhase,
    SculkSensorProperties, SensorKind, TransitionSound, TriggerAction,
};
use sculk_vibration::vibration::{VibrationData, VibrationInfo};

fn sculk(phase: SculkSensorPhase, power: u8, waterlogged: bool) -> BlockSnapshot {
    BlockSnapshot::SculkSensor(SculkSensorProperties { sculk_sensor_phase: phase, power, waterlogged })
}

fn calibrated(facing: HorizontalFacing, phase: SculkSensorPhase, power: u8) -> BlockSnapshot {
    BlockSnapshot::CalibratedSculkSensor(CalibratedSculkSensorProperties {
        facing,
        sculk_sensor_phase: phase,
        power,
        waterlogged: false,
    })
}

#[test]
fn sensor_transition_sounds_respect_phase_and_waterlogging() {
    assert_eq!(
        transition_sound(SculkSensorPhase::Active, false),
        Some(TransitionSound::Clicking)
    );
    assert_eq!(
        transition_sound(SculkSensorPhase::Inactive, false),
        Some(TransitionSound::ClickingStop)
    );
    assert_eq!(transition_sound(SculkSensorPhase::Cooldown, false), None);
    assert_eq!(transition_sound(SculkSensorPhase::Active, true), None);
}

#[test]
fn phases_cycle_back_to_inactive() {
    assert_eq!(next_phase(SculkSensorPhase::Active), Some(SculkSensorPhase::Cooldown));
    assert_eq!(next_phase(SculkSensorPhase::Cooldown), Some(SculkSensorPhase::Inactive));
    assert_eq!(next_phase(SculkSensorPhase::Inactive), None);
}

#[test]
fn scheduled_ticks_cool_down_then_stop() {
    let first = SculkSensorBlock::on_scheduled_tick(sculk(SculkSensorPhase::Active, 9, false));
    assert_eq!(
        first,
        Some(ScheduledTickAction {
            new_state: sculk(SculkSensorPhase::Cooldown, 0, false),
            schedule_tick_delay: Some(10),
            sound: None,
        })
    );
    let second = SculkSensorBlock::on_scheduled_tick(first.unwrap().new_state);
    assert_eq!(
        second,
        Some(ScheduledTickAction {
            new_state: sculk(SculkSensorPhase::Inactive, 0, false),
            schedule_tick_delay: None,
            sound: Some(TransitionSound::ClickingStop),
        })
    );
    assert_eq!(SculkSensorBlock::on_scheduled_tick(second.unwrap().new_state), None);
    assert_eq!(SculkSensorBlock::on_scheduled_tick(BlockSnapshot::Other), None);
    let wet = SculkSensorBlock::on_scheduled_tick(sculk(SculkSensorPhase::Cooldown, 0, true));
    assert_eq!(wet.unwrap().sound, None);
}

#[test]
fn trigger_activates_inactive_sculk_sensor() {
    let pos = BlockPos { x: 4, y: 5, z: 6 };
    assert_eq!(
        SculkSensorBlock::trigger(pos, sculk(SculkSensorPhase::Inactive, 0, false), 7, None),
        TriggerAction::Activate {
            new_state: sculk(SculkSensorPhase::Active, 7, false),
            tick_delay: 30,
            sound: Some(TransitionSound::Clicking),
        }
    );
    assert_eq!(
        SculkSensorBlock::trigger(pos, sculk(SculkSensorPhase::Cooldown, 0, false), 7, None),
        TriggerAction::Nothing
    );
    assert_eq!(SculkSensorBlock::trigger(pos, BlockSnapshot::Other, 7, None), TriggerAction::Nothing);
}

#[test]
fn trigger_asks_calibrated_sensor_for_its_back_power() {
    let pos = BlockPos { x: 4, y: 5, z: 6 };
    let state = calibrated(HorizontalFacing::North, SculkSensorPhase::Inactive, 0);
    assert_eq!(
        SculkSensorBlock::trigger(pos, state, 7, None),
        TriggerAction::QueryBackPower {
            back_pos: BlockPos { x: 4, y: 5, z: 7 },
            direction: BlockDirection::South,
        }
    );
    assert_eq!(SculkSensorBlock::trigger(pos, state, 7, Some(3)), TriggerAction::Nothing);
    let activated = TriggerAction::Activate {
        new_state: calibrated(HorizontalFacing::North, SculkSensorPhase::Active, 7),
        tick_delay: 10,
        sound: Some(TransitionSound::Clicking),
    };
    assert_eq!(SculkSensorBlock::trigger(pos, state, 7, Some(7)), activated);
    assert_eq!(SculkSensorBlock::trigger(pos, state, 7, Some(0)), activated);
}

#[test]
fn placement_and_redstone_output() {
    assert_eq!(
        SculkSensorBlock::on_place(SensorKind::CalibratedSculkSensor, HorizontalFacing::East, true),
        BlockSnapshot::CalibratedSculkSensor(CalibratedSculkSensorProperties {
            facing: HorizontalFacing::East,
            sculk_sensor_phase: SculkSensorPhase::Inactive,
            power: 0,
            waterlogged: true,
        })
    );
    assert_eq!(
        SculkSensorBlock::on_place(SensorKind::SculkSensor, HorizontalFacing::East, false),
        sculk(SculkSensorPhase::Inactive, 0, false)
    );
    assert!(SculkSensorBlock::emits_redstone_power());
    assert_eq!(SculkSensorBlock::get_weak_redstone_power(sculk(SculkSensorPhase::Active, 12, false)), 12);
    assert_eq!(SculkSensorBlock::get_weak_redstone_power(sculk(SculkSensorPhase::Cooldown, 12, false)), 0);
    assert_eq!(
        SculkSensorBlock::get_weak_redstone_power(calibrated(HorizontalFacing::West, SculkSensorPhase::Active, 4)),
        4
    );
    assert_eq!(SculkSensorBlock::get_weak_redstone_power(BlockSnapshot::Other), 0);
    assert_eq!(SculkSensorBlock::get_comparator_output(Some(13)), Some(13));
    assert_eq!(SculkSensorBlock::get_comparator_output(Some(300)), Some(44));
    assert_eq!(SculkSensorBlock::get_comparator_output(None), None);
    assert_eq!(
        SculkSensorBlock::ids(),
        vec![SensorKind::SculkSensor, SensorKind::CalibratedSculkSensor]
    );
    let wet = sculk(SculkSensorPhase::Inactive, 0, true);
    assert_eq!(SculkSensorBlock::get_state_for_neighbor_update(wet), (wet, true));
    let dry = sculk(SculkSensorPhase::Inactive, 0, false);
    assert_eq!(SculkSensorBlock::get_state_for_neighbor_update(dry), (dry, false));
}

#[test]
fn facing_maps_to_direction() {
    assert_eq!(horizontal_facing_to_dir(HorizontalFacing::North), BlockDirection::North);
    assert_eq!(horizontal_facing_to_dir(HorizontalFacing::South), BlockDirection::South);
    assert_eq!(horizontal_facing_to_dir(HorizontalFacing::West), BlockDirection::West);
    assert_eq!(horizontal_facing_to_dir(HorizontalFacing::East), BlockDirection::East);
    assert!(is_phase_inactive(sculk(SculkSensorPhase::Inactive, 0, false)));
    assert!(!is_phase_inactive(BlockSnapshot::Other));
}

#[test]
fn block_entity_saves_frequency_and_listener() {
    let pos = BlockPos { x: 1, y: 2, z: 3 };
    let mut entity = SculkSensorBlockEntity::new(pos);
    assert_eq!(entity.resource_location(), "minecraft:sculk_sensor");
    assert_eq!(entity.listener_radius(), 8);
    assert_eq!(entity.get_position(), pos);
    entity.last_vibration_frequency = 11;
    entity.listener.data.current_vibration = Some(VibrationInfo {
        game_event: GameEvent::BlockChange,
        pos: Vec3Bits { x: 1.5f64.to_bits(), y: 2.0f64.to_bits(), z: 0.0f64.to_bits() },
        source_entity: None,
        source_entity_uuid: None,
        distance: 2.0f32.to_bits(),
        tick: 40,
    });
    entity.listener.data.receive_time = 2;
    let nbt = entity.chunk_data_nbt().unwrap();
    assert_eq!(nbt.get_string("id").map(|s| s.as_str()), Some("minecraft:sculk_sensor"));
    assert_eq!((nbt.get_int("x"), nbt.get_int("y"), nbt.get_int("z")), (Some(1), Some(2), Some(3)));
    assert_eq!(nbt.get_int("last_vibration_frequency"), Some(11));
    assert_eq!(nbt.entries.len(), 6);
    let loaded = SculkSensorBlockEntity::from_nbt(&nbt, pos);
    assert_eq!(loaded.last_vibration_frequency, 11);
    assert_eq!(loaded.listener.position, pos);
    let current = loaded.listener.data.current_vibration.unwrap();
    assert_eq!(current.game_event, GameEvent::BlockChange);
    assert_eq!(current.tick, -1);
    assert_eq!(loaded.listener.data.receive_time, 2);
    assert!(loaded.listener.data.reload_particle);

    let fresh = CalibratedSculkSensorBlockEntity::from_nbt(&NbtCompound::new(), pos);
    assert_eq!(fresh.resource_location(), "minecraft:calibrated_sculk_sensor");
    assert_eq!(fresh.listener_radius(), 16);
    assert_eq!(fresh.last_vibration_frequency, 0);
    assert_eq!(fresh.listener.data, VibrationData::new());
}

#[test]
fn trigger_works_at_the_edge_of_the_world_range() {
    let edge = BlockPos { x: i32::MAX, y: i32::MIN, z: i32::MAX };
    assert_eq!(
        SculkSensorBlock::trigger(edge, sculk(SculkSensorPhase::Inactive, 0, true), 5, None),
        TriggerAction::Activate {
            new_state: sculk(SculkSensorPhase::Active, 5, true),
            tick_delay: 30,
            sound: None,
        }
    );
    assert_eq!(
        SculkSensorBlock::trigger(edge, sculk(SculkSensorPhase::Active, 5, false), 5, None),
        TriggerAction::Nothing
    );
    // Facing north, the back neighbour is south: only z moves.
    let calibrated_edge = BlockPos { x: i32::MAX, y: i32::MIN, z: 0 };
    assert_eq!(
        SculkSensorBlock::trigger(
            calibrated_edge,
            calibrated(HorizontalFacing::North, SculkSensorPhase::Inactive, 0),
            5,
            None
        ),
        TriggerAction::QueryBackPower {
            back_pos: BlockPos { x: i32::MAX, y: i32::MIN, z: 1 },
            direction: BlockDirection::South,
        }
    );
}
