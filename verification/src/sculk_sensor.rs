//! The sculk sensor blocks: their phases, what a vibration does to them, their redstone output.
use vstd::prelude::*;

use crate::math::{BlockDirection, BlockPos, HorizontalFacing};

verus! {

/// The phase of a sculk sensor.
#[derive(Clone, Copy, PartialEq, Eq, Structural, Debug)]
pub enum SculkSensorPhase {
    Inactive,
    Active,
    Cooldown,
}

/// The two sculk sensor blocks.
#[derive(Clone, Copy, PartialEq, Eq, Structural, Debug)]
pub enum SensorKind {
    SculkSensor,
    CalibratedSculkSensor,
}

/// The block state properties of a sculk sensor.
#[derive(Clone, Copy, PartialEq, Eq, Structural, Debug)]
pub struct SculkSensorProperties {
    pub sculk_sensor_phase: SculkSensorPhase,
    pub power: u8,
    pub waterlogged: bool,
}

/// The block state properties of a calibrated sculk sensor.
#[derive(Clone, Copy, PartialEq, Eq, Structural, Debug)]
pub struct CalibratedSculkSensorProperties {
    pub facing: HorizontalFacing,
    pub sculk_sensor_phase: SculkSensorPhase,
    pub power: u8,
    pub waterlogged: bool,
}

/// A block state as far as the sensor logic reads it.
#[derive(Clone, Copy, PartialEq, Eq, Structural, Debug)]
pub enum BlockSnapshot {
    SculkSensor(SculkSensorProperties),
    CalibratedSculkSensor(CalibratedSculkSensorProperties),
    /// Any other block.
    Other,
}

/// The sounds of a sensor changing phase.
#[derive(Clone, Copy, PartialEq, Eq, Structural, Debug)]
pub enum TransitionSound {
    /// `block.sculk_sensor.clicking`
    Clicking,
    /// `block.sculk_sensor.clicking_stop`
    ClickingStop,
}

pub open spec fn spec_next_phase(phase: SculkSensorPhase) -> Option<SculkSensorPhase> {
    match phase {
        SculkSensorPhase::Active => Some(SculkSensorPhase::Cooldown),
        SculkSensorPhase::Cooldown => Some(SculkSensorPhase::Inactive),
        SculkSensorPhase::Inactive => None,
    }
}

/// The phase a sensor moves to on its scheduled tick: active, then cooling down, then
/// inactive; an inactive sensor stays so.
pub fn next_phase(phase: SculkSensorPhase) -> (r: Option<SculkSensorPhase>)
    ensures
        r == spec_next_phase(phase),
{
    match phase {
        SculkSensorPhase::Active => Some(SculkSensorPhase::Cooldown),
        SculkSensorPhase::Cooldown => Some(SculkSensorPhase::Inactive),
        SculkSensorPhase::Inactive => None,
    }
}

pub open spec fn spec_transition_sound(phase: SculkSensorPhase, waterlogged: bool) -> Option<
    TransitionSound,
> {
    if waterlogged {
        None
    } else {
        match phase {
            SculkSensorPhase::Active => Some(TransitionSound::Clicking),
            SculkSensorPhase::Inactive => Some(TransitionSound::ClickingStop),
            SculkSensorPhase::Cooldown => None,
        }
    }
}

/// The sound of a sensor entering `phase`: none under water, none on cooling down.
pub fn transition_sound(phase: SculkSensorPhase, waterlogged: bool) -> (r: Option<TransitionSound>)
    ensures
        r == spec_transition_sound(phase, waterlogged),
{
    if waterlogged {
        return None;
    }
    match phase {
        SculkSensorPhase::Active => Some(TransitionSound::Clicking),
        SculkSensorPhase::Inactive => Some(TransitionSound::ClickingStop),
        SculkSensorPhase::Cooldown => None,
    }
}

pub open spec fn spec_horizontal_facing_to_dir(facing: HorizontalFacing) -> BlockDirection {
    match facing {
        HorizontalFacing::North => BlockDirection::North,
        HorizontalFacing::South => BlockDirection::South,
        HorizontalFacing::West => BlockDirection::West,
        HorizontalFacing::East => BlockDirection::East,
    }
}

/// The block direction of a horizontal facing.
pub fn horizontal_facing_to_dir(facing: HorizontalFacing) -> (r: BlockDirection)
    ensures
        r == spec_horizontal_facing_to_dir(facing),
{
    match facing {
        HorizontalFacing::North => BlockDirection::North,
        HorizontalFacing::South => BlockDirection::South,
        HorizontalFacing::West => BlockDirection::West,
        HorizontalFacing::East => BlockDirection::East,
    }
}

/// The phase of a sensor state; `None` for any other block.
pub open spec fn phase_of(state: BlockSnapshot) -> Option<SculkSensorPhase> {
    match state {
        BlockSnapshot::SculkSensor(p) => Some(p.sculk_sensor_phase),
        BlockSnapshot::CalibratedSculkSensor(p) => Some(p.sculk_sensor_phase),
        BlockSnapshot::Other => None,
    }
}

/// Whether the block is a sensor in the inactive phase.
pub fn is_phase_inactive(state: BlockSnapshot) -> (r: bool)
    ensures
        r == (phase_of(state) == Some(SculkSensorPhase::Inactive)),
{
    match state {
        BlockSnapshot::SculkSensor(p) => p.sculk_sensor_phase == SculkSensorPhase::Inactive,
        BlockSnapshot::CalibratedSculkSensor(p) => p.sculk_sensor_phase
            == SculkSensorPhase::Inactive,
        BlockSnapshot::Other => false,
    }
}

/// What triggering a sensor asks of the world.
#[derive(Clone, Copy, PartialEq, Eq, Structural, Debug)]
pub enum TriggerAction {
    /// Nothing happens.
    Nothing,
    /// A calibrated sensor needs the weak redstone power that the block at `back_pos` sends in
    /// `direction`; trigger again with it.
    QueryBackPower { back_pos: BlockPos, direction: BlockDirection },
    /// Set the new state, update the neighbours, schedule a tick after `tick_delay` ticks and
    /// play `sound` if there is one.
    Activate { new_state: BlockSnapshot, tick_delay: u32, sound: Option<TransitionSound> },
}

/// The phase transitions of a scheduled tick.
#[derive(Clone, Copy, PartialEq, Eq, Structural, Debug)]
pub struct ScheduledTickAction {
    /// Set this state, then update the neighbours.
    pub new_state: BlockSnapshot,
    /// Schedule another tick after this many ticks (on entering cooldown).
    pub schedule_tick_delay: Option<u32>,
    /// Play this sound (on going back to inactive).
    pub sound: Option<TransitionSound>,
}

/// The sculk sensor and calibrated sculk sensor blocks.
pub struct SculkSensorBlock;

/// The neighbour behind a calibrated sensor facing `facing`, and the direction from it.
pub open spec fn back_of(pos: BlockPos, facing: HorizontalFacing) -> (BlockPos, BlockDirection) {
    let back_dir = spec_horizontal_facing_to_dir(facing).spec_opposite();
    (pos.spec_offset(back_dir), back_dir)
}

/// Whether triggering computes the position behind the sensor: an inactive calibrated sensor
/// not yet told its back neighbour's power.
pub open spec fn needs_back_position(state: BlockSnapshot, back_power: Option<u8>) -> bool {
    &&& state matches BlockSnapshot::CalibratedSculkSensor(p)
    &&& p.sculk_sensor_phase == SculkSensorPhase::Inactive
    &&& back_power is None
}

/// The position behind a calibrated sensor at `pos` is within the range of the coordinates.
pub open spec fn back_in_range(pos: BlockPos, state: BlockSnapshot) -> bool {
    match state {
        BlockSnapshot::CalibratedSculkSensor(p) => pos.offset_in_range(
            spec_horizontal_facing_to_dir(p.facing).spec_opposite(),
        ),
        _ => true,
    }
}

/// What a vibration of redstone strength `power` does to the sensor in `state` at `pos`.
/// An inactive sculk sensor turns active with that power, to go on after 30 ticks. An inactive
/// calibrated sensor first needs the power `back_power` that its back neighbour sends: it
/// ignores the vibration when that power is set and differs from `power`, else it turns
/// active, to go on after 10 ticks. Anything else is left alone.
pub open spec fn spec_trigger(
    pos: BlockPos,
    state: BlockSnapshot,
    power: u8,
    back_power: Option<u8>,
) -> TriggerAction {
    match state {
        BlockSnapshot::SculkSensor(p) => if p.sculk_sensor_phase == SculkSensorPhase::Inactive {
            TriggerAction::Activate {
                new_state: BlockSnapshot::SculkSensor(
                    SculkSensorProperties {
                        sculk_sensor_phase: SculkSensorPhase::Active,
                        power,
                        ..p
                    },
                ),
                tick_delay: 30,
                sound: spec_transition_sound(SculkSensorPhase::Active, p.waterlogged),
            }
        } else {
            TriggerAction::Nothing
        },
        BlockSnapshot::CalibratedSculkSensor(p) => if p.sculk_sensor_phase
            == SculkSensorPhase::Inactive {
            match back_power {
                None => TriggerAction::QueryBackPower {
                    back_pos: back_of(pos, p.facing).0,
                    direction: back_of(pos, p.facing).1,
                },
                Some(calibrated) => if calibrated > 0 && calibrated != power {
                    TriggerAction::Nothing
                } else {
                    TriggerAction::Activate {
                        new_state: BlockSnapshot::CalibratedSculkSensor(
                            CalibratedSculkSensorProperties {
                                sculk_sensor_phase: SculkSensorPhase::Active,
                                power,
                                ..p
                            },
                        ),
                        tick_delay: 10,
                        sound: spec_transition_sound(SculkSensorPhase::Active, p.waterlogged),
                    }
                },
            }
        } else {
            TriggerAction::Nothing
        },
        BlockSnapshot::Other => TriggerAction::Nothing,
    }
}

/// The state after a scheduled tick: the next phase with power 0, a further tick on entering
/// cooldown, the stop sound on going back to inactive; nothing for an inactive sensor.
pub open spec fn spec_scheduled_tick(state: BlockSnapshot) -> Option<ScheduledTickAction> {
    match state {
        BlockSnapshot::SculkSensor(p) => match spec_next_phase(p.sculk_sensor_phase) {
            Some(next) => Some(
                ScheduledTickAction {
                    new_state: BlockSnapshot::SculkSensor(
                        SculkSensorProperties { sculk_sensor_phase: next, power: 0, ..p },
                    ),
                    schedule_tick_delay: if next == SculkSensorPhase::Cooldown {
                        Some(10u32)
                    } else {
                        None
                    },
                    sound: if next == SculkSensorPhase::Cooldown {
                        None
                    } else {
                        spec_transition_sound(SculkSensorPhase::Inactive, p.waterlogged)
                    },
                },
            ),
            None => None,
        },
        BlockSnapshot::CalibratedSculkSensor(p) => match spec_next_phase(p.sculk_sensor_phase) {
            Some(next) => Some(
                ScheduledTickAction {
                    new_state: BlockSnapshot::CalibratedSculkSensor(
                        CalibratedSculkSensorProperties {
                            sculk_sensor_phase: next,
                            power: 0,
                            ..p
                        },
                    ),
                    schedule_tick_delay: if next == SculkSensorPhase::Cooldown {
                        Some(10u32)
                    } else {
                        None
                    },
                    sound: if next == SculkSensorPhase::Cooldown {
                        None
                    } else {
                        spec_transition_sound(SculkSensorPhase::Inactive, p.waterlogged)
                    },
                },
            ),
            None => None,
        },
        BlockSnapshot::Other => None,
    }
}

/// The weak redstone power of a sensor state: its power while active, else 0.
pub open spec fn spec_weak_redstone_power(state: BlockSnapshot) -> u8 {
    match state {
        BlockSnapshot::SculkSensor(p) => if p.sculk_sensor_phase == SculkSensorPhase::Active {
            p.power
        } else {
            0
        },
        BlockSnapshot::CalibratedSculkSensor(p) => if p.sculk_sensor_phase
            == SculkSensorPhase::Active {
            p.power
        } else {
            0
        },
        BlockSnapshot::Other => 0,
    }
}

impl SculkSensorBlock {
    /// The blocks that behave so.
    pub fn ids() -> (r: Vec<SensorKind>)
        ensures
            r@ == seq![SensorKind::SculkSensor, SensorKind::CalibratedSculkSensor],
    {
        vec![SensorKind::SculkSensor, SensorKind::CalibratedSculkSensor]
    }

    /// Triggers the sensor in `state` at `pos` with redstone strength `power`; `back_power`
    /// is what the world answered to a `QueryBackPower`, if it was asked.
    pub fn trigger(pos: BlockPos, state: BlockSnapshot, power: u8, back_power: Option<u8>) -> (r:
        TriggerAction)
        requires
            needs_back_position(state, back_power) ==> back_in_range(pos, state),
        ensures
            r == spec_trigger(pos, state, power, back_power),
    {
        match state {
            BlockSnapshot::SculkSensor(p) => {
                if p.sculk_sensor_phase == SculkSensorPhase::Inactive {
                    TriggerAction::Activate {
                        new_state: BlockSnapshot::SculkSensor(
                            SculkSensorProperties {
                                sculk_sensor_phase: SculkSensorPhase::Active,
                                power,
                                waterlogged: p.waterlogged,
                            },
                        ),
                        tick_delay: 30,
                        sound: transition_sound(SculkSensorPhase::Active, p.waterlogged),
                    }
                } else {
                    TriggerAction::Nothing
                }
            },
            BlockSnapshot::CalibratedSculkSensor(p) => {
                if p.sculk_sensor_phase == SculkSensorPhase::Inactive {
                    match back_power {
                        None => {
                            let back_dir = horizontal_facing_to_dir(p.facing).opposite();
                            TriggerAction::QueryBackPower {
                                back_pos: pos.offset(back_dir),
                                direction: back_dir,
                            }
                        },
                        Some(calibrated) => {
                            if calibrated > 0 && calibrated != power {
                                TriggerAction::Nothing
                            } else {
                                TriggerAction::Activate {
                                    new_state: BlockSnapshot::CalibratedSculkSensor(
                                        CalibratedSculkSensorProperties {
                                            facing: p.facing,
                                            sculk_sensor_phase: SculkSensorPhase::Active,
                                            power,
                                            waterlogged: p.waterlogged,
                                        },
                                    ),
                                    tick_delay: 10,
                                    sound: transition_sound(
                                        SculkSensorPhase::Active,
                                        p.waterlogged,
                                    ),
                                }
                            }
                        },
                    }
                } else {
                    TriggerAction::Nothing
                }
            },
            BlockSnapshot::Other => TriggerAction::Nothing,
        }
    }

    /// The state of a sensor being placed: inactive with power 0, waterlogged when it replaces
    /// a water source; a calibrated sensor faces the way the placing player faces.
    pub fn on_place(kind: SensorKind, player_facing: HorizontalFacing, water_source: bool) -> (r:
        BlockSnapshot)
        ensures
            r == match kind {
                SensorKind::CalibratedSculkSensor => BlockSnapshot::CalibratedSculkSensor(
                    CalibratedSculkSensorProperties {
                        facing: player_facing,
                        sculk_sensor_phase: SculkSensorPhase::Inactive,
                        power: 0,
                        waterlogged: water_source,
                    },
                ),
                SensorKind::SculkSensor => BlockSnapshot::SculkSensor(
                    SculkSensorProperties {
                        sculk_sensor_phase: SculkSensorPhase::Inactive,
                        power: 0,
                        waterlogged: water_source,
                    },
                ),
            },
    {
        match kind {
            SensorKind::CalibratedSculkSensor => BlockSnapshot::CalibratedSculkSensor(
                CalibratedSculkSensorProperties {
                    facing: player_facing,
                    sculk_sensor_phase: SculkSensorPhase::Inactive,
                    power: 0,
                    waterlogged: water_source,
                },
            ),
            SensorKind::SculkSensor => BlockSnapshot::SculkSensor(
                SculkSensorProperties {
                    sculk_sensor_phase: SculkSensorPhase::Inactive,
                    power: 0,
                    waterlogged: water_source,
                },
            ),
        }
    }

    /// A neighbour changed: the state stays; a waterlogged sensor asks for a water tick (the
    /// second value).
    pub fn get_state_for_neighbor_update(state: BlockSnapshot) -> (r: (BlockSnapshot, bool))
        ensures
            r.0 == state,
            r.1 == match state {
                BlockSnapshot::SculkSensor(p) => p.waterlogged,
                BlockSnapshot::CalibratedSculkSensor(p) => p.waterlogged,
                BlockSnapshot::Other => false,
            },
    {
        let waterlogged = match state {
            BlockSnapshot::SculkSensor(p) => p.waterlogged,
            BlockSnapshot::CalibratedSculkSensor(p) => p.waterlogged,
            BlockSnapshot::Other => false,
        };
        (state, waterlogged)
    }

    /// Sensors are redstone power sources.
    pub fn emits_redstone_power() -> (r: bool)
        ensures
            r,
    {
        true
    }

    /// The weak redstone power the sensor sends out.
    pub fn get_weak_redstone_power(state: BlockSnapshot) -> (r: u8)
        ensures
            r == spec_weak_redstone_power(state),
    {
        match state {
            BlockSnapshot::SculkSensor(p) => {
                if p.sculk_sensor_phase == SculkSensorPhase::Active {
                    p.power
                } else {
                    0
                }
            },
            BlockSnapshot::CalibratedSculkSensor(p) => {
                if p.sculk_sensor_phase == SculkSensorPhase::Active {
                    p.power
                } else {
                    0
                }
            },
            BlockSnapshot::Other => 0,
        }
    }

    /// What a comparator reads: the frequency of the last vibration that the sensor's block
    /// entity received (its low byte); nothing without a sensor block entity.
    pub fn get_comparator_output(last_vibration_frequency: Option<i32>) -> (r: Option<u8>)
        ensures
            r == match last_vibration_frequency {
                Some(f) => Some(f as u8),
                None => None::<u8>,
            },
    {
        match last_vibration_frequency {
            Some(f) => Some(f as u8),
            None => None,
        }
    }

    /// The scheduled tick of the sensor in `state`.
    pub fn on_scheduled_tick(state: BlockSnapshot) -> (r: Option<ScheduledTickAction>)
        ensures
            r == spec_scheduled_tick(state),
    {
        match state {
            BlockSnapshot::SculkSensor(p) => {
                let next = match next_phase(p.sculk_sensor_phase) {
                    Some(n) => n,
                    None => return None,
                };
                let cooldown = next == SculkSensorPhase::Cooldown;
                Some(
                    ScheduledTickAction {
                        new_state: BlockSnapshot::SculkSensor(
                            SculkSensorProperties {
                                sculk_sensor_phase: next,
                                power: 0,
                                waterlogged: p.waterlogged,
                            },
                        ),
                        schedule_tick_delay: if cooldown {
                            Some(10)
                        } else {
                            None
                        },
                        sound: if cooldown {
                            None
                        } else {
                            transition_sound(SculkSensorPhase::Inactive, p.waterlogged)
                        },
                    },
                )
            },
            BlockSnapshot::CalibratedSculkSensor(p) => {
                let next = match next_phase(p.sculk_sensor_phase) {
                    Some(n) => n,
                    None => return None,
                };
                let cooldown = next == SculkSensorPhase::Cooldown;
                Some(
                    ScheduledTickAction {
                        new_state: BlockSnapshot::CalibratedSculkSensor(
                            CalibratedSculkSensorProperties {
                                facing: p.facing,
                                sculk_sensor_phase: next,
                                power: 0,
                                waterlogged: p.waterlogged,
                            },
                        ),
                        schedule_tick_delay: if cooldown {
                            Some(10)
                        } else {
                            None
                        },
                        sound: if cooldown {
                            None
                        } else {
                            transition_sound(SculkSensorPhase::Inactive, p.waterlogged)
                        },
                    },
                )
            },
            BlockSnapshot::Other => None,
        }
    }
}

/// The new state of a scheduled tick.
pub open spec fn after_scheduled_tick(state: BlockSnapshot) -> BlockSnapshot {
    match spec_scheduled_tick(state) {
        Some(a) => a.new_state,
        None => state,
    }
}

/// A sensor goes back to inactive within two scheduled ticks, and then stays there; scheduled
/// ticks leave its power at 0.
pub proof fn lemma_back_to_inactive(state: BlockSnapshot)
    requires
        phase_of(state) is Some,
    ensures
        phase_of(after_scheduled_tick(after_scheduled_tick(state))) == Some(
            SculkSensorPhase::Inactive,
        ),
        phase_of(state) == Some(SculkSensorPhase::Inactive) ==> spec_scheduled_tick(state) is None,
        spec_scheduled_tick(state) matches Some(a) ==> spec_weak_redstone_power(a.new_state) == 0,
{
}

/// Only an inactive sensor reacts to a vibration; once activated it sends out the
/// vibration's power, and a plain sensor needs nothing from the world to activate.
pub proof fn lemma_trigger_activates(
    pos: BlockPos,
    state: BlockSnapshot,
    power: u8,
    back_power: Option<u8>,
)
    ensures
        phase_of(state) != Some(SculkSensorPhase::Inactive) ==> spec_trigger(
            pos,
            state,
            power,
            back_power,
        ) == TriggerAction::Nothing,
        spec_trigger(pos, state, power, back_power) matches TriggerAction::Activate {
            new_state,
            ..
        } ==> spec_weak_redstone_power(new_state) == power && phase_of(new_state) == Some(
            SculkSensorPhase::Active,
        ),
        state is SculkSensor && phase_of(state) == Some(SculkSensorPhase::Inactive)
            ==> spec_trigger(pos, state, power, back_power) is Activate,
{
}

/// A calibrated sensor activates on a vibration whose power matches what its back neighbour
/// sends, or when the neighbour sends nothing.
pub proof fn lemma_calibrated_filter(
    pos: BlockPos,
    p: CalibratedSculkSensorProperties,
    power: u8,
    calibrated: u8,
)
    requires
        p.sculk_sensor_phase == SculkSensorPhase::Inactive,
    ensures
        spec_trigger(pos, BlockSnapshot::CalibratedSculkSensor(p), power, Some(calibrated))
            is Activate <==> (calibrated == 0 || calibrated == power),
{
}

/// A sensor out of its active phase has power 0.
pub open spec fn power_rests_at_zero(state: BlockSnapshot) -> bool {
    match state {
        BlockSnapshot::SculkSensor(p) => p.sculk_sensor_phase != SculkSensorPhase::Active ==> p.power
            == 0,
        BlockSnapshot::CalibratedSculkSensor(p) => p.sculk_sensor_phase != SculkSensorPhase::Active
            ==> p.power == 0,
        BlockSnapshot::Other => true,
    }
}

/// A sensor's power rests at 0 outside its active phase, whatever scheduled ticks and
/// triggers it goes through; phases only move from inactive to active (a trigger) and from
/// active to cooling down to inactive (scheduled ticks).
pub proof fn lemma_power_rests_at_zero(
    pos: BlockPos,
    state: BlockSnapshot,
    power: u8,
    back_power: Option<u8>,
)
    requires
        power_rests_at_zero(state),
    ensures
        power_rests_at_zero(after_scheduled_tick(state)),
        phase_of(after_scheduled_tick(state)) == match phase_of(state) {
            Some(phase) => match spec_next_phase(phase) {
                Some(next) => Some(next),
                None => Some(phase),
            },
            None => None,
        },
        spec_trigger(pos, state, power, back_power) matches TriggerAction::Activate {
            new_state,
            ..
        } ==> power_rests_at_zero(new_state) && phase_of(state) == Some(SculkSensorPhase::Inactive)
            && phase_of(new_state) == Some(SculkSensorPhase::Active),
{
}

/// The neighbour behind a calibrated sensor lies one step against the way it faces, and it
/// is asked for the power it sends back towards the sensor.
pub proof fn lemma_back_is_behind(pos: BlockPos, facing: HorizontalFacing)
    requires
        pos.offset_in_range(spec_horizontal_facing_to_dir(facing).spec_opposite()),
    ensures
        ({
            let (back, dir) = back_of(pos, facing);
            let (fx, fy, fz) = spec_horizontal_facing_to_dir(facing).spec_to_offset();
            &&& back.x == pos.x - fx
            &&& back.y == pos.y - fy
            &&& back.z == pos.z - fz
            &&& dir.spec_to_offset() == ((-fx) as i32, (-fy) as i32, (-fz) as i32)
        }),
{
}

} // verus!
