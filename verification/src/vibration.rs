//! Vibrations: which game events a listener hears, which of them it keeps, when it receives
//! the kept one, and how that state is saved.
use vstd::prelude::*;
use vstd::arithmetic::power2::{pow2, lemma_pow2_pos, lemma_pow2_unfold, lemma_pow2_strictly_increases};

use crate::game_event::{GameEvent, GameEventExt};
use crate::math::{BlockPos, Vec3Bits};
use crate::sculk_sensor::{is_phase_inactive, phase_of, BlockSnapshot, SculkSensorPhase};

verus! {

/// What the vibration logic reads of the entity that caused a game event.
#[derive(Clone, Copy, PartialEq, Eq, Structural, Debug)]
pub struct SourceEntity {
    pub uuid: u128,
    pub is_spectator: bool,
    /// Whether the entity wears something that dampens vibrations (wool armour).
    pub dampens_vibrations: bool,
    pub is_sneaking: bool,
}

/// A block state that a game event touched, with whether its block dampens vibrations.
#[derive(Clone, Copy, PartialEq, Eq, Structural, Debug)]
pub struct AffectedState {
    pub state_id: u16,
    pub dampens_vibrations: bool,
}

/// What is known about the cause of a game event.
#[derive(Clone, Copy, PartialEq, Eq, Structural, Debug)]
pub struct GameEventContext {
    pub source_entity: Option<SourceEntity>,
    pub affected_state: Option<AffectedState>,
}

impl Default for GameEventContext {
    fn default() -> (r: GameEventContext)
        ensures
            r.source_entity is None,
            r.affected_state is None,
    {
        GameEventContext { source_entity: None, affected_state: None }
    }
}

impl GameEventContext {
    /// The context of an event that `entity` caused.
    pub fn of_entity(entity: SourceEntity) -> (r: GameEventContext)
        ensures
            r == (GameEventContext { source_entity: Some(entity), affected_state: None }),
    {
        GameEventContext { source_entity: Some(entity), affected_state: None }
    }

    /// The same context, with the block state that the event touched.
    pub fn with_affected_state(self, state: AffectedState) -> (r: GameEventContext)
        ensures
            r == (GameEventContext { affected_state: Some(state), ..self }),
    {
        GameEventContext { affected_state: Some(state), ..self }
    }

    /// The entity that caused the event, if known.
    pub fn source_entity(&self) -> (r: Option<SourceEntity>)
        ensures
            r == self.source_entity,
    {
        self.source_entity
    }
}

/// Events that a sneaking entity makes without vibrating.
pub open spec fn spec_is_ignored_when_sneaking(event: GameEvent) -> bool {
    match event {
        GameEvent::HitGround | GameEvent::ProjectileShoot | GameEvent::Step | GameEvent::Swim
        | GameEvent::ItemInteractStart | GameEvent::ItemInteractFinish => true,
        _ => false,
    }
}

/// Whether a sneaking entity makes `event` without vibrating.
pub fn is_ignored_when_sneaking(event: GameEvent) -> (r: bool)
    ensures
        r == spec_is_ignored_when_sneaking(event),
{
    match event {
        GameEvent::HitGround | GameEvent::ProjectileShoot | GameEvent::Step | GameEvent::Swim
        | GameEvent::ItemInteractStart | GameEvent::ItemInteractFinish => true,
        _ => false,
    }
}

/// An event vibrates when it has a frequency, its source entity (if any) is not a spectator,
/// does not dampen vibrations and does not sneak through an event that sneaking hides, and the
/// block state it touched (if any) does not dampen vibrations.
pub open spec fn spec_is_valid_vibration(event: GameEvent, context: GameEventContext) -> bool {
    &&& event.spec_frequency() != 0
    &&& match context.source_entity {
        Some(entity) => !(entity.is_spectator || entity.dampens_vibrations || (entity.is_sneaking
            && spec_is_ignored_when_sneaking(event))),
        None => true,
    }
    &&& match context.affected_state {
        Some(state) => !state.dampens_vibrations,
        None => true,
    }
}

/// Whether `event`, in `context`, makes a vibration at all.
pub fn is_valid_vibration(event: GameEvent, context: &GameEventContext) -> (r: bool)
    ensures
        r == spec_is_valid_vibration(event, *context),
{
    if event.default_frequency() == 0 {
        return false;
    }
    if let Some(entity) = context.source_entity() {
        if entity.is_spectator || entity.dampens_vibrations || (entity.is_sneaking
            && is_ignored_when_sneaking(event)) {
            return false;
        }
    }
    match context.affected_state {
        Some(state) => !state.dampens_vibrations,
        None => true,
    }
}

/// Whether the bits of an `f32` are a NaN.
pub open spec fn f32_bits_is_nan(b: u32) -> bool {
    (b / 0x80_0000) % 256 == 255 && b % 0x80_0000 != 0
}

/// Where the bits of an `f32` fall on the number line: the magnitude, negated for negative
/// numbers (both zeros fall on 0).
pub open spec fn f32_bits_rank(b: u32) -> int {
    if b >= 0x8000_0000 {
        -((b - 0x8000_0000) as int)
    } else {
        b as int
    }
}

/// `a < b` for the two `f32` values whose bits are given: false when either is a NaN.
pub open spec fn f32_bits_lt(a: u32, b: u32) -> bool {
    !f32_bits_is_nan(a) && !f32_bits_is_nan(b) && f32_bits_rank(a) < f32_bits_rank(b)
}

fn f32_bits_nan(b: u32) -> (r: bool)
    ensures
        r == f32_bits_is_nan(b),
{
    (b / 0x80_0000) % 256 == 255 && b % 0x80_0000 != 0
}

fn f32_bits_rank_exec(b: u32) -> (r: i64)
    ensures
        r == f32_bits_rank(b),
{
    if b >= 0x8000_0000 {
        -((b - 0x8000_0000) as i64)
    } else {
        b as i64
    }
}

/// `a < b` for the two `f32` values whose bits are given.
pub fn f32_bits_less_than(a: u32, b: u32) -> (r: bool)
    ensures
        r == f32_bits_lt(a, b),
{
    !f32_bits_nan(a) && !f32_bits_nan(b) && f32_bits_rank_exec(a) < f32_bits_rank_exec(b)
}

/// A vibration on its way to a listener.
#[derive(Clone, Copy, PartialEq, Eq, Structural, Debug)]
pub struct VibrationInfo {
    pub game_event: GameEvent,
    /// Where the event happened.
    pub pos: Vec3Bits,
    /// The entity that caused it, while it is known.
    pub source_entity: Option<SourceEntity>,
    /// The UUID of the entity that caused it, once read back from saved data.
    pub source_entity_uuid: Option<u128>,
    /// The bits of the `f32` distance from the event to the listener.
    pub distance: u32,
    /// The world tick at which the event happened.
    pub tick: i64,
}

/// Whether `info` takes the place of the kept candidate `prev`: only an event of the same
/// tick can, by being closer or, at the same distance, by having a higher frequency.
pub open spec fn replaces(info: VibrationInfo, prev: VibrationInfo) -> bool {
    if info.tick != prev.tick {
        false
    } else if f32_bits_lt(info.distance, prev.distance) {
        true
    } else if f32_bits_lt(prev.distance, info.distance) {
        false
    } else {
        info.game_event.spec_frequency() > prev.game_event.spec_frequency()
    }
}

/// The candidate kept after `info` is offered to a selector holding `candidate`.
pub open spec fn candidate_after(
    candidate: Option<VibrationInfo>,
    info: VibrationInfo,
) -> Option<VibrationInfo> {
    match candidate {
        None => Some(info),
        Some(prev) => if replaces(info, prev) {
            Some(info)
        } else {
            candidate
        },
    }
}

/// Whether a candidate is there to be chosen at world time `time`: it happened before `time`.
pub open spec fn candidate_ready(candidate: Option<VibrationInfo>, time: i64) -> bool {
    match candidate {
        Some(info) => info.tick < time,
        None => false,
    }
}

/// Keeps the one vibration, of those heard, that a listener will receive next.
#[derive(Clone, Copy, PartialEq, Eq, Structural, Debug)]
pub struct VibrationSelector {
    pub candidate: Option<VibrationInfo>,
}

impl Default for VibrationSelector {
    fn default() -> (r: VibrationSelector)
        ensures
            r.candidate is None,
    {
        VibrationSelector::new()
    }
}

impl VibrationSelector {
    /// A selector with no candidate.
    pub fn new() -> (r: VibrationSelector)
        ensures
            r.candidate is None,
    {
        VibrationSelector { candidate: None }
    }

    /// Offers a vibration: it becomes the candidate when there is none, or when it
    /// `replaces` the one there is.
    pub fn add_candidate(&mut self, info: VibrationInfo)
        ensures
            final(self).candidate == candidate_after(old(self).candidate, info),
    {
        let should_replace = match &self.candidate {
            None => true,
            Some(prev) => {
                if info.tick != prev.tick {
                    false
                } else if f32_bits_less_than(info.distance, prev.distance) {
                    true
                } else if f32_bits_less_than(prev.distance, info.distance) {
                    false
                } else {
                    info.game_event.default_frequency() > prev.game_event.default_frequency()
                }
            },
        };
        if should_replace {
            self.candidate = Some(info);
        }
    }

    /// Takes the candidate out if it happened before `time`.
    pub fn choose_at(&mut self, time: i64) -> (r: Option<VibrationInfo>)
        ensures
            if candidate_ready(old(self).candidate, time) {
                &&& r == old(self).candidate
                &&& final(self).candidate is None
            } else {
                &&& r is None
                &&& *final(self) == *old(self)
            },
    {
        match self.candidate {
            Some(info) => {
                if info.tick < time {
                    self.candidate = None;
                    Some(info)
                } else {
                    None
                }
            },
            None => None,
        }
    }
}

/// What is needed to draw again the particle of a vibration in flight (after loading): where
/// it started, the ticks left and the ticks the whole trip takes.
#[derive(Clone, Copy, PartialEq, Eq, Structural, Debug)]
pub struct ParticleReload {
    pub origin: Vec3Bits,
    pub receive_time: i32,
    pub initial_time: i32,
}

/// The particle that a listener shows on a tick.
#[derive(Clone, Copy, PartialEq, Eq, Structural, Debug)]
pub enum ListenerParticle {
    /// A vibration just set off from `origin`, arriving in `arrival_in_ticks`.
    Scheduled { origin: Vec3Bits, arrival_in_ticks: i32 },
    /// A vibration in flight whose particle is drawn again, part of the way along.
    Reloaded(ParticleReload),
}

/// What one tick of a listener yields.
#[derive(Clone, Copy, PartialEq, Eq, Structural, Debug)]
pub struct ListenerTick {
    pub particle: Option<ListenerParticle>,
    /// The vibration received on this tick.
    pub vibration: Option<VibrationInfo>,
    /// Whether a vibration is in flight, so the listener's block entity is to be saved.
    pub should_persist: bool,
}

/// The ticks left after one more tick: counts down to 0 and stays there.
pub open spec fn count_down(receive_time: i32) -> i32 {
    if receive_time > 0 {
        (receive_time - 1) as i32
    } else {
        receive_time
    }
}

/// A listener's vibration state: the vibration in flight, the ticks until it arrives, and the
/// selector of the next one.
#[derive(Clone, Copy, PartialEq, Eq, Structural, Debug)]
pub struct VibrationData {
    pub current_vibration: Option<VibrationInfo>,
    pub receive_time: i32,
    pub selector: VibrationSelector,
    /// Set when loaded with a vibration in flight: its particle is to be drawn again.
    pub reload_particle: bool,
}

impl Default for VibrationData {
    fn default() -> (r: VibrationData)
        ensures
            r == VibrationData::spec_new(),
    {
        VibrationData::new()
    }
}

impl VibrationData {
    pub open spec fn spec_new() -> VibrationData {
        VibrationData {
            current_vibration: None,
            receive_time: 0,
            selector: VibrationSelector { candidate: None },
            reload_particle: false,
        }
    }

    /// No vibration in flight, none selected.
    pub fn new() -> (r: VibrationData)
        ensures
            r == VibrationData::spec_new(),
    {
        VibrationData {
            current_vibration: None,
            receive_time: 0,
            selector: VibrationSelector::new(),
            reload_particle: false,
        }
    }

    /// The selector, to offer it vibrations.
    pub fn selector_mut(&mut self) -> (r: &mut VibrationSelector)
        ensures
            *r == old(self).selector,
            *final(self) == (VibrationData { selector: *final(r), ..*old(self) }),
    {
        &mut self.selector
    }

    pub fn has_current_vibration(&self) -> (r: bool)
        ensures
            r == self.current_vibration is Some,
    {
        self.current_vibration.is_some()
    }

    /// Whether a selected vibration would be set off now, at world time `world_tick`.
    pub open spec fn can_schedule(self, world_tick: i64) -> bool {
        self.current_vibration is None && candidate_ready(self.selector.candidate, world_tick)
    }

    /// With no vibration in flight, takes the selected one if it happened before `world_tick`
    /// and sets it off: its trip takes what `travel_time` gives for its distance. Returns its
    /// origin and trip time.
    pub fn try_select_and_schedule<F: Fn(u32) -> i32>(
        &mut self,
        world_tick: i64,
        travel_time: &F,
    ) -> (r: Option<(Vec3Bits, i32)>)
        requires
            forall|d: u32| travel_time.requires((d,)),
        ensures
            if old(self).can_schedule(world_tick) {
                let info = old(self).selector.candidate->0;
                &&& travel_time.ensures((info.distance,), final(self).receive_time)
                &&& r == Some((info.pos, final(self).receive_time))
                &&& *final(self) == (VibrationData {
                    current_vibration: Some(info),
                    receive_time: final(self).receive_time,
                    selector: VibrationSelector { candidate: None },
                    reload_particle: old(self).reload_particle,
                })
            } else {
                &&& r is None
                &&& *final(self) == *old(self)
            },
    {
        if self.current_vibration.is_some() {
            return None;
        }
        let vib = match self.selector.choose_at(world_tick) {
            Some(v) => v,
            None => return None,
        };
        self.receive_time = travel_time(vib.distance);
        let particle = (vib.pos, self.receive_time);
        self.current_vibration = Some(vib);
        Some(particle)
    }

    /// Counts the trip down by one tick; true when the vibration in flight has arrived.
    pub fn tick_receive(&mut self) -> (r: bool)
        ensures
            *final(self) == (VibrationData {
                receive_time: count_down(old(self).receive_time),
                ..*old(self)
            }),
            r == (final(self).receive_time == 0 && final(self).current_vibration is Some),
    {
        if self.receive_time > 0 {
            self.receive_time = self.receive_time - 1;
        }
        self.receive_time == 0 && self.current_vibration.is_some()
    }

    /// Takes the vibration in flight out.
    pub fn consume_current(&mut self) -> (r: Option<VibrationInfo>)
        ensures
            r == old(self).current_vibration,
            *final(self) == (VibrationData { current_vibration: None, ..*old(self) }),
    {
        let r = self.current_vibration;
        self.current_vibration = None;
        r
    }

    /// Once after loading with a vibration in flight: what is needed to draw its particle
    /// again, its trip time given by `travel_time`. Clears the flag.
    pub fn reload_particle<F: Fn(u32) -> i32>(&mut self, travel_time: &F) -> (r: Option<
        ParticleReload,
    >)
        requires
            forall|d: u32| travel_time.requires((d,)),
        ensures
            *final(self) == (VibrationData { reload_particle: false, ..*old(self) }),
            if old(self).reload_particle && old(self).current_vibration is Some {
                let info = old(self).current_vibration->0;
                &&& r matches Some(p)
                &&& p.origin == info.pos
                &&& p.receive_time == old(self).receive_time
                &&& travel_time.ensures((info.distance,), p.initial_time)
            } else {
                r is None
            },
    {
        let flag = self.reload_particle;
        self.reload_particle = false;
        if !flag {
            return None;
        }
        match self.current_vibration {
            Some(vibration) => {
                let initial_time = travel_time(vibration.distance);
                Some(
                    ParticleReload {
                        origin: vibration.pos,
                        receive_time: self.receive_time,
                        initial_time,
                    },
                )
            },
            None => None,
        }
    }
    /// One tick of a listener: set off the selected vibration if none is in flight (else draw
    /// again a reloaded particle), count the trip down, and receive the vibration when it has
    /// arrived and the chunks around the listener are ticking.
    pub fn listener_tick<F: Fn(u32) -> i32>(
        &mut self,
        world_tick: i64,
        adjacent_chunks_ticking: bool,
        travel_time: &F,
    ) -> (r: ListenerTick)
        requires
            forall|d: u32| travel_time.requires((d,)),
        ensures
            (*final(self), r.vibration) == spec_listener_tick(
                *old(self),
                world_tick,
                adjacent_chunks_ticking,
                scheduled_trip(r),
            ),
            if old(self).can_schedule(world_tick) {
                let info = old(self).selector.candidate->0;
                &&& r.particle matches Some(ListenerParticle::Scheduled { origin, arrival_in_ticks })
                &&& origin == info.pos
                &&& travel_time.ensures((info.distance,), arrival_in_ticks)
                &&& r.should_persist
                &&& {
                    let left = count_down(arrival_in_ticks);
                    let arrived = left == 0 && adjacent_chunks_ticking;
                    &&& r.vibration == if arrived {
                        Some(info)
                    } else {
                        None
                    }
                    &&& *final(self) == (VibrationData {
                        current_vibration: if arrived {
                            None
                        } else {
                            Some(info)
                        },
                        receive_time: left,
                        selector: VibrationSelector { candidate: None },
                        reload_particle: old(self).reload_particle,
                    })
                }
            } else {
                &&& if old(self).reload_particle && old(self).current_vibration is Some {
                    let info = old(self).current_vibration->0;
                    &&& r.particle matches Some(ListenerParticle::Reloaded(p))
                    &&& p.origin == info.pos
                    &&& p.receive_time == old(self).receive_time
                    &&& travel_time.ensures((info.distance,), p.initial_time)
                } else {
                    r.particle is None
                }
                &&& r.should_persist == old(self).current_vibration is Some
                &&& {
                    let left = count_down(old(self).receive_time);
                    let arrived = left == 0 && old(self).current_vibration is Some
                        && adjacent_chunks_ticking;
                    &&& r.vibration == if arrived {
                        old(self).current_vibration
                    } else {
                        None
                    }
                    &&& *final(self) == (VibrationData {
                        current_vibration: if arrived {
                            None
                        } else {
                            old(self).current_vibration
                        },
                        receive_time: left,
                        selector: old(self).selector,
                        reload_particle: false,
                    })
                }
            },
    {
        let particle = match self.try_select_and_schedule(world_tick, travel_time) {
            Some((origin, arrival_in_ticks)) => Some(
                ListenerParticle::Scheduled { origin, arrival_in_ticks },
            ),
            None => match self.reload_particle(travel_time) {
                Some(p) => Some(ListenerParticle::Reloaded(p)),
                None => None,
            },
        };
        let should_persist = self.has_current_vibration();
        let vibration = if self.tick_receive() && adjacent_chunks_ticking {
            self.consume_current()
        } else {
            None
        };
        ListenerTick { particle, vibration, should_persist }
    }
}

/// A block that listens for vibrations, with its vibration state.
pub struct VibrationListener {
    pub position: BlockPos,
    pub data: VibrationData,
}

impl VibrationListener {
    /// A listener at `position` that has heard nothing.
    pub fn new(position: BlockPos) -> (r: VibrationListener)
        ensures
            r.position == position,
            r.data == VibrationData::spec_new(),
    {
        VibrationListener { position, data: VibrationData::new() }
    }

    /// Whether an event is worth asking the world about (occlusion, the user's say): it is in
    /// range, no vibration is in flight, and it vibrates.
    pub fn precheck_game_event(
        &self,
        within_range: bool,
        event: GameEvent,
        context: &GameEventContext,
    ) -> (r: bool)
        ensures
            r == (within_range && self.data.current_vibration is None && spec_is_valid_vibration(
                event,
                *context,
            )),
    {
        within_range && !self.data.has_current_vibration() && is_valid_vibration(event, context)
    }

    /// Hears a game event at `source_pos`, given what the world says of it: whether it is in
    /// the listener's range, whether a block occludes it, and whether the listener's user
    /// accepts it. A heard event is offered to the selector, with the entity that caused it.
    pub fn handle_game_event(
        &mut self,
        event: GameEvent,
        context: &GameEventContext,
        source_pos: Vec3Bits,
        within_range: bool,
        occluded: bool,
        user_accepts: bool,
        distance: u32,
        world_tick: i64,
    ) -> (r: bool)
        ensures
            r == (within_range && old(self).data.current_vibration is None
                && spec_is_valid_vibration(event, *context) && !occluded && user_accepts),
            final(self).position == old(self).position,
            final(self).data == if r {
                VibrationData {
                    selector: VibrationSelector {
                        candidate: candidate_after(
                            old(self).data.selector.candidate,
                            VibrationInfo {
                                game_event: event,
                                pos: source_pos,
                                source_entity: context.source_entity,
                                source_entity_uuid: None,
                                distance,
                                tick: world_tick,
                            },
                        ),
                    },
                    ..old(self).data
                }
            } else {
                old(self).data
            },
    {
        if !self.precheck_game_event(within_range, event, context) || occluded || !user_accepts {
            return false;
        }
        if self.data.has_current_vibration() {
            return false;
        }
        self.data.selector_mut().add_candidate(
            VibrationInfo {
                game_event: event,
                pos: source_pos,
                source_entity: context.source_entity(),
                source_entity_uuid: None,
                distance,
                tick: world_tick,
            },
        );
        true
    }
}

/// The redstone strength of a vibration heard by a listener of radius `listener_radius`, from
/// `scaled_distance`: the distance times 15 / radius, rounded down. 0 for a radius of 0; else
/// 15 less the scaled distance, at least 1.
pub open spec fn spec_redstone_strength(listener_radius: i32, scaled_distance: i32) -> i32 {
    if listener_radius == 0 {
        0
    } else if 15 - scaled_distance >= 1 {
        (15 - scaled_distance) as i32
    } else {
        1
    }
}

/// The redstone strength of a vibration; see `spec_redstone_strength`.
pub fn redstone_strength(listener_radius: i32, scaled_distance: i32) -> (r: i32)
    requires
        listener_radius == 0 || 15 - scaled_distance <= i32::MAX,
    ensures
        r == spec_redstone_strength(listener_radius, scaled_distance),
{
    if listener_radius == 0 {
        return 0;
    }
    let strength = 15 - scaled_distance;
    if strength >= 1 {
        strength
    } else {
        1
    }
}

/// A heard vibration's strength stays within a redstone signal's range: from 1 to 15 when the
/// listener has a radius and the scaled distance is not negative.
pub proof fn lemma_redstone_strength_range(listener_radius: i32, scaled_distance: i32)
    requires
        listener_radius != 0,
        scaled_distance >= 0,
    ensures
        1 <= spec_redstone_strength(listener_radius, scaled_distance) <= 15,
{
}

/// What a sculk sensor does with a vibration it receives: remember its frequency, and trigger
/// with its redstone strength.
#[derive(Clone, Copy, PartialEq, Eq, Structural, Debug)]
pub struct ReceivedVibration {
    pub frequency: i32,
    pub power: u8,
}

/// The listener behaviour of a sculk sensor block entity.
#[derive(Clone, Copy, PartialEq, Eq, Structural, Debug)]
pub struct SculkSensorVibrationUser {
    pub position: BlockPos,
    pub radius: i32,
}

impl SculkSensorVibrationUser {
    pub fn new(position: BlockPos, radius: i32) -> (r: SculkSensorVibrationUser)
        ensures
            r == (SculkSensorVibrationUser { position, radius }),
    {
        SculkSensorVibrationUser { position, radius }
    }

    /// How far the sensor hears.
    pub fn get_listener_radius(&self) -> (r: i32)
        ensures
            r == self.radius,
    {
        self.radius
    }

    /// A sensor hears an event unless it is the placing or breaking of the sensor's own
    /// block, and only while it is inactive (`listener_state` is the block at the listener).
    pub fn can_receive_vibration(
        &self,
        listener_pos: BlockPos,
        source_pos: BlockPos,
        event: GameEvent,
        listener_state: BlockSnapshot,
    ) -> (r: bool)
        ensures
            r == (!(source_pos == listener_pos && (event == GameEvent::BlockPlace || event
                == GameEvent::BlockDestroy)) && phase_of(listener_state) == Some(
                SculkSensorPhase::Inactive,
            )),
    {
        if source_pos == listener_pos && (event == GameEvent::BlockPlace || event
            == GameEvent::BlockDestroy) {
            return false;
        }
        is_phase_inactive(listener_state)
    }

    /// Receiving `event` heard at `scaled_distance` (see `spec_redstone_strength`): an
    /// inactive sensor remembers the event's frequency and triggers with the vibration's
    /// strength; a sensor in another phase does nothing.
    pub fn on_receive_vibration(
        &self,
        listener_state: BlockSnapshot,
        event: GameEvent,
        scaled_distance: i32,
    ) -> (r: Option<ReceivedVibration>)
        requires
            self.radius == 0 || 15 - scaled_distance <= i32::MAX,
        ensures
            r == if phase_of(listener_state) == Some(SculkSensorPhase::Inactive) {
                Some(
                    ReceivedVibration {
                        frequency: event.spec_frequency() as i32,
                        power: spec_redstone_strength(self.radius, scaled_distance) as u8,
                    },
                )
            } else {
                None
            },
    {
        if !is_phase_inactive(listener_state) {
            return None;
        }
        let frequency = event.default_frequency() as i32;
        let power = redstone_strength(self.radius, scaled_distance);
        Some(ReceivedVibration { frequency, power: power as u8 })
    }
}

/// The nine chunk columns around the one holding `listener`: those that must all be ticking
/// for the listener to receive a vibration, in order of x offset, then z offset.
pub open spec fn spec_chunks_around(listener: BlockPos) -> Seq<(i32, i32)> {
    let cx = (listener.x as int) / 16;
    let cz = (listener.z as int) / 16;
    Seq::new(9, |i: int| (((cx + i / 3 - 1) as i32), ((cz + i % 3 - 1) as i32)))
}

/// Lists the chunk columns around a listener.
pub fn chunks_around(listener: BlockPos) -> (r: Vec<(i32, i32)>)
    ensures
        r@ == spec_chunks_around(listener),
{
    let (cx, cz) = listener.chunk_position();
    let mut r: Vec<(i32, i32)> = Vec::new();
    let mut dx: i32 = -1;
    while dx <= 1
        invariant
            -1 <= dx <= 2,
            cx as int == (listener.x as int) / 16,
            cz as int == (listener.z as int) / 16,
            r@.len() == (dx + 1) * 3,
            forall|i: int| 0 <= i < r@.len() ==> #[trigger] r@[i] == spec_chunks_around(listener)[i],
        decreases 2 - dx,
    {
        let mut dz: i32 = -1;
        while dz <= 1
            invariant
                -1 <= dx <= 1,
                -1 <= dz <= 2,
                cx as int == (listener.x as int) / 16,
                cz as int == (listener.z as int) / 16,
                r@.len() == (dx + 1) * 3 + dz + 1,
                forall|i: int|
                    0 <= i < r@.len() ==> #[trigger] r@[i] == spec_chunks_around(listener)[i],
            decreases 2 - dz,
        {
            let ghost n = r@.len() as int;
            r.push((cx + dx, cz + dz));
            assert(n / 3 == dx + 1 && n % 3 == dz + 1);
            dz = dz + 1;
        }
        dx = dx + 1;
    }
    assert(r@ =~= spec_chunks_around(listener));
    r
}

/// Whether a vibration is occluded, given, for the rays cast in turn from the source towards
/// the listener (one per face of the source block, see `BlockDirection::all`), whether a
/// vibration-occluding block stopped it: occluded only when every ray was stopped. A caller
/// may stop casting at the first ray that got through.
pub fn is_occluded(rays_blocked: &Vec<bool>) -> (r: bool)
    ensures
        r == forall|i: int| 0 <= i < rays_blocked@.len() ==> rays_blocked@[i],
{
    let mut i: usize = 0;
    while i < rays_blocked.len()
        invariant
            i <= rays_blocked@.len(),
            forall|j: int| 0 <= j < i ==> rays_blocked@[j],
        decreases rays_blocked@.len() - i,
    {
        if !rays_blocked[i] {
            return false;
        }
        i = i + 1;
    }
    true
}

/// The ticks left after `n` ticks of counting down from `receive_time`.
pub open spec fn count_down_times(receive_time: i32, n: nat) -> i32
    decreases n,
{
    if n == 0 {
        receive_time
    } else {
        count_down(count_down_times(receive_time, (n - 1) as nat))
    }
}

/// A vibration sent on a trip of `t` ticks, `t` at least 1, has ticks left after each of the
/// first `t - 1` ticks and arrives on tick `t`; a trip of 0 or fewer ticks arrives on the
/// first tick.
pub proof fn lemma_arrives_after_trip(t: i32, n: nat)
    ensures
        t >= 1 && n < t ==> count_down_times(t, n) == t - n,
        t >= 1 && n >= t ==> count_down_times(t, n) == 0,
        t <= 0 ==> count_down_times(t, n) == t,
    decreases n,
{
    if n > 0 {
        lemma_arrives_after_trip(t, (n - 1) as nat);
    }
}

/// An event from a different tick never takes the place of the kept candidate.
pub proof fn lemma_other_tick_never_replaces(prev: VibrationInfo, info: VibrationInfo)
    requires
        prev.tick != info.tick,
    ensures
        candidate_after(Some(prev), info) == Some(prev),
{
}

/// Of two events of the same tick at different (non-NaN) distances, the closer one is kept,
/// whichever came first.
pub proof fn lemma_closer_is_kept(a: VibrationInfo, b: VibrationInfo)
    requires
        a.tick == b.tick,
        f32_bits_lt(a.distance, b.distance),
    ensures
        candidate_after(Some(a), b) == Some(a),
        candidate_after(Some(b), a) == Some(a),
{
}

/// Offering the kept candidate again changes nothing.
pub proof fn lemma_offer_again(candidate: Option<VibrationInfo>, info: VibrationInfo)
    ensures
        candidate_after(candidate_after(candidate, info), info) == candidate_after(
            candidate,
            info,
        ),
{
}

/// While a vibration is in flight, no other is set off.
pub proof fn lemma_one_vibration_in_flight(data: VibrationData, world_tick: i64)
    requires
        data.current_vibration is Some,
    ensures
        !data.can_schedule(world_tick),
{
}

/// The candidate kept after offering `offers`, in order, to a selector holding `candidate`.
pub open spec fn candidate_after_all(
    candidate: Option<VibrationInfo>,
    offers: Seq<VibrationInfo>,
) -> Option<VibrationInfo>
    decreases offers.len(),
{
    if offers.len() == 0 {
        candidate
    } else {
        candidate_after(candidate_after_all(candidate, offers.drop_last()), offers.last())
    }
}

/// Offer `i` of `offers` is at least as good as offer `j`: closer, or as close with a higher
/// frequency, or as close with the same frequency and offered no later.
pub open spec fn at_least_as_good(offers: Seq<VibrationInfo>, i: int, j: int) -> bool {
    let a = offers[i];
    let b = offers[j];
    ||| f32_bits_rank(a.distance) < f32_bits_rank(b.distance)
    ||| f32_bits_rank(a.distance) == f32_bits_rank(b.distance) && a.game_event.spec_frequency()
        > b.game_event.spec_frequency()
    ||| f32_bits_rank(a.distance) == f32_bits_rank(b.distance) && a.game_event.spec_frequency()
        == b.game_event.spec_frequency() && i <= j
}

/// `m` is the best of the offers of the first offer's tick.
pub open spec fn best_of_first_tick(offers: Seq<VibrationInfo>, m: int) -> bool {
    &&& 0 <= m < offers.len()
    &&& offers[m].tick == offers[0].tick
    &&& forall|j: int|
        0 <= j < offers.len() && offers[j].tick == offers[0].tick ==> at_least_as_good(
            offers,
            m,
            j,
        )
}

/// Offering a run of vibrations, none with a NaN distance, to an empty selector keeps the
/// best one of the first offer's tick: the closest, then the one with the highest frequency,
/// then the earliest offered. Offers of other ticks never displace it.
pub proof fn lemma_selector_keeps_best(offers: Seq<VibrationInfo>)
    requires
        offers.len() >= 1,
        forall|j: int| 0 <= j < offers.len() ==> !f32_bits_is_nan(#[trigger] offers[j].distance),
    ensures
        exists|m: int|
            best_of_first_tick(offers, m) && candidate_after_all(None, offers) == Some(
                #[trigger] offers[m],
            ),
    decreases offers.len(),
{
    let k = offers.len() - 1;
    if k == 0 {
        assert(candidate_after_all(None, offers.drop_last()) == None::<VibrationInfo>);
        assert(best_of_first_tick(offers, 0));
    } else {
        let prefix = offers.drop_last();
        assert forall|j: int| 0 <= j < prefix.len() implies !f32_bits_is_nan(
            #[trigger] prefix[j].distance,
        ) by {
            assert(prefix[j] == offers[j]);
        }
        lemma_selector_keeps_best(prefix);
        let m = choose|m: int|
            best_of_first_tick(prefix, m) && candidate_after_all(None, prefix) == Some(
                #[trigger] prefix[m],
            );
        let cur = offers[m];
        let x = offers[k];
        assert(prefix[m] == cur);
        assert(prefix[0] == offers[0]);
        assert forall|j: int|
            0 <= j < k && offers[j].tick == offers[0].tick implies at_least_as_good(
            offers,
            m,
            j,
        ) by {
            assert(prefix[j] == offers[j]);
            assert(at_least_as_good(prefix, m, j));
        }
        assert(!f32_bits_is_nan(offers[k].distance));
        assert(!f32_bits_is_nan(offers[m].distance));
        if replaces(x, cur) {
            assert forall|j: int|
                0 <= j < offers.len() && offers[j].tick == offers[0].tick implies at_least_as_good(
                offers,
                k,
                j,
            ) by {
                if j < k {
                    assert(at_least_as_good(offers, m, j));
                }
            }
            assert(best_of_first_tick(offers, k));
        } else {
            assert forall|j: int|
                0 <= j < offers.len() && offers[j].tick == offers[0].tick implies at_least_as_good(
                offers,
                m,
                j,
            ) by {
                if j < k {
                    assert(at_least_as_good(offers, m, j));
                }
            }
            assert(best_of_first_tick(offers, m));
        }
    }
}

/// What one listener tick does to the vibration state, and the vibration it receives, when a
/// selected vibration set off on it takes `trip` ticks.
pub open spec fn spec_listener_tick(
    data: VibrationData,
    world_tick: i64,
    adjacent_chunks_ticking: bool,
    trip: i32,
) -> (VibrationData, Option<VibrationInfo>) {
    if data.can_schedule(world_tick) {
        let info = data.selector.candidate->0;
        let left = count_down(trip);
        let arrived = left == 0 && adjacent_chunks_ticking;
        (
            VibrationData {
                current_vibration: if arrived {
                    None
                } else {
                    Some(info)
                },
                receive_time: left,
                selector: VibrationSelector { candidate: None },
                reload_particle: data.reload_particle,
            },
            if arrived {
                Some(info)
            } else {
                None
            },
        )
    } else {
        let left = count_down(data.receive_time);
        let arrived = left == 0 && data.current_vibration is Some && adjacent_chunks_ticking;
        (
            VibrationData {
                current_vibration: if arrived {
                    None
                } else {
                    data.current_vibration
                },
                receive_time: left,
                selector: data.selector,
                reload_particle: false,
            },
            if arrived {
                data.current_vibration
            } else {
                None
            },
        )
    }
}

/// The trip of the vibration that a listener tick set off, 0 when it set off none.
pub open spec fn scheduled_trip(tick: ListenerTick) -> i32 {
    match tick.particle {
        Some(ListenerParticle::Scheduled { arrival_in_ticks, .. }) => arrival_in_ticks,
        _ => 0,
    }
}

/// The state after `k` listener ticks at world ages `start`, `start + 1`, ..., the chunks
/// around ticking and each vibration set off taking `trip` ticks.
pub open spec fn state_after_ticks(data: VibrationData, start: int, trip: i32, k: nat) -> VibrationData
    decreases k,
{
    if k == 0 {
        data
    } else {
        spec_listener_tick(
            state_after_ticks(data, start, trip, (k - 1) as nat),
            (start + k - 1) as i64,
            true,
            trip,
        ).0
    }
}

/// The vibration received on tick `k` (counted from 0) of that run.
pub open spec fn received_on_tick(data: VibrationData, start: int, trip: i32, k: nat) -> Option<
    VibrationInfo,
> {
    spec_listener_tick(state_after_ticks(data, start, trip, k), (start + k) as i64, true, trip).1
}

/// The tick of the run on which a vibration set off on its first tick, taking `trip` ticks
/// (at least 0), arrives.
pub open spec fn arrival_tick(trip: i32) -> int {
    if trip >= 1 {
        trip - 1
    } else {
        0
    }
}

proof fn lemma_state_after_ticks(
    data: VibrationData,
    start: i64,
    trip: i32,
    c: VibrationInfo,
    k: nat,
)
    requires
        data.current_vibration is None,
        data.selector.candidate == Some(c),
        c.tick < start,
        trip >= 0,
    ensures
        1 <= k <= arrival_tick(trip) ==> {
            let d = state_after_ticks(data, start as int, trip, k);
            &&& d.current_vibration == Some(c)
            &&& d.selector.candidate is None
            &&& d.receive_time == trip - k
        },
        k > arrival_tick(trip) ==> {
            let d = state_after_ticks(data, start as int, trip, k);
            &&& d.current_vibration is None
            &&& d.selector.candidate is None
            &&& d.receive_time == 0
        },
    decreases k,
{
    if k > 0 {
        lemma_state_after_ticks(data, start, trip, c, (k - 1) as nat);
    }
}

/// A listener with no vibration in flight and one selected vibration `c`, from before world
/// age `start`, ticked at `start`, `start + 1`, ... with the chunks around ticking and nothing
/// more offered, receives `c` exactly once: on tick `trip - 1` of the run for a trip of at
/// least one tick, else on the first.
pub proof fn lemma_delivered_once(
    data: VibrationData,
    start: i64,
    trip: i32,
    c: VibrationInfo,
    k: nat,
)
    requires
        data.current_vibration is None,
        data.selector.candidate == Some(c),
        c.tick < start,
        trip >= 0,
    ensures
        received_on_tick(data, start as int, trip, k) == if k == arrival_tick(trip) {
            Some(c)
        } else {
            None
        },
{
    lemma_state_after_ticks(data, start, trip, c, k);
    assert(state_after_ticks(data, start as int, trip, 0) == data);
}

/// Whether the bits of an `f32` are a finite number (neither infinite nor NaN).
pub open spec fn f32_bits_is_finite(b: u32) -> bool {
    (b / 0x80_0000) % 256 != 255
}

/// The value of a finite non-negative `f32` from the 31 bits below its sign, times 2^149 (so
/// that every such value is an integer): the significand `m` times 2^-149 below the smallest
/// exponent, else (2^23 + m) times 2^(e - 150) for biased exponent `e`.
pub open spec fn f32_magnitude_value(mag: int) -> int {
    let e = mag / 0x80_0000;
    let m = mag % 0x80_0000;
    if e == 0 {
        m
    } else {
        (0x80_0000 + m) * pow2((e - 1) as nat)
    }
}

/// The value of a finite `f32` given by its bits, times 2^149.
pub open spec fn f32_bits_value(b: u32) -> int {
    if b >= 0x8000_0000 {
        -f32_magnitude_value(b - 0x8000_0000)
    } else {
        f32_magnitude_value(b as int)
    }
}

/// Larger magnitude bits below the infinities stand for larger values.
proof fn lemma_magnitude_value_increasing(x: int, y: int)
    requires
        0 <= x < y < 0x7F80_0000,
    ensures
        0 <= f32_magnitude_value(x) < f32_magnitude_value(y),
{
    let ex = x / 0x80_0000;
    let mx = x % 0x80_0000;
    let ey = y / 0x80_0000;
    let my = y % 0x80_0000;
    assert(x == ex * 0x80_0000 + mx && y == ey * 0x80_0000 + my) by (nonlinear_arith)
        requires
            ex == x / 0x80_0000,
            mx == x % 0x80_0000,
            ey == y / 0x80_0000,
            my == y % 0x80_0000,
    ;
    assert(ex <= ey) by (nonlinear_arith)
        requires
            x == ex * 0x80_0000 + mx,
            y == ey * 0x80_0000 + my,
            0 <= mx < 0x80_0000,
            0 <= my < 0x80_0000,
            x < y,
    ;
    if ex > 0 {
        lemma_pow2_pos((ex - 1) as nat);
    }
    if ey > 0 {
        lemma_pow2_pos((ey - 1) as nat);
    }
    if ex == ey {
        assert(mx < my);
        if ex > 0 {
            let p = pow2((ex - 1) as nat);
            assert((0x80_0000 + mx) * p < (0x80_0000 + my) * p) by (nonlinear_arith)
                requires
                    mx < my,
                    p > 0,
            ;
        }
    } else {
        let q = pow2((ey - 1) as nat);
        assert(0x80_0000 <= (0x80_0000 + my) * q) by (nonlinear_arith)
            requires
                q >= 1,
                my >= 0,
        ;
        if ex > 0 {
            let p = pow2((ex - 1) as nat);
            lemma_pow2_unfold(ex as nat);
            if ex < ey - 1 {
                lemma_pow2_strictly_increases(ex as nat, (ey - 1) as nat);
            }
            assert(pow2(ex as nat) <= q);
            assert((0x80_0000 + mx) * p < (0x80_0000 + my) * q) by (nonlinear_arith)
                requires
                    mx < 0x80_0000,
                    my >= 0,
                    2 * p <= q,
                    p > 0,
            ;
        }
    }
}

/// On finite `f32` values, `f32_bits_lt` is the order of the numbers the bits stand for.
pub proof fn lemma_f32_bits_lt_is_value_order(a: u32, b: u32)
    requires
        f32_bits_is_finite(a),
        f32_bits_is_finite(b),
    ensures
        f32_bits_lt(a, b) <==> f32_bits_value(a) < f32_bits_value(b),
{
    let ma: int = if a >= 0x8000_0000 {
        a - 0x8000_0000
    } else {
        a as int
    };
    let mb: int = if b >= 0x8000_0000 {
        b - 0x8000_0000
    } else {
        b as int
    };
    assert(ma < 0x7F80_0000 && mb < 0x7F80_0000);
    if ma < mb {
        lemma_magnitude_value_increasing(ma, mb);
    } else if mb < ma {
        lemma_magnitude_value_increasing(mb, ma);
    }
    if ma > 0 {
        lemma_magnitude_value_increasing(0, ma);
    }
    if mb > 0 {
        lemma_magnitude_value_increasing(0, mb);
    }
}

/// Positive infinity is above every finite `f32` and negative infinity below.
pub proof fn lemma_f32_bits_lt_infinities(a: u32)
    requires
        f32_bits_is_finite(a),
    ensures
        f32_bits_lt(a, 0x7F80_0000),
        !f32_bits_lt(0x7F80_0000, a),
        f32_bits_lt(0xFF80_0000, a),
        !f32_bits_lt(a, 0xFF80_0000),
{
}

/// Of two events of the same tick at different finite distances, the one nearer the listener
/// is kept, whatever their frequencies and whichever came first.
pub proof fn lemma_nearer_is_kept(a: VibrationInfo, b: VibrationInfo)
    requires
        a.tick == b.tick,
        f32_bits_is_finite(a.distance),
        f32_bits_is_finite(b.distance),
        f32_bits_value(a.distance) < f32_bits_value(b.distance),
    ensures
        candidate_after(Some(a), b) == Some(a),
        candidate_after(Some(b), a) == Some(a),
{
    lemma_f32_bits_lt_is_value_order(a.distance, b.distance);
    lemma_f32_bits_lt_is_value_order(b.distance, a.distance);
}

/// Events that a sneaking entity hides: landing, shooting, stepping, swimming and using an
/// item, and no others.
pub proof fn lemma_sneaking_hides(event: GameEvent)
    ensures
        spec_is_ignored_when_sneaking(event) <==> (event == GameEvent::HitGround || event
            == GameEvent::ProjectileShoot || event == GameEvent::Step || event == GameEvent::Swim
            || event == GameEvent::ItemInteractStart || event == GameEvent::ItemInteractFinish),
{
}

/// An event caused by a sneaking entity, which is neither a spectator nor dampening, and
/// touching no block, vibrates exactly when it has a frequency and is not one that sneaking
/// hides: landing, shooting, stepping, swimming and using an item make none.
pub proof fn lemma_sneaking_source(event: GameEvent, entity: SourceEntity)
    requires
        entity.is_sneaking,
        !entity.is_spectator,
        !entity.dampens_vibrations,
    ensures
        spec_is_valid_vibration(
            event,
            GameEventContext { source_entity: Some(entity), affected_state: None },
        ) <==> (event.spec_frequency() != 0 && !(event == GameEvent::HitGround || event
            == GameEvent::ProjectileShoot || event == GameEvent::Step || event == GameEvent::Swim
            || event == GameEvent::ItemInteractStart || event == GameEvent::ItemInteractFinish)),
{
}

/// For a listener with a radius, each block of scaled distance costs one level of strength,
/// from 15 next to the listener down to 1, where it stays; without a radius it is 0.
pub proof fn lemma_redstone_strength_steps(listener_radius: i32, scaled_distance: i32)
    ensures
        listener_radius == 0 ==> spec_redstone_strength(listener_radius, scaled_distance) == 0,
        listener_radius != 0 && 0 <= scaled_distance <= 14 ==> spec_redstone_strength(
            listener_radius,
            scaled_distance,
        ) == 15 - scaled_distance,
        listener_radius != 0 && scaled_distance >= 14 ==> spec_redstone_strength(
            listener_radius,
            scaled_distance,
        ) == 1,
        listener_radius != 0 && 0 <= scaled_distance < 14 ==> spec_redstone_strength(
            listener_radius,
            (scaled_distance + 1) as i32,
        ) == spec_redstone_strength(listener_radius, scaled_distance) - 1,
{
}

} // verus!
