//! How vibration state is saved in and loaded from a block entity's compound tag.
use vstd::prelude::*;
use vstd::string::*;

use crate::game_event::{namespace_prefix, GameEvent};
use crate::math::{BlockPos, Vec3Bits};
use crate::nbt::{uuid_to_ints, NbtCompound, NbtTag, lemma_uuid_ints_round_trip};
use crate::vibration::{VibrationData, VibrationInfo, VibrationListener, VibrationSelector};

verus! {

/// The keys are pairwise different.
pub proof fn lemma_keys_differ()
    ensures
        "game_event"@ != "distance"@,
        "game_event"@ != "pos"@,
        "game_event"@ != "source"@,
        "distance"@ != "pos"@,
        "distance"@ != "source"@,
        "pos"@ != "source"@,
        "event"@ != "tick"@,
        "event"@ != "selector"@,
        "event"@ != "event_delay"@,
        "selector"@ != "event_delay"@,
        "last_vibration_frequency"@ != "listener"@,
{
    broadcast use vstd::string::group_string_axioms;

    reveal_strlit("game_event");
    reveal_strlit("distance");
    reveal_strlit("pos");
    reveal_strlit("source");
    reveal_strlit("event");
    reveal_strlit("tick");
    reveal_strlit("selector");
    reveal_strlit("event_delay");
    reveal_strlit("last_vibration_frequency");
    reveal_strlit("listener");
    assert("game_event"@.len() == 10);
    assert("distance"@.len() == 8);
    assert("pos"@.len() == 3);
    assert("source"@.len() == 6);
    assert("event"@.len() == 5);
    assert("tick"@.len() == 4);
    assert("selector"@.len() == 8);
    assert("event_delay"@.len() == 11);
    assert("last_vibration_frequency"@.len() == 24);
    assert("listener"@.len() == 8);
}

/// The UUID saved with a vibration: that of the entity that caused it, else the one read
/// back from saved data.
pub open spec fn saved_uuid(info: VibrationInfo) -> Option<u128> {
    match info.source_entity {
        Some(entity) => Some(entity.uuid),
        None => info.source_entity_uuid,
    }
}

/// `tag` is an array of ints that holds `uuid`.
pub open spec fn holds_uuid(tag: Option<NbtTag>, uuid: u128) -> bool {
    match tag {
        Some(NbtTag::IntArray(ints)) => ints@ == uuid_to_ints(uuid),
        _ => false,
    }
}

/// The vibration that loading gives back for `info`, loaded at tick `tick`: the entity is
/// known only by its UUID.
pub open spec fn restored(info: VibrationInfo, tick: i64) -> VibrationInfo {
    VibrationInfo {
        source_entity: None,
        source_entity_uuid: saved_uuid(info),
        tick,
        ..info
    }
}

/// The vibration that a compound holds, read at tick `tick`: it needs a list of three doubles
/// under "pos", a known event name under "game_event" and a float under "distance"; the
/// UUID under "source" is optional.
pub open spec fn spec_info_from_nbt(nbt: NbtCompound, tick: i64) -> Option<VibrationInfo> {
    match (nbt.spec_get("pos"@), nbt.spec_get("game_event"@), nbt.spec_get("distance"@)) {
        (Some(NbtTag::List(pos)), Some(NbtTag::String(name)), Some(NbtTag::Float(distance))) => {
            if pos@.len() == 3 && GameEvent::spec_from_name(name@) is Some {
                match (pos@[0], pos@[1], pos@[2]) {
                    (NbtTag::Double(x), NbtTag::Double(y), NbtTag::Double(z)) => Some(
                        VibrationInfo {
                            game_event: GameEvent::spec_from_name(name@)->0,
                            pos: Vec3Bits { x, y, z },
                            source_entity: None,
                            source_entity_uuid: nbt.spec_get_uuid("source"@),
                            distance,
                            tick,
                        },
                    ),
                    _ => None,
                }
            } else {
                None
            }
        },
        _ => None,
    }
}

/// The selector that a compound holds: a vibration under "event", read at the tick saved
/// under "tick" (-1 without one).
pub open spec fn spec_selector_from_nbt(nbt: NbtCompound) -> VibrationSelector {
    let tick = match nbt.spec_get("tick"@) {
        Some(NbtTag::Long(t)) => t,
        _ => -1i64,
    };
    VibrationSelector {
        candidate: match nbt.spec_get("event"@) {
            Some(NbtTag::Compound(event)) => spec_info_from_nbt(event, tick),
            _ => None,
        },
    }
}

/// The vibration state that a compound holds: the vibration in flight under "event" (read at
/// tick -1, its particle to be drawn again), the ticks left under "event_delay" (0 without,
/// never negative) and the selector under "selector".
pub open spec fn spec_data_from_nbt(nbt: NbtCompound) -> VibrationData {
    let current = match nbt.spec_get("event"@) {
        Some(NbtTag::Compound(event)) => spec_info_from_nbt(event, -1i64),
        _ => None,
    };
    let delay = match nbt.spec_get("event_delay"@) {
        Some(NbtTag::Int(d)) => d,
        _ => 0,
    };
    VibrationData {
        current_vibration: current,
        receive_time: if delay > 0 {
            delay
        } else {
            0
        },
        selector: match nbt.spec_get("selector"@) {
            Some(NbtTag::Compound(s)) => spec_selector_from_nbt(s),
            _ => VibrationSelector { candidate: None },
        },
        reload_particle: current is Some,
    }
}

impl VibrationInfo {
    /// `nbt` holds exactly this vibration: its namespaced event name, its distance, its
    /// position as three doubles, and the UUID of its source if there is one.
    pub open spec fn saved_in(self, nbt: NbtCompound) -> bool {
        &&& nbt.spec_get("game_event"@) matches Some(NbtTag::String(name))
        &&& name@ == namespace_prefix() + self.game_event.spec_name()
        &&& nbt.spec_get("distance"@) == Some(NbtTag::Float(self.distance))
        &&& nbt.spec_get("pos"@) matches Some(NbtTag::List(pos))
        &&& pos@ == seq![
            NbtTag::Double(self.pos.x),
            NbtTag::Double(self.pos.y),
            NbtTag::Double(self.pos.z),
        ]
        &&& match saved_uuid(self) {
            Some(uuid) => holds_uuid(nbt.spec_get("source"@), uuid),
            None => nbt.spec_get("source"@) is None,
        }
        &&& forall|k: Seq<char>|
            k != "game_event"@ && k != "distance"@ && k != "pos"@ && k != "source"@
                ==> #[trigger] nbt.spec_get(k) is None
    }

    /// Saves the vibration.
    pub fn to_nbt(&self) -> (r: NbtCompound)
        ensures
            self.saved_in(r),
    {
        proof {
            lemma_keys_differ();
        }
        let mut nbt = NbtCompound::new();
        let name = String::from_str("minecraft:").concat(self.game_event.name());
        let ghost name_view = name@;
        nbt.put_string("game_event", name);
        nbt.put_float("distance", self.distance);
        nbt.put_list(
            "pos",
            vec![NbtTag::Double(self.pos.x), NbtTag::Double(self.pos.y), NbtTag::Double(self.pos.z)],
        );
        match self.source_entity {
            Some(source) => nbt.put_uuid("source", source.uuid),
            None => match self.source_entity_uuid {
                Some(uuid) => nbt.put_uuid("source", uuid),
                None => {},
            },
        }
        assert(name_view == namespace_prefix() + self.game_event.spec_name());
        nbt
    }

    /// Loads a vibration, giving it the tick `tick`.
    pub fn from_nbt(nbt: &NbtCompound, tick: i64) -> (r: Option<VibrationInfo>)
        ensures
            r == spec_info_from_nbt(*nbt, tick),
    {
        let pos = match nbt.get_list("pos") {
            Some(p) => p,
            None => return None,
        };
        if pos.len() != 3 {
            return None;
        }
        let name = match nbt.get_string("game_event") {
            Some(n) => n,
            None => return None,
        };
        let game_event = match GameEvent::from_name(name.as_str()) {
            Some(e) => e,
            None => return None,
        };
        let x = match pos[0].extract_double() {
            Some(v) => v,
            None => return None,
        };
        let y = match pos[1].extract_double() {
            Some(v) => v,
            None => return None,
        };
        let z = match pos[2].extract_double() {
            Some(v) => v,
            None => return None,
        };
        let distance = match nbt.get_float("distance") {
            Some(d) => d,
            None => return None,
        };
        Some(
            VibrationInfo {
                game_event,
                pos: Vec3Bits { x, y, z },
                source_entity: None,
                source_entity_uuid: nbt.get_uuid("source"),
                distance,
                tick,
            },
        )
    }
}

/// Loading a saved vibration gives it back, its source known by UUID, at the loading tick.
pub proof fn lemma_info_round_trip(info: VibrationInfo, nbt: NbtCompound, tick: i64)
    requires
        info.saved_in(nbt),
    ensures
        spec_info_from_nbt(nbt, tick) == Some(restored(info, tick)),
{
    crate::game_event::lemma_name_round_trip(info.game_event);
    match saved_uuid(info) {
        Some(uuid) => lemma_uuid_ints_round_trip(uuid),
        None => {},
    }
}

/// The selector that loading gives back: its candidate restored at the tick it happened.
pub open spec fn restored_selector(selector: VibrationSelector) -> VibrationSelector {
    VibrationSelector {
        candidate: match selector.candidate {
            Some(c) => Some(restored(c, c.tick)),
            None => None,
        },
    }
}

/// The vibration state that loading gives back: the vibration in flight is restored at tick
/// -1 and its particle is to be drawn again; a negative trip time comes back as 0.
pub open spec fn restored_data(data: VibrationData) -> VibrationData {
    VibrationData {
        current_vibration: match data.current_vibration {
            Some(c) => Some(restored(c, -1i64)),
            None => None,
        },
        receive_time: if data.receive_time > 0 {
            data.receive_time
        } else {
            0
        },
        selector: restored_selector(data.selector),
        reload_particle: data.current_vibration is Some,
    }
}

impl VibrationSelector {
    /// `nbt` holds exactly this selector: the candidate under "event" and its tick under
    /// "tick", or -1 under "tick" when there is no candidate.
    pub open spec fn saved_in(self, nbt: NbtCompound) -> bool {
        &&& match self.candidate {
            Some(c) => {
                &&& nbt.spec_get("event"@) matches Some(NbtTag::Compound(event))
                &&& c.saved_in(event)
                &&& nbt.spec_get("tick"@) == Some(NbtTag::Long(c.tick))
            },
            None => {
                &&& nbt.spec_get("event"@) is None
                &&& nbt.spec_get("tick"@) == Some(NbtTag::Long(-1i64))
            },
        }
        &&& forall|k: Seq<char>|
            k != "event"@ && k != "tick"@ ==> #[trigger] nbt.spec_get(k) is None
    }

    /// Saves the selector.
    pub fn to_nbt(&self) -> (r: NbtCompound)
        ensures
            self.saved_in(r),
    {
        proof {
            lemma_keys_differ();
        }
        let mut nbt = NbtCompound::new();
        match &self.candidate {
            Some(candidate) => {
                nbt.put_compound("event", candidate.to_nbt());
                nbt.put_long("tick", candidate.tick);
            },
            None => {
                nbt.put_long("tick", -1);
            },
        }
        nbt
    }

    /// Loads a selector.
    pub fn from_nbt(nbt: &NbtCompound) -> (r: VibrationSelector)
        ensures
            r == spec_selector_from_nbt(*nbt),
    {
        let tick = match nbt.get_long("tick") {
            Some(t) => t,
            None => -1,
        };
        let candidate = match nbt.get_compound("event") {
            Some(event) => VibrationInfo::from_nbt(event, tick),
            None => None,
        };
        VibrationSelector { candidate }
    }
}

impl VibrationData {
    /// `nbt` holds exactly this state: the vibration in flight under "event", the selector
    /// under "selector", and the ticks left (never below 0) under "event_delay".
    pub open spec fn saved_in(self, nbt: NbtCompound) -> bool {
        &&& match self.current_vibration {
            Some(c) => {
                &&& nbt.spec_get("event"@) matches Some(NbtTag::Compound(event))
                &&& c.saved_in(event)
            },
            None => nbt.spec_get("event"@) is None,
        }
        &&& nbt.spec_get("selector"@) matches Some(NbtTag::Compound(selector))
        &&& self.selector.saved_in(selector)
        &&& nbt.spec_get("event_delay"@) == Some(
            NbtTag::Int(
                if self.receive_time > 0 {
                    self.receive_time
                } else {
                    0
                },
            ),
        )
        &&& forall|k: Seq<char>|
            k != "event"@ && k != "selector"@ && k != "event_delay"@ ==> #[trigger] nbt.spec_get(
                k,
            ) is None
    }

    /// Saves the vibration state.
    pub fn to_nbt(&self) -> (r: NbtCompound)
        ensures
            self.saved_in(r),
    {
        proof {
            lemma_keys_differ();
        }
        let mut nbt = NbtCompound::new();
        match &self.current_vibration {
            Some(vibration) => nbt.put_compound("event", vibration.to_nbt()),
            None => {},
        }
        nbt.put_compound("selector", self.selector.to_nbt());
        let delay = if self.receive_time > 0 {
            self.receive_time
        } else {
            0
        };
        nbt.put_int("event_delay", delay);
        nbt
    }

    /// Loads a vibration state.
    pub fn from_nbt(nbt: &NbtCompound) -> (r: VibrationData)
        ensures
            r == spec_data_from_nbt(*nbt),
    {
        let current_vibration = match nbt.get_compound("event") {
            Some(event) => VibrationInfo::from_nbt(event, -1),
            None => None,
        };
        let delay = match nbt.get_int("event_delay") {
            Some(d) => d,
            None => 0,
        };
        let selector = match nbt.get_compound("selector") {
            Some(s) => VibrationSelector::from_nbt(s),
            None => VibrationSelector::new(),
        };
        VibrationData {
            reload_particle: current_vibration.is_some(),
            current_vibration,
            receive_time: if delay > 0 {
                delay
            } else {
                0
            },
            selector,
        }
    }
}

impl VibrationListener {
    /// A listener at `position` with the vibration state that `nbt` holds.
    pub fn from_nbt(position: BlockPos, nbt: &NbtCompound) -> (r: VibrationListener)
        ensures
            r.position == position,
            r.data == spec_data_from_nbt(*nbt),
    {
        VibrationListener { position, data: VibrationData::from_nbt(nbt) }
    }
}

/// Loading a saved selector gives back its candidate, at the tick it happened.
pub proof fn lemma_selector_round_trip(selector: VibrationSelector, nbt: NbtCompound)
    requires
        selector.saved_in(nbt),
    ensures
        spec_selector_from_nbt(nbt) == restored_selector(selector),
{
    match selector.candidate {
        Some(c) => {
            let event = choose|e: NbtCompound| nbt.spec_get("event"@) == Some(NbtTag::Compound(e));
            lemma_info_round_trip(c, event, c.tick);
        },
        None => {},
    }
}

/// Loading saved vibration state gives it back: the vibration in flight (restored at tick -1,
/// its particle to be drawn again), the ticks left (0 if they were negative), and the
/// selected vibration.
pub proof fn lemma_data_round_trip(data: VibrationData, nbt: NbtCompound)
    requires
        data.saved_in(nbt),
    ensures
        spec_data_from_nbt(nbt) == restored_data(data),
{
    match data.current_vibration {
        Some(c) => {
            let event = choose|e: NbtCompound| nbt.spec_get("event"@) == Some(NbtTag::Compound(e));
            lemma_info_round_trip(c, event, -1i64);
        },
        None => {},
    }
    let s = choose|e: NbtCompound| nbt.spec_get("selector"@) == Some(NbtTag::Compound(e));
    lemma_selector_round_trip(data.selector, s);
}

} // verus!
