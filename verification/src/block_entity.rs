//! The block entity of a (calibrated) sculk sensor: the last frequency it received and its
//! vibration listener, and how they are saved.
use vstd::prelude::*;
use vstd::string::*;

use crate::math::BlockPos;
use crate::nbt::{NbtCompound, NbtTag};
use crate::saved::{lemma_data_round_trip, lemma_keys_differ, restored_data, spec_data_from_nbt};
use crate::vibration::{VibrationData, VibrationListener};

verus! {

/// The block entity of a sculk sensor, or of a calibrated one when `CALIBRATED`.
pub struct SculkSensorBlockEntityImpl<const CALIBRATED: bool> {
    pub position: BlockPos,
    pub last_vibration_frequency: i32,
    pub listener: VibrationListener,
}

/// The block entity of a sculk sensor.
pub type SculkSensorBlockEntity = SculkSensorBlockEntityImpl<false>;

/// The block entity of a calibrated sculk sensor.
pub type CalibratedSculkSensorBlockEntity = SculkSensorBlockEntityImpl<true>;

/// The state that a block entity's saved compound gives: the frequency under
/// "last_vibration_frequency" (0 without one) and the listener's state under "listener" (a
/// fresh one without).
pub open spec fn spec_entity_state_from_nbt(nbt: NbtCompound) -> (i32, VibrationData) {
    (
        match nbt.spec_get("last_vibration_frequency"@) {
            Some(NbtTag::Int(f)) => f,
            _ => 0,
        },
        match nbt.spec_get("listener"@) {
            Some(NbtTag::Compound(l)) => spec_data_from_nbt(l),
            _ => VibrationData::spec_new(),
        },
    )
}

impl<const CALIBRATED: bool> SculkSensorBlockEntityImpl<CALIBRATED> {
    /// The registry name of the block entity.
    pub open spec fn spec_resource_location(&self) -> Seq<char> {
        if CALIBRATED {
            "minecraft:calibrated_sculk_sensor"@
        } else {
            "minecraft:sculk_sensor"@
        }
    }

    /// The registry name of the block entity.
    pub fn resource_location(&self) -> (r: &'static str)
        ensures
            r@ == self.spec_resource_location(),
    {
        if CALIBRATED {
            "minecraft:calibrated_sculk_sensor"
        } else {
            "minecraft:sculk_sensor"
        }
    }

    pub fn get_position(&self) -> (r: BlockPos)
        ensures
            r == self.position,
    {
        self.position
    }

    /// A block entity at `position` that has received nothing.
    pub fn new(position: BlockPos) -> (r: Self)
        ensures
            r.position == position,
            r.last_vibration_frequency == 0,
            r.listener.position == position,
            r.listener.data == VibrationData::spec_new(),
    {
        SculkSensorBlockEntityImpl {
            position,
            last_vibration_frequency: 0,
            listener: VibrationListener::new(position),
        }
    }

    /// How far the sensor hears: 16 blocks for a calibrated sensor, 8 for a plain one.
    pub fn listener_radius(&self) -> (r: i32)
        ensures
            r == if CALIBRATED {
                16i32
            } else {
                8i32
            },
    {
        if CALIBRATED {
            16
        } else {
            8
        }
    }

    /// Loads the block entity at `position`.
    pub fn from_nbt(nbt: &NbtCompound, position: BlockPos) -> (r: Self)
        ensures
            r.position == position,
            r.listener.position == position,
            (r.last_vibration_frequency, r.listener.data) == spec_entity_state_from_nbt(*nbt),
    {
        let last_vibration_frequency = match nbt.get_int("last_vibration_frequency") {
            Some(f) => f,
            None => 0,
        };
        let listener = match nbt.get_compound("listener") {
            Some(l) => VibrationListener::from_nbt(position, l),
            None => VibrationListener::new(position),
        };
        SculkSensorBlockEntityImpl { position, last_vibration_frequency, listener }
    }

    /// `nbt` holds this block entity's frequency and listener state.
    pub open spec fn saved_in(self, nbt: NbtCompound) -> bool {
        &&& nbt.spec_get("last_vibration_frequency"@) == Some(
            NbtTag::Int(self.last_vibration_frequency),
        )
        &&& nbt.spec_get("listener"@) matches Some(NbtTag::Compound(l))
        &&& self.listener.data.saved_in(l)
    }

    /// `nbt` holds this block entity's frequency and listener state, besides what `before`
    /// held.
    pub open spec fn written_to(self, before: NbtCompound, nbt: NbtCompound) -> bool {
        &&& self.saved_in(nbt)
        &&& forall|k: Seq<char>|
            k != "last_vibration_frequency"@ && k != "listener"@ ==> #[trigger] nbt.spec_get(k)
                == before.spec_get(k)
    }

    /// Saves the block entity into `nbt`.
    pub fn write_nbt(&self, nbt: &mut NbtCompound)
        ensures
            self.written_to(*old(nbt), *final(nbt)),
    {
        proof {
            lemma_keys_differ();
        }
        nbt.put_int("last_vibration_frequency", self.last_vibration_frequency);
        nbt.put_compound("listener", self.listener.data.to_nbt());
    }

    /// `nbt` holds this block entity's registry name under "id", its position under "x",
    /// "y" and "z", and its frequency and listener state.
    pub open spec fn saved_with_header_in(self, nbt: NbtCompound) -> bool {
        &&& nbt.spec_get("id"@) matches Some(NbtTag::String(id))
        &&& id@ == self.spec_resource_location()
        &&& nbt.spec_get("x"@) == Some(NbtTag::Int(self.position.x))
        &&& nbt.spec_get("y"@) == Some(NbtTag::Int(self.position.y))
        &&& nbt.spec_get("z"@) == Some(NbtTag::Int(self.position.z))
        &&& self.saved_in(nbt)
    }

    /// Saves the block entity with its registry name and position into `nbt`.
    pub fn write_internal(&self, nbt: &mut NbtCompound)
        ensures
            self.saved_with_header_in(*final(nbt)),
            forall|k: Seq<char>|
                !header_key(k) ==> #[trigger] final(nbt).spec_get(k) == old(nbt).spec_get(k),
    {
        proof {
            lemma_header_keys_differ();
        }
        nbt.put_string("id", String::from_str(self.resource_location()));
        nbt.put_int("x", self.position.x);
        nbt.put_int("y", self.position.y);
        nbt.put_int("z", self.position.z);
        self.write_nbt(nbt);
    }

    /// The block entity saved in a new compound, as sent with chunk data.
    pub fn chunk_data_nbt(&self) -> (r: Option<NbtCompound>)
        ensures
            r matches Some(nbt) && self.saved_with_header_in(nbt) && forall|k: Seq<char>|
                !header_key(k) ==> #[trigger] nbt.spec_get(k) is None,
    {
        let mut nbt = NbtCompound::new();
        self.write_internal(&mut nbt);
        Some(nbt)
    }
}

/// The keys that a saved block entity holds.
pub open spec fn header_key(k: Seq<char>) -> bool {
    k == "id"@ || k == "x"@ || k == "y"@ || k == "z"@ || k == "last_vibration_frequency"@ || k
        == "listener"@
}

proof fn lemma_header_keys_differ()
    ensures
        "id"@ != "x"@,
        "id"@ != "y"@,
        "id"@ != "z"@,
        "x"@ != "y"@,
        "x"@ != "z"@,
        "y"@ != "z"@,
        "id"@ != "last_vibration_frequency"@,
        "id"@ != "listener"@,
        "x"@ != "last_vibration_frequency"@,
        "x"@ != "listener"@,
        "y"@ != "last_vibration_frequency"@,
        "y"@ != "listener"@,
        "z"@ != "last_vibration_frequency"@,
        "z"@ != "listener"@,
{
    broadcast use vstd::string::group_string_axioms;

    reveal_strlit("id");
    reveal_strlit("x");
    reveal_strlit("y");
    reveal_strlit("z");
    reveal_strlit("last_vibration_frequency");
    reveal_strlit("listener");
    assert("id"@.len() == 2);
    assert("x"@.len() == 1);
    assert("y"@.len() == 1);
    assert("z"@.len() == 1);
    assert("x"@[0] == 'x');
    assert("y"@[0] == 'y');
    assert("z"@[0] == 'z');
    assert("last_vibration_frequency"@.len() == 24);
    assert("listener"@.len() == 8);
}

/// Loading a saved block entity gives back its frequency and its listener's state as saving
/// and loading the state gives it back.
pub proof fn lemma_block_entity_round_trip<const CALIBRATED: bool>(
    entity: SculkSensorBlockEntityImpl<CALIBRATED>,
    nbt: NbtCompound,
)
    requires
        entity.saved_in(nbt),
    ensures
        spec_entity_state_from_nbt(nbt) == (
            entity.last_vibration_frequency,
            restored_data(entity.listener.data),
        ),
{
    let l = choose|l: NbtCompound| nbt.spec_get("listener"@) == Some(NbtTag::Compound(l));
    lemma_data_round_trip(entity.listener.data, l);
}

} // verus!
