use sculk_vibration::game_event::{str_eq, GameEvent, GameEventExt};
use sculk_vibration::math::{BlockDirection, BlockPos};
use sculk_vibration::nbt::{NbtCompound, NbtTag};
use sculk_vibration::registry::{game_event_entries, RegistryError};

const ALL: [GameEvent; 61] = [
    GameEvent::BlockActivate, GameEvent::BlockAttach, GameEvent::BlockChange, GameEvent::BlockClose,
    GameEvent::BlockDeactivate, GameEvent::BlockDestroy, GameEvent::BlockDetach, GameEvent::BlockOpen,
    GameEvent::BlockPlace, GameEvent::Bounce, GameEvent::ContainerClose, GameEvent::ContainerOpen,
    GameEvent::Drink, GameEvent::Eat, GameEvent::ElytraGlide, GameEvent::EntityAction,
    GameEvent::EntityDamage, GameEvent::EntityDie, GameEvent::EntityDismount, GameEvent::EntityInteract,
    GameEvent::EntityMount, GameEvent::EntityPlace, GameEvent::Equip, GameEvent::Explode, GameEvent::Flap,
    GameEvent::FluidPickup, GameEvent::FluidPlace, GameEvent::HitGround, GameEvent::InstrumentPlay,
    GameEvent::ItemInteractFinish, GameEvent::ItemInteractStart, GameEvent::JukeboxPlay,
    GameEvent::JukeboxStopPlay, GameEvent::LightningStrike, GameEvent::NoteBlockPlay, GameEvent::PrimeFuse,
    GameEvent::ProjectileLand, GameEvent::ProjectileShoot, GameEvent::SculkSensorTendrilsClicking,
    GameEvent::Shear, GameEvent::Shriek, GameEvent::Splash, GameEvent::Step, GameEvent::Swim,
    GameEvent::Teleport, GameEvent::Unequip, GameEvent::Resonate1, GameEvent::Resonate2,
    GameEvent::Resonate3, GameEvent::Resonate4, GameEvent::Resonate5, GameEvent::Resonate6,
    GameEvent::Resonate7, GameEvent::Resonate8, GameEvent::Resonate9, GameEvent::Resonate10,
    GameEvent::Resonate11, GameEvent::Resonate12, GameEvent::Resonate13, GameEvent::Resonate14,
    GameEvent::Resonate15,
];

#[test]
fn names_round_trip_with_and_without_namespace() {
    for e in ALL {
        assert_eq!(GameEvent::from_name(e.name()), Some(e));
        assert_eq!(GameEvent::from_name(&format!("minecraft:{}", e.name())), Some(e));
    }
    assert_eq!(GameEvent::Step.name(), "step");
    assert_eq!(GameEvent::Resonate12.name(), "resonate_12");
    assert_eq!(GameEvent::from_name("minecraft:sculk_sensor_tendrils_clicking"), Some(GameEvent::SculkSensorTendrilsClicking));
}

#[test]
fn unknown_names_are_rejected() {
    assert_eq!(GameEvent::from_name(""), None);
    assert_eq!(GameEvent::from_name("minecraft:"), None);
    assert_eq!(GameEvent::from_name("stop"), None);
    assert_eq!(GameEvent::from_name("Step"), None);
    assert_eq!(GameEvent::from_name("other:step"), None);
    assert_eq!(GameEvent::from_name("minecraft:minecraft:step"), None);
    assert_eq!(GameEvent::from_name(&"x".repeat(100)), None);
}

#[test]
fn frequencies_follow_the_vanilla_table() {
    assert_eq!(GameEvent::Step.default_frequency(), 1);
    assert_eq!(GameEvent::Bounce.default_frequency(), 2);
    assert_eq!(GameEvent::ProjectileShoot.default_frequency(), 3);
    assert_eq!(GameEvent::Unequip.default_frequency(), 4);
    assert_eq!(GameEvent::Equip.default_frequency(), 5);
    assert_eq!(GameEvent::Shear.default_frequency(), 6);
    assert_eq!(GameEvent::EntityDamage.default_frequency(), 7);
    assert_eq!(GameEvent::Eat.default_frequency(), 8);
    assert_eq!(GameEvent::BlockDetach.default_frequency(), 9);
    assert_eq!(GameEvent::NoteBlockPlay.default_frequency(), 10);
    assert_eq!(GameEvent::BlockChange.default_frequency(), 11);
    assert_eq!(GameEvent::FluidPickup.default_frequency(), 12);
    assert_eq!(GameEvent::BlockPlace.default_frequency(), 13);
    assert_eq!(GameEvent::Teleport.default_frequency(), 14);
    assert_eq!(GameEvent::Explode.default_frequency(), 15);
    assert_eq!(GameEvent::JukeboxPlay.default_frequency(), 0);
    assert_eq!(GameEvent::Shriek.default_frequency(), 0);
    for e in ALL {
        assert!(e.default_frequency() <= 15);
    }
}

#[test]
fn string_equality() {
    assert!(str_eq("abc", "abc"));
    assert!(!str_eq("abc", "abd"));
    assert!(!str_eq("abc", "ab"));
}

#[test]
fn nbt_put_replaces_and_keeps_other_keys() {
    let mut nbt = NbtCompound::new();
    nbt.put_int("a", 1);
    nbt.put_long("b", 2);
    nbt.put_int("a", 3);
    assert_eq!(nbt.get_int("a"), Some(3));
    assert_eq!(nbt.get_long("b"), Some(2));
    assert_eq!(nbt.get_int("b"), None);
    assert_eq!(nbt.get_float("c"), None);
    assert_eq!(nbt.entries.len(), 2);
    nbt.put_uuid("u", 0x1122_3344_5566_7788_99AA_BBCC_DDEE_FF00);
    assert_eq!(nbt.get_uuid("u"), Some(0x1122_3344_5566_7788_99AA_BBCC_DDEE_FF00));
    nbt.put("v", NbtTag::IntArray(vec![1, 2, 3]));
    assert_eq!(nbt.get_uuid("v"), None);
    assert_eq!(NbtTag::Double(5).extract_double(), Some(5));
    assert_eq!(NbtTag::Float(5).extract_double(), None);
}

#[test]
fn positions_and_directions() {
    let pos = BlockPos::new(-17, 3, 31);
    assert_eq!(pos.chunk_position(), (-2, 1));
    assert_eq!(pos.offset(BlockDirection::West), BlockPos::new(-18, 3, 31));
    assert_eq!(pos.offset(BlockDirection::Up), BlockPos::new(-17, 4, 31));
    assert_eq!(BlockDirection::North.opposite(), BlockDirection::South);
    assert_eq!(BlockDirection::all().len(), 6);
    for d in BlockDirection::all() {
        assert_eq!(d.opposite().opposite(), d);
    }
}


#[test]
fn registry_table_pairs_names_with_variants() {
    let entries = game_event_entries(r#"["step", "resonate_1", "sculk_sensor_tendrils_clicking"]"#).unwrap();
    let pairs: Vec<(String, String)> =
        entries.into_iter().map(|e| (e.variant, e.name)).collect();
    assert_eq!(
        pairs,
        vec![
            ("Step".to_string(), "step".to_string()),
            ("Resonate1".to_string(), "resonate_1".to_string()),
            ("SculkSensorTendrilsClicking".to_string(), "sculk_sensor_tendrils_clicking".to_string()),
        ]
    );
    assert!(game_event_entries("[]").unwrap().is_empty());
    assert_eq!(game_event_entries("[1, 2]").err(), Some(RegistryError::InvalidJson));
    assert_eq!(game_event_entries("not json").err(), Some(RegistryError::InvalidJson));
}
