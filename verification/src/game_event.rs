//! Vanilla game events, their registry names and their vibration frequencies.
use vstd::prelude::*;
use vstd::string::*;

verus! {

/// A vanilla game event, one variant per entry of the `minecraft:game_event` registry.
#[derive(Clone, Copy, PartialEq, Eq, Structural, Debug, Hash)]
pub enum GameEvent {
    BlockActivate,
    BlockAttach,
    BlockChange,
    BlockClose,
    BlockDeactivate,
    BlockDestroy,
    BlockDetach,
    BlockOpen,
    BlockPlace,
    Bounce,
    ContainerClose,
    ContainerOpen,
    Drink,
    Eat,
    ElytraGlide,
    EntityAction,
    EntityDamage,
    EntityDie,
    EntityDismount,
    EntityInteract,
    EntityMount,
    EntityPlace,
    Equip,
    Explode,
    Flap,
    FluidPickup,
    FluidPlace,
    HitGround,
    InstrumentPlay,
    ItemInteractFinish,
    ItemInteractStart,
    JukeboxPlay,
    JukeboxStopPlay,
    LightningStrike,
    NoteBlockPlay,
    PrimeFuse,
    ProjectileLand,
    ProjectileShoot,
    SculkSensorTendrilsClicking,
    Shear,
    Shriek,
    Splash,
    Step,
    Swim,
    Teleport,
    Unequip,
    Resonate1,
    Resonate2,
    Resonate3,
    Resonate4,
    Resonate5,
    Resonate6,
    Resonate7,
    Resonate8,
    Resonate9,
    Resonate10,
    Resonate11,
    Resonate12,
    Resonate13,
    Resonate14,
    Resonate15,
}

/// The namespace that registry names carry when written out.
pub open spec fn namespace_prefix() -> Seq<char> {
    "minecraft:"@
}

/// A registry name with a leading `minecraft:` taken off, if it has one.
pub open spec fn strip_namespace(s: Seq<char>) -> Seq<char> {
    if s.len() >= 10 && s.subrange(0, 10) == namespace_prefix() {
        s.subrange(10, s.len() as int)
    } else {
        s
    }
}

/// The seven low bits of a character.
pub open spec fn low_bits(c: char) -> int {
    (c as int) % 128
}

/// A code of a short name from its length and three of its characters (the first, the last and
/// the fifth from the end); no two names of the registry share one.
pub open spec fn name_code(s: Seq<char>) -> int {
    let first = if s.len() > 0 { low_bits(s[0]) } else { 0 };
    let last = if s.len() > 0 { low_bits(s[s.len() - 1]) } else { 0 };
    let fifth_last = if s.len() >= 5 { low_bits(s[s.len() - 5]) } else { 0 };
    ((s.len() * 128 + first) * 128 + last) * 128 + fifth_last
}

/// The event whose name has the given code.
pub open spec fn event_with_code(code: int) -> Option<GameEvent> {
    if code == 30978793 {
        Some(GameEvent::BlockActivate)
    }     else if code == 26784884 {
        Some(GameEvent::BlockAttach)
    }     else if code == 26784488 {
        Some(GameEvent::BlockChange)
    }     else if code == 24687331 {
        Some(GameEvent::BlockClose)
    }     else if code == 35173097 {
        Some(GameEvent::BlockDeactivate)
    }     else if code == 28884211 {
        Some(GameEvent::BlockDestroy)
    }     else if code == 26784869 {
        Some(GameEvent::BlockDetach)
    }     else if code == 22591327 {
        Some(GameEvent::BlockOpen)
    }     else if code == 24687344 {
        Some(GameEvent::BlockPlace)
    }     else if code == 14201583 {
        Some(GameEvent::Bounce)
    }     else if code == 33092323 {
        Some(GameEvent::ContainerClose)
    }     else if code == 30996319 {
        Some(GameEvent::ContainerOpen)
    }     else if code == 12137956 {
        Some(GameEvent::Drink)
    }     else if code == 7961088 {
        Some(GameEvent::Eat)
    }     else if code == 26833639 {
        Some(GameEvent::ElytraGlide)
    }     else if code == 28931939 {
        Some(GameEvent::EntityAction)
    }     else if code == 28930785 {
        Some(GameEvent::EntityDamage)
    }     else if code == 22639353 {
        Some(GameEvent::EntityDie)
    }     else if code == 33127021 {
        Some(GameEvent::EntityDismount)
    }     else if code == 33127013 {
        Some(GameEvent::EntityInteract)
    }     else if code == 26835565 {
        Some(GameEvent::EntityMount)
    }     else if code == 26833648 {
        Some(GameEvent::EntityPlace)
    }     else if code == 12154981 {
        Some(GameEvent::Equip)
    }     else if code == 16347888 {
        Some(GameEvent::Explode)
    }     else if code == 10074112 {
        Some(GameEvent::Flap)
    }     else if code == 26851433 {
        Some(GameEvent::FluidPickup)
    }     else if code == 24752880 {
        Some(GameEvent::FluidPlace)
    }     else if code == 22688370 {
        Some(GameEvent::HitGround)
    }     else if code == 33193183 {
        Some(GameEvent::InstrumentPlay)
    }     else if code == 43676777 {
        Some(GameEvent::ItemInteractFinish)
    }     else if code == 41581171 {
        Some(GameEvent::ItemInteractStart)
    }     else if code == 26918111 {
        Some(GameEvent::JukeboxPlay)
    }     else if code == 37403871 {
        Some(GameEvent::JukeboxStopPlay)
    }     else if code == 35336948 {
        Some(GameEvent::LightningStrike)
    }     else if code == 33275103 {
        Some(GameEvent::NoteBlockPlay)
    }     else if code == 22819551 {
        Some(GameEvent::PrimeFuse)
    }     else if code == 33305183 {
        Some(GameEvent::ProjectileLand)
    }     else if code == 35404403 {
        Some(GameEvent::ProjectileShoot)
    }     else if code == 64812003 {
        Some(GameEvent::SculkSensorTendrilsClicking)
    }     else if code == 12384627 {
        Some(GameEvent::Shear)
    }     else if code == 14480872 {
        Some(GameEvent::Shriek)
    }     else if code == 14480496 {
        Some(GameEvent::Splash)
    }     else if code == 10287104 {
        Some(GameEvent::Step)
    }     else if code == 10286720 {
        Some(GameEvent::Swim)
    }     else if code == 18692709 {
        Some(GameEvent::Teleport)
    }     else if code == 16611429 {
        Some(GameEvent::Unequip)
    }     else if code == 22845665 {
        Some(GameEvent::Resonate1)
    }     else if code == 22845793 {
        Some(GameEvent::Resonate2)
    }     else if code == 22845921 {
        Some(GameEvent::Resonate3)
    }     else if code == 22846049 {
        Some(GameEvent::Resonate4)
    }     else if code == 22846177 {
        Some(GameEvent::Resonate5)
    }     else if code == 22846305 {
        Some(GameEvent::Resonate6)
    }     else if code == 22846433 {
        Some(GameEvent::Resonate7)
    }     else if code == 22846561 {
        Some(GameEvent::Resonate8)
    }     else if code == 22846689 {
        Some(GameEvent::Resonate9)
    }     else if code == 24942708 {
        Some(GameEvent::Resonate10)
    }     else if code == 24942836 {
        Some(GameEvent::Resonate11)
    }     else if code == 24942964 {
        Some(GameEvent::Resonate12)
    }     else if code == 24943092 {
        Some(GameEvent::Resonate13)
    }     else if code == 24943220 {
        Some(GameEvent::Resonate14)
    }     else if code == 24943348 {
        Some(GameEvent::Resonate15)
    } else {
        None
    }
}

/// The event with the given name (without namespace), if there is one.
pub open spec fn event_named(s: Seq<char>) -> Option<GameEvent> {
    if 0 < s.len() <= 64 {
        match event_with_code(name_code(s)) {
            Some(e) => if e.spec_name() == s { Some(e) } else { None },
            None => None,
        }
    } else {
        None
    }
}

impl GameEvent {
    /// The registry name of the event, without namespace.
    pub open spec fn spec_name(self) -> Seq<char> {
        match self {
            GameEvent::BlockActivate => "block_activate"@,
            GameEvent::BlockAttach => "block_attach"@,
            GameEvent::BlockChange => "block_change"@,
            GameEvent::BlockClose => "block_close"@,
            GameEvent::BlockDeactivate => "block_deactivate"@,
            GameEvent::BlockDestroy => "block_destroy"@,
            GameEvent::BlockDetach => "block_detach"@,
            GameEvent::BlockOpen => "block_open"@,
            GameEvent::BlockPlace => "block_place"@,
            GameEvent::Bounce => "bounce"@,
            GameEvent::ContainerClose => "container_close"@,
            GameEvent::ContainerOpen => "container_open"@,
            GameEvent::Drink => "drink"@,
            GameEvent::Eat => "eat"@,
            GameEvent::ElytraGlide => "elytra_glide"@,
            GameEvent::EntityAction => "entity_action"@,
            GameEvent::EntityDamage => "entity_damage"@,
            GameEvent::EntityDie => "entity_die"@,
            GameEvent::EntityDismount => "entity_dismount"@,
            GameEvent::EntityInteract => "entity_interact"@,
            GameEvent::EntityMount => "entity_mount"@,
            GameEvent::EntityPlace => "entity_place"@,
            GameEvent::Equip => "equip"@,
            GameEvent::Explode => "explode"@,
            GameEvent::Flap => "flap"@,
            GameEvent::FluidPickup => "fluid_pickup"@,
            GameEvent::FluidPlace => "fluid_place"@,
            GameEvent::HitGround => "hit_ground"@,
            GameEvent::InstrumentPlay => "instrument_play"@,
            GameEvent::ItemInteractFinish => "item_interact_finish"@,
            GameEvent::ItemInteractStart => "item_interact_start"@,
            GameEvent::JukeboxPlay => "jukebox_play"@,
            GameEvent::JukeboxStopPlay => "jukebox_stop_play"@,
            GameEvent::LightningStrike => "lightning_strike"@,
            GameEvent::NoteBlockPlay => "note_block_play"@,
            GameEvent::PrimeFuse => "prime_fuse"@,
            GameEvent::ProjectileLand => "projectile_land"@,
            GameEvent::ProjectileShoot => "projectile_shoot"@,
            GameEvent::SculkSensorTendrilsClicking => "sculk_sensor_tendrils_clicking"@,
            GameEvent::Shear => "shear"@,
            GameEvent::Shriek => "shriek"@,
            GameEvent::Splash => "splash"@,
            GameEvent::Step => "step"@,
            GameEvent::Swim => "swim"@,
            GameEvent::Teleport => "teleport"@,
            GameEvent::Unequip => "unequip"@,
            GameEvent::Resonate1 => "resonate_1"@,
            GameEvent::Resonate2 => "resonate_2"@,
            GameEvent::Resonate3 => "resonate_3"@,
            GameEvent::Resonate4 => "resonate_4"@,
            GameEvent::Resonate5 => "resonate_5"@,
            GameEvent::Resonate6 => "resonate_6"@,
            GameEvent::Resonate7 => "resonate_7"@,
            GameEvent::Resonate8 => "resonate_8"@,
            GameEvent::Resonate9 => "resonate_9"@,
            GameEvent::Resonate10 => "resonate_10"@,
            GameEvent::Resonate11 => "resonate_11"@,
            GameEvent::Resonate12 => "resonate_12"@,
            GameEvent::Resonate13 => "resonate_13"@,
            GameEvent::Resonate14 => "resonate_14"@,
            GameEvent::Resonate15 => "resonate_15"@,
        }
    }

    /// The event that a registry name, with or without `minecraft:`, names.
    pub open spec fn spec_from_name(name: Seq<char>) -> Option<GameEvent> {
        event_named(strip_namespace(name))
    }

    /// How often the event vibrates: 1 to 15 for events that sculk sensors hear, 0 for the rest.
    pub open spec fn spec_frequency(self) -> u32 {
        match self {
            GameEvent::Step | GameEvent::Swim | GameEvent::Flap | GameEvent::Resonate1 => 1,
            GameEvent::ProjectileLand | GameEvent::HitGround | GameEvent::Splash | GameEvent::Bounce | GameEvent::Resonate2 => 2,
            GameEvent::ItemInteractFinish | GameEvent::ProjectileShoot | GameEvent::InstrumentPlay | GameEvent::Resonate3 => 3,
            GameEvent::EntityAction | GameEvent::ElytraGlide | GameEvent::Unequip | GameEvent::Resonate4 => 4,
            GameEvent::EntityDismount | GameEvent::Equip | GameEvent::Resonate5 => 5,
            GameEvent::EntityInteract | GameEvent::Shear | GameEvent::EntityMount | GameEvent::Resonate6 => 6,
            GameEvent::EntityDamage | GameEvent::Resonate7 => 7,
            GameEvent::Drink | GameEvent::Eat | GameEvent::Resonate8 => 8,
            GameEvent::ContainerClose | GameEvent::BlockClose | GameEvent::BlockDeactivate | GameEvent::BlockDetach | GameEvent::Resonate9 => 9,
            GameEvent::ContainerOpen | GameEvent::BlockOpen | GameEvent::BlockActivate | GameEvent::BlockAttach | GameEvent::PrimeFuse | GameEvent::NoteBlockPlay | GameEvent::Resonate10 => 10,
            GameEvent::BlockChange | GameEvent::Resonate11 => 11,
            GameEvent::BlockDestroy | GameEvent::FluidPickup | GameEvent::Resonate12 => 12,
            GameEvent::BlockPlace | GameEvent::FluidPlace | GameEvent::Resonate13 => 13,
            GameEvent::EntityPlace | GameEvent::LightningStrike | GameEvent::Teleport | GameEvent::Resonate14 => 14,
            GameEvent::EntityDie | GameEvent::Explode | GameEvent::Resonate15 => 15,
            _ => 0,
        }
    }

    /// The registry name of the event, without namespace.
    pub fn name(self) -> (r: &'static str)
        ensures
            r@ == self.spec_name(),
    {
        match self {
            GameEvent::BlockActivate => "block_activate",
            GameEvent::BlockAttach => "block_attach",
            GameEvent::BlockChange => "block_change",
            GameEvent::BlockClose => "block_close",
            GameEvent::BlockDeactivate => "block_deactivate",
            GameEvent::BlockDestroy => "block_destroy",
            GameEvent::BlockDetach => "block_detach",
            GameEvent::BlockOpen => "block_open",
            GameEvent::BlockPlace => "block_place",
            GameEvent::Bounce => "bounce",
            GameEvent::ContainerClose => "container_close",
            GameEvent::ContainerOpen => "container_open",
            GameEvent::Drink => "drink",
            GameEvent::Eat => "eat",
            GameEvent::ElytraGlide => "elytra_glide",
            GameEvent::EntityAction => "entity_action",
            GameEvent::EntityDamage => "entity_damage",
            GameEvent::EntityDie => "entity_die",
            GameEvent::EntityDismount => "entity_dismount",
            GameEvent::EntityInteract => "entity_interact",
            GameEvent::EntityMount => "entity_mount",
            GameEvent::EntityPlace => "entity_place",
            GameEvent::Equip => "equip",
            GameEvent::Explode => "explode",
            GameEvent::Flap => "flap",
            GameEvent::FluidPickup => "fluid_pickup",
            GameEvent::FluidPlace => "fluid_place",
            GameEvent::HitGround => "hit_ground",
            GameEvent::InstrumentPlay => "instrument_play",
            GameEvent::ItemInteractFinish => "item_interact_finish",
            GameEvent::ItemInteractStart => "item_interact_start",
            GameEvent::JukeboxPlay => "jukebox_play",
            GameEvent::JukeboxStopPlay => "jukebox_stop_play",
            GameEvent::LightningStrike => "lightning_strike",
            GameEvent::NoteBlockPlay => "note_block_play",
            GameEvent::PrimeFuse => "prime_fuse",
            GameEvent::ProjectileLand => "projectile_land",
            GameEvent::ProjectileShoot => "projectile_shoot",
            GameEvent::SculkSensorTendrilsClicking => "sculk_sensor_tendrils_clicking",
            GameEvent::Shear => "shear",
            GameEvent::Shriek => "shriek",
            GameEvent::Splash => "splash",
            GameEvent::Step => "step",
            GameEvent::Swim => "swim",
            GameEvent::Teleport => "teleport",
            GameEvent::Unequip => "unequip",
            GameEvent::Resonate1 => "resonate_1",
            GameEvent::Resonate2 => "resonate_2",
            GameEvent::Resonate3 => "resonate_3",
            GameEvent::Resonate4 => "resonate_4",
            GameEvent::Resonate5 => "resonate_5",
            GameEvent::Resonate6 => "resonate_6",
            GameEvent::Resonate7 => "resonate_7",
            GameEvent::Resonate8 => "resonate_8",
            GameEvent::Resonate9 => "resonate_9",
            GameEvent::Resonate10 => "resonate_10",
            GameEvent::Resonate11 => "resonate_11",
            GameEvent::Resonate12 => "resonate_12",
            GameEvent::Resonate13 => "resonate_13",
            GameEvent::Resonate14 => "resonate_14",
            GameEvent::Resonate15 => "resonate_15",
        }
    }

    /// Looks an event up by its registry name, with or without the `minecraft:` namespace.
    pub fn from_name(name: &str) -> (r: Option<GameEvent>)
        ensures
            r == GameEvent::spec_from_name(name@),
    {
        let n = name.unicode_len();
        let bare: &str = if n >= 10 && str_eq(name.substring_char(0, 10), "minecraft:") {
            name.substring_char(10, n)
        } else {
            name
        };
        let len = bare.unicode_len();
        if len == 0 || len > 64 {
            return None;
        }
        let first = (bare.get_char(0) as u32 % 128) as u64;
        let last = (bare.get_char(len - 1) as u32 % 128) as u64;
        let fifth_last = if len >= 5 {
            (bare.get_char(len - 5) as u32 % 128) as u64
        } else {
            0
        };
        let code = ((len as u64 * 128 + first) * 128 + last) * 128 + fifth_last;
        match event_with_code_exec(code) {
            Some(e) => {
                if str_eq(e.name(), bare) {
                    Some(e)
                } else {
                    None
                }
            },
            None => None,
        }
    }
}

/// Whether two strings hold the same characters.
pub fn str_eq(a: &str, b: &str) -> (r: bool)
    ensures
        r == (a@ == b@),
{
    String::from_str(a) == String::from_str(b)
}

fn event_with_code_exec(code: u64) -> (r: Option<GameEvent>)
    ensures
        r == event_with_code(code as int),
{
    match code {
        30978793 => Some(GameEvent::BlockActivate),
        26784884 => Some(GameEvent::BlockAttach),
        26784488 => Some(GameEvent::BlockChange),
        24687331 => Some(GameEvent::BlockClose),
        35173097 => Some(GameEvent::BlockDeactivate),
        28884211 => Some(GameEvent::BlockDestroy),
        26784869 => Some(GameEvent::BlockDetach),
        22591327 => Some(GameEvent::BlockOpen),
        24687344 => Some(GameEvent::BlockPlace),
        14201583 => Some(GameEvent::Bounce),
        33092323 => Some(GameEvent::ContainerClose),
        30996319 => Some(GameEvent::ContainerOpen),
        12137956 => Some(GameEvent::Drink),
        7961088 => Some(GameEvent::Eat),
        26833639 => Some(GameEvent::ElytraGlide),
        28931939 => Some(GameEvent::EntityAction),
        28930785 => Some(GameEvent::EntityDamage),
        22639353 => Some(GameEvent::EntityDie),
        33127021 => Some(GameEvent::EntityDismount),
        33127013 => Some(GameEvent::EntityInteract),
        26835565 => Some(GameEvent::EntityMount),
        26833648 => Some(GameEvent::EntityPlace),
        12154981 => Some(GameEvent::Equip),
        16347888 => Some(GameEvent::Explode),
        10074112 => Some(GameEvent::Flap),
        26851433 => Some(GameEvent::FluidPickup),
        24752880 => Some(GameEvent::FluidPlace),
        22688370 => Some(GameEvent::HitGround),
        33193183 => Some(GameEvent::InstrumentPlay),
        43676777 => Some(GameEvent::ItemInteractFinish),
        41581171 => Some(GameEvent::ItemInteractStart),
        26918111 => Some(GameEvent::JukeboxPlay),
        37403871 => Some(GameEvent::JukeboxStopPlay),
        35336948 => Some(GameEvent::LightningStrike),
        33275103 => Some(GameEvent::NoteBlockPlay),
        22819551 => Some(GameEvent::PrimeFuse),
        33305183 => Some(GameEvent::ProjectileLand),
        35404403 => Some(GameEvent::ProjectileShoot),
        64812003 => Some(GameEvent::SculkSensorTendrilsClicking),
        12384627 => Some(GameEvent::Shear),
        14480872 => Some(GameEvent::Shriek),
        14480496 => Some(GameEvent::Splash),
        10287104 => Some(GameEvent::Step),
        10286720 => Some(GameEvent::Swim),
        18692709 => Some(GameEvent::Teleport),
        16611429 => Some(GameEvent::Unequip),
        22845665 => Some(GameEvent::Resonate1),
        22845793 => Some(GameEvent::Resonate2),
        22845921 => Some(GameEvent::Resonate3),
        22846049 => Some(GameEvent::Resonate4),
        22846177 => Some(GameEvent::Resonate5),
        22846305 => Some(GameEvent::Resonate6),
        22846433 => Some(GameEvent::Resonate7),
        22846561 => Some(GameEvent::Resonate8),
        22846689 => Some(GameEvent::Resonate9),
        24942708 => Some(GameEvent::Resonate10),
        24942836 => Some(GameEvent::Resonate11),
        24942964 => Some(GameEvent::Resonate12),
        24943092 => Some(GameEvent::Resonate13),
        24943220 => Some(GameEvent::Resonate14),
        24943348 => Some(GameEvent::Resonate15),
        _ => None,
    }
}

/// Each event's name has a code that leads back to the event.
proof fn lemma_code_of_name(e: GameEvent)
    ensures
        0 < e.spec_name().len() <= 64,
        e.spec_name()[0] != 'm',
        event_with_code(name_code(e.spec_name())) == Some(e),
{
    broadcast use vstd::string::group_string_axioms;

    reveal_strlit("block_activate");
    reveal_strlit("block_attach");
    reveal_strlit("block_change");
    reveal_strlit("block_close");
    reveal_strlit("block_deactivate");
    reveal_strlit("block_destroy");
    reveal_strlit("block_detach");
    reveal_strlit("block_open");
    reveal_strlit("block_place");
    reveal_strlit("bounce");
    reveal_strlit("container_close");
    reveal_strlit("container_open");
    reveal_strlit("drink");
    reveal_strlit("eat");
    reveal_strlit("elytra_glide");
    reveal_strlit("entity_action");
    reveal_strlit("entity_damage");
    reveal_strlit("entity_die");
    reveal_strlit("entity_dismount");
    reveal_strlit("entity_interact");
    reveal_strlit("entity_mount");
    reveal_strlit("entity_place");
    reveal_strlit("equip");
    reveal_strlit("explode");
    reveal_strlit("flap");
    reveal_strlit("fluid_pickup");
    reveal_strlit("fluid_place");
    reveal_strlit("hit_ground");
    reveal_strlit("instrument_play");
    reveal_strlit("item_interact_finish");
    reveal_strlit("item_interact_start");
    reveal_strlit("jukebox_play");
    reveal_strlit("jukebox_stop_play");
    reveal_strlit("lightning_strike");
    reveal_strlit("note_block_play");
    reveal_strlit("prime_fuse");
    reveal_strlit("projectile_land");
    reveal_strlit("projectile_shoot");
    reveal_strlit("sculk_sensor_tendrils_clicking");
    reveal_strlit("shear");
    reveal_strlit("shriek");
    reveal_strlit("splash");
    reveal_strlit("step");
    reveal_strlit("swim");
    reveal_strlit("teleport");
    reveal_strlit("unequip");
    reveal_strlit("resonate_1");
    reveal_strlit("resonate_2");
    reveal_strlit("resonate_3");
    reveal_strlit("resonate_4");
    reveal_strlit("resonate_5");
    reveal_strlit("resonate_6");
    reveal_strlit("resonate_7");
    reveal_strlit("resonate_8");
    reveal_strlit("resonate_9");
    reveal_strlit("resonate_10");
    reveal_strlit("resonate_11");
    reveal_strlit("resonate_12");
    reveal_strlit("resonate_13");
    reveal_strlit("resonate_14");
    reveal_strlit("resonate_15");
    match e {
        GameEvent::BlockActivate => {},
        GameEvent::BlockAttach => {},
        GameEvent::BlockChange => {},
        GameEvent::BlockClose => {},
        GameEvent::BlockDeactivate => {},
        GameEvent::BlockDestroy => {},
        GameEvent::BlockDetach => {},
        GameEvent::BlockOpen => {},
        GameEvent::BlockPlace => {},
        GameEvent::Bounce => {},
        GameEvent::ContainerClose => {},
        GameEvent::ContainerOpen => {},
        GameEvent::Drink => {},
        GameEvent::Eat => {},
        GameEvent::ElytraGlide => {},
        GameEvent::EntityAction => {},
        GameEvent::EntityDamage => {},
        GameEvent::EntityDie => {},
        GameEvent::EntityDismount => {},
        GameEvent::EntityInteract => {},
        GameEvent::EntityMount => {},
        GameEvent::EntityPlace => {},
        GameEvent::Equip => {},
        GameEvent::Explode => {},
        GameEvent::Flap => {},
        GameEvent::FluidPickup => {},
        GameEvent::FluidPlace => {},
        GameEvent::HitGround => {},
        GameEvent::InstrumentPlay => {},
        GameEvent::ItemInteractFinish => {},
        GameEvent::ItemInteractStart => {},
        GameEvent::JukeboxPlay => {},
        GameEvent::JukeboxStopPlay => {},
        GameEvent::LightningStrike => {},
        GameEvent::NoteBlockPlay => {},
        GameEvent::PrimeFuse => {},
        GameEvent::ProjectileLand => {},
        GameEvent::ProjectileShoot => {},
        GameEvent::SculkSensorTendrilsClicking => {},
        GameEvent::Shear => {},
        GameEvent::Shriek => {},
        GameEvent::Splash => {},
        GameEvent::Step => {},
        GameEvent::Swim => {},
        GameEvent::Teleport => {},
        GameEvent::Unequip => {},
        GameEvent::Resonate1 => {},
        GameEvent::Resonate2 => {},
        GameEvent::Resonate3 => {},
        GameEvent::Resonate4 => {},
        GameEvent::Resonate5 => {},
        GameEvent::Resonate6 => {},
        GameEvent::Resonate7 => {},
        GameEvent::Resonate8 => {},
        GameEvent::Resonate9 => {},
        GameEvent::Resonate10 => {},
        GameEvent::Resonate11 => {},
        GameEvent::Resonate12 => {},
        GameEvent::Resonate13 => {},
        GameEvent::Resonate14 => {},
        GameEvent::Resonate15 => {},
    }
}

/// A name leads to an event exactly when it is that event's name: no two events share a name.
pub proof fn lemma_event_named(s: Seq<char>, e: GameEvent)
    ensures
        event_named(s) == Some(e) <==> e.spec_name() == s,
{
    lemma_code_of_name(e);
}

/// Writing an event's name, with or without the namespace, and reading it back gives the event.
pub proof fn lemma_name_round_trip(e: GameEvent)
    ensures
        GameEvent::spec_from_name(e.spec_name()) == Some(e),
        GameEvent::spec_from_name(namespace_prefix() + e.spec_name()) == Some(e),
{
    lemma_code_of_name(e);
    reveal_strlit("minecraft:");
    let full = namespace_prefix() + e.spec_name();
    assert(full.subrange(0, 10) =~= namespace_prefix());
    assert(full.subrange(10, full.len() as int) =~= e.spec_name());
    if e.spec_name().len() >= 10 {
        assert(e.spec_name().subrange(0, 10)[0] != namespace_prefix()[0]);
    }
}

/// The vibration frequency of a game event.
pub trait GameEventExt {
    /// The frequency that `default_frequency` returns.
    spec fn spec_default_frequency(&self) -> u32;

    /// How often the event vibrates: what a sculk sensor next to a comparator reports.
    fn default_frequency(&self) -> (r: u32)
        ensures
            r == self.spec_default_frequency(),
    ;
}

impl GameEventExt for GameEvent {
    open spec fn spec_default_frequency(&self) -> u32 {
        self.spec_frequency()
    }

    fn default_frequency(&self) -> (r: u32) {
        match self {
            GameEvent::Step | GameEvent::Swim | GameEvent::Flap | GameEvent::Resonate1 => 1,
            GameEvent::ProjectileLand | GameEvent::HitGround | GameEvent::Splash | GameEvent::Bounce | GameEvent::Resonate2 => 2,
            GameEvent::ItemInteractFinish | GameEvent::ProjectileShoot | GameEvent::InstrumentPlay | GameEvent::Resonate3 => 3,
            GameEvent::EntityAction | GameEvent::ElytraGlide | GameEvent::Unequip | GameEvent::Resonate4 => 4,
            GameEvent::EntityDismount | GameEvent::Equip | GameEvent::Resonate5 => 5,
            GameEvent::EntityInteract | GameEvent::Shear | GameEvent::EntityMount | GameEvent::Resonate6 => 6,
            GameEvent::EntityDamage | GameEvent::Resonate7 => 7,
            GameEvent::Drink | GameEvent::Eat | GameEvent::Resonate8 => 8,
            GameEvent::ContainerClose | GameEvent::BlockClose | GameEvent::BlockDeactivate | GameEvent::BlockDetach | GameEvent::Resonate9 => 9,
            GameEvent::ContainerOpen | GameEvent::BlockOpen | GameEvent::BlockActivate | GameEvent::BlockAttach | GameEvent::PrimeFuse | GameEvent::NoteBlockPlay | GameEvent::Resonate10 => 10,
            GameEvent::BlockChange | GameEvent::Resonate11 => 11,
            GameEvent::BlockDestroy | GameEvent::FluidPickup | GameEvent::Resonate12 => 12,
            GameEvent::BlockPlace | GameEvent::FluidPlace | GameEvent::Resonate13 => 13,
            GameEvent::EntityPlace | GameEvent::LightningStrike | GameEvent::Teleport | GameEvent::Resonate14 => 14,
            GameEvent::EntityDie | GameEvent::Explode | GameEvent::Resonate15 => 15,
            _ => 0,
        }
    }
}

/// Frequencies run from 0 to 15, the range of a redstone signal.
pub proof fn lemma_frequency_range(e: GameEvent)
    ensures
        e.spec_frequency() <= 15,
{
}

/// The vibration frequencies: each level from 1 to 15 belongs to its group of events (an
/// amethyst resonating at level n vibrates at n); the events outside the vibration table have
/// none.
pub proof fn lemma_frequency_table(e: GameEvent)
    ensures
        e.spec_frequency() == 1 <==> (e == GameEvent::Step || e == GameEvent::Swim || e == GameEvent::Flap || e == GameEvent::Resonate1),
        e.spec_frequency() == 2 <==> (e == GameEvent::ProjectileLand || e == GameEvent::HitGround || e == GameEvent::Splash || e == GameEvent::Bounce || e == GameEvent::Resonate2),
        e.spec_frequency() == 3 <==> (e == GameEvent::ItemInteractFinish || e == GameEvent::ProjectileShoot || e == GameEvent::InstrumentPlay || e == GameEvent::Resonate3),
        e.spec_frequency() == 4 <==> (e == GameEvent::EntityAction || e == GameEvent::ElytraGlide || e == GameEvent::Unequip || e == GameEvent::Resonate4),
        e.spec_frequency() == 5 <==> (e == GameEvent::EntityDismount || e == GameEvent::Equip || e == GameEvent::Resonate5),
        e.spec_frequency() == 6 <==> (e == GameEvent::EntityInteract || e == GameEvent::Shear || e == GameEvent::EntityMount || e == GameEvent::Resonate6),
        e.spec_frequency() == 7 <==> (e == GameEvent::EntityDamage || e == GameEvent::Resonate7),
        e.spec_frequency() == 8 <==> (e == GameEvent::Drink || e == GameEvent::Eat || e == GameEvent::Resonate8),
        e.spec_frequency() == 9 <==> (e == GameEvent::ContainerClose || e == GameEvent::BlockClose || e == GameEvent::BlockDeactivate || e == GameEvent::BlockDetach || e == GameEvent::Resonate9),
        e.spec_frequency() == 10 <==> (e == GameEvent::ContainerOpen || e == GameEvent::BlockOpen || e == GameEvent::BlockActivate || e == GameEvent::BlockAttach || e == GameEvent::PrimeFuse || e == GameEvent::NoteBlockPlay || e == GameEvent::Resonate10),
        e.spec_frequency() == 11 <==> (e == GameEvent::BlockChange || e == GameEvent::Resonate11),
        e.spec_frequency() == 12 <==> (e == GameEvent::BlockDestroy || e == GameEvent::FluidPickup || e == GameEvent::Resonate12),
        e.spec_frequency() == 13 <==> (e == GameEvent::BlockPlace || e == GameEvent::FluidPlace || e == GameEvent::Resonate13),
        e.spec_frequency() == 14 <==> (e == GameEvent::EntityPlace || e == GameEvent::LightningStrike || e == GameEvent::Teleport || e == GameEvent::Resonate14),
        e.spec_frequency() == 15 <==> (e == GameEvent::EntityDie || e == GameEvent::Explode || e == GameEvent::Resonate15),
        e.spec_frequency() == 0 <==> (e == GameEvent::ItemInteractStart || e == GameEvent::JukeboxPlay || e == GameEvent::JukeboxStopPlay || e == GameEvent::SculkSensorTendrilsClicking || e == GameEvent::Shriek),
{
}

} // verus!
