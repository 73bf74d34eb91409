//! Sculk sensor vibrations: game events, the listeners that hear them, the sensor blocks they
//! trigger, and the saved form of a listener's state.

pub mod block_entity;
pub mod game_event;
pub mod math;
pub mod nbt;
pub mod particle;
pub mod registry;
pub mod saved;
pub mod sculk_sensor;
pub mod vibration;
