# sculk_vibration

The vibration system of sculk sensors: which game events a listening block hears, which one
it keeps, when that vibration arrives, what the sensor block does with it, and how the
listener's state is saved in named binary tags. The library is written in Verus and proved
against its contracts.

- `src/game_event.rs` — game events, their registry names (with a proved round trip) and
  their vibration frequencies.
- `src/vibration.rs` — filters on events, the candidate selector, the listener's vibration
  state and its tick, the sculk sensor as a vibration user.
- `src/sculk_sensor.rs` — the sensor blocks: phases, triggering, scheduled ticks, redstone.
- `src/block_entity.rs` — the sensor block entity and its saved form.
- `src/nbt.rs`, `src/saved.rs` — the compound tag and the saving and loading of vibration
  state, with proved round trips.
- `src/particle.rs` — the bytes of a vibration particle.
- `src/math.rs` — block positions, directions, and points held as `f64` bit patterns.
- `app/lib.rs` — the unverified rim: floating-point geometry, the asynchronous world
  plumbing, sounds, and the generator of the game event enum.

Floating-point values (positions, distances) are carried through the library as their
IEEE-754 bit patterns; arithmetic on them stays in `app/`.
