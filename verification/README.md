# shooty

The rules of a two-hero, wave-defence band game — a guitarist and a drummer
cheering up a gloomy town one loudspeaker at a time — as a verified library.
Every function in `src/` carries a contract that Verus proves; the renderer,
the physics and the audio engine are not part of this crate.

## Layout

- `src/lib.rs` — heroes, game states, camera rigs, enemy tiers, the score, and
  the one call into `rand`.
- `src/timer.rs` — a nanosecond countdown, once or repeating.
- `src/wave.rs` — the wave cadence: lull, burst-by-burst spawning, clearing.
- `src/build_phase.rs` — the scrap pool, raising structures, the loudspeaker
  network and its largest linked cluster, the music level, and following the
  host's secured zones.
- `src/gloom.rs` — the five gloom sources and the chorus they form.
- `src/combat.rs` — going down, reviving, the drummer's beat and kit, the
  dodge roll.
- `src/pickup.rs` — timed and dropped pickups and the buffs they give.
- `src/audio.rs` — which of a frame's sound cues play.
- `src/roster.rs`, `src/select.rs`, `src/props.rs` — the cast, the lineup
  screen, and how gear is carried.
- `src/vehicle.rs` — nearest-first choices and getting in and out of cars and
  the plane.
- `src/flow.rs` — the top-level state flow and the credits overlay.
- `src/level.rs` — the levels and looking one up by name.
- `src/minimap.rs` — the corner minimap picture, drawn layer by layer.
- `src/net.rs`, `src/ghosts.rs` — launch modes, wire codes, remote input and
  the client's replicated enemies.
- `src/capture.rs` — the frame schedule of an offscreen recording.
- `src/text.rs` — number parsing and text comparison.
- `app/` — the launcher: command line, level setting, and the UDP link of a
  networked run, with the serde/bincode wire format.
- `tests/` — tests of the library on concrete values.
