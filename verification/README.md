# marl_engine_native

Deterministic core of a tick-based 2D multi-agent combat simulation, written
in Verus.

Every binary32 quantity (positions, velocities, health, configuration values)
is carried as its bit pattern in a `u32`, so that the rules the engine keeps
on them (canonical zeros, flush-to-zero, validation of float classes and
bounds) are stated and proved on integers.

Layout:

- `src/ieee.rs` — classification and ordering of binary32 bit patterns.
- `src/config/` — configuration records, their validation and errors.
- `src/prng.rs` — the seeded ChaCha8 generator and its state descriptor.
- `src/state.rs` — fighter slots, the world, its byte image and its hash.
- `src/engine.rs` — spawning, action validation and the bit-level part of a
  tick.
- `app/` — JSON files and serde forms, floating-point motion of a tick,
  float-valued random draws, displayable errors and the Python module.
- `tests/` — behaviour tests of the library.
