# veil_server

The verified rules of the Aurora's Veil world server, a SpacetimeDB module.

- `src/` is the library, proved with Verus:
  - `stat` — the pool size formula; health and mana rows and their
    transitions (each returns the row to write, or nothing); primary stats
    validation and point placement.
  - `status_flags` — per-owner status bitmasks.
  - `movement` — what a movement step, the grounded grace counter and a move
    request decide.
  - `overlap` — which neighbors push an idle player out of an overlap.
  - `rng` — xorshift64*/splitmix64 generator, FNV-1a hashing and the scatter
    mixing used by the dev spawners.
  - `schedule` — tick rates.
- `app/` is the SpacetimeDB module itself: tables, reducers and views, the
  floating-point geometry (nalgebra, Rapier), calling the library for every
  decision.
- `tests/` exercise the library on concrete values.
