# DriftLine

A probe is released into an invisible current; the player tunes the current's
intensity so that it drifts to the beacon without hitting an asteroid.

- `src/` is the verified library (Verus): the rules of a play session
  (`session`), the bounded history of attempts (`history`), the simulation
  modes (`mode`), how a trajectory ended (`outcome`) and the messages shown to
  the player (`text`).
- `app/` is the Dioxus interface and the trajectory simulation, which works on
  floating-point values (`app/simulation.rs`).
- `tests/` exercises the library.
