# mantis

A procedurally animated praying mantis (a Bevy program) whose decision
logic is a verified Verus library.

- `src/controls.rs`: the four control schemes, the switching cycle between
  them, and the direction each scheme takes from the held keys or the mouse.
- `src/gait.rs`: the stepping state of a leg and the turn-taking of a pair of
  legs (`fabrik_syncer`).
- `src/fabrik.rs`: the order in which the FABRIK solver visits the nodes of a
  leg in its backward and forward passes.
- `src/body.rs`: the per-axis offset rule of the abdomen's segments.
- `app/`: the Bevy program: scene setup, systems, and the floating-point
  geometry, calling the library for every decision.
