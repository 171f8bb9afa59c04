# particle_life

A particle-life simulation: particles of colored kinds attract and repel one
another as a behavior matrix between kinds prescribes.

- `src/` is the verified library (Verus): the color palette and color
  selection (`palette`), the square behavior matrix (`matrix`), the particle
  kinds with their matrix (`system`), the grid layout in which particles are
  spawned (`layout`), the spatial hash used to find nearby particles
  (`spatial`), and the decisions taken on key presses (`controls`).
- `app/` is the bevy program around it: window, rendering, input, the egui
  control panel, and the floating-point force computation.
- `tests/` exercises the library on concrete values.
