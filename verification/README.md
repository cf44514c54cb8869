# eigc

Decision logic of an interactive simulation of Jupiter's four Galilean moons, verified with
Verus, and the program around it.

- `src/` — the verified library: moon identities and the application's top-level state
  (`moons`), the keys that the controls read (`input`), the simulation-time presets (`sim`), the
  free-fly camera's lock, movement intent and cursor release (`camera`), the one-time
  announcement that the sky textures have loaded (`sky`), and the seed layout of the procedural
  lineae generator (`linea`). Laws that span several frames are public proof functions beside the
  functions they speak of.
- `tests/` — tests of the library on concrete values.
- `app/` — the engine program: plugins, systems, asset loading, and all the floating-point
  geometry of the sky, the camera and the terrain, calling the library for each decision.
