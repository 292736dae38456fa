# bevy_mod_sdl3

An SDL3 windowing backend for the Bevy engine, with its decisions verified in Verus.

- `src/` is the verified library: frame pacing (`config`), the application loop's
  state machine (`runner`), the window registry and window creation choices
  (`windows`), monitor bookkeeping and selection (`monitors`), the reaction to SDL
  events (`event`), the steps that bring changed windows in line (`changes`), and
  the backend's state (`context`). All values are plain: entities are carried by
  their bits, SDL windows and displays by their ids.
- `app/` is the Bevy plugin: it initialises SDL, runs the application loop, builds
  SDL windows, and turns the library's decisions into SDL and ECS calls.
- `tests/` exercises the library on concrete values.
