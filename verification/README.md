# scenedeck

SceneDeck is a desktop companion for OBS Studio: it classifies scenes into
roles, checks the scene graph against a dependency policy, drives the stream
and recording outputs, switches scenes from keyboard shortcuts, and shows a
mixer for the audio inputs of a scene.

## Layout

- `src/` — the verified library. Verus proves each function against its
  contract; the configuration and password sources are traits for the
  caller to implement, so what they return is only passed through.
  - `domain/` — scenes, roles, the dependency graph, hotkeys, icons, audio
    inputs, meters, statistics, output status, appearance settings.
  - `services/` — scene switching rules, edge classification, the Doctor
    rule engine, the hotkey resolver, the mixer input filter.
  - `storage/` — configuration defaults and migrations, the scene registry,
    and the paths the files live at.
  - `obs/` — OBS events and replies as plain values, and the scene walks
    behind the mixer and the graph.
  - `controller/` — application state, command routing, output command
    planning, and what the session does about each OBS event.
- `app/` — the runtime around the library: files, the keyring, the OBS
  websocket client, the async controller, and the floating-point meter and
  statistics arithmetic.
- `tests/` — tests of the library on concrete values.
