# display_sim

The logic of a simulator of old displays (CRT screens, handheld LCDs), verified with
Verus: keyboard hotkeys and their modifiers, the command bus that records and replays
sessions, the settings controllers (internal resolution, lines per pixel, presets,
option lists), the stack of off-screen render targets, and the state machines of the
native front end (focus, pointer and key edges with layout-dependent key values, panel
keys, frame clock, screenshot buffers).

- `src/` is the verified library. Floating-point values that it only carries are held
  as their bit patterns.
- `tests/` exercises the library on concrete values.
- `app/` is a small command-line front end: it reads and writes recordings as JSON,
  replays them, saves screenshots, opens a window whose input events it feeds through
  the library's front-end state machine, and holds the floating-point computations
  (colors, shadow shapes, scaling, wheel deltas) that the library does not.
