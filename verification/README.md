# ferrets_demo

The rules of a small real-time strategy demo, verified with Verus, and the
Bevy application that runs them.

- `src/` is the library. Each module holds one part of the demo's logic with
  its contracts: the speed ladder (`time`), the demo map (`map`), the lobby's
  seating and editing rules (`lobby`, `lobby_view`), the input decisions
  (`input`), what is drawn and in which look (`render`, `debug`), the overlay's
  texts and the command card (`hud`), the minimap's pixel canvas (`canvas`,
  `minimap`), which sounds play (`sound`), the view settings (`settings`), the
  built-in mission and how a recording is rebuilt (`scenario`, `playback`,
  `replay`), the base layout (`setup`), and the AI and content scripts (`ai`,
  `content`). The `law_*` proof functions state what holds across calls.
- `tests/` runs the library on concrete values.
- `app/` is the engine side: the systems that read the engine's state, hand
  it to the library as plain values, and draw, play or send what comes back.
