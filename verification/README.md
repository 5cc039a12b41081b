# joyride

The game rules of a side-scrolling flying game built on Godot, as a verified
library, and the Godot extension that runs them.

- `src/` — the library, verified with Verus:
  - `game_manager.rs`: the game's state machine (title, playing, paused,
    player dead), the score, high score, grapes and music volume, the
    commands each transition hands to the engine, and its laws.
  - `menu.rs`: which sub-menu is shown, and the fullscreen toggle.
  - `obstacles.rs`: the weighted random choice of an obstacle kind and its
    placement plan, with the laws of the weighted choice.
  - `grape.rs`, `decimator.rs`: grape spawning and pickup, despawning.
  - `player.rs`: the player's animation choice and death.
- `app/` — the Godot classes: input, nodes, scenes, audio, files, and all
  floating-point motion; they call the library for every decision.
- `tests/` — tests of the library on concrete values.
