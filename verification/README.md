# bevy_3ds

Bevy on the Nintendo 3DS, with its decisions verified by Verus.

- `src/` is the verified library: the key pad model and the gamepad events it
  produces (`input`, `input/button`), the exit checks of the plugins
  (`core_plugin`, `default_plugin`), the console registry (`graphics`), the
  order of the default plugin group (`lib.rs`) and the demo game's logic
  (`game`).
- `app/` registers the plugins with Bevy, talks to the 3DS services through
  ctru, and runs the demo game.
- `tests/` exercises the library on concrete values.
