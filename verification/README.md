# mechaburro

The rules of "¿Quien es el MechaBurro?", a local multiplayer arena shooter with bots,
as a library whose behaviour is stated in contracts and proved with Verus.

- `src/` holds the game's logic: the seats and scores of a game (`game_state`), a burro's
  health, cooldowns and blinking (`burro`), the bots' steering and aiming (`bot`), a
  player's turn (`player`), the mechaburro show (`mecha_picker`), the end of a round
  (`round`), the results screen (`score_display`), the menus (`menu`, `options`) and the
  arcade controller (`game_controller`). Time is counted in whole milliseconds.
- `app/` is the Bevy program around it: rendering, input devices, audio, asset loading,
  physics and the other floating-point work.
- `tests/` runs the library on concrete values.
