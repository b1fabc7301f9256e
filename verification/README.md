# fly_strike

Fly Strike is a small arcade game: shoot the flying bubbles with the cannon,
clear three levels as fast as possible, and watch the fireworks.

- `src/` is the rules of the game, verified with Verus: level progression,
  the per-session ranking and scoring each bubble once (`game_state_plug`),
  cutscene steps and fireworks (`cutscene_plug`, `cutscene_mobile_plug`,
  `custscene_public`), menu decisions (`menu_plug`),
  cannon firing and animation frames (`cannon_plug`, `player_plug`), and the
  score (`score_plug`, `score_pnl`): the sooner a bubble is hit in its
  level, the more it scores. Timers are bevy's, reached through the
  trusted wrappers of `timer`.
- `app/` is the bevy application that runs these rules every frame: window,
  rendering, input devices, sound, particle effects, and the floating-point
  motion of bubbles, bullets and cannon.
- `tests/` runs the rules on concrete frames.
