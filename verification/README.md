# rust_racer

The game logic of a small arcade racing game, verified with Verus, and the
Bevy application that runs it.

* `src/` — the verified library:
  * `flow` — the screen flow (splash, menu, loading, level generation, race,
    scoreboard, post-race) as a transition function, with its reachability laws;
  * `settings` — the difficulty menu: five stepped settings held within their ranges;
  * `laps` — lap and waypoint progress of a racer;
  * `standings` — the race order (a stable ranking) and the player's place;
  * `controls` — keyboard state to driving commands;
  * `indicators` — waypoint gate colours and speed-gauge colours;
  * `geometry` — triangle indices of the terrain grid and the road ribbon, the
    building window texture, and waypoint selections round the circuit;
  * `grid` — starting-grid slots and AI pace tiers.
* `app/` — the Bevy game: rendering, physics, input, HUD and the
  floating-point parts of driving, terrain and level generation, calling the
  library for every decision above.
* `tests/` — tests of the library on concrete values.
