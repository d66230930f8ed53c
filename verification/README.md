# crabjam

The rules of a small Godot action game, verified with Verus.

- `src/timekeeper.rs`: how game time is dilated — a dash pins the timescale,
  otherwise it settles toward a target that depends on whether the player moves;
  a hand-made jump of the timescale slows the return until the target is reached.
- `src/player.rs`: the player character's decisions each frame — steering and
  facing, dashing, using, throwing and picking up items, taking hits, dying — and
  what each costs on the level timer.
- `src/animation.rs`: which sprite animation the character shows.
- `app/`: the Godot extension (engine classes, physics, camera, all the
  floating-point work), which feeds engine state into the rules and carries out
  their answers.
