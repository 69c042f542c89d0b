# magic_bot

The decision logic of a Minecraft bot, written in Verus: the functions in
`src/` state what they do in `requires`/`ensures` contracts, and Verus
proves each body against its contract.

- `src/combat/` -- fighting: the per-tick decisions of a fight (`tick.rs`),
  attack timing and critical hits, weapon
  choice, shield use, eating mid-fight, the Wind Charge self-launch and the
  bite state machines, orbit planning, movement keys and target prediction.
  Distances are integers in thousandths of a block, health in hundredths of
  a hit point, times in milliseconds or nanoseconds as each module says.
- `src/equipment/` -- armor, offhand and hotbar equipment: classification,
  scoring, the best candidate for each slot, and what to swap or drop.
- `src/container/` -- chest access: transfer planning (with a model of
  the server's pickup clicks, against which a plan is shown to move exactly
  what it promises wherever every stack of the item has one stack size),
  the inventory ownership state machine, and the tick-by-tick session a
  container service drives.
- `src/crafting/` -- the recipe book, the dependency planner, grid
  resolution, ingredient availability, and the execution of a resolved
  plan: a verified state machine (`run.rs`) that says what to ask the
  menu driver at each step and how each reply moves the run on (an
  operation counts only once its output has arrived at a newer revision),
  driven by a loop that only performs its requests; the live player-grid
  craft is a smaller machine of the same kind.
- `src/console/` -- the console command grammar and its parser.
- `src/config.rs` -- configuration types and their integer and text
  validity rules (rules on floating-point settings are checked in `app/`).

`app/` is ordinary Rust around the library: the serde form of the
configuration file and its loading, logging setup, the asynchronous
terminal reader, the emergency-stop signal, and the floating-point steering
geometry that feeds the library's movement decisions.

`tests/` exercises the library through its public interface.
