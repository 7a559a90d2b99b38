# deadlock_rpc

The state machine behind a Discord rich presence for the game Deadlock, written
in Verus and proved against its contracts.

- `src/game_state.rs`: phases, match modes, hero and party tracking, and the
  presence status line; every method is specified by a transition of the
  abstract `GameStateView`.
- `src/laws.rs`: properties of the machine as a whole (process signals,
  resets, the match clock, hero lock-in, party sizes, the match timer).
- `src/process_watcher.rs`: what one poll of the game process decides.
- `src/config.rs`: the status templates and `{name}` substitution.
- `src/text.rs`, `src/clock.rs`: string search and replacement, and the
  clock-face text of a duration.
- `app/lib.rs`: the polling loop and the platform scans of the process table.
