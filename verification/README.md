# scoreline_monitor

A verified library for a CS:GO scoreline monitor: it follows the game's
"game state integration" messages and reports the match (mode, map, scores,
whether a round is live and when it is expected to end).

- `src/gsi/message.rs` and its submodules: the messages the game posts.
- `src/game/state.rs`: the game state, how a message changes it
  (`GameView::after_message`), the report, and the laws about them.
- `src/game/clock.rs`: points in time as seconds, read and written through
  the `time` crate.
- `src/gsi/middleware.rs`, `src/gsi/paths.rs`: the decisions of the request
  handlers (replies, which config files to delete and write).
- `app/`: the nickel middleware, JSON decoding and encoding with
  `rustc_serialize`.
