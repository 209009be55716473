# Open Strike rules, verified

The rules, protocol bookkeeping and account logic of the Open Strike shooter,
written in Verus. The library's logic is proved against its contracts; the few
calls into outside code (password hashing, the random source, the clock, hex
encoding, case mapping and the JSON check) go through small trusted wrappers
whose contracts restate what those libraries document. Nothing is stated of
the clock's or the random source's values.

Each side spawns with the first gun of its own buy loadout, as the game's code
does: by default attackers with the AK-47 and defenders with the M4A4.

## Layout

- `src/config.rs` — game modes, maps, weapons and their catalogue facts, buy
  categories, buy loadouts (with the invariant that a weapon fills one slot of
  its category) and the player's loadout.
- `src/matchplay.rs`, `src/level.rs` — rosters, team balance, spawn points,
  when a match ends and its result; the checks a map and the exported
  character, weapon and knife models must pass.
- `src/net/` — sequence-number arithmetic, the dedicated server's settings and
  join decisions, the event history servers keep, the replay rule that lets
  clients apply each event once over a whole match, and the client's receive
  loop.
- `src/strike_hub.rs` — the hub's account, session, friendship, presence,
  ticket and matchmaking decisions.
- `src/hub.rs` — the client side of the hub: a state machine from replies to
  the next client state and the requests that follow, the sidebar forms and the
  friends drawer.
- `src/local.rs` — the stored form of a loadout and how it reads back, and the
  import of the older hub address file.
- `src/hud.rs`, `src/text_field.rs` — kill feed, ranking order and the text
  field's editing rules.
- `src/loadout_editor.rs`, `src/menu.rs` — the load-out screen, menu tabs, the
  pause dialog and its exit confirmation, what Escape and Enter do, and the
  inventory filter.
- `src/scenario.rs` — the scripted online walkthrough, one frame at a time.
- `src/credentials.rs`, `src/text.rs` — password hashing and tokens, and the
  string operations the rest builds on.
- `app/` — the command line around the library: the hub's HTTP server on
  SQLite, the client's local store, and a hub client session.
- `tests/` — scenarios and edge cases run against the compiled library.
