# cheat

Finds the addresses and field offsets that a reader of the game's memory
needs. The search is a verified state machine (`cs2::CS2`): it says which
lookup it needs next (`cs2::Query`), takes the game's answer, and ends with
the offsets (`cs2::Offsets`) or with `None` at the first lookup that fails.

- `src/constants/` — names of the game's process, libraries and classes.
- `src/cs2/offset_types.rs` — the offset groups and the fixed offsets of the
  targeted game build.
- `src/cs2/offsets.rs` — the search, its lookups and its contracts.
- `src/cs2/laws.rs` — what holds of every search, whatever the game answers.
- `app/lib.rs` — performs the lookups on a game process and drives the search.
