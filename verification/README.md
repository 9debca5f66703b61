# lingchat_core

The verified core of a character-chat game's backend: save files, settings
records, the dialogue history and the on-stage state. Every function in
`src/` is checked by Verus against its contract, except four small wrappers
(`push_char`, `is_json`, `dialog_time_text`, `parse_dialog_time`) that call
std, serde_json and chrono, and the copy of a `serde_json::Value`, whose
contracts are trusted.

Layout:

- `src/keys.rs` — the keys of the settings store.
- `src/text.rs` — decimal and zero-padded number text.
- `src/config.rs` — settings paths (joined as `Path::join` does, Windows
  verbatim directories included) and keys, the "save being played" record,
  recovery of a damaged settings file.
- `src/lines.rs` — dialogue lines in memory and as stored.
- `src/save_repo.rs` — reading a save's lines back in dialogue order, turning
  them into in-memory lines, planning an incremental write, finding a
  role's auto-save slot, the parent of an appended line, and the lines a
  deleted save takes with it.
- `src/read_back.rs` — laws: a save stored as a chain, also after a write, is
  read back in its stored order, and writing the same history twice changes
  nothing the second time.
- `src/game_status.rs` — the runtime status, stage management, variables and
  the snapshot kept in a save.
- `src/game.rs` — decisions of the game commands (scene choice, joining and
  leaving the stage, the player's entry, change of clothes).
- `src/saves.rs` — the save list, what creating, updating and loading a
  save takes, and the answers of the save commands.
- `src/tts_cache.rs` — orphan voice files, cache sizes and the tally of a
  clearing.
- `src/json.rs`, `src/clock.rs` — the calls into serde_json and chrono.
- `app/` — serde forms of the library types and the file I/O around it.
