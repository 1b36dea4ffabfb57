# blades

A game server for The Elder Scrolls: Blades, written as a Verus library with
its contracts proved, and a thin HTTP server around it.

## Layout

- `src/` — the verified library (`blades`):
  - `text` — decimal and UUID text forms, with their parsers and printers;
  - `user_data` — the player records: character, inventory (`backpack`),
    loot and dungeon content (`dungeon`), quests (`quest`), and the client
    updates of an inventory;
  - `quest_gen` — the game data a quest reads, and the quest and dungeon
    content made when a character accepts a quest;
  - `saved_data`, `database`, `character_storage` — persisted character data
    and the write-behind cache entries that batch its writes;
  - `session`, `login` — sessions, their ids, tokens and expiry, and the
    anonymous log-in;
  - `models` — the database rows and the check that a session may read the
    character a query found;
  - `character`, `character_data`, `quest_log`, `dungeon_entry`, `arena`,
    `daily_reward`, `matchmaking` — what each endpoint decides;
  - `migration` — the schema versions and the steps between them.
- `tests/` — tests of the library on concrete values.
- `app/` — the server: command line, database access (tokio-postgres), the
  JSON forms of the records (serde), HTTP routes (actix-web) and the
  matchmaking websocket.

UUIDs are held as `u128` values and `f64` quantities as their bit patterns;
the JSON forms in `app/` convert them.
