# gen4_smogon_tracker

A desktop tracker for competitive Pokémon sets, with its core verified by Verus.

- `src/` is the verified library: tiers (`format`), generations and their tables
  (`generation`), the set database's statements (`sql`), what the strategy dex
  tells and which set is recorded for each Pokémon (`dex`), Pokémon names in
  Smogon addresses (`names`), the decisions of a database refresh (`sync`), the
  status shown while a table is built (`progress`), the random pick of a Pokémon
  whose set is not done (`summary`), the decoding of the window icon
  (`icon`), and string helpers (`text`).
- `app/` is the program around it: the window, the pages, the SQLite database
  and the strategy dex client. It performs the requests that `sync::SyncJob`
  decides on and hands back what came of each.
- `tests/` exercises the library on concrete values.
