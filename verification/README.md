# hollowknight_autosplit_wasm

An auto splitter for Hollow Knight: it watches the game's memory and tells the
timer host when to start, split, skip or reset, keeps the load-removed game
time, and can count hits instead.

- `src/` is the verified library. Every decision is made there and proved
  against its contract with Verus: which split fires on a tick
  (`continuous_rules`, `split_rules`, `player_events`, `autosplit`), the
  timer's autosplit index (`timer`), scene transitions (`scenes`), the load
  remover and hit counter (`load_remover`, `hit_counter`, `game_time`), and the
  settings: the settings GUI's widgets over the settings map (`store`,
  `list_settings`, `ugly_list`, `radio_button`, `settings_gui`), reading
  settings from splits and layout files (`xml`, `asr_xml`, `legacy_xml`,
  `auto_splitter_settings`) and merging them (`settings_value`).
- `app/` is the program the timer host runs: it reads the game's memory into
  `GameReadings`, moves settings between the host and the library, registers
  the GUI's widgets, and carries out the commands and requests the library
  queues.
- `tests/` runs the library on concrete values.
