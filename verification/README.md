# focustime

A focus timer's command-line core, written in Verus: the logic is proved
against its contracts, and a thin program around it does the file and
terminal work.

## Layout

- `src/` — the verified library.
  - `cli/` — the command-line grammar (`args`, `parsing`, `values`, `payload`),
    the one-setting commands and their printed lines (`settings_commands`,
    `settings_output`), the configuration doctor's lines (`render`), reports
    (`report`, `status`), the export/backup/restore workflow with its rollback
    (`data`), and command dispatch decisions (`dispatch`).
  - `config/` — the settings and their normalization (`settings`,
    `blocklists`, `shortcuts`), the TOML document tree and its migrations
    between schema versions (`toml_tree`, `migration`), why a migrated
    document migrates to itself (`migration_lemmas`), configuration health
    findings (`health`), the doctor and migration assistant as step functions
    (`diagnostics`), and where the files live (`paths`).
  - `schedule.rs` — recurring focus windows and their overlap conflicts;
    `occurrence.rs` — which window is active now and which starts next, in
    local time.
  - `timer.rs`, `notifications.rs`, `daemon.rs`, `json.rs`, `text.rs`,
    `error.rs` — timer clock, notification commands, the local API's routing,
    the JSON tree, string helpers with character-level contracts, user messages.
- `tests/` — tests of the library, run against the real `toml`, `serde_json`,
  `base64` and `getrandom` crates behind its trusted wrappers.
- `app/` — the `focustime` program: argument collection, the configuration
  file's serde layout, file reads and writes, and printing. The commands that
  drive the running timer (`--start`, `--pause`, `--resume`, `--stop`,
  `--next`, `--task`), `--status` and site-list editing need the timer
  runtime, statistics and site blocker, which this command-line build does
  not include; they answer with an error that says so, after the library
  has parsed and checked them.

The laws the library proves stand as public `lemma_*` proof functions next to
the functions they speak of (for example normalization being idempotent,
schedule conflicts being exactly the overlapping windows, and a failed restore
being rolled back before its error is reported).
