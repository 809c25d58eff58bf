# maplelink

Verified core of the MapleLink launcher's settings handling, written in Verus.

- `src/config.rs` — the configuration (`AppConfig`), its mathematical view and
  the factory settings.
- `src/config_parser.rs` — reading `config.ini` (`parse_ini`) and writing it
  (`serialize_ini`), each specified exactly over the text.
- `src/round_trip.rs` — proof that writing a configuration and reading it back
  gives the same configuration.
- `src/config_field.rs` — changing one setting by key, with strict value
  checks and the reason for each refusal.
- `src/game_launcher.rs` — game path validation and launch command
  construction.
- `src/shell.rs` — the application shell's decisions: what a window event
  leads to, whether a saved window position is on a monitor, startup, the
  launch arguments, the tray menu and web view upkeep.
- `src/text.rs`, `src/decimal.rs` — trimming, case folding, and decimal
  integers as the standard library reads and writes them.
- `app/` — the unverified shell: serde form of the configuration, file
  storage, the configuration commands and the startup steps.
