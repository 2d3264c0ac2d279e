# atha

`atha` is a safety and workflow layer for the pacman package manager:
`install`, `remove`, `update` (each with `--plan`, `--dry-run` and `--yes`),
`search`, `info`, `list`, `doctor` and `history`.

The library under `src/` holds the decisions of the tool, verified with
Verus:

- `text`, `units`: string helpers with exact models, and byte sizes written
  in B / KiB / MiB / GiB / TiB, modelled on the rounding of the float
  computation.
- `names`, `paths`: package-name rules, file locations, command lookup.
- `history`: the history file, written and read back, filtered, cut to the
  most recent entries and summarised.
- `pacman`: reading pacman's output and building its arguments.
- `install`, `remove`, `update`, `lookup`, `doctor`, `session`, `report`:
  what each command shows, logs and records.
- `flow`, `install_run`, `remove_run`, `update_run`, `lookup_run`: the
  commands that talk to the system or to the AUR, as runs that ask for one
  piece of outside work at a time and decide on its outcome; plan and
  dry-run modes never ask for a change, nothing changes before the user
  agrees, and a build directory never outlives an install.

`app/main.rs` is the program around the library: argument parsing,
processes, files, the terminal and the AUR web service.
