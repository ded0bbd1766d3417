# eldenring

Verified models of the runtime structures of Elden Ring that mods read and write: event flags,
item handles, bullet lookups, packed date-times, the game's encoded strings, its MSVC container
layouts, param files and a few file-operator and team-relation rules.

Pointers of the game's memory are modelled as positions in the storage that holds what they
point at (a tree's nodes, a store's blocks, a file's bytes), so that every operation can be
stated and proved over plain values.

- `src/` is the library, verified with Verus: `event_flag`, `gaitem`, `dlut`, `dltx` (with
  `unicode` and `text`), `stl`, `sos_sign_man`, `file_device`, `param_repository`,
  `team_relation`, `bullet_manager`, `field_area`, `arxan` (the scan for arxan's code restoration
  checks, through pelite), and the plain layouts in `chr_ins` and `layouts`.
- `tests/` runs the library on concrete values.
- `app/` holds what ordinary Rust keeps: error types with `std::error::Error`, and the
  helpers that patch the loaded module where the library's scan finds arxan's checks.
