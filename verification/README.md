# ehce

The verified core of the EHCE space combat game's model and mod loading,
written in Verus.

- `src/` is the library. Every function in it is verified against its
  contract; the laws that relate several functions are public proof
  functions beside them.
  - `numbers`: integers checked against compile-time bounds, inclusive
    integer ranges with a step, and values wrapped with the check they
    passed (range checks with their messages and schema bounds).
  - `signals`: the signals of a unit, with rising and falling edges.
  - `player_input`: the signals and controls that held keys give.
  - `mod_paths`, `dir_listing`, `byte_reader`, `mod_index`: mod asset
    paths, directory listings, reading embedded files, and the index of
    mods over all sources.
  - `parsing`, `json5_asset`, `textures`, `color`: data file formats, the
    JSON5 asset loader's settings, the texture cache, colour codes.
  - `loading`, `combat`: game and mod loading states and the decisions
    taken each frame.
- `app/` is the program around it: file I/O, parsing with serde, floats,
  and the mod folder checker.
- `tests/` runs the library on concrete values.
