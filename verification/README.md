# era_connect

The logic of a Minecraft launcher, verified with Verus: choosing mod versions
for a collection's game version and loader, planning which game files,
libraries, assets and mods are to be fetched, building the game's command line,
reading the game's log, and laying out the launcher's files.

- `src/` is the verified library. Each public function states its result in its
  contract; laws that relate several functions are public proof functions
  (`law_*`). `src/bindings.rs` holds the calls into other crates, each with the
  contract the library relies on.
- `tests/` runs the library on concrete values.
- `app/` is the launcher around it: network, files, processes, and the download
  progress, which is kept in floating-point numbers.
