# warp_terminal

The logic of a block-based terminal, written in Verus and proved against its
contracts: the command history and input line, command blocks and their output,
the command palette, settings and preference windows, themes (built-in, YAML and
customized), user profiles with automatic switching rules, an in-memory file
system served through FUSE, fuzzy ranking of candidates, Markdown rendering and
a few smaller services.

Layout:

- `src/` — the verified library. Each module states its data as mathematical
  values (spec functions and views) and every public function's effect on them.
  Calls into outside crates (`chrono`, `uuid`, `dirs`, `fuzzy-matcher`,
  `pulldown-cmark`) and the few std functions that need it go through small
  trusted wrappers whose contracts are documented where they stand.
- `tests/` — tests that run the library on concrete values.
- `app/` — the program around the library: reading and writing settings files,
  running shell commands, talking to web services, and mounting the file system.
