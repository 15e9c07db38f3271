# sat-helix-ide

A workspace orchestrator that composes a Helix-centred Zellij session with a
file manager, a terminal, git and review tools.

## Layout

- `src/` — the library, written in Verus. Every function carries a contract
  over mathematical models (`Seq`, `Map`, spec functions), and the laws that
  tie several operations together stand as public proof functions
  (`lemma_*`). Modules:
  - `config` — the configuration model, defaults and the KDL layout writer;
  - `zellij` — layout and runtime keybinding generation, merging the helper
    bindings into the user's KDL configuration, session listing;
  - `actions` — pane decisions for the file manager, terminal and resize
    helpers, the pane cache and Helix path quoting;
  - `setup` — the tool catalog, install planning and the selection screen;
  - `venv`, `venv_selector` — Python environment detection and choice;
  - `statusbar`, `workspace`, `ipc`, `protocol`, `resolve`, `tools`, `error`,
    `text`, `paths` — the remaining rules and their helpers.
- `app/` — the command-line program: argument parsing, process spawning,
  file and socket I/O, terminal UI (its drawing stays here) and the daemon
  loop. The decisions and the text it writes come from the library; of a
  user layout it only prints the floating-point part sizes.
- `tests/` — tests on concrete values, run against the compiled library.
