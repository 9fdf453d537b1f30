# basalto

The core of the Basalto plugin ecosystem: a command-line program that keeps
`~/.basalto/`, installs and loads the plugins declared in
`~/.basalto/plugins/*.toml`, and routes each command to the core or to the
plugin that offers it.

- `src/` is the verified library (Verus): plugin names and paths, the
  completion of `config.toml`, manifest versions and shared-contract
  compatibility, the command table and command routing, which plugins the
  `version` command lists, the text of the `version`, `help` and
  `clear-cache` commands, and byte counts shown in KB/MB/GB.
- `app/` is the program around it: reading and writing files, `git` and
  `cargo` calls, loading plugin libraries, the spinner, and printing.
- `tests/` runs the library on concrete values.
