# inert

A small static site generator. `inert build [dir]` renders the markdown
pages under a directory into `./_site`, `inert serve` serves that
directory, `inert init` writes the project file `inert.json`, and
`inert install <name>@<version>` downloads a package into `_build/` and
records it in `inert.json`.

- `src/` is the library, verified with Verus: package specs and the
  configuration (`builder/config.rs`), where pages are written
  (`builder/utils.rs`), markdown rendering (`builder/markdown.rs`), and the
  decisions of the command line (`cmd.rs`): which command the arguments ask
  for, what the builder does with each directory entry, and the steps of an
  installation.
- `app/` is the program around it: the file system, the network, the web
  server and the terminal.
- `tests/` runs the library on concrete values.
