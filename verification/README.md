# gittuit

A terminal client for Git and GitHub workflows, with its logic written in
Verus and proved against its contracts.

## Layout

- `src/` — the verified library.
  - `git/` — the git and GitHub CLI invocations of each action, and the
    readers of their output (status, history, stashes, branches, pull
    requests, failure texts with credentials redacted).
  - `tree/` — changed files shown as a tree of directories.
  - `repo_registry.rs` — the tracked repositories, kept sorted and unique.
  - `json.rs` — JSON values as plain data, parsed with `serde_json` behind a
    trusted wrapper, and read member by member.
  - `commit_config.rs` — the commit policy and its per-repository override.
  - `runtime_paths.rs`, `diagnostics.rs` — where configuration, data, cache
    and logs live; the command line; the `-l` report.
  - `app/` — the client as a state machine: each key press maps to an
    action, each action changes the state and may ask for a job (running a
    command, reading a directory, saving the registry); each job's outcome
    is handed back to a `finish_*` method.
- `app/` — the executable: terminal setup, the event loop, drawing with
  `ratatui`, and the worker that performs jobs (processes, files, `asyncgit`
  for branches, the registry file and `gh pr list` answers with `serde`).
- `tests/` — tests of the library on concrete values.

## Dependencies

`easy-cast`, `kstring` and `libgit2-sys` are not called by this crate.
They are listed only to hold those transitive dependencies of `asyncgit` at
versions that build with the Rust toolchain in use (the newest `easy-cast`
and `kstring` need a newer compiler) and that keep `asyncgit` and
`git2-hooks` on the same `git2` release.
