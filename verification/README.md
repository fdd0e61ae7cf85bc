# gitk-rs (verified core)

The core of a Git repository browser, written in Verus: the library's
functions carry `requires`/`ensures` contracts that Verus proves.

## Layout

- `src/` — the verified library (`gitk_rs`):
  - `text`, `lexorder`, `patterns`: string, ordering and pattern helpers.
  - `errors`, `security`, `platform`: error values and messages, input
    validation and sanitisation, the rate limiter, platform policies.
  - `models`, `references`, `views`, `operations`: data model, reference
    tables, history views, operation records.
  - `libgit`: the calls into libgit2 (through the `git2` crate), each behind
    a small trusted wrapper that converts to and from plain values.
  - `repository`, `diff`, `stream`: opening repositories, history queries,
    diffs, streaming the history in batches.
  - `tags`, `commits`, `stash`, `remotes`, `manager`: Git operations with
    their operation histories.
  - `commands`: the environment, executable lookup and admission checks
    around running the `git` program.
  - `config`, `app_state`, `shortcuts`: settings, the browser state and its
    keyboard shortcuts.
- `app/` — ordinary Rust around the library: reading the host environment,
  running `git` processes, the JSON settings file, serialisable copies of
  the data types, logging.
- `tests/` — tests of the library.
