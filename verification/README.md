# codex_hooks_core

The decision logic behind Codex lifecycle hooks, the tool registry and the
Codex home directory, written in Verus with its contracts proved.

- `src/` — the verified library:
  - `text` — string helpers (trimming, ASCII case, Unix path file names, decimal text).
  - `home_dir` — which variable names the home directory, the default and
    project-local directory names, and the errors for a bad home directory.
  - `project_memory` — project ids (slug plus SHA-1 prefix) and memory file paths.
  - `hook_types`, `hook_outcomes` — hook results and how a hook process's
    output is read.
  - `hooks_registry` — the configured hooks per event and the in-order,
    stop-on-abort running of one event's hooks.
  - `hook_summary`, `hooks_table` — what the hooks menu and the `hooks`
    command show.
  - `tool_registry`, `tool_dispatch` — tool handler registration and routing,
    and the hook side of a tool call as a state machine.
- `app/` — child processes, JSON, environment and file access around the library.
- `tests/` — tests of the library's public functions.
