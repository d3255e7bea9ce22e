# inspectah

inspectah inspects a host (or a fleet of hosts) and helps turn what it finds
into a bootable container image: `scan` collects a snapshot, `refine` lets the
user decide what goes into the image (in a terminal UI or a web UI), and
`fleet aggregate` merges the snapshots of many hosts.

This crate is the verified core of the tool, written in Verus. The
functions in `src/` carry contracts that Verus proves, apart from a few
small wrappers around std and ratatui whose contracts are trusted; `app/`
is the thin command-line front end around it.

## Layout

- `src/text.rs` — string helpers (decimal rendering, search, trimming,
  joining) with their specifications.
- `src/cli/` — the `scan`, `refine` and `fleet` commands: flag checks,
  os-release parsing, completion summaries, fleet input and warning
  handling.
- `src/progress/` — scan progress: the live checklist (state machine and
  rendered lines), the plain and flat line renderers, the names they show,
  and which of them may write terminal escape sequences.
- `src/pull_progress.rs` — image pull progress lines.
- `src/tui_types.rs`, `src/tui_state.rs`, `src/sections.rs`,
  `src/section_items.rs`, `src/screen.rs`, `src/app.rs`, `src/action.rs`,
  `src/users.rs`,
  `src/widget/` — the terminal UI: sections and their items, the grouped
  triage list, the info bar and detail pane, key handling and commands, and
  each widget's layout as drawing operations.
- `src/web/` — the web UI's data: reference sections, the package and file
  views, the fleet view (sections, zones, variants, summary, diff, the laws
  its sections obey, and the content key of a language environment) and
  the upload and error replies.
- `app/` — argument parsing, terminal detection and I/O.
- `tests/` — tests of the library's public functions.
