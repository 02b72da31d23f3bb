# herdr_codex

Turn tracking for terminals that run Codex.

Codex keeps a transcript of its session, one JSON record per line. The hook that starts a session
tells a terminal where that transcript is; an observer then follows the file and reports how the
agent's turns begin and end, and the terminal derives from those turns what its agent is doing.

- `src/` decides. It is verified with Verus and works on plain values only.
  - `framing`: lines of a file that is still being written
  - `turn`, `history`: records, and the turns that a run of records goes through
  - `reader`, `reader_laws`: what to report of a transcript, and what always holds of it
  - `observer`: when to read, report and rest
  - `path`, `registration`, `time`, `text`: the values that the others speak of
  - `terminal`, `terminal_laws`: what turns mean for a terminal, and what always holds of it
- `tests/` runs the library.
- `app/` reads files, parses records, runs the observer's task and serialises handoffs.

A caller keeps two things up to date in a `TerminalState` that are not decided here: `reported_state`,
the state that hooks and the screen report between them, and whether a hook authority is
`effective`. How a terminal names and presents its agent is the caller's too.
