# luoli

洛璃 (Luoli), a personal terminal assistant whose decisions are proved with Verus.

- `src/` is the verified library: the security rules for commands, tools and APIs in
  normal and strict mode (`security`), the in-memory activity log and its rotation plan
  (`monitor`), command execution planning (`executor`), the tool registry and the
  built-in tools' requests (`mcp`), the API client's decisions (`api`), AI provider
  settings (`ai_config`), the full-screen terminal's state machine (`tui`), the command
  line's decisions (`cli`), the default settings (`config`), and the string helpers they
  share (`text`, `pattern`).  Each public function states its result in its contract;
  the `law_*` proof functions state properties that span several calls.
- `app/` is the `luoli` program: argument parsing, the settings files, spawning
  processes, HTTP, the log file, and drawing the terminal.  It hands what it reads to
  the library and acts on the library's answers.
- `tests/` runs the library on concrete values.
