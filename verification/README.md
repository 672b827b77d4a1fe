# tui

Two pieces of a terminal coding agent, written in Verus with their
behaviour stated in contracts and proved:

- `src/shell_invocation.rs` chooses the program and arguments that run a
  shell command line (`sh -c` on Unix; on Windows the shell named by
  `SHELL`, PowerShell 7, Windows PowerShell, `COMSPEC` or `cmd`) and reads
  the command line back out of an invocation. The round trip — reading back
  the invocation built for a command gives that command — is proved for
  every command, platform and probe.
- `src/verify.rs` is the check on tools' claimed side effects: the verdict
  for each tool name, the note appended to the tool's output, and the
  decision after a written file is read back.
- `src/text.rs` holds the character-level string helpers both use.

`app/` holds what touches the process: the platform and environment probe,
the `PATH` search, the file read-back and the serde forms of the verdict
types.
