# claw

`claw` is a command-line coding assistant. This crate holds what it decides and
computes, written in Verus: every function states in its contract what it
returns, and Verus proves it.

## Layout

- `src/` is the verified library.
  - Text and documents: `text`, `json`, `calendar`.
  - The exchange with a provider: `messages`, `provider`, `stream`,
    `stream_debug`, `stream_laws`.
  - Tools: `tool_executor`, `tool_display`, `tool_inputs`, `file_requests`,
    `file_ops`, `web_ops`, `permissions`, `mcp`.
  - Sub-agents: `agent`, `agent_lifecycle`.
  - Sessions and the interactive program: `sessions`, `history`, `slash`,
    `repl`, `live`, `resume`, `prompt`, `progress`, `reports`, `turn_report`,
    `git`, `args`, `output`.
- `tests/` runs the library.
- `app/` is the program around it: arguments, files, processes, threads and the
  terminal. It asks the library what to do and does it.

## What is trusted

JSON is read and printed by `serde_json`, letters are told from other characters
by `char::is_alphanumeric`, and a string is printed for a log by its `Debug` impl.
The functions in `json`, `repl` and `tool_executor` that call them carry
contracts that Verus takes as they are: they state what is returned, or give it a
name where that takes pages, and everything built on it is proved. `text` does
the same for `String::push`.

## Laws

Statements that span several functions are public proof functions whose names
start with `law_`, each in the module that it speaks of. Those about whole
streams of events stand in `stream_laws`.
