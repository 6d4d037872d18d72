# mi7_agent

A command-line assistant in which a manager agent routes each task to a
researcher, an engineer or a planner, talks to an OpenAI-style chat service,
calls local tools (shell commands, files, HTTP, weather) and remote tools over
the Model Context Protocol, and keeps a bounded conversation history.

## Layout

- `src/` is the library, written in Verus. Every function there carries a
  contract that Verus proves: error classification and the retry rule, the
  streamed-response decoder, the bounded history, the tool registry and the
  header map, the path and command checks of the tools, task routing, the
  planning of tool calls, and the JSON-RPC and MCP bookkeeping. Calls into
  outside crates stand behind a few trusted wrappers, each documented where it
  is declared.
- `app/` is the program around the library: argument parsing, the async
  runtime, HTTP and process I/O, the SQLite store, and the serde copies of the
  library's types.
- `tests/` exercises the library on concrete values.
