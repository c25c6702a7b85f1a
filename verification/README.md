# goose_webtest

Web application testing with blueprints: directed graphs of deterministic
browser steps and agentic steps, where a language model drives the browser
through the Playwright MCP server and records assertions.

- `src/` is the verified library. It holds the blueprint engine (graph
  construction, transition resolution, retries, context passing between
  agentic steps), the snapshot readers that find element references, the
  login procedure as a state machine, the assertion tools, the agent's
  session bookkeeping, the report summary and the HTML report, the test
  specification parser and the decisions of the `test` command. Every
  function carries a contract that Verus proves; the laws that relate
  several functions are public proof functions.
- `app/` runs the library against the world: configuration and blueprint
  files (serde), the MCP client, the model provider, the clock, the file
  system and the terminal.
- `tests/` exercises the library on concrete inputs.
