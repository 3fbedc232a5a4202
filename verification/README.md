# bevy_brp_mcp

A Model Context Protocol server that lets coding assistants launch, inspect
and change Bevy applications through the Bevy Remote Protocol (BRP).

## Layout

- `src/` is the library, written in Verus and verified: the JSON model and
  its text form, BRP requests and replies, error pattern detection and the
  format discovery state machine, value transformations, tool definitions and
  their registry, parameter extraction, reply formatting and pagination, log
  file names, listing, filtering and reading, the event-stream line buffer of
  watches, and the cargo metadata rules for finding Bevy apps and examples.
  Each public function states its result in its `ensures`; laws that span
  several functions are public proof functions.
- `app/` is the server around it: the MCP protocol glue, HTTP calls to the
  running app, the file system, processes and async tasks. It hands the
  library plain values and sends on what the library returns.
- `tests/` runs the library on concrete inputs.
