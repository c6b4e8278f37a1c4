# agent_sdk

Hook callbacks and in-process MCP servers for an agent command line, verified with Verus.
The modules under `src/`, and what stands around them:

- `hooks`: hook events, the input of a hook callback, its output on the wire
- `registry`: the registry of hook callbacks, the payload that announces
  them and the table that routes requests back to them
- `mcp`: an MCP server inside the process: its tools and its answers to
  JSON-RPC messages
- `json`: JSON values, which are `serde_json`'s, and what the contracts say of them
- `text`: decimal numerals and conversions into strings
- `app/`: async closures as callbacks and tool handlers, the loop that runs a tool call,
  and the std and serde traits of the library's types

Callbacks and handlers are carried behind shared pointers whose target type is left open.
`SdkMcpServer::handle_message` returns what is to be done for a message; where a tool is to
be called, the caller runs the handler and passes its result to `tool_response`.

What is taken on trust about `serde_json` and `std` stands in `json` and `text`, each item
with a comment that says what it claims.
