# kubelens_mcp

A Model Context Protocol server that exposes Kubernetes diagnostics to LLM
clients over JSON-RPC 2.0, with its protocol logic verified by Verus.

- `src/json.rs`: the library's JSON documents and their model; reading and
  writing them through serde_json; which documents read back unchanged.
- `src/protocol.rs`: JSON-RPC 2.0 requests (notifications included) and
  responses, error codes, response text.
- `src/types.rs`: tools, tool calls and tool answers.
- `src/tools/`: the four tools: descriptions, argument handling, results.
- `src/cluster/`: the mock cluster, and the pure parts of the live adapter
  (pod failure analysis, ingress and Prometheus addresses and replies).
- `src/mcp.rs`: serving a request line as a step machine (answer now, stay
  silent for a notification, have the `tools/call` parameters read, or ask
  the cluster first and answer with its reply), and the server's laws.
- `app/`: the HTTP server (axum), the async cluster trait, the live adapter
  (kube, reqwest), serde's derived reading of the `tools/call` parameters,
  and the loop that runs the step machine.
