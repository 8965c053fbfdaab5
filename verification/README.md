# tachy_daemon

The core of the Tachy agent daemon, verified with Verus.

- `src/` — the verified library:
  - `parallel` — the priority task queue and the orchestrator of parallel agent runs;
  - `saas` — tenants, users, usage limits and token claims of the multi-tenant platform;
  - `jwt`, `crypto` — URL-safe base64, SHA-256, HMAC-SHA256 and the token framing;
  - `marketplace` — publishing, search, installation and rating of agent templates;
  - `channels` — the channel configuration file and message clipping;
  - `state` — conversations, webhook signatures, run-template signatures;
  - `engine` — tool dispatch decisions, simulated tool calls, run summaries;
  - `router`, `httputil`, `types` — request parsing, routing, admission and payloads;
  - `mcp`, `batch` — MCP tool naming and routing, cloud batch jobs;
  - `strmap`, `text` — the ordered string map and string helpers the rest builds on.
- `tests/` — tests of the library.
- `app/` — the I/O around it: files, environment, processes, JSON forms of the
  library's types, floating-point statistics, and the adapters to the agent
  runtime, audit and intelligence services of the daemon's workspace.
